use vstd::prelude::*;
use crate::ids::{get_id, id_at, IdCounter};
use crate::response::{bare, bare_response, text, text_response, Response, ResponseView, Status};
use crate::text::{
    decimal, decimal_text, is_simple_name, path_extension, path_extension_of, simple_extension,
};

verus! {

/// Why an upload was refused before anything was stored.
#[derive(Clone, Copy, Debug, PartialEq, Eq, Structural)]
pub enum UploadError {
    /// The form field carries no file name.
    MissingFileName,
    /// The file name has no extension.
    MissingExtension,
}

/// The stored name of an image: its identifier in decimal, a dot, and the
/// extension taken verbatim from the client's file name.
pub open spec fn stored_name_of(id: u8, ext: Seq<char>) -> Seq<char> {
    decimal(id as nat) + seq!['.'] + ext
}

/// The name under which an upload is stored, by a counter that has handed
/// out `k` identifiers, given the extension read from the client's file name.
pub open spec fn name_for_extension(k: nat, ext: Option<Seq<char>>) -> Result<Seq<char>, UploadError> {
    match ext {
        None => Err(UploadError::MissingExtension),
        Some(e) => Ok(stored_name_of(id_at(k), e)),
    }
}

/// What an upload answers once the write to disk is done: the stored name,
/// or 500 with the error's message.
pub open spec fn upload_outcome(name: Seq<char>, write: Result<(), Seq<char>>) -> ResponseView {
    match write {
        Ok(()) => text(Status::Success, name),
        Err(msg) => text(Status::InternalServerError, msg),
    }
}

/// The view of the outcome of planning an upload.
pub open spec fn plan_view(r: Result<String, UploadError>) -> Result<Seq<char>, UploadError> {
    match r {
        Ok(s) => Ok(s@),
        Err(e) => Err(e),
    }
}

/// The view of the result of writing a file.
pub open spec fn write_view(r: Result<(), String>) -> Result<(), Seq<char>> {
    match r {
        Ok(()) => Ok(()),
        Err(msg) => Err(msg@),
    }
}

/// The stored name for identifier `id` and extension `ext`.
pub fn stored_name(id: u8, ext: &str) -> (r: String)
    ensures
        r@ == stored_name_of(id, ext@),
{
    let mut s = decimal_text(id);
    s.append(".");
    s.append(ext);
    proof {
        reveal_strlit(".");
    }
    s
}

/// The first step of an upload: checks the client's file name, and only if
/// it has an extension allocates an identifier and gives the name to store
/// the bytes under.
pub fn plan_upload(counter: &mut IdCounter, file_name: Option<&str>) -> (r: Result<
    String,
    UploadError,
>)
    requires
        old(counter).wf(),
    ensures
        final(counter).wf(),
        match file_name {
            None => r == Err::<String, UploadError>(UploadError::MissingFileName),
            Some(f) => {
                &&& plan_view(r) == name_for_extension(old(counter)@, path_extension(f@))
                &&& is_simple_name(f@) ==> plan_view(r) == name_for_extension(
                    old(counter)@,
                    simple_extension(f@),
                )
            },
        },
        final(counter)@ == if r is Ok {
            old(counter)@ + 1
        } else {
            old(counter)@
        },
{
    match file_name {
        None => Err(UploadError::MissingFileName),
        Some(f) => match path_extension_of(f) {
            None => Err(UploadError::MissingExtension),
            Some(e) => {
                let id = get_id(counter);
                Ok(stored_name(id, e.as_str()))
            },
        },
    }
}

/// The response to an upload refused for `e`: 400 with an empty body.
pub fn reject_upload(e: UploadError) -> (r: Response)
    ensures
        r@ == bare(Status::BadRequest),
{
    bare_response(Status::BadRequest)
}

/// The last step of an upload: the response, given the stored name and what
/// writing the file gave.
pub fn finish_upload(name: String, write: Result<(), String>) -> (r: Response)
    ensures
        r@ == upload_outcome(name@, write_view(write)),
{
    match write {
        Ok(()) => text_response(Status::Success, name),
        Err(msg) => text_response(Status::InternalServerError, msg),
    }
}

} // verus!
