use vstd::prelude::*;
use crate::response::{bare, bare_response, image, text, text_response, Body, ImageKind, Response, ResponseView, Status};
use crate::text::{is_simple_name, path_extension, path_extension_of, same_text, simple_extension};

verus! {

/// The content-type table: `jpg` and `jpeg` are JPEG, `png` is PNG, and
/// nothing else is served. The match is case-sensitive.
pub open spec fn kind_of_extension(e: Seq<char>) -> Option<ImageKind> {
    if e == seq!['j', 'p', 'g'] || e == seq!['j', 'p', 'e', 'g'] {
        Some(ImageKind::Jpeg)
    } else if e == seq!['p', 'n', 'g'] {
        Some(ImageKind::Png)
    } else {
        None
    }
}

/// What a retrieval does before it touches the disk, given the extension
/// read from the requested name: read the file and serve it as the given kind
/// (`Ok`), or answer at once (`Err`): 400 when the name has no extension, 404
/// with an empty body when the extension is not in the table.
pub open spec fn load_decision(ext: Option<Seq<char>>) -> Result<ImageKind, ResponseView> {
    match ext {
        None => Err(bare(Status::BadRequest)),
        Some(e) => match kind_of_extension(e) {
            Some(k) => Ok(k),
            None => Err(bare(Status::NotFound)),
        },
    }
}

/// What a retrieval answers once the file was read: the bytes with the
/// content type, or 500 with the error's message.
pub open spec fn load_outcome(kind: ImageKind, read: Result<Seq<u8>, Seq<char>>) -> ResponseView {
    match read {
        Ok(data) => image(kind, data),
        Err(msg) => text(Status::InternalServerError, msg),
    }
}

/// The view of a decision.
pub open spec fn decision_view(r: Result<ImageKind, Response>) -> Result<ImageKind, ResponseView> {
    match r {
        Ok(k) => Ok(k),
        Err(resp) => Err(resp@),
    }
}

/// The view of the result of reading a file.
pub open spec fn read_view(r: Result<Vec<u8>, String>) -> Result<Seq<u8>, Seq<char>> {
    match r {
        Ok(data) => Ok(data@),
        Err(msg) => Err(msg@),
    }
}

/// Looks an extension up in the content-type table.
pub fn image_kind_of(ext: &str) -> (r: Option<ImageKind>)
    ensures
        r == kind_of_extension(ext@),
{
    proof {
        reveal_strlit("jpg");
        reveal_strlit("jpeg");
        reveal_strlit("png");
        assert("jpg"@ =~= seq!['j', 'p', 'g']);
        assert("jpeg"@ =~= seq!['j', 'p', 'e', 'g']);
        assert("png"@ =~= seq!['p', 'n', 'g']);
    }
    if same_text(ext, "jpg") || same_text(ext, "jpeg") {
        Some(ImageKind::Jpeg)
    } else if same_text(ext, "png") {
        Some(ImageKind::Png)
    } else {
        None
    }
}

/// The first step of a retrieval of `name`: the kind of image to read from
/// the file of that name, or the response to give without reading it.
pub fn begin_load(name: &str) -> (r: Result<ImageKind, Response>)
    ensures
        decision_view(r) == load_decision(path_extension(name@)),
        is_simple_name(name@) ==> decision_view(r) == load_decision(simple_extension(name@)),
{
    match path_extension_of(name) {
        None => Err(bare_response(Status::BadRequest)),
        Some(e) => match image_kind_of(e.as_str()) {
            Some(k) => Ok(k),
            None => Err(bare_response(Status::NotFound)),
        },
    }
}

/// The last step of a retrieval: the response, given what reading the file
/// gave (its bytes, or the message of the error).
pub fn finish_load(kind: ImageKind, read: Result<Vec<u8>, String>) -> (r: Response)
    ensures
        r@ == load_outcome(kind, read_view(read)),
{
    match read {
        Ok(data) => Response { status: Status::Success, content_type: Some(kind), body: Body::Bytes(data) },
        Err(msg) => text_response(Status::InternalServerError, msg),
    }
}

} // verus!
