use vstd::prelude::*;
use crate::ids::id_at;
use crate::response::{bare, image, text, BodyView, ImageKind, ResponseView, Status};
use crate::retrieval::{kind_of_extension, load_decision, load_outcome};
use crate::text::{
    decimal, is_path_separator, is_simple_name, lemma_decimal_digits, no_path_separator, lemma_extension_after_number,
    lemma_last_index_of, last_index_of, simple_extension,
};
use crate::upload::{name_for_extension, stored_name_of};

verus! {

/// A stored name reads back with the extension it was made from, and is a
/// simple name, so a retrieval of it looks that extension up.
pub proof fn lemma_stored_name_extension(id: u8, e: Seq<char>)
    requires
        !e.contains('.'),
        no_path_separator(e),
    ensures
        is_simple_name(stored_name_of(id, e)),
        simple_extension(stored_name_of(id, e)) == Some(e),
{
    lemma_decimal_digits(id as nat);
    lemma_extension_after_number(decimal(id as nat), e);
}

/// The extension of a simple name holds neither `.` nor a path separator.
pub proof fn lemma_simple_extension_plain(f: Seq<char>)
    requires
        is_simple_name(f),
        simple_extension(f) is Some,
    ensures
        !simple_extension(f)->0.contains('.'),
        no_path_separator(simple_extension(f)->0),
{
    lemma_last_index_of(f, '.');
    let i = last_index_of(f, '.')->0;
    let e = simple_extension(f)->0;
    assert forall|j: int| 0 <= j < e.len() implies e[j] != '.' && !is_path_separator(e[j]) by {
        assert(e[j] == f[i + 1 + j]);
    }
}

/// Round trip: bytes uploaded under a simple file name whose extension is in
/// the content-type table (`foo.png`, say) are stored under a name whose
/// retrieval reads that file and answers with exactly the bytes written, with
/// the table's content type for the extension.
pub proof fn lemma_round_trip(k: nat, file_name: Seq<char>, data: Seq<u8>)
    requires
        is_simple_name(file_name),
        simple_extension(file_name) is Some,
        kind_of_extension(simple_extension(file_name)->0) is Some,
    ensures
        ({
            let e = simple_extension(file_name)->0;
            let kind = kind_of_extension(e)->0;
            let n = stored_name_of(id_at(k), e);
            &&& name_for_extension(k, simple_extension(file_name)) == Ok::<
                Seq<char>,
                crate::upload::UploadError,
            >(n)
            &&& is_simple_name(n)
            &&& load_decision(simple_extension(n)) == Ok::<ImageKind, ResponseView>(kind)
            &&& load_outcome(kind, Ok(data)) == image(kind, data)
        }),
        simple_extension(file_name) == Some(seq!['p', 'n', 'g']) ==> kind_of_extension(
            simple_extension(file_name)->0,
        ) == Some(ImageKind::Png),
{
    lemma_simple_extension_plain(file_name);
    lemma_stored_name_extension(id_at(k), simple_extension(file_name)->0);
}

/// A name whose extension is not in the content-type table (`gif`, say) is
/// answered with an empty 404 before any read, whatever is on disk.
pub proof fn lemma_unlisted_extension_not_found(e: Seq<char>)
    requires
        kind_of_extension(e) is None,
    ensures
        load_decision(Some(e)) == Err::<ImageKind, ResponseView>(bare(Status::NotFound)),
{
}

/// `gif` is not in the content-type table.
pub proof fn lemma_gif_unlisted()
    ensures
        kind_of_extension(seq!['g', 'i', 'f']) is None,
{
    assert(seq!['g', 'i', 'f'][0] != seq!['j', 'p', 'g'][0]);
    assert(seq!['g', 'i', 'f'][0] != seq!['p', 'n', 'g'][0]);
    assert(seq!['g', 'i', 'f'].len() != seq!['j', 'p', 'e', 'g'].len());
}

/// A file that cannot be read is answered with 500 and the error's message,
/// which is a non-empty body when the message is not empty.
pub proof fn lemma_unreadable_file(kind: ImageKind, msg: Seq<char>)
    ensures
        load_outcome(kind, Err(msg)) == text(Status::InternalServerError, msg),
        msg.len() > 0 ==> load_outcome(kind, Err(msg)).body != BodyView::Empty,
{
}

/// An upload named `photo.JPG` is stored as `<id>.JPG`, and a retrieval of
/// that name is an empty 404: the table matches lower case only.
pub proof fn lemma_uppercase_extension(k: nat)
    ensures
        ({
            let f = seq!['p', 'h', 'o', 't', 'o', '.', 'J', 'P', 'G'];
            let e = seq!['J', 'P', 'G'];
            let n = decimal(id_at(k) as nat) + seq!['.', 'J', 'P', 'G'];
            &&& is_simple_name(f)
            &&& name_for_extension(k, simple_extension(f)) == Ok::<
                Seq<char>,
                crate::upload::UploadError,
            >(n)
            &&& is_simple_name(n)
            &&& load_decision(simple_extension(n)) == Err::<ImageKind, ResponseView>(
                bare(Status::NotFound),
            )
        }),
{
    let f = seq!['p', 'h', 'o', 't', 'o', '.', 'J', 'P', 'G'];
    let p = seq!['p', 'h', 'o', 't', 'o'];
    let e = seq!['J', 'P', 'G'];
    assert(f =~= p.push('.') + e);
    assert(!e.contains('.') && no_path_separator(e)) by {
        assert forall|j: int| 0 <= j < e.len() implies e[j] != '.' && !is_path_separator(e[j]) by {}
    }
    crate::text::lemma_last_index_after(p, '.', e);
    assert(f.subrange(6, 9) =~= e);
    assert(no_path_separator(f)) by {
        assert forall|j: int| 0 <= j < f.len() implies !is_path_separator(f[j]) by {}
    }
    assert(f != seq!['.', '.']) by {
        assert(f.len() != 2);
    }
    lemma_stored_name_extension(id_at(k), e);
    assert(stored_name_of(id_at(k), e) =~= decimal(id_at(k) as nat) + seq!['.', 'J', 'P', 'G']);
    assert(e[0] != seq!['j', 'p', 'g'][0]);
    assert(e[0] != seq!['p', 'n', 'g'][0]);
    assert(e.len() != seq!['j', 'p', 'e', 'g'].len());
}

} // verus!
