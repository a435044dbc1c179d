//! The content type of a file, chosen by the extension of its path.

use vstd::prelude::*;
use vstd::string::*;
use crate::path::{extension, extension_of};

verus! {

/// The first content type that the table of the `mime_guess` crate lists for a file
/// extension, compared without regard to case, in the spelling of the `mime` crate,
/// which is lower case; `None` for an extension that the table does not hold, the empty
/// one among them.
pub uninterp spec fn extension_mime(ext: Seq<char>) -> Option<Seq<char>>;

/// The content type that a lookup ends in: the one found, and
/// `application/octet-stream` where none was found.
pub open spec fn mime_or_octet_stream(guess: Option<Seq<char>>) -> Seq<char> {
    match guess {
        Some(m) => m,
        None => "application/octet-stream"@,
    }
}

/// The content type of a path: that of its extension, and `application/octet-stream`
/// where the path has no extension or the table does not know it.
pub open spec fn mime_for_path(p: Seq<char>) -> Seq<char> {
    match extension(p) {
        Some(ext) => mime_or_octet_stream(extension_mime(ext)),
        None => mime_or_octet_stream(None),
    }
}

/// Calls `mime_guess::from_ext` and `MimeGuess::first` on its result, and `Mime::as_ref`
/// on what that gives: a lookup of `ext` in the crate's table, which gives the first
/// content type listed for it, if any, as the `mime` crate spells it. The table lists
/// `text/html` for `html` and `text/css` for `css`.
#[verifier::external_body]
fn first_guess(ext: &str) -> (r: Option<String>)
    ensures
        match r {
            Some(m) => extension_mime(ext@) == Some(m@),
            None => extension_mime(ext@) is None,
        },
        ext@ == "html"@ ==> r is Some && r->0@ == "text/html"@,
        ext@ == "css"@ ==> r is Some && r->0@ == "text/css"@,
{
    match mime_guess::from_ext(ext).first() {
        Some(mime) => Some(mime.as_ref().to_owned()),
        None => None,
    }
}

/// The content type that a lookup ends in: the guess, and `application/octet-stream`
/// where there is none.
pub fn mime_or_default(guess: Option<String>) -> (r: String)
    ensures
        r@ == mime_or_octet_stream(
            match guess {
                Some(m) => Some(m@),
                None => None,
            },
        ),
{
    match guess {
        Some(m) => m,
        None => String::from_str("application/octet-stream"),
    }
}

/// The content type for a file, going by the extension of its path.
///
/// A path without an extension, or with one that the table does not know, gets
/// `application/octet-stream`; one that ends in `.html` gets `text/html`, and one that
/// ends in `.css` gets `text/css`.
pub fn file_path_mime(file_path: &str) -> (r: String)
    ensures
        r@ == mime_for_path(file_path@),
        extension(file_path@) == Some("html"@) ==> r@ == "text/html"@,
        extension(file_path@) == Some("css"@) ==> r@ == "text/css"@,
{
    match extension_of(file_path) {
        Some(ext) => mime_or_default(first_guess(ext.as_str())),
        None => mime_or_default(None),
    }
}

} // verus!
