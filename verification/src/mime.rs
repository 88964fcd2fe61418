//! MIME type inference for served files.
//!
//! The content type a file is served with is inferred from its path's
//! extension through a fixed lookup table, falling back to `text/plain`
//! when the table knows no mapping for the extension, or the path has none.

use vstd::prelude::*;

verus! {

/// The MIME type inferred for a path: the table's entry for the path's
/// extension, `text/plain` when there is none. A function of the path alone.
pub uninterp spec fn mime_of(path: Seq<char>) -> Seq<char>;

/// Relies on mime_guess::from_path and MimeGuess::first_or_text_plain: the
/// first MIME type a fixed extension table maps the path's extension to,
/// `text/plain` when the table has no entry or the path has no extension.
/// The result depends on the path string alone.
#[verifier::external_body]
pub(crate) fn guess_mime(path: &str) -> (r: String)
    ensures
        r@ == mime_of(path@),
{
    mime_guess::from_path(path).first_or_text_plain().to_string()
}

} // verus!
