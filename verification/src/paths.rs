//! Resolution of a request's URL path to a candidate filesystem path.
//!
//! A single leading `/` is stripped from the URL path; an empty remainder is
//! replaced by the default index filename, so a request for the site root
//! serves that file if present. The candidate path is the base directory,
//! a separator, and the segment.

use vstd::prelude::*;

verus! {

/// The URL path with a single leading `/` removed, if one is there.
pub open spec fn stripped_spec(url: Seq<char>) -> Seq<char> {
    if url.len() > 0 && url[0] == '/' {
        url.skip(1)
    } else {
        url
    }
}

/// The path segment looked up under the base directory: the stripped URL
/// path, or the default index filename when that is empty.
pub open spec fn segment_spec(url: Seq<char>) -> Seq<char> {
    if stripped_spec(url).len() == 0 {
        "index.html"@
    } else {
        stripped_spec(url)
    }
}

/// The candidate filesystem path for a request: base directory, separator,
/// segment.
pub open spec fn resolved_path_spec(base: Seq<char>, url: Seq<char>) -> Seq<char> {
    base + "/"@ + segment_spec(url)
}

/// Removes a single leading `/` from the URL path.
pub fn strip_leading_slash(url: &str) -> (r: String)
    ensures
        r@ == stripped_spec(url@),
{
    let n: usize = url.unicode_len();
    if n > 0 && url.get_char(0) == '/' {
        let rest = url.substring_char(1, n);
        proof {
            assert(rest@ =~= url@.skip(1));
        }
        rest.to_owned()
    } else {
        url.to_owned()
    }
}

/// The path segment a request asks for: the URL path without its leading
/// `/`, or `index.html` when nothing is left.
pub fn resolve_segment(url: &str) -> (r: String)
    ensures
        r@ == segment_spec(url@),
{
    let stripped = strip_leading_slash(url);
    if stripped.as_str().is_empty() {
        "index.html".to_owned()
    } else {
        stripped
    }
}

/// The candidate filesystem path for a request against a base directory.
pub fn resolve_path(base_dir: &str, url: &str) -> (r: String)
    ensures
        r@ == resolved_path_spec(base_dir@, url@),
{
    let segment = resolve_segment(url);
    let mut path = base_dir.to_owned();
    path.append("/");
    path.append(segment.as_str());
    proof {
        assert(path@ =~= resolved_path_spec(base_dir@, url@));
    }
    path
}

} // verus!
