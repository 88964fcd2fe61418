//! Laws of the request handler, each proved from the library's contracts.

use vstd::prelude::*;

use crate::listing::link_target_spec;
use crate::listing::listing_header_spec;
use crate::listing::listing_html_spec;
use crate::listing::listing_item_spec;
use crate::listing::listing_items_spec;
use crate::mime::mime_of;
use crate::paths::resolved_path_spec;
use crate::paths::segment_spec;
use crate::paths::stripped_spec;
use crate::response::response_spec;
use crate::response::BodyModel;
use crate::response::LookupModel;
use crate::response::ResponseModel;

verus! {

/// `needle` occurs contiguously somewhere in `hay`.
pub open spec fn contains_substring(hay: Seq<char>, needle: Seq<char>) -> bool {
    exists|k: int|
        0 <= k && k + needle.len() <= hay.len() && #[trigger] hay.subrange(k, k + needle.len())
            == needle
}

/// A substring of `hay` is still a substring after text is appended.
pub proof fn lemma_substring_extend_right(hay: Seq<char>, needle: Seq<char>, tail: Seq<char>)
    requires
        contains_substring(hay, needle),
    ensures
        contains_substring(hay + tail, needle),
{
    let k = choose|k: int|
        0 <= k && k + needle.len() <= hay.len() && #[trigger] hay.subrange(k, k + needle.len())
            == needle;
    assert((hay + tail).subrange(k, k + needle.len()) =~= needle);
}

/// A substring of `hay` is still a substring after text is prepended.
pub proof fn lemma_substring_extend_left(front: Seq<char>, hay: Seq<char>, needle: Seq<char>)
    requires
        contains_substring(hay, needle),
    ensures
        contains_substring(front + hay, needle),
{
    let k = choose|k: int|
        0 <= k && k + needle.len() <= hay.len() && #[trigger] hay.subrange(k, k + needle.len())
            == needle;
    let j = front.len() + k;
    assert((front + hay).subrange(j, j + needle.len()) =~= needle);
}

/// The concatenated list items contain the item of every entry.
pub proof fn lemma_items_contain_each_entry(url_path: Seq<char>, names: Seq<Seq<char>>, i: int)
    requires
        0 <= i < names.len(),
    ensures
        contains_substring(
            listing_items_spec(url_path, names),
            listing_item_spec(url_path, names[i]),
        ),
    decreases names.len(),
{
    let front = listing_items_spec(url_path, names.drop_last());
    let item = listing_item_spec(url_path, names.last());
    if i == names.len() - 1 {
        let k = front.len() as int;
        assert((front + item).subrange(k, k + item.len()) =~= item);
    } else {
        lemma_items_contain_each_entry(url_path, names.drop_last(), i);
        lemma_substring_extend_right(front, listing_item_spec(url_path, names[i]), item);
    }
}

/// Every entry of a directory has its own hyperlink in the listing document:
/// the full list item, with the entry's link target and the entry's name as
/// the link text, occurs in the document.
pub proof fn lemma_listing_lists_each_entry(url_path: Seq<char>, names: Seq<Seq<char>>, i: int)
    requires
        0 <= i < names.len(),
    ensures
        contains_substring(
            listing_html_spec(url_path, names),
            listing_item_spec(url_path, names[i]),
        ),
{
    let item = listing_item_spec(url_path, names[i]);
    lemma_items_contain_each_entry(url_path, names, i);
    lemma_substring_extend_left(
        listing_header_spec(url_path),
        listing_items_spec(url_path, names),
        item,
    );
    lemma_substring_extend_right(
        listing_header_spec(url_path) + listing_items_spec(url_path, names),
        item,
        "</ul></body></html>"@,
    );
}

/// A request whose resolved path is a readable regular file is answered with
/// status 200, the file's exact bytes as the body, and the MIME type
/// inferred from the resolved path as the `Content-Type` value.
pub proof fn lemma_file_request(url: Seq<char>, resolved: Seq<char>, bytes: Seq<u8>)
    ensures
        response_spec(url, resolved, LookupModel::File(bytes)) == (ResponseModel {
            status: 200,
            content_type: Some(mime_of(resolved)),
            body: BodyModel::Bytes(bytes),
        }),
{
}

/// A request whose resolved path is a directory with enumerable entries is
/// answered with status 200, `text/html` as the `Content-Type` value, and
/// the listing document for the stripped URL path and those entries.
pub proof fn lemma_directory_request(url: Seq<char>, resolved: Seq<char>, names: Seq<Seq<char>>)
    ensures
        response_spec(url, resolved, LookupModel::Directory(Some(names))) == (ResponseModel {
            status: 200,
            content_type: Some("text/html"@),
            body: BodyModel::Text(listing_html_spec(stripped_spec(url), names)),
        }),
{
}

/// A request whose resolved path is a directory that cannot be enumerated is
/// answered with status 500 and the fixed error text.
pub proof fn lemma_enumeration_failure(url: Seq<char>, resolved: Seq<char>)
    ensures
        response_spec(url, resolved, LookupModel::Directory(None)) == (ResponseModel {
            status: 500,
            content_type: None,
            body: BodyModel::Text("500 Internal Server Error"@),
        }),
{
}

/// A request whose resolved path does not exist or cannot be read is
/// answered with status 404 and the fixed error text.
pub proof fn lemma_missing_request(url: Seq<char>, resolved: Seq<char>)
    ensures
        response_spec(url, resolved, LookupModel::Missing) == (ResponseModel {
            status: 404,
            content_type: None,
            body: BodyModel::Text("404 Not Found"@),
        }),
{
}

/// A request for the site root resolves to the default index file under the
/// base directory; when that path is a readable file, the response carries
/// its exact bytes with status 200.
pub proof fn lemma_root_request_serves_index(base: Seq<char>, bytes: Seq<u8>)
    ensures
        segment_spec("/"@) == "index.html"@,
        resolved_path_spec(base, "/"@) == base + "/"@ + "index.html"@,
        response_spec("/"@, resolved_path_spec(base, "/"@), LookupModel::File(bytes)).status
            == 200,
        response_spec("/"@, resolved_path_spec(base, "/"@), LookupModel::File(bytes)).body
            == BodyModel::Bytes(bytes),
{
    reveal_strlit("/");
    assert(stripped_spec("/"@) =~= Seq::<char>::empty());
}

/// Idempotence: against an unchanged filesystem, the same request is
/// answered with an identical response every time, since the response is a
/// function of the URL path, the resolved path and the lookup outcome alone.
pub proof fn lemma_same_request_same_response(
    url: Seq<char>,
    resolved: Seq<char>,
    first: LookupModel,
    second: LookupModel,
)
    requires
        first == second,
    ensures
        response_spec(url, resolved, first) == response_spec(url, resolved, second),
{
}

/// An entry's link target is the bare entry name for the root listing, and
/// the URL path, a separator, and the name for any other listing.
pub proof fn lemma_link_target_forms(url_path: Seq<char>, name: Seq<char>)
    ensures
        url_path.len() == 0 ==> link_target_spec(url_path, name) == name,
        url_path.len() > 0 ==> link_target_spec(url_path, name) == url_path + "/"@ + name,
{
}

} // verus!
