//! HTML directory listings.
//!
//! A listing for a directory request is one HTML document: a title and a
//! heading showing `Index of /<url path>`, then an unordered list with one
//! hyperlink per entry. The link target is `<url path>/<entry name>` for a
//! non-empty URL path, and the bare entry name at the root.

use vstd::prelude::*;

verus! {

/// The target of an entry's hyperlink: the entry's name alone at the root,
/// the URL path, a separator, and the name elsewhere.
pub open spec fn link_target_spec(url_path: Seq<char>, name: Seq<char>) -> Seq<char> {
    if url_path.len() == 0 {
        name
    } else {
        url_path + "/"@ + name
    }
}

/// One list item of the listing: a hyperlink whose target is the entry's
/// link target and whose text is the entry's name.
pub open spec fn listing_item_spec(url_path: Seq<char>, name: Seq<char>) -> Seq<char> {
    "<li><a href=\""@ + link_target_spec(url_path, name) + "\">"@ + name + "</a></li>"@
}

/// The list items of all entries, in order.
pub open spec fn listing_items_spec(url_path: Seq<char>, names: Seq<Seq<char>>) -> Seq<char>
    decreases names.len(),
{
    if names.len() == 0 {
        Seq::empty()
    } else {
        listing_items_spec(url_path, names.drop_last()) + listing_item_spec(
            url_path,
            names.last(),
        )
    }
}

/// Everything of the document before the list items.
pub open spec fn listing_header_spec(url_path: Seq<char>) -> Seq<char> {
    "<html><head><title>Index of /"@ + url_path
        + "</title></head><body><h2>Index of /"@ + url_path + "</h2><ul>"@
}

/// The whole listing document for a URL path and its entry names.
pub open spec fn listing_html_spec(url_path: Seq<char>, names: Seq<Seq<char>>) -> Seq<char> {
    listing_header_spec(url_path) + listing_items_spec(url_path, names) + "</ul></body></html>"@
}

/// The target of the hyperlink for one entry of a listing.
pub fn link_target(url_path: &str, name: &str) -> (r: String)
    ensures
        r@ == link_target_spec(url_path@, name@),
{
    if url_path.is_empty() {
        name.to_owned()
    } else {
        let mut link = url_path.to_owned();
        link.append("/");
        link.append(name);
        proof {
            assert(link@ =~= link_target_spec(url_path@, name@));
        }
        link
    }
}

/// Builds the HTML listing document for a directory's entry names.
pub fn generate_directory_listing(url_path: &str, entries: &Vec<String>) -> (r: String)
    ensures
        r@ == listing_html_spec(url_path@, entries.deep_view()),
{
    let mut html = String::new();
    html.append("<html><head><title>Index of /");
    html.append(url_path);
    html.append("</title></head><body><h2>Index of /");
    html.append(url_path);
    html.append("</h2><ul>");
    proof {
        assert(html@ =~= listing_header_spec(url_path@));
    }
    let n: usize = entries.len();
    let mut i: usize = 0;
    while i < n
        invariant
            i <= n,
            n == entries.len(),
            html@ == listing_header_spec(url_path@) + listing_items_spec(
                url_path@,
                entries.deep_view().take(i as int),
            ),
        decreases n - i,
    {
        let name = &entries[i];
        html.append("<li><a href=\"");
        let link = link_target(url_path, name.as_str());
        html.append(link.as_str());
        html.append("\">");
        html.append(name.as_str());
        html.append("</a></li>");
        proof {
            let dv = entries.deep_view();
            assert(dv.take(i + 1).drop_last() =~= dv.take(i as int));
            assert(dv.take(i + 1).last() == dv[i as int]);
            assert(listing_items_spec(url_path@, dv.take(i + 1)) == listing_items_spec(
                url_path@,
                dv.take(i as int),
            ) + listing_item_spec(url_path@, dv[i as int]));
            assert(html@ =~= listing_header_spec(url_path@) + listing_items_spec(
                url_path@,
                dv.take(i + 1),
            ));
        }
        i += 1;
    }
    html.append("</ul></body></html>");
    proof {
        assert(entries.deep_view().take(n as int) =~= entries.deep_view());
        assert(html@ =~= listing_html_spec(url_path@, entries.deep_view()));
    }
    html
}

} // verus!
