use http_server::generate_directory_listing;
use http_server::handle_lookup;
use http_server::link_target;
use http_server::resolve_path;
use http_server::resolve_segment;
use http_server::strip_leading_slash;
use http_server::FsLookup;
use http_server::ResponseBody;

fn text(r: &ResponseBody) -> &str {
    match r {
        ResponseBody::Text(s) => s.as_str(),
        ResponseBody::Bytes(_) => panic!("expected a text body"),
    }
}

fn bytes(r: &ResponseBody) -> &[u8] {
    match r {
        ResponseBody::Bytes(b) => b.as_slice(),
        ResponseBody::Text(_) => panic!("expected a byte body"),
    }
}

#[test]
fn strips_a_single_leading_slash() {
    assert_eq!(strip_leading_slash("/docs"), "docs");
    assert_eq!(strip_leading_slash("docs"), "docs");
    assert_eq!(strip_leading_slash("/"), "");
    assert_eq!(strip_leading_slash(""), "");
    assert_eq!(strip_leading_slash("//x"), "/x");
}

#[test]
fn empty_segment_becomes_index_html() {
    assert_eq!(resolve_segment("/"), "index.html");
    assert_eq!(resolve_segment(""), "index.html");
    assert_eq!(resolve_segment("/a.txt"), "a.txt");
}

#[test]
fn resolves_under_the_base_directory() {
    assert_eq!(resolve_path(".", "/a.txt"), "./a.txt");
    assert_eq!(resolve_path("/srv/www", "/docs/readme.md"), "/srv/www/docs/readme.md");
    assert_eq!(resolve_path(".", "/"), "./index.html");
    assert_eq!(resolve_path("base", ""), "base/index.html");
}

#[test]
fn file_lookup_serves_exact_bytes_with_mime_type() {
    let contents = b"body { color: red; }".to_vec();
    let r = handle_lookup("/style.css", "./style.css", FsLookup::File(contents.clone()));
    assert_eq!(r.status, 200);
    assert_eq!(r.content_type.as_deref(), Some("text/css"));
    assert_eq!(bytes(&r.body), contents.as_slice());
}

#[test]
fn unknown_extension_falls_back_to_text_plain() {
    let r = handle_lookup("/data.zzqq", "./data.zzqq", FsLookup::File(vec![1, 2, 3]));
    assert_eq!(r.status, 200);
    assert_eq!(r.content_type.as_deref(), Some("text/plain"));
    assert_eq!(bytes(&r.body), &[1, 2, 3]);
}

#[test]
fn missing_path_gets_404_with_fixed_body() {
    let r = handle_lookup("/missing.txt", "./missing.txt", FsLookup::Missing);
    assert_eq!(r.status, 404);
    assert_eq!(r.content_type, None);
    assert_eq!(text(&r.body), "404 Not Found");
}

#[test]
fn failed_enumeration_gets_500_with_fixed_body() {
    let r = handle_lookup("/locked", "./locked", FsLookup::Directory(None));
    assert_eq!(r.status, 500);
    assert_eq!(r.content_type, None);
    assert_eq!(text(&r.body), "500 Internal Server Error");
}

#[test]
fn directory_lookup_lists_every_entry() {
    let entries = vec!["a.txt".to_string(), "b.png".to_string(), "sub".to_string()];
    let r = handle_lookup("/docs", "./docs", FsLookup::Directory(Some(entries)));
    assert_eq!(r.status, 200);
    assert_eq!(r.content_type.as_deref(), Some("text/html"));
    let body = text(&r.body);
    assert!(body.contains("<li><a href=\"docs/a.txt\">a.txt</a></li>"));
    assert!(body.contains("<li><a href=\"docs/b.png\">b.png</a></li>"));
    assert!(body.contains("<li><a href=\"docs/sub\">sub</a></li>"));
}

#[test]
fn listing_document_has_exact_shape() {
    let entries = vec!["file.txt".to_string()];
    let html = generate_directory_listing("sub", &entries);
    assert_eq!(
        html,
        "<html><head><title>Index of /sub</title></head><body>\
         <h2>Index of /sub</h2><ul>\
         <li><a href=\"sub/file.txt\">file.txt</a></li>\
         </ul></body></html>"
    );
}

#[test]
fn empty_directory_lists_nothing() {
    let html = generate_directory_listing("", &Vec::new());
    assert_eq!(
        html,
        "<html><head><title>Index of /</title></head><body>\
         <h2>Index of /</h2><ul></ul></body></html>"
    );
}

#[test]
fn link_targets_carry_the_url_path_except_at_the_root() {
    assert_eq!(link_target("sub", "file.txt"), "sub/file.txt");
    assert_eq!(link_target("", "file.txt"), "file.txt");
    assert_eq!(link_target("a/b", "c.txt"), "a/b/c.txt");
}

#[test]
fn root_request_serves_index_html() {
    let resolved = resolve_path(".", "/");
    assert_eq!(resolved, "./index.html");
    let r = handle_lookup("/", &resolved, FsLookup::File(b"<h1>Hi</h1>".to_vec()));
    assert_eq!(r.status, 200);
    assert_eq!(r.content_type.as_deref(), Some("text/html"));
    assert_eq!(bytes(&r.body), b"<h1>Hi</h1>");
}

#[test]
fn same_request_twice_gets_identical_responses() {
    let entries = || Some(vec!["readme.md".to_string()]);
    let first = handle_lookup("/docs", "./docs", FsLookup::Directory(entries()));
    let second = handle_lookup("/docs", "./docs", FsLookup::Directory(entries()));
    assert_eq!(first, second);

    let file = || FsLookup::File(b"same bytes".to_vec());
    let first = handle_lookup("/a.txt", "./a.txt", file());
    let second = handle_lookup("/a.txt", "./a.txt", file());
    assert_eq!(first, second);
}

#[test]
fn base_directory_scenario() {
    let base = ".";

    let resolved = resolve_path(base, "/");
    assert_eq!(resolved, "./index.html");
    let r = handle_lookup("/", &resolved, FsLookup::File(b"<h1>Hi</h1>".to_vec()));
    assert_eq!(r.status, 200);
    assert_eq!(bytes(&r.body), b"<h1>Hi</h1>");

    let resolved = resolve_path(base, "/docs");
    assert_eq!(resolved, "./docs");
    let r = handle_lookup(
        "/docs",
        &resolved,
        FsLookup::Directory(Some(vec!["readme.md".to_string()])),
    );
    assert_eq!(r.status, 200);
    assert!(text(&r.body).contains("<a href=\"docs/readme.md\">readme.md</a>"));

    let resolved = resolve_path(base, "/missing.txt");
    assert_eq!(resolved, "./missing.txt");
    let r = handle_lookup("/missing.txt", &resolved, FsLookup::Missing);
    assert_eq!(r.status, 404);
    assert_eq!(text(&r.body), "404 Not Found");
}
