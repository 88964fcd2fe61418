//! A minimal static-file HTTP server library.
//!
//! Given a request's URL path and the directory the server was started on,
//! the library resolves the path to a filesystem candidate, and turns the
//! outcome of the filesystem lookup (a directory with its entries, a readable
//! file with its bytes, or nothing) into exactly one HTTP response: an HTML
//! directory listing, the file's bytes with a MIME type inferred from the
//! path, or a fixed error response.
//!
//! All filesystem and network access stays outside the library: callers hand
//! in plain values (the URL path, entry names, file bytes) and get a plain
//! response value back.

pub mod laws;
pub mod listing;
pub mod mime;
pub mod paths;
pub mod response;

pub use listing::generate_directory_listing;
pub use listing::link_target;
pub use paths::resolve_path;
pub use paths::resolve_segment;
pub use paths::strip_leading_slash;
pub use response::handle_lookup;
pub use response::FsLookup;
pub use response::HttpResponse;
pub use response::ResponseBody;
