//! From a filesystem lookup to exactly one HTTP response.
//!
//! The caller resolves a request's URL path with [`crate::paths::resolve_path`],
//! looks the candidate path up on the filesystem, and hands the outcome in as
//! an [`FsLookup`]. [`handle_lookup`] turns it into the one response the
//! request gets: a directory listing, the file's bytes with an inferred MIME
//! type, or a fixed error response. The response is pinned completely by
//! [`response_spec`], a function of the URL path, the resolved path and the
//! lookup outcome alone: an unchanged filesystem answers a repeated request
//! with an identical response.

use vstd::prelude::*;

use crate::listing::generate_directory_listing;
use crate::listing::listing_html_spec;
use crate::mime::guess_mime;
use crate::mime::mime_of;
use crate::paths::stripped_spec;

verus! {

/// What the filesystem says about a resolved path: a directory whose entry
/// names could (or could not) be enumerated, a regular file read whole, or
/// nothing readable at that path.
pub enum FsLookup {
    /// The path is a directory; `Some` carries its entry names, `None` means
    /// enumeration failed.
    Directory(Option<Vec<String>>),
    /// The path is a readable regular file with these contents.
    File(Vec<u8>),
    /// The path does not exist or cannot be read.
    Missing,
}

/// The mathematical value of an [`FsLookup`].
pub enum LookupModel {
    Directory(Option<Seq<Seq<char>>>),
    File(Seq<u8>),
    Missing,
}

impl View for FsLookup {
    type V = LookupModel;

    open spec fn view(&self) -> LookupModel {
        match self {
            FsLookup::Directory(entries) => LookupModel::Directory(
                match entries {
                    Some(names) => Some(names.deep_view()),
                    None => None,
                },
            ),
            FsLookup::File(bytes) => LookupModel::File(bytes@),
            FsLookup::Missing => LookupModel::Missing,
        }
    }
}

/// A response body: generated text (a listing or a fixed error message), or
/// a file's raw bytes.
#[derive(Debug, PartialEq, Eq)]
pub enum ResponseBody {
    Text(String),
    Bytes(Vec<u8>),
}

/// The mathematical value of a [`ResponseBody`].
pub enum BodyModel {
    Text(Seq<char>),
    Bytes(Seq<u8>),
}

impl View for ResponseBody {
    type V = BodyModel;

    open spec fn view(&self) -> BodyModel {
        match self {
            ResponseBody::Text(text) => BodyModel::Text(text@),
            ResponseBody::Bytes(bytes) => BodyModel::Bytes(bytes@),
        }
    }
}

/// One HTTP response: a status code, the `Content-Type` header's value when
/// the handler sets one, and the body.
#[derive(Debug, PartialEq, Eq)]
pub struct HttpResponse {
    pub status: u16,
    pub content_type: Option<String>,
    pub body: ResponseBody,
}

/// The mathematical value of an [`HttpResponse`].
pub struct ResponseModel {
    pub status: int,
    pub content_type: Option<Seq<char>>,
    pub body: BodyModel,
}

impl View for HttpResponse {
    type V = ResponseModel;

    open spec fn view(&self) -> ResponseModel {
        ResponseModel {
            status: self.status as int,
            content_type: match &self.content_type {
                Some(value) => Some(value@),
                None => None,
            },
            body: self.body@,
        }
    }
}

/// The one response a request gets, as a function of the URL path, the
/// resolved filesystem path, and what the filesystem said about it:
/// enumerated directories get the listing document with status 200,
/// readable files their bytes with status 200 and the inferred MIME type,
/// failed enumerations a fixed 500 response, and everything else a fixed
/// 404 response.
pub open spec fn response_spec(
    url: Seq<char>,
    resolved: Seq<char>,
    lookup: LookupModel,
) -> ResponseModel {
    match lookup {
        LookupModel::Directory(entries) => match entries {
            Some(names) => ResponseModel {
                status: 200,
                content_type: Some("text/html"@),
                body: BodyModel::Text(listing_html_spec(stripped_spec(url), names)),
            },
            None => ResponseModel {
                status: 500,
                content_type: None,
                body: BodyModel::Text("500 Internal Server Error"@),
            },
        },
        LookupModel::File(bytes) => ResponseModel {
            status: 200,
            content_type: Some(mime_of(resolved)),
            body: BodyModel::Bytes(bytes),
        },
        LookupModel::Missing => ResponseModel {
            status: 404,
            content_type: None,
            body: BodyModel::Text("404 Not Found"@),
        },
    }
}

/// Produces the one response for a request, given the request's URL path,
/// the resolved filesystem path, and the filesystem's answer about it.
pub fn handle_lookup(url_path: &str, resolved_path: &str, lookup: FsLookup) -> (r: HttpResponse)
    ensures
        r@ == response_spec(url_path@, resolved_path@, lookup@),
{
    match lookup {
        FsLookup::Directory(Some(entries)) => {
            let stripped = crate::paths::strip_leading_slash(url_path);
            let html = generate_directory_listing(stripped.as_str(), &entries);
            HttpResponse {
                status: 200,
                content_type: Some("text/html".to_owned()),
                body: ResponseBody::Text(html),
            }
        },
        FsLookup::Directory(None) => HttpResponse {
            status: 500,
            content_type: None,
            body: ResponseBody::Text("500 Internal Server Error".to_owned()),
        },
        FsLookup::File(bytes) => {
            let mime = guess_mime(resolved_path);
            HttpResponse { status: 200, content_type: Some(mime), body: ResponseBody::Bytes(bytes) }
        },
        FsLookup::Missing => HttpResponse {
            status: 404,
            content_type: None,
            body: ResponseBody::Text("404 Not Found".to_owned()),
        },
    }
}

} // verus!
