//! Where the assets of the user interface live, which of them answers a
//! request, and what the answer looks like.

use crate::text::{ends_with, has_suffix};
use vstd::prelude::*;

verus! {

/// The directory that the assets are read from. The library never looks
/// into a path, so `P` is whatever the caller names directories by.
#[derive(Debug, PartialEq, Eq)]
pub struct AssetManager<P> {
    pub base_path: P,
}

/// The base directory chosen from the two candidates: the development
/// directory where there is one, else the directory beside the executable.
/// Without the latter there is no choice at all.
pub open spec fn chosen_base<P>(development: Option<P>, bundled: Option<P>) -> Option<P> {
    match (development, bundled) {
        (_, None) => None,
        (Some(dir), Some(_)) => Some(dir),
        (None, Some(dir)) => Some(dir),
    }
}

/// What is served for a request to the static-asset source.
#[derive(Debug, Clone, Copy, PartialEq, Eq)]
pub struct AssetRoute {
    /// The value of the `Content-Type` header.
    pub content_type: &'static str,
    /// The file to serve, relative to the base directory.
    pub file: &'static str,
}

/// The route of a request path, as content type and file: the stylesheet
/// for a path that ends in `.css`, the script bundle for one that ends in
/// `.js`, and nothing for any other path. There is no asset of any other
/// kind, so no other suffix is ever answered with one of these two files.
pub open spec fn route_of(path: Seq<char>) -> Option<(Seq<char>, Seq<char>)> {
    if ends_with(path, ".css"@) {
        Some(("text/css"@, "assets/style.css"@))
    } else if ends_with(path, ".js"@) {
        Some(("application/javascript"@, "assets/index.js"@))
    } else {
        None
    }
}

impl<P> AssetManager<P> {
    /// Chooses the base directory. `development` is the development asset
    /// directory if it exists; `bundled` is the asset directory beside the
    /// executable if the executable's own directory is known.
    pub fn new(development: Option<P>, bundled: Option<P>) -> (manager: Result<
        AssetManager<P>,
        (),
    >)
        ensures
            match manager {
                Ok(m) => chosen_base(development, bundled) == Some(m.base_path),
                Err(_) => chosen_base(development, bundled) is None,
            },
    {
        match bundled {
            None => Err(()),
            Some(beside_executable) => match development {
                Some(dir) => Ok(AssetManager { base_path: dir }),
                None => Ok(AssetManager { base_path: beside_executable }),
            },
        }
    }

    /// The main document, relative to the base directory.
    pub fn get_html(&self) -> (file: &'static str)
        ensures
            file@ == "index.html"@,
    {
        "index.html"
    }

    /// The script bundle, relative to the base directory.
    pub fn get_js(&self) -> (file: &'static str)
        ensures
            file@ == "assets/index.js"@,
    {
        "assets/index.js"
    }

    /// The stylesheet, relative to the base directory.
    pub fn get_css(&self) -> (file: &'static str)
        ensures
            file@ == "assets/style.css"@,
    {
        "assets/style.css"
    }

    /// Chooses content type and file for a request to the static-asset source
    /// by the suffix of the request path.
    pub fn route(&self, path: &str) -> (route: Option<AssetRoute>)
        ensures
            match route {
                Some(r) => route_of(path@) == Some((r.content_type@, r.file@)),
                None => route_of(path@) is None,
            },
    {
        if has_suffix(path, ".css") {
            Some(AssetRoute { content_type: "text/css", file: self.get_css() })
        } else if has_suffix(path, ".js") {
            Some(AssetRoute { content_type: "application/javascript", file: self.get_js() })
        } else {
            None
        }
    }
}

/// The answer to an asset request: a status, headers and a body.
#[derive(Debug, PartialEq, Eq)]
pub struct AssetResponse {
    pub status: u16,
    pub headers: Vec<(String, String)>,
    pub body: Vec<u8>,
}

/// An [`AssetResponse`] as a mathematical value.
pub struct AssetResponseView {
    pub status: nat,
    pub headers: Seq<(Seq<char>, Seq<char>)>,
    pub body: Seq<u8>,
}

impl View for AssetResponse {
    type V = AssetResponseView;

    open spec fn view(&self) -> AssetResponseView {
        AssetResponseView {
            status: self.status as nat,
            headers: self.headers@.map_values(|h: (String, String)| (h.0@, h.1@)),
            body: self.body@,
        }
    }
}

/// The headers of a served asset: its content type, then the headers that
/// open it to other origins.
pub open spec fn asset_headers(content_type: Seq<char>) -> Seq<(Seq<char>, Seq<char>)> {
    seq![
        ("Content-Type"@, content_type),
        ("Access-Control-Allow-Origin"@, "*"@),
        ("Access-Control-Allow-Methods"@, "GET, POST, OPTIONS"@),
        ("Access-Control-Allow-Headers"@, "Content-Type"@),
        ("Cross-Origin-Opener-Policy"@, "same-origin"@),
        ("Cross-Origin-Embedder-Policy"@, "require-corp"@),
    ]
}

/// The answer of the document source: the document as HTML, or status 500
/// with nothing where it could not be loaded.
pub open spec fn document_answer(loaded: Option<Seq<u8>>) -> AssetResponseView {
    match loaded {
        Some(content) => AssetResponseView {
            status: 200,
            headers: seq![("Content-Type"@, "text/html"@)],
            body: content,
        },
        None => AssetResponseView { status: 500, headers: Seq::empty(), body: Seq::empty() },
    }
}

/// The answer of the static-asset source: the asset under its content type
/// and the cross-origin headers, or status 404 with nothing where there is no
/// route or the file could not be loaded.
pub open spec fn asset_answer(
    content_type: Option<Seq<char>>,
    loaded: Option<Seq<u8>>,
) -> AssetResponseView {
    match (content_type, loaded) {
        (Some(kind), Some(content)) => AssetResponseView {
            status: 200,
            headers: asset_headers(kind),
            body: content,
        },
        _ => AssetResponseView { status: 404, headers: Seq::empty(), body: Seq::empty() },
    }
}

/// The bytes of an optional load.
pub open spec fn optional_bytes(loaded: Option<Vec<u8>>) -> Option<Seq<u8>> {
    match loaded {
        Some(content) => Some(content@),
        None => None,
    }
}

/// The content type of an optional route.
pub open spec fn optional_kind(route: Option<AssetRoute>) -> Option<Seq<char>> {
    match route {
        Some(r) => Some(r.content_type@),
        None => None,
    }
}

fn header(name: &str, value: &str) -> (h: (String, String))
    ensures
        h.0@ == name@,
        h.1@ == value@,
{
    (String::from_str(name), String::from_str(value))
}

impl AssetResponse {
    /// An answer without headers or body.
    pub fn empty(status: u16) -> (r: AssetResponse)
        ensures
            r@ == (AssetResponseView {
                status: status as nat,
                headers: Seq::empty(),
                body: Seq::empty(),
            }),
    {
        let r = AssetResponse { status, headers: Vec::new(), body: Vec::new() };
        assert(r@.headers =~= Seq::empty());
        r
    }

    /// Answers a request to the document source with what was loaded.
    pub fn document(loaded: Option<Vec<u8>>) -> (r: AssetResponse)
        ensures
            r@ == document_answer(optional_bytes(loaded)),
    {
        match loaded {
            Some(content) => {
                let mut headers: Vec<(String, String)> = Vec::new();
                headers.push(header("Content-Type", "text/html"));
                let r = AssetResponse { status: 200, headers, body: content };
                assert(r@.headers =~= seq![("Content-Type"@, "text/html"@)]);
                r
            },
            None => AssetResponse::empty(500),
        }
    }

    /// Answers a request to the static-asset source with what was loaded from
    /// the file of its route.
    pub fn asset(route: Option<AssetRoute>, loaded: Option<Vec<u8>>) -> (r: AssetResponse)
        ensures
            r@ == asset_answer(optional_kind(route), optional_bytes(loaded)),
    {
        match (route, loaded) {
            (Some(found), Some(content)) => {
                let mut headers: Vec<(String, String)> = Vec::new();
                headers.push(header("Content-Type", found.content_type));
                headers.push(header("Access-Control-Allow-Origin", "*"));
                headers.push(header("Access-Control-Allow-Methods", "GET, POST, OPTIONS"));
                headers.push(header("Access-Control-Allow-Headers", "Content-Type"));
                headers.push(header("Cross-Origin-Opener-Policy", "same-origin"));
                headers.push(header("Cross-Origin-Embedder-Policy", "require-corp"));
                let r = AssetResponse { status: 200, headers, body: content };
                assert(r@.headers =~= asset_headers(found.content_type@));
                r
            },
            _ => AssetResponse::empty(404),
        }
    }
}

} // verus!
