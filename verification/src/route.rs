//! Routing: a request's method and path decide, by exact match, what is done.

use vstd::prelude::*;
use vstd::string::StringSliceAdditionalSpecFns;
use vstd::utf8::encode_utf8_decode_utf8;

verus! {

/// The request methods that the routing table tells apart.
#[derive(Clone, Copy, Debug, PartialEq, Eq, Structural)]
pub enum Method {
    Get,
    Post,
    Other,
}

/// What a request asks for.
#[derive(Clone, Copy, Debug, PartialEq, Eq, Structural)]
pub enum Route {
    /// The usage text.
    Instructions,
    /// The QR code of the body as a grid of glyphs.
    BuildText,
    /// The QR code of the body as a vector graphic.
    BuildVector,
    /// The QR code of the body as a raster image.
    BuildRaster,
    /// Anything the table does not list.
    NotFound,
}

/// The method that a method token names: `GET`, `POST`, or any other.
pub open spec fn method_of(token: Seq<char>) -> Method {
    if token == "GET"@ {
        Method::Get
    } else if token == "POST"@ {
        Method::Post
    } else {
        Method::Other
    }
}

/// The routing table. Paths match exactly: no prefixes, no wildcards.
pub open spec fn route_of(method: Method, path: Seq<char>) -> Route {
    if method == Method::Get && path == "/"@ {
        Route::Instructions
    } else if method == Method::Post && path == "/build"@ {
        Route::BuildText
    } else if method == Method::Post && path == "/build/svg"@ {
        Route::BuildVector
    } else if method == Method::Post && path == "/build/png"@ {
        Route::BuildRaster
    } else {
        Route::NotFound
    }
}

/// Whether two byte slices hold the same bytes.
pub fn bytes_eq(a: &[u8], b: &[u8]) -> (same: bool)
    ensures
        same == (a@ == b@),
{
    if a.len() != b.len() {
        return false;
    }
    let mut i: usize = 0;
    while i < a.len()
        invariant
            a@.len() == b@.len(),
            i <= a@.len(),
            forall|k: int| 0 <= k < i ==> a@[k] == b@[k],
        decreases a@.len() - i,
    {
        if a[i] != b[i] {
            return false;
        }
        i = i + 1;
    }
    assert(a@ =~= b@);
    true
}

/// Whether two strings hold the same characters.
pub fn str_eq(a: &str, b: &str) -> (same: bool)
    ensures
        same == (a@ == b@),
{
    let same = bytes_eq(a.as_bytes(), b.as_bytes());
    proof {
        encode_utf8_decode_utf8(a@);
        encode_utf8_decode_utf8(b@);
    }
    same
}

impl Method {
    /// Reads a method token as it stands on the request line.
    pub fn from_token(token: &str) -> (method: Method)
        ensures
            method == method_of(token@),
    {
        if str_eq(token, "GET") {
            Method::Get
        } else if str_eq(token, "POST") {
            Method::Post
        } else {
            Method::Other
        }
    }
}

impl Route {
    /// Whether the route reads the request body.
    pub open spec fn is_build(self) -> bool {
        self == Route::BuildText || self == Route::BuildVector || self == Route::BuildRaster
    }

    /// Whether the route reads the request body.
    pub fn reads_body(&self) -> (reads: bool)
        ensures
            reads == self.is_build(),
    {
        match self {
            Route::BuildText | Route::BuildVector | Route::BuildRaster => true,
            Route::Instructions | Route::NotFound => false,
        }
    }
}

/// Routes a request by its method and path.
pub fn route(method: Method, path: &str) -> (r: Route)
    ensures
        r == route_of(method, path@),
{
    match method {
        Method::Get => {
            if str_eq(path, "/") {
                Route::Instructions
            } else {
                Route::NotFound
            }
        },
        Method::Post => {
            if str_eq(path, "/build") {
                Route::BuildText
            } else if str_eq(path, "/build/svg") {
                Route::BuildVector
            } else if str_eq(path, "/build/png") {
                Route::BuildRaster
            } else {
                Route::NotFound
            }
        },
        Method::Other => Route::NotFound,
    }
}

} // verus!
