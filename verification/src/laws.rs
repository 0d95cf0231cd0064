//! What holds of every request, proved from the definitions of the responses.

use crate::dispatch::response_of;
use crate::guard::{size_accepted, PAYLOAD_CEILING};
use crate::render::{renderer_of, Renderer};
use crate::response::{full_response, instructions_response, not_found_response};
use crate::response::{too_large_response, ContentType};
use crate::response::{STATUS_BAD_REQUEST, STATUS_NOT_FOUND, STATUS_OK};
use crate::response::{STATUS_PAYLOAD_TOO_LARGE, STATUS_UNPROCESSABLE};
use crate::route::{route_of, Method, Route};
use crate::symbol::{glyphs_of_symbol, is_symbol_grid, symbol_of_text};
use vstd::prelude::*;
use vstd::utf8::{decode_utf8, encode_utf8, valid_utf8};

verus! {

/// A body posted to `/build` that is within the ceiling, is UTF-8 and holds a
/// text that has a QR symbol is answered with status 200 and the symbol's
/// glyph grid as plain text.
pub proof fn lemma_text_build_succeeds(
    declared: Option<u64>,
    body: Seq<u8>,
    image: Option<Seq<u8>>,
    size: int,
    modules: Seq<bool>,
)
    requires
        size_accepted(declared),
        body.len() <= PAYLOAD_CEILING,
        valid_utf8(body),
        symbol_of_text(decode_utf8(body)) == Some((size, modules)),
        is_symbol_grid(size, modules),
    ensures
        response_of(Method::Post, "/build"@, declared, body, image) == full_response(
            STATUS_OK,
            ContentType::TextPlain,
            encode_utf8(glyphs_of_symbol(size, modules)),
        ),
{
}

/// The same request is answered in the same way every time: but for the
/// raster route, the response is fixed by the method, the path, the declared
/// size and the body.
pub proof fn lemma_response_repeatable(
    method: Method,
    path: Seq<char>,
    declared: Option<u64>,
    body: Seq<u8>,
    first: Option<Seq<u8>>,
    second: Option<Seq<u8>>,
)
    requires
        route_of(method, path) != Route::BuildRaster,
    ensures
        response_of(method, path, declared, body, first) == response_of(
            method,
            path,
            declared,
            body,
            second,
        ),
{
}

/// On every build route a body over the ceiling is answered with status 413,
/// and so is a declared size over the ceiling, whatever the body.
pub proof fn lemma_oversized_refused(
    method: Method,
    path: Seq<char>,
    declared: Option<u64>,
    body: Seq<u8>,
    image: Option<Seq<u8>>,
)
    requires
        route_of(method, path).is_build(),
        body.len() > PAYLOAD_CEILING || !size_accepted(declared),
    ensures
        response_of(method, path, declared, body, image) == too_large_response(),
        response_of(method, path, declared, body, image).status == STATUS_PAYLOAD_TOO_LARGE,
{
}

/// `GET /` is answered with status 200 and the usage text, whatever else the
/// request holds.
pub proof fn lemma_instructions_always(
    declared: Option<u64>,
    body: Seq<u8>,
    image: Option<Seq<u8>>,
)
    ensures
        response_of(Method::Get, "/"@, declared, body, image) == instructions_response(),
        response_of(Method::Get, "/"@, declared, body, image).status == STATUS_OK,
{
}

/// A request that is none of the four in the routing table is answered with
/// status 404 and an empty body.
pub proof fn lemma_unknown_route_not_found(
    method: Method,
    path: Seq<char>,
    declared: Option<u64>,
    body: Seq<u8>,
    image: Option<Seq<u8>>,
)
    requires
        !(method == Method::Get && path == "/"@),
        !(method == Method::Post && (path == "/build"@ || path == "/build/svg"@ || path
            == "/build/png"@)),
    ensures
        route_of(method, path) == Route::NotFound,
        response_of(method, path, declared, body, image) == not_found_response(),
        response_of(method, path, declared, body, image).status == STATUS_NOT_FOUND,
        response_of(method, path, declared, body, image).body.len() == 0,
{
}

/// On every build route a body within the ceiling that is not UTF-8 is
/// answered with status 400: neither a success nor a refusal for size.
pub proof fn lemma_invalid_text_rejected(
    method: Method,
    path: Seq<char>,
    declared: Option<u64>,
    body: Seq<u8>,
    image: Option<Seq<u8>>,
)
    requires
        route_of(method, path).is_build(),
        size_accepted(declared),
        body.len() <= PAYLOAD_CEILING,
        !valid_utf8(body),
    ensures
        response_of(method, path, declared, body, image).status == STATUS_BAD_REQUEST,
{
}

/// On every build route a text that has no QR symbol is answered with status
/// 422, whichever renderer was asked for.
pub proof fn lemma_unencodable_text_rejected(
    method: Method,
    path: Seq<char>,
    declared: Option<u64>,
    body: Seq<u8>,
    image: Option<Seq<u8>>,
)
    requires
        route_of(method, path).is_build(),
        size_accepted(declared),
        body.len() <= PAYLOAD_CEILING,
        valid_utf8(body),
        symbol_of_text(decode_utf8(body)) is None,
    ensures
        response_of(method, path, declared, body, image).status == STATUS_UNPROCESSABLE,
{
}

} // verus!
