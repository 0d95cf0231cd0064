//! The renderer selector: from a route and a body to the bytes of a QR code.
//!
//! The body is decoded as UTF-8, the text is encoded as a QR symbol, and the
//! symbol is drawn by the renderer that the route names. Each step that fails
//! ends the rendering with its own kind of failure, and nothing is drawn from
//! a body that did not decode or a text that has no symbol.

use crate::response::{failure_outcome, success_outcome};
use crate::response::{ContentType, ErrorKind, RenderOutcome, RenderOutcomeView};
use crate::route::Route;
use crate::symbol::{encode_text, glyph_text, png_bytes, svg_text};
use crate::symbol::{glyphs_of_symbol, is_symbol_grid, svg_of_symbol, symbol_of_text};
use crate::symbol::{ModuleShape, Symbol};
use vstd::prelude::*;
use vstd::string::StrSliceExecFns;
use vstd::string::StringSliceAdditionalSpecFns;
use vstd::utf8::{decode_utf8, encode_scalar, encode_utf8, encode_utf8_decode_utf8, valid_utf8};

verus! {

/// The width of a raster image, in pixels.
pub const RASTER_WIDTH: u32 = 600;

/// The ways in which a symbol is drawn.
#[derive(Clone, Copy, Debug, PartialEq, Eq, Structural)]
pub enum Renderer {
    /// A grid of block glyphs, as plain text.
    Glyphs,
    /// A vector graphic.
    Vector,
    /// A raster image.
    Raster,
}

/// The shape in which the vector and raster renderers draw a module.
pub open spec fn drawn_shape() -> ModuleShape {
    ModuleShape::RoundedSquare
}

/// The renderer that a route names, if it is a build route.
pub open spec fn renderer_of(route: Route) -> Option<Renderer> {
    match route {
        Route::BuildText => Some(Renderer::Glyphs),
        Route::BuildVector => Some(Renderer::Vector),
        Route::BuildRaster => Some(Renderer::Raster),
        Route::Instructions | Route::NotFound => None,
    }
}

/// What the raster renderer's result comes to: its bytes as a PNG image, or a
/// format failure where it gave none.
pub open spec fn raster_outcome(image: Option<Seq<u8>>) -> RenderOutcomeView {
    match image {
        Some(bytes) => success_outcome(ContentType::Png, bytes),
        None => failure_outcome(ErrorKind::Format),
    }
}

/// What drawing a grid comes to. A grid that is no QR symbol's is a format
/// failure. `image` is what the raster renderer gives for the grid; the other
/// renderers do not look at it.
pub open spec fn symbol_outcome(
    renderer: Renderer,
    size: int,
    modules: Seq<bool>,
    image: Option<Seq<u8>>,
) -> RenderOutcomeView {
    if !is_symbol_grid(size, modules) {
        failure_outcome(ErrorKind::Format)
    } else {
        match renderer {
            Renderer::Glyphs => success_outcome(
                ContentType::TextPlain,
                encode_utf8(glyphs_of_symbol(size, modules)),
            ),
            Renderer::Vector => success_outcome(
                ContentType::SvgXml,
                encode_utf8(svg_of_symbol(drawn_shape(), size, modules)),
            ),
            Renderer::Raster => raster_outcome(image),
        }
    }
}

/// What rendering a text comes to: an encoding failure where the text has no
/// symbol, else what drawing its symbol comes to.
pub open spec fn text_outcome(renderer: Renderer, text: Seq<char>, image: Option<Seq<u8>>)
    -> RenderOutcomeView {
    match symbol_of_text(text) {
        Some((size, modules)) => symbol_outcome(renderer, size, modules, image),
        None => failure_outcome(ErrorKind::Encoding),
    }
}

/// What rendering a body comes to: a text failure where the body is not
/// UTF-8, else what rendering the text it holds comes to.
pub open spec fn body_outcome(renderer: Renderer, body: Seq<u8>, image: Option<Seq<u8>>)
    -> RenderOutcomeView {
    if valid_utf8(body) {
        text_outcome(renderer, decode_utf8(body), image)
    } else {
        failure_outcome(ErrorKind::InvalidText)
    }
}

/// Whether an outcome is a representation with at least one byte.
pub open spec fn has_bytes(outcome: RenderOutcomeView) -> bool {
    outcome matches RenderOutcomeView::Success { bytes, .. } && bytes.len() > 0
}

/// A text that holds a character is encoded in at least one byte.
pub proof fn lemma_encoding_not_empty(text: Seq<char>)
    requires
        text.len() > 0,
    ensures
        encode_utf8(text).len() > 0,
{
    assert(encode_scalar(text[0] as u32).len() > 0);
}

/// The image in an option of bytes, as mathematical values.
pub open spec fn image_view(image: Option<Vec<u8>>) -> Option<Seq<u8>> {
    match image {
        Some(bytes) => Some(bytes@),
        None => None,
    }
}

/// Calls `core::str::from_utf8`, and drops the error's position.
///
/// Believed of it: the bytes are taken as a string exactly when they are
/// UTF-8, and the string then holds those bytes.
#[verifier::external_body]
fn utf8_text(bytes: &[u8]) -> (text: Option<&str>)
    ensures
        text is Some <==> valid_utf8(bytes@),
        text is Some ==> text->Some_0.spec_bytes() == bytes@,
{
    core::str::from_utf8(bytes).ok()
}

/// Selects the renderer that a route names: `None` for a route that renders
/// nothing.
pub fn select(route: Route) -> (renderer: Option<Renderer>)
    ensures
        renderer == renderer_of(route),
{
    match route {
        Route::BuildText => Some(Renderer::Glyphs),
        Route::BuildVector => Some(Renderer::Vector),
        Route::BuildRaster => Some(Renderer::Raster),
        Route::Instructions | Route::NotFound => None,
    }
}

/// Decodes a body as UTF-8 text: `None` where it is not UTF-8.
pub fn decode(body: &[u8]) -> (text: Option<&str>)
    ensures
        text is Some <==> valid_utf8(body@),
        text is Some ==> text->Some_0@ == decode_utf8(body@),
{
    let text = utf8_text(body);
    proof {
        if let Some(s) = text {
            encode_utf8_decode_utf8(s@);
        }
    }
    text
}

/// Turns what the raster renderer gave into an outcome.
pub fn finish_raster(image: Option<Vec<u8>>) -> (outcome: RenderOutcome)
    ensures
        outcome@ == raster_outcome(image_view(image)),
{
    match image {
        Some(bytes) => RenderOutcome::success(ContentType::Png, bytes),
        None => RenderOutcome::failure(ErrorKind::Format),
    }
}

/// Draws a symbol with the given renderer. A symbol that is not well formed is
/// not handed to a renderer: it is a format failure.
pub fn render_symbol(renderer: Renderer, symbol: &Symbol) -> (outcome: RenderOutcome)
    ensures
        exists|image: Option<Seq<u8>>|
            outcome@ == symbol_outcome(renderer, symbol.size as int, symbol.modules@, image),
        renderer != Renderer::Raster ==> outcome@ == symbol_outcome(
            renderer,
            symbol.size as int,
            symbol.modules@,
            None,
        ),
        renderer == Renderer::Glyphs && outcome@ is Success ==> has_bytes(outcome@),
{
    if !symbol.is_well_formed() {
        let outcome = RenderOutcome::failure(ErrorKind::Format);
        assert(outcome@ == symbol_outcome(renderer, symbol.size as int, symbol.modules@, None));
        return outcome;
    }
    match renderer {
        Renderer::Glyphs => {
            let glyphs = glyph_text(symbol);
            proof {
                lemma_encoding_not_empty(glyphs@);
            }
            let outcome = RenderOutcome::success(
                ContentType::TextPlain,
                glyphs.as_str().as_bytes_vec(),
            );
            assert(outcome@ == symbol_outcome(renderer, symbol.size as int, symbol.modules@, None));
            outcome
        },
        Renderer::Vector => {
            let svg = svg_text(symbol, ModuleShape::RoundedSquare);
            let outcome = RenderOutcome::success(ContentType::SvgXml, svg.as_str().as_bytes_vec());
            assert(outcome@ == symbol_outcome(renderer, symbol.size as int, symbol.modules@, None));
            outcome
        },
        Renderer::Raster => {
            let image = png_bytes(symbol, ModuleShape::RoundedSquare, RASTER_WIDTH);
            let ghost given = image_view(image);
            let outcome = finish_raster(image);
            assert(outcome@ == symbol_outcome(
                renderer,
                symbol.size as int,
                symbol.modules@,
                given,
            ));
            outcome
        },
    }
}

/// Renders a text: encodes it as a QR symbol and draws the symbol.
pub fn render_text(renderer: Renderer, text: &str) -> (outcome: RenderOutcome)
    ensures
        exists|image: Option<Seq<u8>>| outcome@ == text_outcome(renderer, text@, image),
        renderer != Renderer::Raster ==> outcome@ == text_outcome(renderer, text@, None),
        renderer == Renderer::Glyphs && outcome@ is Success ==> has_bytes(outcome@),
{
    match encode_text(text) {
        Ok(symbol) => {
            let outcome = render_symbol(renderer, &symbol);
            proof {
                let image = choose|image: Option<Seq<u8>>|
                    outcome@ == symbol_outcome(
                        renderer,
                        symbol.size as int,
                        symbol.modules@,
                        image,
                    );
                assert(outcome@ == text_outcome(renderer, text@, image));
            }
            outcome
        },
        Err(_) => {
            let outcome = RenderOutcome::failure(ErrorKind::Encoding);
            assert(outcome@ == text_outcome(renderer, text@, None));
            outcome
        },
    }
}

/// Renders a body: decodes it as UTF-8, encodes the text as a QR symbol and
/// draws the symbol.
pub fn render(renderer: Renderer, body: &[u8]) -> (outcome: RenderOutcome)
    ensures
        exists|image: Option<Seq<u8>>| outcome@ == body_outcome(renderer, body@, image),
        renderer != Renderer::Raster ==> outcome@ == body_outcome(renderer, body@, None),
        renderer == Renderer::Glyphs && outcome@ is Success ==> has_bytes(outcome@),
{
    match decode(body) {
        Some(text) => {
            let outcome = render_text(renderer, text);
            proof {
                let image = choose|image: Option<Seq<u8>>|
                    outcome@ == text_outcome(renderer, text@, image);
                assert(outcome@ == body_outcome(renderer, body@, image));
            }
            outcome
        },
        None => {
            let outcome = RenderOutcome::failure(ErrorKind::InvalidText);
            assert(outcome@ == body_outcome(renderer, body@, None));
            outcome
        },
    }
}

} // verus!
