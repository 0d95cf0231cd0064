//! The QR symbol and the calls into `fast_qr` that make and draw it.
//!
//! The symbol is held as plain values: the side of the square grid and one
//! `bool` per module, row by row. Computing the symbol from a text and drawing
//! a symbol are `fast_qr`'s work; the functions that call it state what its
//! source shows and are not proved.

use fast_qr::convert::image::ImageBuilder;
use fast_qr::convert::svg::SvgBuilder;
use fast_qr::convert::{Builder, Shape};
use fast_qr::qr::QRCodeError;
use fast_qr::{Module, QRBuilder, QRCode};
use vstd::prelude::*;

verus! {

/// Side of the smallest QR symbol, in modules.
pub const MIN_SIDE: usize = 21;

/// Side of the largest QR symbol, in modules.
pub const MAX_SIDE: usize = 177;

/// Smallest width, in pixels, that a raster image is asked in.
pub const MIN_RASTER_WIDTH: u32 = 64;

/// Largest width, in pixels, that a raster image is asked in.
pub const MAX_RASTER_WIDTH: u32 = 4096;

/// A QR symbol: a square grid of dark and light modules.
#[derive(Clone, Debug, PartialEq, Eq)]
pub struct Symbol {
    /// Modules on each side of the grid.
    pub size: usize,
    /// The modules row by row, `true` for a dark one.
    pub modules: Vec<bool>,
}

/// Why a text has no QR symbol.
#[derive(Clone, Copy, Debug, PartialEq, Eq, Structural)]
pub enum EncodeError {
    /// The text is longer than the largest symbol holds.
    DataTooLong,
    /// The symbol version that was asked for is too small for the text.
    VersionTooSmall,
}

/// How a single dark module is drawn.
#[derive(Clone, Copy, Debug, PartialEq, Eq, Structural)]
pub enum ModuleShape {
    Square,
    Circle,
    RoundedSquare,
    Vertical,
    Horizontal,
    Diamond,
}

/// Whether `size` is the side of a QR symbol: 21 modules for the first
/// version and four more for each of the forty versions.
pub open spec fn is_symbol_side(size: int) -> bool {
    MIN_SIDE <= size <= MAX_SIDE && (size - 17) % 4 == 0
}

/// Whether a grid of `size` by `size` modules is a QR symbol's.
pub open spec fn is_symbol_grid(size: int, modules: Seq<bool>) -> bool {
    is_symbol_side(size) && modules.len() == size * size
}

/// The symbol that `fast_qr` computes for a text, as the side of its grid and
/// its modules row by row, or `None` where the text has no symbol.
pub uninterp spec fn symbol_of_text(text: Seq<char>) -> Option<(int, Seq<bool>)>;

/// The glyph grid that `fast_qr` prints for a symbol.
pub uninterp spec fn glyphs_of_symbol(size: int, modules: Seq<bool>) -> Seq<char>;

/// The SVG document that `fast_qr` draws of a symbol in a module shape.
pub uninterp spec fn svg_of_symbol(shape: ModuleShape, size: int, modules: Seq<bool>) -> Seq<char>;

impl Symbol {
    /// The symbol's invariant: a grid of a QR symbol's size, fully filled.
    pub open spec fn wf(&self) -> bool {
        is_symbol_grid(self.size as int, self.modules@)
    }

    /// Whether the symbol is well formed.
    pub fn is_well_formed(&self) -> (ok: bool)
        ensures
            ok == self.wf(),
    {
        if self.size < MIN_SIDE || self.size > MAX_SIDE {
            return false;
        }
        assert(self.size * self.size <= 177 * 177) by (nonlinear_arith)
            requires
                0 <= self.size <= 177,
        ;
        (self.size - 17) % 4 == 0 && self.modules.len() == self.size * self.size
    }
}

/// Calls `fast_qr::QRBuilder::new(text).build()`, with no version, level,
/// mode or mask forced, and copies the grid out of the `QRCode`.
///
/// Believed of it: the outcome depends on the text alone; a symbol that is
/// built has a QR symbol's side and one module for each cell of its grid.
#[verifier::external_body]
pub(crate) fn encode_text(text: &str) -> (res: Result<Symbol, EncodeError>)
    ensures
        match res {
            Ok(symbol) => symbol.wf() && symbol_of_text(text@) == Some(
                (symbol.size as int, symbol.modules@),
            ),
            Err(_) => symbol_of_text(text@) is None,
        },
{
    match QRBuilder::new(text).build() {
        Ok(qr) => Ok(
            Symbol {
                size: qr.size,
                modules: qr.data[..qr.size * qr.size].iter().map(|m| m.value()).collect(),
            },
        ),
        Err(QRCodeError::EncodedData) => Err(EncodeError::DataTooLong),
        Err(QRCodeError::SpecifiedVersion) => Err(EncodeError::VersionTooSmall),
    }
}

/// Calls `fast_qr::QRCode::to_str` on the symbol's grid.
///
/// Believed of it: the text depends on the grid alone and is never empty (it
/// opens with the top margin).
#[verifier::external_body]
pub(crate) fn glyph_text(symbol: &Symbol) -> (text: String)
    requires
        symbol.wf(),
    ensures
        text@ == glyphs_of_symbol(symbol.size as int, symbol.modules@),
        text@.len() > 0,
{
    let mut qr = QRCode::default(symbol.size);
    for (cell, dark) in qr.data.iter_mut().zip(symbol.modules.iter()) {
        *cell = Module::data(*dark);
    }
    qr.to_str()
}

/// Calls `fast_qr::convert::svg::SvgBuilder::to_str` on the symbol's grid,
/// with a default builder that was given the module shape.
///
/// Believed of it: the document depends on the shape and the grid alone.
#[verifier::external_body]
pub(crate) fn svg_text(symbol: &Symbol, shape: ModuleShape) -> (text: String)
    requires
        symbol.wf(),
    ensures
        text@ == svg_of_symbol(shape, symbol.size as int, symbol.modules@),
{
    let mut qr = QRCode::default(symbol.size);
    for (cell, dark) in qr.data.iter_mut().zip(symbol.modules.iter()) {
        *cell = Module::data(*dark);
    }
    let shape = match shape {
        ModuleShape::Square => Shape::Square,
        ModuleShape::Circle => Shape::Circle,
        ModuleShape::RoundedSquare => Shape::RoundedSquare,
        ModuleShape::Vertical => Shape::Vertical,
        ModuleShape::Horizontal => Shape::Horizontal,
        ModuleShape::Diamond => Shape::Diamond,
    };
    SvgBuilder::default().shape(shape).to_str(&qr)
}

/// Calls `fast_qr::convert::image::ImageBuilder::to_bytes` on the symbol's
/// grid, with a default builder that was given the module shape and the width
/// to fit, and drops the error's text.
///
/// Nothing is believed of the bytes: they come out of a renderer that computes
/// in floating point. The width is kept to a range in which the pixel buffer
/// can be made.
#[verifier::external_body]
pub(crate) fn png_bytes(symbol: &Symbol, shape: ModuleShape, width: u32) -> (image: Option<Vec<u8>>)
    requires
        symbol.wf(),
        MIN_RASTER_WIDTH <= width <= MAX_RASTER_WIDTH,
{
    let mut qr = QRCode::default(symbol.size);
    for (cell, dark) in qr.data.iter_mut().zip(symbol.modules.iter()) {
        *cell = Module::data(*dark);
    }
    let shape = match shape {
        ModuleShape::Square => Shape::Square,
        ModuleShape::Circle => Shape::Circle,
        ModuleShape::RoundedSquare => Shape::RoundedSquare,
        ModuleShape::Vertical => Shape::Vertical,
        ModuleShape::Horizontal => Shape::Horizontal,
        ModuleShape::Diamond => Shape::Diamond,
    };
    ImageBuilder::default().shape(shape).fit_width(width).to_bytes(&qr).ok()
}

} // verus!
