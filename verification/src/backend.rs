//! The drawing primitives of `plotters`' bitmap backend, applied to a
//! `slint` pixel buffer. Each primitive opens a backend on the buffer's
//! bytes, draws once and commits.

use vstd::prelude::*;
use plotters::backend::{BitMapBackend, DrawingBackend};
use plotters::style::{IntoFont, RGBColor, TextStyle};
use crate::canvas::{buffer_bytes, buffer_height, buffer_width, spec_canvas_fits, spec_pixel, MAX_SIDE};
use crate::color::Color;

verus! {

/// Largest font size, in points, that text is drawn or measured with.
pub const MAX_FONT_SIZE: u32 = 128;

/// Largest number of characters in one piece of text that is drawn.
pub const MAX_TEXT_LEN: usize = 16;

/// Whether the pixel `(x, y)` lies in the rectangle spanned by two corners,
/// whichever way round they are given. The rectangle holds its upper and
/// left edge and not its lower and right edge.
pub open spec fn spec_in_rect(x: int, y: int, a: (i32, i32), b: (i32, i32)) -> bool {
    &&& a.0 <= x || b.0 <= x
    &&& x < a.0 || x < b.0
    &&& a.1 <= y || b.1 <= y
    &&& y < a.1 || y < b.1
}

/// `BitMapBackend::with_buffer` on the buffer's bytes, then
/// `DrawingBackend::draw_rect` with an opaque colour and `fill` set, then
/// `present`. The backend clips the rectangle to the canvas, sets every pixel
/// inside it to the colour and leaves all other pixels alone; on a memory
/// buffer neither the fill nor the commit reports an error.
#[verifier::external_body]
pub(crate) fn fill_rect(
    buf: &mut slint::SharedPixelBuffer<rgb::RGB<u8>>,
    size: (u32, u32),
    upper_left: (i32, i32),
    bottom_right: (i32, i32),
    color: Color,
) -> (done: bool)
    requires
        size.0 == buffer_width(*old(buf)),
        size.1 == buffer_height(*old(buf)),
        spec_canvas_fits(size.0 as int, size.1 as int),
    ensures
        done,
        buffer_width(*final(buf)) == buffer_width(*old(buf)),
        buffer_height(*final(buf)) == buffer_height(*old(buf)),
        buffer_bytes(*final(buf)).len() == buffer_bytes(*old(buf)).len(),
        forall|x: int, y: int|
            0 <= x < size.0 && 0 <= y < size.1 ==> #[trigger] spec_pixel(*final(buf), x, y) == if spec_in_rect(
                x,
                y,
                upper_left,
                bottom_right,
            ) {
                color
            } else {
                spec_pixel(*old(buf), x, y)
            },
{
    let mut backend = BitMapBackend::with_buffer(buf.make_mut_bytes(), size);
    let paint = RGBColor(color.r, color.g, color.b);
    let drawn = backend.draw_rect(upper_left, bottom_right, &paint, true);
    drawn.is_ok() && backend.present().is_ok()
}

/// `BitMapBackend::with_buffer` on the buffer's bytes, then
/// `DrawingBackend::draw_text` in the named font, anchored at its upper left
/// corner, then `present`. Which pixels the glyphs cover depends on the fonts
/// of the machine, and so does whether the font can be loaded: of the result
/// nothing is said. The backend rasterises each glyph into a square as high
/// as the font size, set at most that far above the anchor, so the rows of
/// pixels that lie further than the font size above or below the anchor are
/// left alone. The bounds keep the backend's 32-bit pixel arithmetic in
/// range.
#[verifier::external_body]
pub(crate) fn draw_text(
    buf: &mut slint::SharedPixelBuffer<rgb::RGB<u8>>,
    size: (u32, u32),
    family: &str,
    font_size: u32,
    color: Color,
    text: &str,
    x: i32,
    y: i32,
) -> (done: bool)
    requires
        size.0 == buffer_width(*old(buf)),
        size.1 == buffer_height(*old(buf)),
        spec_canvas_fits(size.0 as int, size.1 as int),
        font_size <= MAX_FONT_SIZE,
        text@.len() <= MAX_TEXT_LEN,
        -MAX_SIDE <= x <= MAX_SIDE,
        -MAX_SIDE <= y <= MAX_SIDE,
    ensures
        buffer_width(*final(buf)) == buffer_width(*old(buf)),
        buffer_height(*final(buf)) == buffer_height(*old(buf)),
        buffer_bytes(*final(buf)).len() == buffer_bytes(*old(buf)).len(),
        forall|px: int, py: int|
            0 <= px < size.0 && 0 <= py < size.1 && (py < y - font_size || py >= y + font_size)
                ==> #[trigger] spec_pixel(*final(buf), px, py) == spec_pixel(*old(buf), px, py),
{
    let mut backend = BitMapBackend::with_buffer(buf.make_mut_bytes(), size);
    let ink = RGBColor(color.r, color.g, color.b);
    let style = TextStyle::from((family, font_size).into_font()).color(&ink);
    let drawn = backend.draw_text(text, &style, (x, y));
    drawn.is_ok() && backend.present().is_ok()
}

/// `DrawingBackend::estimate_text_size` of a one-pixel `BitMapBackend`: the
/// width and height that the text takes in the named font, or nothing where
/// the font cannot be loaded. The numbers depend on the fonts of the machine.
#[verifier::external_body]
pub(crate) fn measure_text(family: &str, font_size: u32, text: &str) -> (measured: Option<(u32, u32)>)
{
    let mut pixel = [0u8; 3];
    let backend = BitMapBackend::with_buffer(&mut pixel, (1, 1));
    let style = TextStyle::from((family, font_size).into_font());
    backend.estimate_text_size(text, &style).ok()
}

} // verus!
