//! The pixel buffer that is drawn into: a `slint::SharedPixelBuffer` of RGB
//! pixels, seen by the contracts as a width, a height and a run of bytes.

use vstd::prelude::*;
use crate::color::Color;

verus! {

/// `rgb::RGB`, the pixel type of the buffer. Nothing is read from a value
/// of it.
#[verifier::external_type_specification]
#[verifier::external_body]
#[verifier::reject_recursive_types(T)]
pub struct ExRgb<T>(rgb::RGB<T>);

/// `slint::SharedPixelBuffer`, known to the contracts through
/// `buffer_width`, `buffer_height` and `buffer_bytes`.
#[verifier::external_type_specification]
#[verifier::external_body]
#[verifier::reject_recursive_types(Pixel)]
pub struct ExSharedPixelBuffer<Pixel>(slint::SharedPixelBuffer<Pixel>);

/// Width of the buffer in pixels, as `SharedPixelBuffer::width` reports it.
pub uninterp spec fn buffer_width(buf: slint::SharedPixelBuffer<rgb::RGB<u8>>) -> nat;

/// Height of the buffer in pixels, as `SharedPixelBuffer::height` reports it.
pub uninterp spec fn buffer_height(buf: slint::SharedPixelBuffer<rgb::RGB<u8>>) -> nat;

/// The bytes of the buffer as `SharedPixelBuffer::as_bytes` returns them:
/// row after row, three bytes (red, green, blue) per pixel.
pub uninterp spec fn buffer_bytes(buf: slint::SharedPixelBuffer<rgb::RGB<u8>>) -> Seq<u8>;

/// Largest width or height of a canvas that can be drawn into.
pub const MAX_SIDE: u32 = 0x3fff_ffff;

/// Largest number of bytes in a canvas that can be drawn into.
pub const MAX_BYTES: u32 = 0x7fff_ffff;

/// Whether a canvas of this size can be drawn into: the backend computes
/// pixel positions and byte offsets in 32-bit signed arithmetic.
pub open spec fn spec_canvas_fits(width: int, height: int) -> bool {
    &&& 0 <= width <= MAX_SIDE
    &&& 0 <= height <= MAX_SIDE
    &&& 3 * width * height <= MAX_BYTES
}

/// Whether a canvas of this size can be drawn into.
pub fn canvas_fits(width: u32, height: u32) -> (fits: bool)
    ensures
        fits == spec_canvas_fits(width as int, height as int),
{
    if width > MAX_SIDE || height > MAX_SIDE {
        return false;
    }
    assert(width * height <= 0x3fff_ffff * 0x3fff_ffff) by (nonlinear_arith)
        requires
            width <= 0x3fff_ffff,
            height <= 0x3fff_ffff,
    ;
    let area: u64 = (width as u64) * (height as u64);
    assert(3 * (width as int) * (height as int) == 3 * (width * height)) by (nonlinear_arith);
    3 * area <= MAX_BYTES as u64
}

/// The colour of the pixel in column `x` of row `y`.
pub open spec fn spec_pixel(buf: slint::SharedPixelBuffer<rgb::RGB<u8>>, x: int, y: int) -> Color {
    let at = 3 * (y * buffer_width(buf) + x);
    Color { r: buffer_bytes(buf)[at], g: buffer_bytes(buf)[at + 1], b: buffer_bytes(buf)[at + 2] }
}

/// `SharedPixelBuffer::new`: a buffer of the given size in which every pixel
/// has the default value of `RGB<u8>`, all channels zero.
#[verifier::external_body]
pub(crate) fn new_buffer(width: u32, height: u32) -> (buf: slint::SharedPixelBuffer<rgb::RGB<u8>>)
    requires
        spec_canvas_fits(width as int, height as int),
    ensures
        buffer_width(buf) == width,
        buffer_height(buf) == height,
        buffer_bytes(buf) == Seq::new((3 * width * height) as nat, |i: int| 0u8),
{
    slint::SharedPixelBuffer::new(width, height)
}

/// `SharedPixelBuffer::width`.
#[verifier::external_body]
pub(crate) fn width_of(buf: &slint::SharedPixelBuffer<rgb::RGB<u8>>) -> (width: u32)
    ensures
        width == buffer_width(*buf),
{
    buf.width()
}

/// `SharedPixelBuffer::height`.
#[verifier::external_body]
pub(crate) fn height_of(buf: &slint::SharedPixelBuffer<rgb::RGB<u8>>) -> (height: u32)
    ensures
        height == buffer_height(*buf),
{
    buf.height()
}

/// `Clone::clone` of `SharedPixelBuffer`: the copy has the size and the
/// pixels of the buffer it was made from.
#[verifier::external_body]
pub(crate) fn clone_buffer(buf: &slint::SharedPixelBuffer<rgb::RGB<u8>>) -> (copy: slint::SharedPixelBuffer<rgb::RGB<u8>>)
    ensures
        buffer_width(copy) == buffer_width(*buf),
        buffer_height(copy) == buffer_height(*buf),
        buffer_bytes(copy) == buffer_bytes(*buf),
{
    buf.clone()
}

} // verus!
