//! Colours and the pair of colours that styles one panel.

use vstd::prelude::*;

verus! {

/// An opaque colour with eight bits per channel.
#[derive(Clone, Copy, Debug, PartialEq, Eq, Structural)]
pub struct Color {
    pub r: u8,
    pub g: u8,
    pub b: u8,
}

/// Background and foreground colour of one panel.
#[derive(Clone, Copy, Debug, PartialEq, Eq, Structural)]
pub struct PlotStyle {
    pub bg: Color,
    pub fg: Color,
}

/// `plotters::style::BLACK`, which is `RGBColor(0, 0, 0)`.
#[verifier::external_body]
pub(crate) fn black() -> (c: Color)
    ensures
        c == (Color { r: 0, g: 0, b: 0 }),
{
    let plotters::style::RGBColor(r, g, b) = plotters::style::BLACK;
    Color { r, g, b }
}

/// `plotters::style::WHITE`, which is `RGBColor(255, 255, 255)`.
#[verifier::external_body]
pub(crate) fn white() -> (c: Color)
    ensures
        c == (Color { r: 255, g: 255, b: 255 }),
{
    let plotters::style::RGBColor(r, g, b) = plotters::style::WHITE;
    Color { r, g, b }
}

/// `plotters::style::full_palette::GREY_100`, which is `RGBColor(245, 245, 245)`.
#[verifier::external_body]
pub(crate) fn grey_100() -> (c: Color)
    ensures
        c == (Color { r: 245, g: 245, b: 245 }),
{
    let plotters::style::RGBColor(r, g, b) = plotters::style::full_palette::GREY_100;
    Color { r, g, b }
}

/// `plotters::style::full_palette::GREY_300`, which is `RGBColor(224, 224, 224)`.
#[verifier::external_body]
pub(crate) fn grey_300() -> (c: Color)
    ensures
        c == (Color { r: 224, g: 224, b: 224 }),
{
    let plotters::style::RGBColor(r, g, b) = plotters::style::full_palette::GREY_300;
    Color { r, g, b }
}

/// `plotters::style::full_palette::GREY_600`, which is `RGBColor(117, 117, 117)`.
#[verifier::external_body]
pub(crate) fn grey_600() -> (c: Color)
    ensures
        c == (Color { r: 117, g: 117, b: 117 }),
{
    let plotters::style::RGBColor(r, g, b) = plotters::style::full_palette::GREY_600;
    Color { r, g, b }
}

} // verus!
