//! Geometry of the dump: the widths of the three panels and the position of
//! every cell, derived from the measured size of three pieces of text.

use vstd::prelude::*;
use crate::canvas::{canvas_fits, spec_canvas_fits};
use crate::color::{black, grey_100, grey_300, grey_600, white, Color, PlotStyle};

verus! {

/// Width of the hex panel: sixteen cells, each with a gap of one character
/// before it, and three more characters for the gap in the middle and the
/// padding at the end.
pub open spec fn spec_hex_view_width(char_width: int, hex_width: int) -> int {
    char_width * 16 + hex_width * 16 + char_width * 3
}

/// Width of the character panel: sixteen characters.
pub open spec fn spec_char_view_width(char_width: int) -> int {
    char_width * 16
}

/// Width of the canvas: the three panels and one character of padding.
pub open spec fn spec_total_width(char_width: int, hex_width: int, offset_width: int) -> int {
    offset_width + spec_hex_view_width(char_width, hex_width) + spec_char_view_width(char_width)
        + char_width
}

/// Height of the canvas.
pub open spec fn spec_total_height(char_height: int) -> int {
    char_height * 32
}

/// The style of the offset panel: `GREY_300` behind `GREY_600`.
pub open spec fn spec_offset_style() -> PlotStyle {
    PlotStyle { bg: Color { r: 224, g: 224, b: 224 }, fg: Color { r: 117, g: 117, b: 117 } }
}

/// The style of the hex panel: white behind black.
pub open spec fn spec_hex_style() -> PlotStyle {
    PlotStyle { bg: Color { r: 255, g: 255, b: 255 }, fg: Color { r: 0, g: 0, b: 0 } }
}

/// The style of the character panel: `GREY_100` behind black.
pub open spec fn spec_char_style() -> PlotStyle {
    PlotStyle { bg: Color { r: 245, g: 245, b: 245 }, fg: Color { r: 0, g: 0, b: 0 } }
}

/// Geometry and colours of one rendering.
#[derive(Clone, Copy, Debug)]
pub struct PlotConfig {
    /// Width of the canvas.
    pub width: u32,
    /// Height of the canvas.
    pub height: u32,
    /// Width of one character.
    pub char_width: u32,
    /// Height of one row of text.
    pub char_height: u32,
    /// Width of two hex digits.
    pub hex_width: u32,
    /// Width of the offset panel: eight hex digits.
    pub offset_width: u32,
    /// Width of the hex panel.
    pub hex_view_width: u32,
    /// Width of the character panel.
    pub char_view_width: u32,
    /// Colours of the offset panel.
    pub offset: PlotStyle,
    /// Colours of the hex panel.
    pub hex: PlotStyle,
    /// Colours of the character panel.
    pub char: PlotStyle,
    /// Colour of the text of the hex cells and of the characters.
    pub text: Color,
}

/// Whether the canvas for these measurements can be drawn into.
pub open spec fn spec_geometry_fits(char_size: (u32, u32), hex_width: u32, offset_width: u32) -> bool {
    spec_canvas_fits(
        spec_total_width(char_size.0 as int, hex_width as int, offset_width as int),
        spec_total_height(char_size.1 as int),
    )
}

/// The configuration for these measurements, with the default colours.
pub open spec fn spec_config(char_size: (u32, u32), hex_width: u32, offset_width: u32) -> PlotConfig {
    PlotConfig {
        width: spec_total_width(char_size.0 as int, hex_width as int, offset_width as int) as u32,
        height: spec_total_height(char_size.1 as int) as u32,
        char_width: char_size.0,
        char_height: char_size.1,
        hex_width,
        offset_width,
        hex_view_width: spec_hex_view_width(char_size.0 as int, hex_width as int) as u32,
        char_view_width: spec_char_view_width(char_size.0 as int) as u32,
        offset: spec_offset_style(),
        hex: spec_hex_style(),
        char: spec_char_style(),
        text: Color { r: 0, g: 0, b: 0 },
    }
}

/// The widths of the hex panel, of the character panel and of the canvas, and
/// the height of the canvas, where a canvas of that size can be drawn into.
fn derive_sizes(char_size: (u32, u32), hex_width: u32, offset_width: u32) -> (sizes: Option<
    (u32, u32, u32, u32),
>)
    ensures
        sizes.is_some() == spec_geometry_fits(char_size, hex_width, offset_width),
        sizes matches Some(s) ==> {
            &&& s.0 == spec_hex_view_width(char_size.0 as int, hex_width as int)
            &&& s.1 == spec_char_view_width(char_size.0 as int)
            &&& s.2 == spec_total_width(char_size.0 as int, hex_width as int, offset_width as int)
            &&& s.3 == spec_total_height(char_size.1 as int)
        },
{
    let char_width: u64 = char_size.0 as u64;
    let hex_view_width: u64 = char_width * 16 + (hex_width as u64) * 16 + char_width * 3;
    let char_view_width: u64 = char_width * 16;
    let width: u64 = (offset_width as u64) + hex_view_width + char_view_width + char_width;
    let height: u64 = (char_size.1 as u64) * 32;
    if width > u32::MAX as u64 || height > u32::MAX as u64 {
        return None;
    }
    if !canvas_fits(width as u32, height as u32) {
        return None;
    }
    Some((hex_view_width as u32, char_view_width as u32, width as u32, height as u32))
}

impl PlotConfig {
    /// The derived widths and heights agree with the measured ones, and a
    /// canvas of the total size can be drawn into.
    pub open spec fn wf(&self) -> bool {
        &&& self.hex_view_width == spec_hex_view_width(self.char_width as int, self.hex_width as int)
        &&& self.char_view_width == spec_char_view_width(self.char_width as int)
        &&& self.width == spec_total_width(
            self.char_width as int,
            self.hex_width as int,
            self.offset_width as int,
        )
        &&& self.height == spec_total_height(self.char_height as int)
        &&& spec_canvas_fits(self.width as int, self.height as int)
    }

    /// The first row of pixels below all text: the upper edge of the last
    /// row of text and the size of the font below it.
    pub open spec fn spec_text_bottom(&self, font_size: int) -> int {
        15 * self.char_height + font_size
    }

    /// Left edge of the hex cell in a column. After the eighth column the
    /// cells stand one character further to the right.
    pub open spec fn spec_hex_cell_x(&self, column: int) -> int {
        if column < 8 {
            self.offset_width + self.char_width + (self.char_width + self.hex_width) * column
        } else {
            self.offset_width + self.char_width * 2 + (self.char_width + self.hex_width) * column
        }
    }

    /// Left edge of the character cell in a column.
    pub open spec fn spec_char_cell_x(&self, column: int) -> int {
        self.offset_width + self.hex_view_width + column * self.char_width
    }

    /// Upper edge of a row.
    pub open spec fn spec_row_y(&self, line: int) -> int {
        line * self.char_height
    }

    /// The background colour of the column of pixels at `x`: the offset
    /// panel's on the left, the character panel's where that panel stands,
    /// the hex panel's everywhere else.
    pub open spec fn spec_panel_color(&self, x: int) -> Color {
        if x < self.offset_width {
            self.offset.bg
        } else if self.offset_width + self.hex_view_width <= x < self.offset_width
            + self.hex_view_width + self.char_view_width {
            self.char.bg
        } else {
            self.hex.bg
        }
    }

    /// The geometry for a font in which one character measures `char_size`
    /// (width, height), two hex digits are `hex_width` wide and eight are
    /// `offset_width` wide, with the default colours. There is none where
    /// the canvas would be too large to draw into.
    pub fn from_metrics(char_size: (u32, u32), hex_width: u32, offset_width: u32) -> (config: Option<
        PlotConfig,
    >)
        ensures
            config == if spec_geometry_fits(char_size, hex_width, offset_width) {
                Some(spec_config(char_size, hex_width, offset_width))
            } else {
                None
            },
            config matches Some(c) ==> c.wf(),
    {
        match derive_sizes(char_size, hex_width, offset_width) {
            None => None,
            Some((hex_view_width, char_view_width, width, height)) => Some(
                PlotConfig {
                    width,
                    height,
                    char_width: char_size.0,
                    char_height: char_size.1,
                    hex_width,
                    offset_width,
                    hex_view_width,
                    char_view_width,
                    offset: PlotStyle { bg: grey_300(), fg: grey_600() },
                    hex: PlotStyle { bg: white(), fg: black() },
                    char: PlotStyle { bg: grey_100(), fg: black() },
                    text: black(),
                },
            ),
        }
    }

    /// Whether the configuration is valid.
    pub fn is_valid(&self) -> (valid: bool)
        ensures
            valid == self.wf(),
    {
        match derive_sizes((self.char_width, self.char_height), self.hex_width, self.offset_width) {
            None => false,
            Some((hex_view_width, char_view_width, width, height)) => self.hex_view_width
                == hex_view_width && self.char_view_width == char_view_width && self.width == width
                && self.height == height,
        }
    }

    /// Left edge of the hex cell in a column.
    pub fn hex_cell_x(&self, column: u32) -> (x: i32)
        requires
            self.wf(),
            column < 16,
        ensures
            x == self.spec_hex_cell_x(column as int),
            0 <= x <= self.width,
    {
        let step: u32 = self.char_width + self.hex_width;
        assert(step * column <= step * 15) by (nonlinear_arith)
            requires
                column <= 15,
                step >= 0,
        ;
        if column < 8 {
            (self.offset_width + self.char_width + step * column) as i32
        } else {
            (self.offset_width + self.char_width * 2 + step * column) as i32
        }
    }

    /// Left edge of the character cell in a column.
    pub fn char_cell_x(&self, column: u32) -> (x: i32)
        requires
            self.wf(),
            column < 16,
        ensures
            x == self.spec_char_cell_x(column as int),
            0 <= x <= self.width,
    {
        assert(column * self.char_width <= 15 * self.char_width) by (nonlinear_arith)
            requires
                column <= 15,
                self.char_width >= 0,
        ;
        (self.offset_width + self.hex_view_width + column * self.char_width) as i32
    }

    /// Upper edge of a row.
    pub fn row_y(&self, line: u32) -> (y: i32)
        requires
            self.wf(),
            line < 16,
        ensures
            y == self.spec_row_y(line as int),
            0 <= y <= 15 * self.char_height,
    {
        assert(line * self.char_height <= 15 * self.char_height) by (nonlinear_arith)
            requires
                line <= 15,
                self.char_height >= 0,
        ;
        (line * self.char_height) as i32
    }
}

/// Whatever the font measures, a configuration made from it has a hex panel
/// of sixteen hex widths and nineteen character widths, a character panel of
/// sixteen character widths, a canvas as wide as the three panels and one
/// character more, and thirty-two rows of height; and it is valid.
pub proof fn lemma_config_geometry(char_size: (u32, u32), hex_width: u32, offset_width: u32)
    requires
        spec_geometry_fits(char_size, hex_width, offset_width),
    ensures
        ({
            let c = spec_config(char_size, hex_width, offset_width);
            &&& c.hex_view_width == char_size.0 * 16 + hex_width * 16 + char_size.0 * 3
            &&& c.char_view_width == char_size.0 * 16
            &&& c.width == offset_width + c.hex_view_width + char_size.0 * 16 + char_size.0
            &&& c.height == char_size.1 * 32
            &&& c.wf()
        }),
{
}

} // verus!
