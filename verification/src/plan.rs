//! The text that is drawn: one label per row, and for every byte a hex cell
//! and a character cell, in the order in which they are drawn.

use vstd::prelude::*;
use crate::color::Color;
use crate::hex::{
    display_char, hex_byte, lemma_hex_digits, lemma_hex_is_exact, offset_label, spec_display_char,
    spec_hex, spec_hex_digit, spec_hex_value,
};
use crate::layout::PlotConfig;

verus! {

/// Number of byte values that are shown.
pub const BYTE_COUNT: u32 = 256;

/// What is known of one byte before it is drawn.
#[derive(Clone, Debug)]
pub struct ByteRecord {
    /// Row of the byte.
    pub line: u32,
    /// Column of the byte in its row.
    pub column: u32,
    /// The byte as two hex digits.
    pub hex: String,
    /// The byte as a character, or a full stop.
    pub glyph: char,
}

/// One piece of text at a position of the canvas, as the contracts see it.
pub struct DrawSpec {
    pub text: Seq<char>,
    pub x: int,
    pub y: int,
    pub color: Color,
}

/// One piece of text at a position of the canvas.
#[derive(Clone, Debug)]
pub struct TextDraw {
    /// The text.
    pub text: String,
    /// Left edge of the text.
    pub x: i32,
    /// Upper edge of the text.
    pub y: i32,
    /// Colour of the text.
    pub color: Color,
}

impl View for TextDraw {
    type V = DrawSpec;

    open spec fn view(&self) -> DrawSpec {
        DrawSpec { text: self.text@, x: self.x as int, y: self.y as int, color: self.color }
    }
}

/// The label at the start of a row: the offset of its first byte.
pub open spec fn spec_label_draw(config: PlotConfig, line: int) -> DrawSpec {
    DrawSpec {
        text: spec_hex((line * 16) as nat, 8),
        x: 0,
        y: config.spec_row_y(line),
        color: config.offset.fg,
    }
}

/// The hex cell of a byte.
pub open spec fn spec_hex_draw(config: PlotConfig, index: int) -> DrawSpec {
    DrawSpec {
        text: spec_hex(index as nat, 2),
        x: config.spec_hex_cell_x(index % 16),
        y: config.spec_row_y(index / 16),
        color: config.text,
    }
}

/// The character cell of a byte.
pub open spec fn spec_char_draw(config: PlotConfig, index: int) -> DrawSpec {
    DrawSpec {
        text: seq![spec_display_char(index as u8)],
        x: config.spec_char_cell_x(index % 16),
        y: config.spec_row_y(index / 16),
        color: config.text,
    }
}

/// Everything that is drawn for the bytes below `count`, in drawing order:
/// byte after byte, for each the label of its row if it is the first of the
/// row, then its hex cell, then its character cell.
pub open spec fn spec_draws(config: PlotConfig, count: nat) -> Seq<DrawSpec>
    decreases count,
{
    if count == 0 {
        Seq::empty()
    } else {
        let index = (count - 1) as nat;
        let before = spec_draws(config, index);
        let labelled = if index % 16 == 0 {
            before.push(spec_label_draw(config, index as int / 16))
        } else {
            before
        };
        labelled.push(spec_hex_draw(config, index as int)).push(spec_char_draw(config, index as int))
    }
}

/// What a list of draws is to the contracts.
pub open spec fn spec_views(draws: Seq<TextDraw>) -> Seq<DrawSpec> {
    draws.map_values(|d: TextDraw| d@)
}

/// Whether a draw has at most eight characters and starts inside the canvas,
/// no lower than the last row of text.
pub open spec fn spec_draw_in_rows(draw: DrawSpec, config: PlotConfig) -> bool {
    &&& draw.text.len() <= 8
    &&& 0 <= draw.x <= config.width
    &&& 0 <= draw.y <= 15 * config.char_height
}

/// Row, column, hex digits and shown character of a byte.
pub fn byte_record(index: u8) -> (record: ByteRecord)
    ensures
        record.line == index / 16,
        record.column == index % 16,
        record.hex@ == spec_hex(index as nat, 2),
        record.glyph == spec_display_char(index),
{
    ByteRecord {
        line: (index / 16) as u32,
        column: (index % 16) as u32,
        hex: hex_byte(index),
        glyph: display_char(index),
    }
}

/// The draws of one byte, appended to the list.
fn push_byte_draws(config: &PlotConfig, index: u8, draws: &mut Vec<TextDraw>)
    requires
        config.wf(),
        spec_views(old(draws)@) == spec_draws(*config, index as nat),
        forall|k: int|
            0 <= k < old(draws)@.len() ==> spec_draw_in_rows(#[trigger] old(draws)@[k]@, *config),
    ensures
        spec_views(final(draws)@) == spec_draws(*config, (index + 1) as nat),
        forall|k: int|
            0 <= k < final(draws)@.len() ==> spec_draw_in_rows(#[trigger] final(draws)@[k]@, *config),
{
    let record = byte_record(index);
    let y = config.row_y(record.line);
    proof {
        lemma_hex_digits(index as nat, 2);
        lemma_hex_digits((record.line * 16) as nat, 8);
    }
    if record.column == 0 {
        let label = TextDraw { text: offset_label(record.line * 16), x: 0, y, color: config.offset.fg };
        assert(label@ == spec_label_draw(*config, index as int / 16));
        draws.push(label);
    }
    let ghost labelled = draws@;
    let cell = TextDraw { text: record.hex, x: config.hex_cell_x(record.column), y, color: config.text };
    assert(cell@ == spec_hex_draw(*config, index as int));
    draws.push(cell);
    let mut shown = String::new();
    shown.push(record.glyph);
    assert(shown@ =~= seq![spec_display_char(index)]);
    let glyph = TextDraw { text: shown, x: config.char_cell_x(record.column), y, color: config.text };
    assert(glyph@ == spec_char_draw(*config, index as int));
    draws.push(glyph);
    assert(spec_views(draws@) =~= spec_draws(*config, (index + 1) as nat)) by {
        assert(spec_views(labelled) =~= if index % 16 == 0 {
            spec_draws(*config, index as nat).push(spec_label_draw(*config, index as int / 16))
        } else {
            spec_draws(*config, index as nat)
        });
    }
}

/// Everything that is drawn, in drawing order.
pub fn text_draws(config: &PlotConfig) -> (draws: Vec<TextDraw>)
    requires
        config.wf(),
    ensures
        spec_views(draws@) == spec_draws(*config, 256),
        forall|k: int|
            0 <= k < draws@.len() ==> spec_draw_in_rows(#[trigger] draws@[k]@, *config),
{
    let mut draws: Vec<TextDraw> = Vec::new();
    let mut index: u32 = 0;
    assert(spec_views(draws@) =~= spec_draws(*config, 0));
    while index < BYTE_COUNT
        invariant
            config.wf(),
            index <= 256,
            spec_views(draws@) == spec_draws(*config, index as nat),
            forall|k: int|
                0 <= k < draws@.len() ==> spec_draw_in_rows(#[trigger] draws@[k]@, *config),
        decreases 256 - index,
    {
        push_byte_draws(config, index as u8, &mut draws);
        index += 1;
    }
    draws
}

/// The bytes below `count` take two draws each and one more for every row
/// that was begun.
pub proof fn lemma_draws_len(config: PlotConfig, count: nat)
    ensures
        spec_draws(config, count).len() == 2 * count + (count + 15) / 16,
    decreases count,
{
    if count > 0 {
        lemma_draws_len(config, (count - 1) as nat);
    }
}

/// Drawing more bytes leaves the draws of the earlier ones where they were.
proof fn lemma_draws_extend(config: PlotConfig, fewer: nat, count: nat, k: int)
    requires
        fewer <= count,
        0 <= k < spec_draws(config, fewer).len(),
    ensures
        k < spec_draws(config, count).len(),
        spec_draws(config, count)[k] == spec_draws(config, fewer)[k],
    decreases count,
{
    if fewer < count {
        lemma_draws_extend(config, fewer, (count - 1) as nat, k);
    }
}

/// Where the draws of a byte stand in drawing order: its hex cell after two
/// draws for every earlier byte and one label for every row up to its own,
/// its character cell next, and the label of its row, if it begins one,
/// just before.
pub proof fn lemma_draws_of_byte(config: PlotConfig, count: nat, index: int)
    requires
        0 <= index < count,
    ensures
        2 * index + index / 16 + 2 < spec_draws(config, count).len(),
        spec_draws(config, count)[2 * index + index / 16 + 1] == spec_hex_draw(config, index),
        spec_draws(config, count)[2 * index + index / 16 + 2] == spec_char_draw(config, index),
        index % 16 == 0 ==> spec_draws(config, count)[2 * index + index / 16] == spec_label_draw(
            config,
            index / 16,
        ),
{
    let own = spec_draws(config, (index + 1) as nat);
    lemma_draws_len(config, index as nat);
    lemma_draws_len(config, (index + 1) as nat);
    let at = 2 * index + index / 16;
    assert(own[at + 1] == spec_hex_draw(config, index));
    assert(own[at + 2] == spec_char_draw(config, index));
    lemma_draws_extend(config, (index + 1) as nat, count, at + 1);
    lemma_draws_extend(config, (index + 1) as nat, count, at + 2);
    if index % 16 == 0 {
        assert(own[at] == spec_label_draw(config, index / 16));
        lemma_draws_extend(config, (index + 1) as nat, count, at);
    }
}

/// The hex cell of every byte shows the byte as two uppercase hexadecimal
/// digits, in the row and the column of the byte.
pub proof fn lemma_hex_cells(config: PlotConfig, index: int)
    requires
        0 <= index < 256,
    ensures
        ({
            let cell = spec_draws(config, 256)[2 * index + index / 16 + 1];
            &&& cell.text == seq![spec_hex_digit(index / 16), spec_hex_digit(index % 16)]
            &&& spec_hex_value(cell.text) == index
            &&& cell.x == config.spec_hex_cell_x(index % 16)
            &&& cell.y == (index / 16) * config.char_height
            &&& cell.color == config.text
        }),
{
    lemma_draws_of_byte(config, 256, index);
    lemma_hex_is_exact(index as u8, 0);
}

/// The character cell of every byte shows the byte itself where it is a
/// visible ASCII character and a full stop where it is not, in the row and
/// the column of the byte.
pub proof fn lemma_char_cells(config: PlotConfig, index: int)
    requires
        0 <= index < 256,
    ensures
        ({
            let cell = spec_draws(config, 256)[2 * index + index / 16 + 2];
            &&& cell.text == seq![
                if 0x21 <= index <= 0x7e {
                    index as char
                } else {
                    '.'
                },
            ]
            &&& cell.x == config.offset_width + config.hex_view_width + (index % 16)
                * config.char_width
            &&& cell.y == (index / 16) * config.char_height
            &&& cell.color == config.text
        }),
{
    lemma_draws_of_byte(config, 256, index);
    assert(spec_display_char(index as u8) == if 0x21 <= index <= 0x7e {
        index as char
    } else {
        '.'
    });
}

/// The label of every row shows the offset of the row's first byte, sixteen
/// times the row, as eight uppercase hexadecimal digits, at the left edge of
/// the row.
pub proof fn lemma_row_labels(config: PlotConfig, line: int)
    requires
        0 <= line < 16,
    ensures
        ({
            let label = spec_draws(config, 256)[33 * line];
            &&& label.text == spec_hex((line * 16) as nat, 8)
            &&& label.text == seq!['0', '0', '0', '0', '0', '0', spec_hex_digit(line), '0']
            &&& spec_hex_value(label.text) == line * 16
            &&& label.x == 0
            &&& label.y == line * config.char_height
            &&& label.color == config.offset.fg
        }),
{
    lemma_draws_of_byte(config, 256, line * 16);
    lemma_hex_is_exact(0, (line * 16) as u32);
    assert(spec_hex((line * 16) as nat, 8) =~= seq![
        '0',
        '0',
        '0',
        '0',
        '0',
        '0',
        spec_hex_digit(line),
        '0',
    ]) by {
        reveal_with_fuel(spec_hex, 9);
    }
}

} // verus!
