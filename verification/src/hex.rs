//! Text of the cells: fixed-width uppercase hexadecimal and the printable
//! character shown for a byte.

use vstd::prelude::*;
use vstd::arithmetic::div_mod::lemma_breakdown;

verus! {

/// The uppercase hexadecimal digit for a value below sixteen.
pub open spec fn spec_hex_digit(d: int) -> char {
    if d < 10 {
        (48 + d) as char
    } else {
        (55 + d) as char
    }
}

/// The `width` least significant hexadecimal digits of `value`, most
/// significant first, in uppercase and padded with zeros.
pub open spec fn spec_hex(value: nat, width: nat) -> Seq<char>
    decreases width,
{
    if width == 0 {
        Seq::empty()
    } else {
        spec_hex(value / 16, (width - 1) as nat).push(spec_hex_digit((value % 16) as int))
    }
}

/// The character shown for a byte: the byte itself where it is a visible
/// ASCII character (`!` to `~`), a full stop otherwise.
pub open spec fn spec_display_char(byte: u8) -> char {
    if 0x21 <= byte <= 0x7e {
        byte as char
    } else {
        '.'
    }
}

/// Whether a character is one of `0` to `9` or `A` to `F`.
pub open spec fn spec_is_upper_hex(c: char) -> bool {
    ('0' <= c <= '9') || ('A' <= c <= 'F')
}

/// The number that an uppercase hexadecimal digit stands for.
pub open spec fn spec_digit_value(c: char) -> int {
    if '0' <= c <= '9' {
        c as int - 48
    } else {
        c as int - 55
    }
}

/// The number that a run of hexadecimal digits stands for.
pub open spec fn spec_hex_value(digits: Seq<char>) -> int
    decreases digits.len(),
{
    if digits.len() == 0 {
        0
    } else {
        16 * spec_hex_value(digits.drop_last()) + spec_digit_value(digits.last())
    }
}

/// Sixteen to the power of `width`.
pub open spec fn spec_pow16(width: nat) -> int
    decreases width,
{
    if width == 0 {
        1
    } else {
        16 * spec_pow16((width - 1) as nat)
    }
}

/// `String::push` appends one character to the end of the string.
pub assume_specification[ String::push ](s: &mut String, c: char)
    ensures
        final(s)@ == old(s)@.push(c),
;

fn hex_digit(d: u8) -> (c: char)
    requires
        d < 16,
    ensures
        c == spec_hex_digit(d as int),
{
    if d < 10 {
        (48 + d) as char
    } else {
        (55 + d) as char
    }
}

fn push_hex(s: &mut String, value: u32, width: usize)
    ensures
        final(s)@ == old(s)@ + spec_hex(value as nat, width as nat),
    decreases width,
{
    let ghost before = s@;
    if width > 0 {
        push_hex(s, value / 16, width - 1);
        s.push(hex_digit((value % 16) as u8));
    }
    assert(s@ =~= before + spec_hex(value as nat, width as nat));
}

/// The two uppercase hexadecimal digits of a byte.
pub fn hex_byte(byte: u8) -> (s: String)
    ensures
        s@ == spec_hex(byte as nat, 2),
{
    let mut s = String::new();
    push_hex(&mut s, byte as u32, 2);
    s
}

/// The eight uppercase hexadecimal digits of an offset.
pub fn offset_label(offset: u32) -> (s: String)
    ensures
        s@ == spec_hex(offset as nat, 8),
{
    let mut s = String::new();
    push_hex(&mut s, offset, 8);
    s
}

/// The character shown for a byte in the character column.
pub fn display_char(byte: u8) -> (c: char)
    ensures
        c == spec_display_char(byte),
{
    if 0x21 <= byte && byte <= 0x7e {
        byte as char
    } else {
        '.'
    }
}

/// A hex string has as many digits as were asked for, and each is one of
/// `0` to `9` or `A` to `F`.
pub proof fn lemma_hex_digits(value: nat, width: nat)
    ensures
        spec_hex(value, width).len() == width,
        forall|k: int| 0 <= k < width ==> spec_is_upper_hex(#[trigger] spec_hex(value, width)[k]),
    decreases width,
{
    if width > 0 {
        lemma_hex_digits(value / 16, (width - 1) as nat);
    }
}

/// Read back as a number, a hex string gives the value it was made from, as
/// far as the digits reach: the value modulo sixteen to the power of the
/// width.
pub proof fn lemma_hex_reads_back(value: nat, width: nat)
    ensures
        spec_pow16(width) > 0,
        spec_hex_value(spec_hex(value, width)) == (value as int) % spec_pow16(width),
    decreases width,
{
    if width > 0 {
        let rest = (width - 1) as nat;
        lemma_hex_reads_back(value / 16, rest);
        let digits = spec_hex(value, width);
        assert(digits.drop_last() =~= spec_hex(value / 16, rest));
        assert(spec_digit_value(spec_hex_digit((value % 16) as int)) == value % 16);
        lemma_breakdown(value as int, 16, spec_pow16(rest));
    }
}

/// The two digits of a byte read back as the byte, and the eight digits of
/// a 32-bit offset as the offset.
pub proof fn lemma_hex_is_exact(byte: u8, offset: u32)
    ensures
        spec_hex_value(spec_hex(byte as nat, 2)) == byte,
        spec_hex_value(spec_hex(offset as nat, 8)) == offset,
        spec_hex(byte as nat, 2) == seq![
            spec_hex_digit(byte as int / 16),
            spec_hex_digit(byte as int % 16),
        ],
{
    assert(spec_pow16(2) == 256) by {
        reveal_with_fuel(spec_pow16, 3);
    }
    assert(spec_pow16(8) == 0x1_0000_0000) by {
        reveal_with_fuel(spec_pow16, 9);
    }
    lemma_hex_reads_back(byte as nat, 2);
    lemma_hex_reads_back(offset as nat, 8);
    assert((byte as int) % 256 == byte);
    assert((offset as int) % 0x1_0000_0000 == offset);
    assert(spec_hex(byte as nat, 2) =~= seq![
        spec_hex_digit(byte as int / 16),
        spec_hex_digit(byte as int % 16),
    ]) by {
        reveal_with_fuel(spec_hex, 3);
    }
}

} // verus!
