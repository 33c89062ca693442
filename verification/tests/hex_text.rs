use hexplot::hex::{display_char, hex_byte, offset_label};
use hexplot::plan::byte_record;

#[test]
fn hex_byte_of_ten_is_0a() {
    assert_eq!(hex_byte(10), "0A");
}

#[test]
fn hex_byte_of_255_is_ff() {
    assert_eq!(hex_byte(255), "FF");
}

#[test]
fn hex_byte_of_zero_is_padded() {
    assert_eq!(hex_byte(0), "00");
    assert_eq!(hex_byte(7), "07");
    assert_eq!(hex_byte(0x10), "10");
}

#[test]
fn hex_byte_agrees_with_std_formatting_on_every_byte() {
    for i in 0..=255u8 {
        assert_eq!(hex_byte(i), format!("{:02X}", i));
    }
}

#[test]
fn offset_label_of_line_one() {
    assert_eq!(offset_label(16), "00000010");
}

#[test]
fn offset_label_of_every_line() {
    for line in 0..16u32 {
        assert_eq!(offset_label(line * 16), format!("{:08X}", line * 16));
    }
    assert_eq!(offset_label(0), "00000000");
    assert_eq!(offset_label(0xF0), "000000F0");
}

#[test]
fn offset_label_uses_all_eight_digits() {
    assert_eq!(offset_label(u32::MAX), "FFFFFFFF");
    assert_eq!(offset_label(0xDEADBEEF), "DEADBEEF");
    assert_eq!(offset_label(0x0012ABCD), "0012ABCD");
}

#[test]
fn display_char_of_letter_is_itself() {
    assert_eq!(display_char(65), 'A');
    assert_eq!(display_char(b'z'), 'z');
    assert_eq!(display_char(b'0'), '0');
}

#[test]
fn display_char_of_space_and_nul_is_full_stop() {
    assert_eq!(display_char(32), '.');
    assert_eq!(display_char(0), '.');
}

#[test]
fn display_char_at_the_edges_of_the_visible_range() {
    assert_eq!(display_char(0x20), '.');
    assert_eq!(display_char(0x21), '!');
    assert_eq!(display_char(0x7e), '~');
    assert_eq!(display_char(0x7f), '.');
    assert_eq!(display_char(0x80), '.');
    assert_eq!(display_char(0xff), '.');
    assert_eq!(display_char(b'.'), '.');
}

#[test]
fn display_char_agrees_with_std_on_every_byte() {
    for i in 0..=255u8 {
        let expected = match char::from_u32(i as u32) {
            Some(c) if c.is_ascii_graphic() => c,
            _ => '.',
        };
        assert_eq!(display_char(i), expected);
    }
}

#[test]
fn byte_record_of_a_byte() {
    let record = byte_record(0x4B);
    assert_eq!(record.line, 4);
    assert_eq!(record.column, 11);
    assert_eq!(record.hex, "4B");
    assert_eq!(record.glyph, 'K');
}

#[test]
fn byte_record_of_first_and_last_byte() {
    let first = byte_record(0);
    assert_eq!((first.line, first.column), (0, 0));
    assert_eq!(first.hex, "00");
    assert_eq!(first.glyph, '.');
    let last = byte_record(255);
    assert_eq!((last.line, last.column), (15, 15));
    assert_eq!(last.hex, "FF");
    assert_eq!(last.glyph, '.');
}
