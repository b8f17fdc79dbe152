use kernel_core::vga_buffer::hexdump;
use kernel_core::vga_buffer::hexdump_text;
use kernel_core::vga_buffer::Color;
use kernel_core::vga_buffer::ColorCode;
use kernel_core::vga_buffer::Writer;

fn row_text(writer: &Writer, row: usize) -> Vec<u8> {
    let mut out = Vec::new();
    for col in 0..80 {
        out.push(writer.char_at(row, col));
    }
    out
}

#[test]
fn color_code_packs_background_high_foreground_low() {
    let c = ColorCode::new(Color::Yellow, Color::Black);
    assert_eq!(c.0, 0x0E);
    let c = ColorCode::new(Color::White, Color::Blue);
    assert_eq!(c.0, 0x1F);
}

#[test]
fn color_code_round_trips() {
    for fg in 0u8..16 {
        for bg in 0u8..16 {
            let f = Color::from_u8(fg);
            let b = Color::from_u8(bg);
            let c = ColorCode::new(f, b);
            assert_eq!(c.get_foreground(), f);
            assert_eq!(c.get_background(), b);
        }
    }
}

#[test]
fn new_writer_presents_a_blank_screen() {
    let w = Writer::new();
    assert_eq!(w.column_position, 0);
    for row in 0..25 {
        assert_eq!(row_text(&w, row), vec![b' '; 80]);
    }
}

#[test]
fn write_byte_lands_on_the_bottom_row() {
    let mut w = Writer::new();
    w.write_byte(b'A');
    assert_eq!(w.char_at(24, 0), b'A');
    assert_eq!(w.column_position, 1);
    let cell = w.cell_at(24, 0);
    assert_eq!(cell.color_code.0, 0x0E);
}

#[test]
fn newline_scrolls_everything_up() {
    let mut w = Writer::new();
    w.write_string("one\n");
    w.write_string("two");
    assert_eq!(&row_text(&w, 23)[..4], b"one ");
    assert_eq!(&row_text(&w, 24)[..4], b"two ");
    w.write_byte(b'\n');
    assert_eq!(&row_text(&w, 22)[..4], b"one ");
    assert_eq!(&row_text(&w, 23)[..4], b"two ");
    assert_eq!(row_text(&w, 24), vec![b' '; 80]);
    assert_eq!(w.column_position, 0);
}

#[test]
fn long_line_wraps_to_the_next_row() {
    let mut w = Writer::new();
    let long: String = std::iter::repeat('x').take(85).collect();
    w.write_string(&long);
    assert_eq!(row_text(&w, 23), vec![b'x'; 80]);
    assert_eq!(&row_text(&w, 24)[..6], b"xxxxx ");
    assert_eq!(w.column_position, 5);
}

#[test]
fn unprintable_bytes_are_replaced() {
    let mut w = Writer::new();
    w.write_string("a\u{7f}b");
    assert_eq!(w.char_at(24, 0), b'a');
    assert_eq!(w.char_at(24, 1), 0xFE);
    assert_eq!(w.char_at(24, 2), b'b');
}

#[test]
fn clear_row_blanks_one_row_only() {
    let mut w = Writer::new();
    w.write_string("abc\ndef");
    w.clear_row(23);
    assert_eq!(row_text(&w, 23), vec![b' '; 80]);
    assert_eq!(&row_text(&w, 24)[..3], b"def");
}

#[test]
fn set_colors_keeps_an_unspecified_side() {
    let mut w = Writer::new();
    w.set_colors(Some(Color::Red), None);
    assert_eq!(w.color_code.0, 0x04);
    w.set_colors(None, Some(Color::White));
    assert_eq!(w.color_code.0, 0xF4);
}

#[test]
fn hexdump_text_formats_a_short_dump() {
    let data = vec![0x00u8, 0x41];
    let text = hexdump_text(0x1000, &data);
    let expected = format!(
        "0x00001000: 00 41 {}{}\n\n",
        "   ".repeat(14),
        ".A"
    );
    assert_eq!(String::from_utf8(text).unwrap(), expected);
}

#[test]
fn hexdump_text_advances_the_address_by_sixteen() {
    let data = vec![0xFFu8; 17];
    let text = hexdump_text(0xAB0, &data);
    let s = String::from_utf8(text).unwrap();
    let lines: Vec<&str> = s.lines().collect();
    assert_eq!(lines.len(), 2 + 1);
    assert!(lines[0].starts_with("0x00000ab0: ff ff ff ff ff ff ff ff ff ff ff ff ff ff ff ff "));
    assert!(lines[1].starts_with("0x00000ac0: ff "));
    assert!(lines[0].ends_with("................"));
    assert!(lines[1].ends_with("."));
}

#[test]
fn hexdump_of_nothing_prints_a_blank_line() {
    let data: Vec<u8> = Vec::new();
    let text = hexdump_text(0, &data);
    assert_eq!(text, vec![b'\n']);
}

#[test]
fn hexdump_renders_to_the_screen() {
    let mut w = Writer::new();
    let data = vec![0x12u8, 0x34];
    hexdump(&mut w, 0x2000, &data);
    // The dump line scrolled up past the final blank line.
    assert_eq!(&row_text(&w, 22)[..12], b"0x00002000: ");
    assert_eq!(&row_text(&w, 22)[12..18], b"12 34 ");
}
