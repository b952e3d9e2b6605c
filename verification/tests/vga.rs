use project_fox::drivers::display::vga::{
    Buffer, Colour, ColourCode, ScreenChar, Writer, BUFFER_X, BUFFER_Y, UNPRINTABLE,
};
use volatile::Volatile;

fn display_memory(word: u16) -> &'static mut Buffer {
    let buffer: Buffer = core::array::from_fn(|_| core::array::from_fn(|_| Volatile::new(word)));
    Box::leak(Box::new(buffer))
}

fn console() -> Writer {
    Writer::new(ColourCode::new(Colour::White, Colour::Black), display_memory(0x0f20))
}

fn row_text(writer: &Writer, row: usize) -> String {
    let mut text = String::new();
    for col in 0..BUFFER_X {
        text.push(char::from(writer.char_at(row, col).unwrap().ascii_character));
    }
    text
}

fn println(writer: &mut Writer, line: &str) {
    writer.write_string(line);
    writer.write_string("\n");
}

#[test]
fn test_println_simple() {
    let mut writer = console();
    println(&mut writer, "vga: test println!() output");
    assert_eq!(row_text(&writer, BUFFER_Y - 2).trim_end(), "vga: test println!() output");
}

#[test]
fn test_println_mul() {
    let mut writer = console();
    for _ in 0..500 {
        println(&mut writer, "vga: test println!() output");
    }
    for row in 0..BUFFER_Y - 1 {
        assert_eq!(row_text(&writer, row).trim_end(), "vga: test println!() output");
    }
    assert_eq!(row_text(&writer, BUFFER_Y - 1), " ".repeat(BUFFER_X));
    assert_eq!(writer.column(), 0);
}

#[test]
fn test_verify_vga_output() {
    let mut writer = console();
    let line = "123456789 0xBADCAFE 0xDEADBEEF";
    println(&mut writer, line);
    for (i, c) in line.chars().enumerate() {
        // BUFFER_Y - 2 == {line + newline}
        let vga_char = writer.char_at(BUFFER_Y - 2, i).unwrap();
        assert_eq!(char::from(vga_char.ascii_character), c);
    }
    writer.write_string(line);
    for (i, c) in line.chars().enumerate() {
        // BUFFER_Y - 1 == {line}; no newline
        let vga_char = writer.char_at(BUFFER_Y - 1, i).unwrap();
        assert_eq!(char::from(vga_char.ascii_character), c);
    }
}

#[test]
fn colour_codes_pack_background_high_foreground_low() {
    assert_eq!(ColourCode::new(Colour::White, Colour::Black), ColourCode(0x0f));
    assert_eq!(ColourCode::new(Colour::Yellow, Colour::Blue), ColourCode(0x1e));
    assert_eq!(ColourCode::new(Colour::Black, Colour::White), ColourCode(0xf0));
    assert_eq!(ColourCode::new(Colour::LightGray, Colour::Red), ColourCode(0x47));
}

#[test]
fn colour_indices_follow_the_palette() {
    let palette = [
        Colour::Black,
        Colour::Blue,
        Colour::Green,
        Colour::Cyan,
        Colour::Red,
        Colour::Magenta,
        Colour::Brown,
        Colour::LightGray,
        Colour::DarkGray,
        Colour::LightBlue,
        Colour::LightGreen,
        Colour::LightCyan,
        Colour::LightRed,
        Colour::Pink,
        Colour::Yellow,
        Colour::White,
    ];
    for (i, colour) in palette.iter().enumerate() {
        assert_eq!(colour.code() as usize, i);
    }
}

#[test]
fn cell_words_hold_glyph_low_attribute_high() {
    let cell = ScreenChar { ascii_character: 0x41, colour_code: ColourCode(0x0f) };
    assert_eq!(cell.encode(), 0x0f41);
    assert_eq!(ScreenChar::decode(0x0f41), cell);
    assert_eq!(
        ScreenChar::decode(0x1e20),
        ScreenChar { ascii_character: 0x20, colour_code: ColourCode(0x1e) }
    );
    for word in [0u16, 1, 0x00ff, 0x0100, 0x7f41, 0xffff] {
        assert_eq!(ScreenChar::decode(word).encode(), word);
    }
}

#[test]
fn new_console_shows_what_memory_holds() {
    let writer = Writer::new(ColourCode(0x0f), display_memory(0x1e58));
    assert_eq!(writer.column(), 0);
    for row in 0..BUFFER_Y {
        for col in 0..BUFFER_X {
            assert_eq!(
                writer.char_at(row, col),
                Some(ScreenChar { ascii_character: 0x58, colour_code: ColourCode(0x1e) })
            );
        }
    }
}

#[test]
fn char_at_outside_the_screen_is_none() {
    let writer = console();
    assert_eq!(writer.char_at(BUFFER_Y, 0), None);
    assert_eq!(writer.char_at(0, BUFFER_X), None);
    assert_eq!(writer.char_at(usize::MAX, usize::MAX), None);
    assert!(writer.char_at(BUFFER_Y - 1, BUFFER_X - 1).is_some());
}

#[test]
fn bytes_go_to_the_bottom_row_in_the_current_colour() {
    let mut writer = Writer::new(ColourCode::new(Colour::Yellow, Colour::Blue), display_memory(0));
    writer.write_byte(0x48);
    writer.write_byte(0x69);
    assert_eq!(writer.column(), 2);
    assert_eq!(
        writer.char_at(BUFFER_Y - 1, 0),
        Some(ScreenChar { ascii_character: 0x48, colour_code: ColourCode(0x1e) })
    );
    assert_eq!(
        writer.char_at(BUFFER_Y - 1, 1),
        Some(ScreenChar { ascii_character: 0x69, colour_code: ColourCode(0x1e) })
    );
    assert_eq!(writer.char_at(BUFFER_Y - 1, 2), Some(ScreenChar::decode(0)));
    assert_eq!(writer.char_at(BUFFER_Y - 2, 0), Some(ScreenChar::decode(0)));
}

#[test]
fn line_feed_scrolls_and_blanks_the_bottom_row() {
    let mut writer = console();
    writer.write_string("first");
    writer.write_byte(0x0a);
    assert_eq!(writer.column(), 0);
    assert_eq!(row_text(&writer, BUFFER_Y - 2).trim_end(), "first");
    assert_eq!(row_text(&writer, BUFFER_Y - 1), " ".repeat(BUFFER_X));
    assert_eq!(
        writer.char_at(BUFFER_Y - 1, 0),
        Some(ScreenChar { ascii_character: 0x20, colour_code: ColourCode(0x0f) })
    );
}

#[test]
fn a_full_row_wraps_before_the_next_byte() {
    let mut writer = console();
    for _ in 0..BUFFER_X {
        writer.write_byte(0x61);
    }
    assert_eq!(writer.column(), BUFFER_X);
    assert_eq!(row_text(&writer, BUFFER_Y - 1), "a".repeat(BUFFER_X));
    writer.write_byte(0x62);
    assert_eq!(writer.column(), 1);
    assert_eq!(row_text(&writer, BUFFER_Y - 2), "a".repeat(BUFFER_X));
    assert_eq!(row_text(&writer, BUFFER_Y - 1).trim_end(), "b");
}

#[test]
fn line_feed_on_a_full_row_scrolls_once() {
    let mut writer = console();
    for _ in 0..BUFFER_X {
        writer.write_byte(0x61);
    }
    writer.write_byte(0x0a);
    assert_eq!(writer.column(), 0);
    assert_eq!(row_text(&writer, BUFFER_Y - 2), "a".repeat(BUFFER_X));
    assert_eq!(row_text(&writer, BUFFER_Y - 3), " ".repeat(BUFFER_X));
}

#[test]
fn scrolling_moves_every_row_up_and_loses_the_top() {
    let mut writer = console();
    for n in 0..BUFFER_Y {
        println(&mut writer, &format!("line {}", n));
    }
    // 25 lines and 25 line feeds: "line 0" has left the screen.
    for row in 0..BUFFER_Y - 1 {
        assert_eq!(row_text(&writer, row).trim_end(), format!("line {}", row + 1));
    }
    assert_eq!(row_text(&writer, BUFFER_Y - 1), " ".repeat(BUFFER_X));
    writer.new_line();
    assert_eq!(row_text(&writer, 0).trim_end(), "line 2");
    assert_eq!(row_text(&writer, BUFFER_Y - 3).trim_end(), "line 24");
    assert_eq!(row_text(&writer, BUFFER_Y - 2), " ".repeat(BUFFER_X));
}

#[test]
fn clear_row_blanks_one_row_only() {
    let mut writer = Writer::new(ColourCode(0x0f), display_memory(0x1e58));
    assert_eq!(writer.clear_row(3), Ok(()));
    assert_eq!(row_text(&writer, 3), " ".repeat(BUFFER_X));
    assert_eq!(
        writer.char_at(3, 79),
        Some(ScreenChar { ascii_character: 0x20, colour_code: ColourCode(0x0f) })
    );
    assert_eq!(row_text(&writer, 2), "X".repeat(BUFFER_X));
    assert_eq!(row_text(&writer, 4), "X".repeat(BUFFER_X));
    assert_eq!(writer.column(), 0);
}

#[test]
fn clear_row_refuses_a_row_outside_the_screen() {
    let mut writer = Writer::new(ColourCode(0x0f), display_memory(0x1e58));
    assert_eq!(writer.clear_row(BUFFER_Y), Err(()));
    assert_eq!(writer.clear_row(usize::MAX), Err(()));
    for row in 0..BUFFER_Y {
        assert_eq!(row_text(&writer, row), "X".repeat(BUFFER_X));
    }
    assert_eq!(writer.clear_row(BUFFER_Y - 1), Ok(()));
}

#[test]
fn unprintable_bytes_are_replaced() {
    let mut writer = console();
    // 'e' with an acute accent is two bytes in UTF-8; a tab and DEL are not printable either.
    writer.write_string("a\u{e9}\t\u{7f}~ ");
    let shown: Vec<u8> =
        (0..7).map(|col| writer.char_at(BUFFER_Y - 1, col).unwrap().ascii_character).collect();
    assert_eq!(shown, vec![0x61, UNPRINTABLE, UNPRINTABLE, UNPRINTABLE, UNPRINTABLE, 0x7e, 0x20]);
    assert_eq!(UNPRINTABLE, 0xfe);
    assert_eq!(writer.column(), 7);
}

#[test]
fn write_byte_does_not_replace() {
    let mut writer = console();
    writer.write_byte(0x09);
    writer.write_byte(0xfe);
    assert_eq!(writer.char_at(BUFFER_Y - 1, 0).unwrap().ascii_character, 0x09);
    assert_eq!(writer.char_at(BUFFER_Y - 1, 1).unwrap().ascii_character, 0xfe);
}

#[test]
fn write_string_is_write_byte_for_each_byte() {
    let text = "two\nlines and then some";
    let mut by_string = console();
    by_string.write_string(text);
    let mut by_byte = console();
    for byte in text.bytes() {
        by_byte.write_byte(byte);
    }
    assert_eq!(by_string.column(), by_byte.column());
    for row in 0..BUFFER_Y {
        for col in 0..BUFFER_X {
            assert_eq!(by_string.char_at(row, col), by_byte.char_at(row, col));
        }
    }
}

#[test]
fn empty_string_changes_nothing() {
    let mut writer = Writer::new(ColourCode(0x0f), display_memory(0x1e58));
    writer.write_string("");
    assert_eq!(writer.column(), 0);
    assert_eq!(row_text(&writer, BUFFER_Y - 1), "X".repeat(BUFFER_X));
}

#[test]
fn the_console_is_a_formatting_sink() {
    let mut writer = console();
    assert_eq!(core::fmt::Write::write_str(&mut writer, "n = 42\t"), Ok(()));
    assert_eq!(core::fmt::Write::write_char(&mut writer, 'x'), Ok(()));
    assert_eq!(core::fmt::Write::write_char(&mut writer, '\n'), Ok(()));
    let mut expected = String::from("n = 42");
    expected.push(char::from(UNPRINTABLE));
    expected.push('x');
    assert_eq!(row_text(&writer, BUFFER_Y - 2).trim_end(), expected);
    assert_eq!(writer.column(), 0);
}
