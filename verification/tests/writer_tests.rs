use vga_text::cell::{BUFFER_HEIGHT, BUFFER_WIDTH};
use vga_text::color::{Color, ColorCode, default_color};
use vga_text::writer::{Writer, _cprint, _print};

#[test]
fn colorcode_packs_nibbles() {
    assert_eq!(ColorCode::new(Color::White, Color::Black).value(), 0x0f);
    assert_eq!(ColorCode::new(Color::Yellow, Color::Blue).value(), 0x1e);
    assert_eq!(ColorCode::new(Color::Black, Color::Black).value(), 0x00);
    assert_eq!(ColorCode::new(Color::LightGray, Color::Red).value(), 0x47);
}

#[test]
fn default_color_is_white_on_black() {
    assert_eq!(default_color(), ColorCode::new(Color::White, Color::Black));
    assert_eq!(default_color().value(), 0x0f);
}

#[test]
fn new_writer_is_blank_at_origin() {
    let w = Writer::new();
    assert_eq!(w.cursor_row(), 0);
    assert_eq!(w.cursor_column(), 0);
    assert_eq!(w.current_color(), default_color());
    for row in 0..BUFFER_HEIGHT {
        for col in 0..BUFFER_WIDTH {
            assert_eq!(w.char_at(row, col), b' ');
            assert_eq!(w.color_at(row, col), default_color());
        }
    }
}

#[test]
fn printable_byte_places_one_cell() {
    let mut w = Writer::new();
    w.swrite(b"A");
    assert_eq!(w.char_at(0, 0), b'A');
    assert_eq!(w.color_at(0, 0), default_color());
    assert_eq!(w.cursor_row(), 0);
    assert_eq!(w.cursor_column(), 1);
    for col in 1..BUFFER_WIDTH {
        assert_eq!(w.char_at(0, col), b' ');
    }
}

#[test]
fn newline_is_cursor_only() {
    let mut w = Writer::new();
    w.swrite(b"\n");
    assert_eq!(w.cursor_row(), 1);
    assert_eq!(w.cursor_column(), 0);
    assert_eq!(w.char_at(0, 0), b' ');
}

#[test]
fn newline_method_advances_row() {
    let mut w = Writer::new();
    w.newline();
    assert_eq!(w.cursor_row(), 1);
    assert_eq!(w.cursor_column(), 0);
}

#[test]
fn tab_advances_four_without_writing() {
    let mut w = Writer::new();
    w.swrite(b"\t");
    assert_eq!(w.cursor_row(), 0);
    assert_eq!(w.cursor_column(), 4);
    for col in 0..4 {
        assert_eq!(w.char_at(0, col), b' ');
    }
}

#[test]
fn tab_that_wraps_resets_column_to_zero() {
    // Regression pin for the tab-wrap behavior: a tab that reaches or
    // passes the width triggers a line advance, which leaves the cursor at
    // column 0 of the next row, not at a tab stop.
    let mut w = Writer::new();
    for _ in 0..77 {
        w.swrite(b"a");
    }
    assert_eq!(w.cursor_column(), 77);
    w.swrite(b"\t");
    assert_eq!(w.cursor_row(), 1);
    assert_eq!(w.cursor_column(), 0);
    w.swrite(b"Z");
    assert_eq!(w.char_at(1, 0), b'Z');
}

#[test]
fn unprintable_bytes_become_placeholder() {
    let mut w = Writer::new();
    w.swrite(&[0x00, 0x1f, 0x7f, 0xff]);
    for col in 0..4 {
        assert_eq!(w.char_at(0, col), 0xfe);
    }
    // Boundary bytes of the printable range pass through unchanged.
    let mut v = Writer::new();
    v.swrite(&[0x20, 0x7e]);
    assert_eq!(v.char_at(0, 0), 0x20);
    assert_eq!(v.char_at(0, 1), 0x7e);
}

#[test]
fn full_row_wraps_to_next_row_without_loss() {
    let mut w = Writer::new();
    let row: Vec<u8> = vec![b'x'; BUFFER_WIDTH];
    w.swrite(&row);
    assert_eq!(w.cursor_row(), 0);
    assert_eq!(w.cursor_column(), BUFFER_WIDTH);
    w.swrite(b"Y");
    assert_eq!(w.cursor_row(), 1);
    assert_eq!(w.cursor_column(), 1);
    assert_eq!(w.char_at(1, 0), b'Y');
    for col in 0..BUFFER_WIDTH {
        assert_eq!(w.char_at(0, col), b'x');
    }
}

#[test]
fn height_newlines_trigger_scroll() {
    let mut w = Writer::new();
    w.swrite(b"TOP");
    w.swrite(b"\nSECOND");
    assert_eq!(w.cursor_row(), 1);
    for _ in 0..(BUFFER_HEIGHT - 2) {
        w.swrite(b"\n");
    }
    assert_eq!(w.cursor_row(), BUFFER_HEIGHT - 1);
    let green = ColorCode::new(Color::Green, Color::Black);
    w.set_color(green);
    w.swrite(b"\n");
    // The scroll keeps the cursor on the last row.
    assert_eq!(w.cursor_row(), BUFFER_HEIGHT - 1);
    assert_eq!(w.cursor_column(), 0);
    // Row 0's original content is discarded; row 1 moved up to row 0.
    assert_eq!(w.char_at(0, 0), b'S');
    assert_eq!(w.char_at(0, 5), b'D');
    // The freshly blanked last row carries the color active at the scroll.
    for col in 0..BUFFER_WIDTH {
        assert_eq!(w.char_at(BUFFER_HEIGHT - 1, col), b' ');
        assert_eq!(w.color_at(BUFFER_HEIGHT - 1, col), green);
    }
    // Rows that held nothing keep their blanks and the original color.
    assert_eq!(w.char_at(5, 0), b' ');
    assert_eq!(w.color_at(5, 0), default_color());
}

#[test]
fn colored_print_restores_default_color() {
    let mut w = Writer::new();
    let red = ColorCode::new(Color::Red, Color::Black);
    _cprint(&mut w, red, b"X");
    _print(&mut w, b"Y");
    assert_eq!(w.char_at(0, 0), b'X');
    assert_eq!(w.color_at(0, 0), red);
    assert_eq!(w.char_at(0, 1), b'Y');
    assert_eq!(w.color_at(0, 1), default_color());
    assert_eq!(w.current_color(), default_color());
}

#[test]
fn println_hello_then_world() {
    let mut w = Writer::new();
    _print(&mut w, b"Hello\n");
    _print(&mut w, b"World\n");
    let hello = b"Hello";
    let world = b"World";
    for col in 0..BUFFER_WIDTH {
        let expected0 = if col < hello.len() { hello[col] } else { b' ' };
        let expected1 = if col < world.len() { world[col] } else { b' ' };
        assert_eq!(w.char_at(0, col), expected0);
        assert_eq!(w.char_at(1, col), expected1);
    }
    assert_eq!(w.cursor_row(), 2);
    assert_eq!(w.cursor_column(), 0);
}

#[test]
fn set_color_twice_is_same_as_once() {
    let cyan = ColorCode::new(Color::Cyan, Color::DarkGray);
    let mut once = Writer::new();
    once.set_color(cyan);
    let mut twice = Writer::new();
    twice.set_color(cyan);
    twice.set_color(cyan);
    let text = b"same output\teither way\nsecond line \x01";
    once.swrite(text);
    twice.swrite(text);
    assert_eq!(once.cursor_row(), twice.cursor_row());
    assert_eq!(once.cursor_column(), twice.cursor_column());
    assert_eq!(once.current_color(), twice.current_color());
    for row in 0..BUFFER_HEIGHT {
        for col in 0..BUFFER_WIDTH {
            assert_eq!(once.char_at(row, col), twice.char_at(row, col));
            assert_eq!(once.color_at(row, col), twice.color_at(row, col));
        }
    }
}

#[test]
fn cwrite_places_byte_with_active_color() {
    let mut w = Writer::new();
    let pink = ColorCode::new(Color::Pink, Color::Black);
    w.set_color(pink);
    w.cwrite(b'Q');
    assert_eq!(w.char_at(0, 0), b'Q');
    assert_eq!(w.color_at(0, 0), pink);
    assert_eq!(w.cursor_column(), 1);
}

#[test]
fn scroll_keeps_cell_colors() {
    let mut w = Writer::new();
    let blue = ColorCode::new(Color::LightBlue, Color::Black);
    w.set_color(blue);
    w.swrite(b"\nB");
    w.set_color(default_color());
    // Drive the cursor to the last row and scroll once.
    for _ in 0..(BUFFER_HEIGHT - 1) {
        w.swrite(b"\n");
    }
    assert_eq!(w.char_at(0, 0), b'B');
    assert_eq!(w.color_at(0, 0), blue);
}
