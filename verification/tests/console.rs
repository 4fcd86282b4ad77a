use vga_buffer::{Color, ColorCode, ScreenChar, Writer, BUFFER_HEIGHT, BUFFER_WIDTH};

const PLACEHOLDER: u8 = 0xFE;

fn yellow_on_black() -> ColorCode {
    ColorCode::new(Color::Yellow, Color::Black)
}

#[test]
fn color_code_packs_background_high_foreground_low() {
    assert_eq!(ColorCode::new(Color::Yellow, Color::Black).0, 0x0E);
    assert_eq!(ColorCode::new(Color::White, Color::Blue).0, 0x1F);
    assert_eq!(ColorCode::new(Color::Black, Color::White).0, 0xF0);
    assert_eq!(ColorCode::new(Color::LightGray, Color::DarkGray).0, 0x87);
}

#[test]
fn new_writer_is_blank_at_column_zero() {
    let w = Writer::new(Color::Yellow, Color::Black);
    assert_eq!(w.column(), 0);
    assert_eq!(w.attribute(), yellow_on_black());
    for row in 0..BUFFER_HEIGHT {
        for col in 0..BUFFER_WIDTH {
            let cell = w.cell_at(row, col);
            assert_eq!(cell.ascii_character, b' ');
            assert_eq!(cell.color_char, yellow_on_black());
        }
    }
}

#[test]
fn hello_lands_on_bottom_row() {
    // A blank grid, column 0; writing "HELLO" puts exactly H-E-L-L-O at
    // row 24, columns 0..=4, moves the column to 5, and scrolls nothing.
    let mut w = Writer::new(Color::Yellow, Color::Black);
    w.write_string(b"HELLO");
    assert_eq!(w.column(), 5);
    let expected = b"HELLO";
    for col in 0..5 {
        let cell = w.cell_at(BUFFER_HEIGHT - 1, col);
        assert_eq!(cell.ascii_character, expected[col]);
        assert_eq!(cell.color_char, yellow_on_black());
    }
    for col in 5..BUFFER_WIDTH {
        assert_eq!(w.cell_at(BUFFER_HEIGHT - 1, col).ascii_character, b' ');
    }
    // No scroll: every row above the bottom one is still blank.
    for row in 0..BUFFER_HEIGHT - 1 {
        for col in 0..BUFFER_WIDTH {
            assert_eq!(w.cell_at(row, col).ascii_character, b' ');
        }
    }
}

#[test]
fn eighty_one_xs_scroll_once() {
    // Writing 81 'X' bytes on an 80-column grid wraps exactly once: the
    // first 80 fill the bottom row, the 81st forces one scroll and lands at
    // row 24 column 0, leaving the column at 1 and the earlier 'X' row
    // scrolled up into row 23.
    let mut w = Writer::new(Color::Yellow, Color::Black);
    let xs = vec![b'X'; 81];
    w.write_string(&xs);
    assert_eq!(w.column(), 1);
    assert_eq!(w.cell_at(BUFFER_HEIGHT - 1, 0).ascii_character, b'X');
    for col in 1..BUFFER_WIDTH {
        assert_eq!(w.cell_at(BUFFER_HEIGHT - 1, col).ascii_character, b' ');
    }
    for col in 0..BUFFER_WIDTH {
        assert_eq!(w.cell_at(BUFFER_HEIGHT - 2, col).ascii_character, b'X');
    }
    // Exactly one scroll: row 22 never held anything.
    for col in 0..BUFFER_WIDTH {
        assert_eq!(w.cell_at(BUFFER_HEIGHT - 3, col).ascii_character, b' ');
    }
}

#[test]
fn full_line_then_wrap_on_next_byte() {
    // 80 printable bytes leave the column exactly at the width; the next
    // byte wraps before being placed at column 0.
    let mut w = Writer::new(Color::Yellow, Color::Black);
    let line = vec![b'a'; BUFFER_WIDTH];
    w.write_string(&line);
    assert_eq!(w.column(), BUFFER_WIDTH);
    w.write_byte(b'Y');
    assert_eq!(w.column(), 1);
    assert_eq!(w.cell_at(BUFFER_HEIGHT - 1, 0).ascii_character, b'Y');
    for col in 0..BUFFER_WIDTH {
        assert_eq!(w.cell_at(BUFFER_HEIGHT - 2, col).ascii_character, b'a');
    }
}

#[test]
fn newline_resets_column_and_scrolls() {
    let mut w = Writer::new(Color::Yellow, Color::Black);
    w.write_string(b"AB");
    assert_eq!(w.column(), 2);
    w.write_byte(b'\n');
    assert_eq!(w.column(), 0);
    // The two characters moved up one row; the bottom row is blank again.
    assert_eq!(w.cell_at(BUFFER_HEIGHT - 2, 0).ascii_character, b'A');
    assert_eq!(w.cell_at(BUFFER_HEIGHT - 2, 1).ascii_character, b'B');
    for col in 0..BUFFER_WIDTH {
        let cell = w.cell_at(BUFFER_HEIGHT - 1, col);
        assert_eq!(cell.ascii_character, b' ');
        assert_eq!(cell.color_char, yellow_on_black());
    }
}

#[test]
fn newline_resets_column_from_every_position() {
    // Regardless of the prior column value — mid-line or pending wrap — a
    // newline brings the column back to 0.
    for n in [0usize, 1, 40, 79, 80] {
        let mut w = Writer::new(Color::Yellow, Color::Black);
        let filler = vec![b'z'; n];
        w.write_string(&filler);
        assert_eq!(w.column(), n);
        w.write_byte(b'\n');
        assert_eq!(w.column(), 0);
    }
}

#[test]
fn unprintable_bytes_become_placeholder() {
    // "A", newline, a control byte, "B": the 'A' scrolls up, the control
    // byte shows as the placeholder glyph at (24,0), 'B' follows at (24,1).
    let mut w = Writer::new(Color::Yellow, Color::Black);
    w.write_string(&[0x41, 0x0A, 0x01, 0x42]);
    assert_eq!(w.cell_at(BUFFER_HEIGHT - 2, 0).ascii_character, 0x41);
    assert_eq!(w.cell_at(BUFFER_HEIGHT - 1, 0).ascii_character, PLACEHOLDER);
    assert_eq!(w.cell_at(BUFFER_HEIGHT - 1, 1).ascii_character, 0x42);
    assert_eq!(w.column(), 2);
}

#[test]
fn every_written_cell_stays_renderable() {
    // A string mixing every kind of byte never leaves a cell whose
    // character is outside the printable range or the placeholder glyph.
    let mut w = Writer::new(Color::Yellow, Color::Black);
    let mut bytes: Vec<u8> = Vec::new();
    for b in 0..=255u8 {
        bytes.push(b);
    }
    w.write_string(&bytes);
    for row in 0..BUFFER_HEIGHT {
        for col in 0..BUFFER_WIDTH {
            let c = w.cell_at(row, col).ascii_character;
            assert!((0x20..=0x7E).contains(&c) || c == PLACEHOLDER);
        }
    }
}

#[test]
fn write_byte_places_raw_byte_with_attribute() {
    // write_byte does not substitute: the raw byte value is stored, paired
    // with the current attribute.
    let mut w = Writer::new(Color::White, Color::Blue);
    w.write_byte(0x01);
    let cell = w.cell_at(BUFFER_HEIGHT - 1, 0);
    assert_eq!(
        cell,
        ScreenChar { ascii_character: 0x01, color_char: ColorCode::new(Color::White, Color::Blue) }
    );
    assert_eq!(w.column(), 1);
}

#[test]
fn scroll_discards_top_row() {
    // 25 lines fill the grid; one more newline pushes the oldest line off
    // the top with no scrollback.
    let mut w = Writer::new(Color::Yellow, Color::Black);
    for _ in 0..BUFFER_HEIGHT {
        w.write_string(b"old\n");
    }
    assert_eq!(w.cell_at(0, 0).ascii_character, b'o');
    w.write_string(b"new\n");
    assert_eq!(w.cell_at(0, 0).ascii_character, b'o');
    assert_eq!(w.cell_at(BUFFER_HEIGHT - 2, 0).ascii_character, b'n');
    assert_eq!(w.cell_at(BUFFER_HEIGHT - 2, 1).ascii_character, b'e');
    assert_eq!(w.cell_at(BUFFER_HEIGHT - 2, 2).ascii_character, b'w');
}
