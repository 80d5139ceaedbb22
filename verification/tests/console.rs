use rinuxcore::{Color, ColorCode, Grid, ScreenChar, Writer, BUFFER_HEIGHT, BUFFER_WIDTH};

fn cell(grid: &Grid, row: usize, col: usize) -> ScreenChar {
    grid.cells[row * BUFFER_WIDTH + col]
}

fn blank(color: u8) -> ScreenChar {
    let bg = color >> 4;
    ScreenChar { ascii_character: 0x20, color_code: ColorCode((bg << 4) | bg) }
}

#[test]
fn color_packing_white_on_black() {
    let c = ColorCode::new(Color::White, Color::Black);
    assert_eq!(c.0, 0x0f);
}

#[test]
fn color_packing_formula() {
    // foreground in the low nibble, background in the high nibble
    let c = ColorCode::new(Color::Blue, Color::Green);
    assert_eq!(c.0, (2u8 << 4) | 1u8);
    let c = ColorCode::new(Color::Yellow, Color::LightRed);
    assert_eq!(c.0, (12u8 << 4) | 14u8);
    let c = ColorCode::new(Color::White, Color::White);
    assert_eq!(c.0, 0xff);
}

#[test]
fn fresh_grid_is_blank() {
    let grid = Grid::new();
    assert_eq!(grid.cells.len(), BUFFER_WIDTH * BUFFER_HEIGHT);
    for i in 0..grid.cells.len() {
        assert_eq!(grid.cells[i], blank(0));
    }
}

#[test]
fn hello_world_scrolls_to_second_to_last_row() {
    let mut grid = Grid::new();
    let mut w = Writer::new(Color::White, Color::Black);
    w.write_string(&mut grid, b"Hello World\n");
    let color = ColorCode::new(Color::White, Color::Black);
    let text = b"Hello World";
    for (i, &b) in text.iter().enumerate() {
        assert_eq!(
            cell(&grid, BUFFER_HEIGHT - 2, i),
            ScreenChar { ascii_character: b, color_code: color }
        );
    }
    for i in text.len()..BUFFER_WIDTH {
        assert_eq!(cell(&grid, BUFFER_HEIGHT - 2, i), blank(0));
    }
    for i in 0..BUFFER_WIDTH {
        assert_eq!(cell(&grid, BUFFER_HEIGHT - 1, i), blank(color.0));
    }
    assert_eq!(w.column_position, 0);
}

#[test]
fn wrap_scrolls_before_the_81st_character() {
    let mut grid = Grid::new();
    let mut w = Writer::new(Color::White, Color::Black);
    let mut text = vec![b'A'; BUFFER_WIDTH];
    text.push(b'B');
    w.write_string(&mut grid, &text);
    // the full row scrolled up before the extra byte was placed
    assert_eq!(w.column_position, 1);
    let color = ColorCode::new(Color::White, Color::Black);
    for i in 0..BUFFER_WIDTH {
        assert_eq!(
            cell(&grid, BUFFER_HEIGHT - 2, i),
            ScreenChar { ascii_character: b'A', color_code: color }
        );
    }
    assert_eq!(
        cell(&grid, BUFFER_HEIGHT - 1, 0),
        ScreenChar { ascii_character: b'B', color_code: color }
    );
    for i in 1..BUFFER_WIDTH {
        assert_eq!(cell(&grid, BUFFER_HEIGHT - 1, i), blank(color.0));
    }
}

#[test]
fn full_row_cursor_scrolls_first_and_ends_at_one() {
    let mut grid = Grid::new();
    let mut w = Writer::new(Color::White, Color::Black);
    let row = vec![b'x'; BUFFER_WIDTH];
    w.write_string(&mut grid, &row);
    // the cursor sits past the last column; one more byte scrolls first
    assert_eq!(w.column_position, BUFFER_WIDTH);
    w.write_byte(&mut grid, b'y');
    assert_eq!(w.column_position, 1);
    let color = ColorCode::new(Color::White, Color::Black);
    assert_eq!(
        cell(&grid, BUFFER_HEIGHT - 1, 0),
        ScreenChar { ascii_character: b'y', color_code: color }
    );
    assert_eq!(
        cell(&grid, BUFFER_HEIGHT - 2, BUFFER_WIDTH - 1),
        ScreenChar { ascii_character: b'x', color_code: color }
    );
}

#[test]
fn nonprintable_byte_stores_placeholder() {
    let mut grid = Grid::new();
    let mut w = Writer::new(Color::Green, Color::Black);
    w.write_string(&mut grid, &[0x01]);
    let color = ColorCode::new(Color::Green, Color::Black);
    assert_eq!(
        cell(&grid, BUFFER_HEIGHT - 1, 0),
        ScreenChar { ascii_character: 0xfe, color_code: color }
    );
    assert_eq!(w.column_position, 1);
}

#[test]
fn printable_bytes_pass_through() {
    let mut grid = Grid::new();
    let mut w = Writer::new(Color::Red, Color::Black);
    w.write_string(&mut grid, &[0x20, 0x7e, 0x7f, 0x1f]);
    let color = ColorCode::new(Color::Red, Color::Black);
    let expected = [0x20u8, 0x7e, 0xfe, 0xfe];
    for (i, &b) in expected.iter().enumerate() {
        assert_eq!(
            cell(&grid, BUFFER_HEIGHT - 1, i),
            ScreenChar { ascii_character: b, color_code: color }
        );
    }
}

#[test]
fn scroll_keeps_the_last_rows_in_order() {
    let mut grid = Grid::new();
    let mut w = Writer::new(Color::White, Color::Black);
    let count = 30usize;
    for k in 0..count {
        let line = format!("line {:02}", k);
        w.write_string(&mut grid, line.as_bytes());
        w.write_byte(&mut grid, b'\n');
    }
    let color = ColorCode::new(Color::White, Color::Black);
    // rows 0..HEIGHT-1 hold exactly the last HEIGHT-1 lines, in order
    for r in 0..BUFFER_HEIGHT - 1 {
        let expect = format!("line {:02}", count - (BUFFER_HEIGHT - 1) + r);
        let bytes = expect.as_bytes();
        for i in 0..BUFFER_WIDTH {
            let want = if i < bytes.len() {
                ScreenChar { ascii_character: bytes[i], color_code: color }
            } else {
                blank(color.0)
            };
            assert_eq!(cell(&grid, r, i), want);
        }
    }
    // and the bottom row is blank in the channel's background color
    for i in 0..BUFFER_WIDTH {
        assert_eq!(cell(&grid, BUFFER_HEIGHT - 1, i), blank(color.0));
    }
    assert_eq!(w.column_position, 0);
}

#[test]
fn write_byte_is_raw_write_string_sanitizes() {
    // the low-level single-byte write stores what it is given; only the
    // text write replaces non-printable bytes
    let mut grid = Grid::new();
    let mut w = Writer::new(Color::White, Color::Black);
    w.write_byte(&mut grid, 0x01);
    assert_eq!(cell(&grid, BUFFER_HEIGHT - 1, 0).ascii_character, 0x01);
    w.write_string(&mut grid, &[0x01]);
    assert_eq!(cell(&grid, BUFFER_HEIGHT - 1, 1).ascii_character, 0xfe);
}

#[test]
fn write_byte_newline_only_scrolls() {
    let mut grid = Grid::new();
    let mut w = Writer::new(Color::White, Color::Black);
    w.write_string(&mut grid, b"abc");
    assert_eq!(w.column_position, 3);
    w.write_byte(&mut grid, b'\n');
    assert_eq!(w.column_position, 0);
    let color = ColorCode::new(Color::White, Color::Black);
    assert_eq!(
        cell(&grid, BUFFER_HEIGHT - 2, 0),
        ScreenChar { ascii_character: b'a', color_code: color }
    );
}
