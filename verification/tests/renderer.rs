use noverterm::terminal::parser::{EraseMode, Op, ParserState};
use noverterm::terminal::renderer::{
    make_blank_grid, make_blank_row, palette_color, Cell, Pen, TerminalGrid, DEFAULT_BG,
    DEFAULT_FG,
};

fn row_text(term: &TerminalGrid, row: usize) -> String {
    term.grid[row].iter().map(|cell| cell.ch).collect()
}

fn assert_shape(term: &TerminalGrid, rows: usize, cols: usize) {
    assert_eq!(term.rows as usize, rows);
    assert_eq!(term.cols as usize, cols);
    assert_eq!(term.grid.len(), rows);
    for row in &term.grid {
        assert_eq!(row.len(), cols);
    }
}

#[test]
fn default_cell_is_blank() {
    let cell = Cell::default();
    assert_eq!(cell.ch, ' ');
    assert_eq!(cell.fg, 0x00F1_F5F9);
    assert_eq!(cell.bg, 0x000F_172A);
    assert!(!cell.bold && !cell.italic && !cell.underline);
    assert_eq!(DEFAULT_FG, 0x00F1_F5F9);
    assert_eq!(DEFAULT_BG, 0x000F_172A);
}

#[test]
fn blank_rows_and_grids() {
    assert_eq!(make_blank_row(3), vec![Cell::default(); 3]);
    assert_eq!(make_blank_grid(2, 3), vec![vec![Cell::default(); 3]; 2]);
    assert!(make_blank_grid(0, 5).is_empty());
}

#[test]
fn new_terminal_is_blank_with_cursor_at_origin() {
    let term = TerminalGrid::new(24, 80);
    assert_shape(&term, 24, 80);
    assert_eq!((term.cursor_row, term.cursor_col), (0, 0));
    assert_eq!(term.pen, Pen::new());
    assert_eq!(term.parser.state, ParserState::Ground);
    for row in &term.grid {
        for cell in row {
            assert_eq!(*cell, Cell::default());
        }
    }
}

#[test]
fn print_writes_at_cursor_and_advances() {
    let mut term = TerminalGrid::new(3, 10);
    term.write(b"hi");
    assert_eq!(row_text(&term, 0), "hi        ");
    assert_eq!((term.cursor_row, term.cursor_col), (0, 2));
}

#[test]
fn printing_a_full_row_wraps_to_the_next_row() {
    let mut term = TerminalGrid::new(24, 80);
    term.write(&[b'a'; 80]);
    assert_eq!((term.cursor_row, term.cursor_col), (1, 0));
    assert_eq!(row_text(&term, 0), "a".repeat(80));
    assert_eq!(row_text(&term, 1), " ".repeat(80));
}

#[test]
fn printing_past_the_last_cell_scrolls() {
    let mut term = TerminalGrid::new(2, 3);
    term.write(b"abcdef");
    assert_eq!(row_text(&term, 0), "def");
    assert_eq!(row_text(&term, 1), "   ");
    assert_eq!((term.cursor_row, term.cursor_col), (1, 0));
}

#[test]
fn linefeed_moves_to_the_start_of_the_next_row() {
    let mut term = TerminalGrid::new(3, 10);
    term.write(b"ab\ncd");
    assert_eq!(row_text(&term, 0), "ab        ");
    assert_eq!(row_text(&term, 1), "cd        ");
    assert_eq!((term.cursor_row, term.cursor_col), (1, 2));
}

#[test]
fn linefeed_on_the_last_row_scrolls_by_one() {
    let mut term = TerminalGrid::new(3, 4);
    term.write(b"one\ntwo\nsix");
    assert_eq!((term.cursor_row, term.cursor_col), (2, 3));
    term.linefeed();
    assert_shape(&term, 3, 4);
    assert_eq!(row_text(&term, 0), "two ");
    assert_eq!(row_text(&term, 1), "six ");
    assert_eq!(term.grid[2], vec![Cell::default(); 4]);
    assert_eq!((term.cursor_row, term.cursor_col), (2, 0));
}

#[test]
fn carriage_return_goes_to_column_zero() {
    let mut term = TerminalGrid::new(3, 10);
    term.write(b"abc\rx");
    assert_eq!(row_text(&term, 0), "xbc       ");
    assert_eq!((term.cursor_row, term.cursor_col), (0, 1));
}

#[test]
fn backspace_stops_at_column_zero() {
    let mut term = TerminalGrid::new(3, 10);
    term.write(b"ab\x08");
    assert_eq!(term.cursor_col, 1);
    term.write(b"\x08\x08\x08");
    assert_eq!((term.cursor_row, term.cursor_col), (0, 0));
    term.write(b"\n\x08");
    assert_eq!((term.cursor_row, term.cursor_col), (1, 0));
}

#[test]
fn tab_goes_to_the_next_multiple_of_eight() {
    let mut term = TerminalGrid::new(3, 80);
    term.tab();
    assert_eq!(term.cursor_col, 8);
    term.tab();
    assert_eq!(term.cursor_col, 16);
    term.write(b"abc\t");
    assert_eq!(term.cursor_col, 24);
}

#[test]
fn tab_is_clamped_to_the_last_column() {
    let mut term = TerminalGrid::new(3, 10);
    term.write(b"\t");
    assert_eq!(term.cursor_col, 8);
    term.write(b"\t");
    assert_eq!(term.cursor_col, 9);
    term.write(b"\t");
    assert_eq!(term.cursor_col, 9);
}

#[test]
fn resize_gives_exactly_the_new_number_of_cells() {
    let mut term = TerminalGrid::new(24, 80);
    term.write(b"hello\nworld");
    term.resize(10, 40);
    assert_shape(&term, 10, 40);
    let snap = term.snapshot();
    assert_eq!(snap.rows, 10);
    assert_eq!(snap.cols, 40);
    assert_eq!(snap.cells.len(), 10);
    assert_eq!(snap.cells.iter().map(|row| row.len()).sum::<usize>(), 400);
    assert_eq!((snap.cursor_row, snap.cursor_col), (0, 0));
    for row in &snap.cells {
        for cell in row {
            assert_eq!(*cell, Cell::default());
        }
    }
}

#[test]
fn resize_keeps_the_pen_and_a_pending_sequence() {
    let mut term = TerminalGrid::new(24, 80);
    term.write(b"\x1b[1;31m\x1b[3");
    term.resize(10, 40);
    assert!(term.pen.bold);
    assert_eq!(term.pen.fg, palette_color(1));
    term.write(b";4Hx");
    assert_eq!(term.grid[2][3].ch, 'x');
}

#[test]
fn resize_to_nothing_and_back() {
    let mut term = TerminalGrid::new(24, 80);
    term.resize(0, 0);
    assert_shape(&term, 0, 0);
    term.write(b"text\r\n\t\x08\x1b[5;5H\x1b[2J\x1b[Kmore");
    assert_shape(&term, 0, 0);
    assert_eq!((term.cursor_row, term.cursor_col), (0, 0));
    term.resize(2, 2);
    term.write(b"ab");
    assert_eq!(row_text(&term, 0), "ab");
}

#[test]
fn grid_without_columns_ignores_prints() {
    let mut term = TerminalGrid::new(3, 0);
    term.write(b"abc\n\n\n\n");
    assert_shape(&term, 3, 0);
    assert_eq!((term.cursor_row, term.cursor_col), (2, 0));
}

#[test]
fn reset_after_bold_red_returns_the_pen_to_default() {
    let mut term = TerminalGrid::new(24, 80);
    term.write(b"\x1b[1;31mA");
    assert!(term.grid[0][0].bold);
    assert_eq!(term.grid[0][0].fg, 0x00CD_3131);
    assert_eq!(term.grid[0][0].ch, 'A');
    term.write(b"\x1b[0mB");
    assert_eq!(term.pen, Pen::new());
    assert_eq!(
        term.grid[0][1],
        Cell { ch: 'B', ..Cell::default() }
    );
}

#[test]
fn rendition_codes_set_and_clear_styles() {
    let mut pen = Pen::new();
    pen.apply_codes(&vec![1, 3, 4, 32, 44]);
    assert!(pen.bold && pen.italic && pen.underline);
    assert_eq!(pen.fg, palette_color(2));
    assert_eq!(pen.bg, palette_color(4));
    pen.apply_codes(&vec![22, 23, 24, 39, 49]);
    assert_eq!(pen, Pen::new());
}

#[test]
fn bright_colours_use_the_upper_palette() {
    let mut pen = Pen::new();
    pen.apply_code(91);
    pen.apply_code(107);
    assert_eq!(pen.fg, 0x00F1_4C4C);
    assert_eq!(pen.bg, 0x00FF_FFFF);
    assert_eq!(palette_color(0), 0);
    assert_eq!(palette_color(15), 0x00FF_FFFF);
    assert_eq!(palette_color(16), DEFAULT_FG);
}

#[test]
fn unrecognised_rendition_codes_are_skipped() {
    let mut pen = Pen::new();
    pen.apply_codes(&vec![1, 999, 5, 31]);
    assert!(pen.bold);
    assert_eq!(pen.fg, palette_color(1));
    assert!(!pen.italic && !pen.underline);
    assert_eq!(pen.bg, DEFAULT_BG);
}

#[test]
fn pen_draws_a_cell_in_its_style() {
    let mut pen = Pen::new();
    pen.apply_codes(&vec![4, 35]);
    let cell = pen.draw('q');
    assert_eq!(
        cell,
        Cell { ch: 'q', fg: palette_color(5), bg: DEFAULT_BG, bold: false, italic: false, underline: true }
    );
}

#[test]
fn cursor_position_then_print_marks_exactly_one_cell() {
    let mut term = TerminalGrid::new(24, 80);
    term.write(b"\x1b[5;10HX");
    let snap = term.snapshot();
    for (r, row) in snap.cells.iter().enumerate() {
        for (c, cell) in row.iter().enumerate() {
            if r == 4 && c == 9 {
                assert_eq!(cell.ch, 'X');
            } else {
                assert_eq!(*cell, Cell::default());
            }
        }
    }
    assert_eq!((snap.cursor_row, snap.cursor_col), (4, 10));
}

#[test]
fn cursor_moves_are_clamped_to_the_grid() {
    let mut term = TerminalGrid::new(5, 10);
    term.write(b"\x1b[100;100H");
    assert_eq!((term.cursor_row, term.cursor_col), (4, 9));
    term.write(b"\x1b[3A\x1b[2D");
    assert_eq!((term.cursor_row, term.cursor_col), (1, 7));
    term.write(b"\x1b[99A\x1b[99D");
    assert_eq!((term.cursor_row, term.cursor_col), (0, 0));
    term.write(b"\x1b[99B\x1b[99C");
    assert_eq!((term.cursor_row, term.cursor_col), (4, 9));
    term.cursor_move(i32::MIN, i32::MAX);
    assert_eq!((term.cursor_row, term.cursor_col), (0, 9));
    term.cursor_set(u16::MAX, 3);
    assert_eq!((term.cursor_row, term.cursor_col), (4, 3));
}

#[test]
fn erase_in_line_modes() {
    let mut term = TerminalGrid::new(2, 6);
    term.write(b"abcdef\x1b[1;3H\x1b[K");
    assert_eq!(row_text(&term, 0), "ab    ");
    let mut term = TerminalGrid::new(2, 6);
    term.write(b"abcdef\x1b[1;3H\x1b[1K");
    assert_eq!(row_text(&term, 0), "   def");
    let mut term = TerminalGrid::new(3, 6);
    term.write(b"abcdefghijkl\x1b[1;3H\x1b[2K");
    assert_eq!(row_text(&term, 0), "      ");
    assert_eq!(row_text(&term, 1), "ghijkl");
    assert_eq!((term.cursor_row, term.cursor_col), (0, 2));
}

#[test]
fn erase_in_display_modes() {
    let fill = b"aaaabbbbcccc\x1b[2;2H";
    let mut term = TerminalGrid::new(4, 4);
    term.write(fill);
    term.write(b"\x1b[J");
    assert_eq!(row_text(&term, 0), "aaaa");
    assert_eq!(row_text(&term, 1), "b   ");
    assert_eq!(row_text(&term, 2), "    ");
    let mut term = TerminalGrid::new(4, 4);
    term.write(fill);
    term.write(b"\x1b[1J");
    assert_eq!(row_text(&term, 0), "    ");
    assert_eq!(row_text(&term, 1), "  bb");
    assert_eq!(row_text(&term, 2), "cccc");
    let mut term = TerminalGrid::new(4, 4);
    term.write(fill);
    term.write(b"\x1b[2J");
    for r in 0..4 {
        assert_eq!(row_text(&term, r), "    ");
    }
    assert_eq!((term.cursor_row, term.cursor_col), (1, 1));
}

#[test]
fn erased_cells_lose_their_style() {
    let mut term = TerminalGrid::new(2, 4);
    term.write(b"\x1b[1;41mab\x1b[2K");
    assert_eq!(term.grid[0][0], Cell::default());
    assert_eq!(term.grid[0][1], Cell::default());
}

#[test]
fn unknown_and_acknowledge_change_nothing() {
    let mut term = TerminalGrid::new(3, 5);
    term.write(b"ab");
    let before = term.snapshot();
    term.apply(&Op::Unknown(vec![1, 2, 3]));
    term.apply(&Op::ResizeAcknowledge);
    term.write(b"\x1b[5n\x1b[8;3;5t");
    assert_eq!(term.snapshot(), before);
}

#[test]
fn apply_runs_each_operation() {
    let mut term = TerminalGrid::new(3, 5);
    term.apply(&Op::Print('x'));
    term.apply(&Op::CursorSet(2, 4));
    term.apply(&Op::CursorMove(-1, -2));
    term.apply(&Op::Print('y'));
    term.apply(&Op::SetGraphicRendition(vec![1]));
    term.apply(&Op::Tab);
    term.apply(&Op::Backspace);
    term.apply(&Op::Print('z'));
    term.apply(&Op::CarriageReturn);
    term.apply(&Op::EraseInLine(EraseMode::ToEnd));
    term.apply(&Op::LineFeed);
    assert_eq!(row_text(&term, 0), "x    ");
    assert_eq!(row_text(&term, 1), "     ");
    assert_eq!((term.cursor_row, term.cursor_col), (2, 0));
    term.apply(&Op::EraseInDisplay(EraseMode::All));
    assert_eq!(row_text(&term, 0), "     ");
}

#[test]
fn escape_sequence_enters_escape_mode() {
    let mut term = TerminalGrid::new(3, 5);
    term.escape_sequence();
    assert_eq!(term.parser.state, ParserState::Escape);
    term.write(b"[2;2Hk");
    assert_eq!(term.grid[1][1].ch, 'k');
}

#[test]
fn write_in_chunks_equals_write_at_once() {
    let stream: &[u8] = b"ab\x1b[2;3H\x1b[1;32mxy\r\n\xe2\x82\xac\x1b[Kz\x1b[5;1H12345678\tq";
    let mut whole = TerminalGrid::new(6, 12);
    whole.write(stream);
    for cut in 0..=stream.len() {
        let mut term = TerminalGrid::new(6, 12);
        term.write(&stream[..cut]);
        term.write(&stream[cut..]);
        assert_eq!(term.snapshot(), whole.snapshot());
        assert_eq!(term.pen, whole.pen);
    }
}

#[test]
fn multi_byte_text_is_printed_as_characters() {
    let mut term = TerminalGrid::new(2, 6);
    term.write("héllo".as_bytes());
    assert_eq!(row_text(&term, 0), "héllo ");
    assert_eq!(term.cursor_col, 5);
}

#[test]
fn scroll_up_discards_the_top_row() {
    let mut term = TerminalGrid::new(2, 2);
    term.write(b"abc");
    term.scroll_up();
    assert_eq!(row_text(&term, 0), "c ");
    assert_eq!(row_text(&term, 1), "  ");
    assert_eq!((term.cursor_row, term.cursor_col), (1, 1));
}

#[test]
fn last_row_and_column_of_empty_grids_are_zero() {
    let term = TerminalGrid::new(0, 0);
    assert_eq!((term.last_row(), term.last_col()), (0, 0));
    let term = TerminalGrid::new(24, 80);
    assert_eq!((term.last_row(), term.last_col()), (23, 79));
}

#[test]
fn terminal_built_through_its_operations_is_well_formed() {
    let mut term = TerminalGrid::new(4, 7);
    assert!(term.is_well_formed());
    term.write(b"hello world, this wraps and scrolls\r\n\x1b[2;2H\x1b[1Jx\x1b[3");
    assert!(term.is_well_formed());
    term.resize(0, 9);
    assert!(term.is_well_formed());
    term.write(b"abc\n\t");
    assert!(term.is_well_formed());
}

#[test]
fn tampered_terminal_is_not_well_formed() {
    let mut term = TerminalGrid::new(4, 7);
    term.cursor_col = 7;
    assert!(!term.is_well_formed());
    let mut term = TerminalGrid::new(4, 7);
    term.cursor_row = 4;
    assert!(!term.is_well_formed());
    let mut term = TerminalGrid::new(4, 7);
    term.grid[2].pop();
    assert!(!term.is_well_formed());
    let mut term = TerminalGrid::new(4, 7);
    term.rows = 5;
    assert!(!term.is_well_formed());
    let mut term = TerminalGrid::new(4, 7);
    term.parser.current = 3;
    assert!(!term.is_well_formed());
}

#[test]
fn printing_a_row_of_characters_from_mid_row_wraps_once() {
    let mut term = TerminalGrid::new(3, 5);
    term.write(b"ab");
    term.write(b"12345");
    assert_eq!(row_text(&term, 0), "ab123");
    assert_eq!(row_text(&term, 1), "45   ");
    assert_eq!((term.cursor_row, term.cursor_col), (1, 2));
}
