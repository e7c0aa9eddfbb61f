use verbium::cell::{ansi_color, Cell, Color};
use verbium::parser::Parser;
use verbium::screen::TerminalState;

fn feed(parser: &mut Parser, term: &mut TerminalState, bytes: &[u8]) {
    parser.advance_bytes(term, bytes);
}

#[test]
fn hello_cr_lf_writes_cells_and_moves_cursor() {
    let mut term = TerminalState::new(24, 80);
    let mut parser = Parser::new();
    feed(&mut parser, &mut term, b"Hello\r\n");
    let expected = ['H', 'e', 'l', 'l', 'o'];
    for (i, ch) in expected.iter().enumerate() {
        let cell = term.primary_grid[0][i];
        assert_eq!(cell.c, *ch);
        assert_eq!(cell.fg, Color::default_fg());
        assert_eq!(cell.bg, Color::transparent());
        assert!(!cell.inverse);
        assert!(!cell.is_wide_continuation);
    }
    assert_eq!(term.primary_grid[0][5], Cell::default());
    assert_eq!(term.cursor_row, 1);
    assert_eq!(term.cursor_col, 0);
}

#[test]
fn sgr_red_then_reset() {
    let mut term = TerminalState::new(24, 80);
    let mut parser = Parser::new();
    feed(&mut parser, &mut term, b"\x1b[31mX");
    assert_eq!(term.primary_grid[0][0].c, 'X');
    assert_eq!(term.primary_grid[0][0].fg, ansi_color(1));
    assert_eq!(term.primary_grid[0][0].fg, Color::rgb(205, 0, 0));
    feed(&mut parser, &mut term, b"\x1b[0mY");
    assert_eq!(term.primary_grid[0][1].c, 'Y');
    assert_eq!(term.primary_grid[0][1].fg, Color::default_fg());
    assert_eq!(term.primary_grid[0][1].bg, Color::transparent());
}

#[test]
fn line_feed_at_last_row_scrolls_into_history() {
    let mut term = TerminalState::new(24, 80);
    let mut parser = Parser::new();
    feed(&mut parser, &mut term, b"top");
    for _ in 0..23 {
        feed(&mut parser, &mut term, b"\n");
    }
    assert_eq!(term.cursor_row, 23);
    assert_eq!(term.history.len(), 0);
    feed(&mut parser, &mut term, b"\n");
    assert_eq!(term.history.len(), 1);
    assert_eq!(term.history[0][0].c, 't');
    assert_eq!(term.history[0][1].c, 'o');
    assert_eq!(term.history[0][2].c, 'p');
    assert_eq!(term.cursor_row, 23);
    for cell in term.primary_grid[23].iter() {
        assert_eq!(cell.c, ' ');
    }
    assert_eq!(term.primary_grid.len(), 24);
}

#[test]
fn resize_pads_rows_and_columns_with_defaults() {
    let mut term = TerminalState::new(24, 80);
    let mut parser = Parser::new();
    feed(&mut parser, &mut term, b"abc");
    term.resize(30, 100);
    assert_eq!(term.rows, 30);
    assert_eq!(term.cols, 100);
    assert_eq!(term.primary_grid.len(), 30);
    for row in term.primary_grid.iter() {
        assert_eq!(row.len(), 100);
    }
    assert_eq!(term.primary_grid[0][0].c, 'a');
    assert_eq!(term.primary_grid[0][1].c, 'b');
    assert_eq!(term.primary_grid[0][2].c, 'c');
    for j in 80..100 {
        assert_eq!(term.primary_grid[0][j], Cell::default());
    }
    for i in 24..30 {
        for j in 0..100 {
            assert_eq!(term.primary_grid[i][j], Cell::default());
        }
    }
    assert_eq!(term.cursor_row, 0);
    assert_eq!(term.cursor_col, 3);
}

#[test]
fn resize_truncates_and_clamps_cursor() {
    let mut term = TerminalState::new(24, 80);
    let mut parser = Parser::new();
    feed(&mut parser, &mut term, b"\x1b[24;80H");
    assert_eq!(term.cursor_row, 23);
    assert_eq!(term.cursor_col, 79);
    term.resize(10, 20);
    assert_eq!(term.rows, 10);
    assert_eq!(term.cols, 20);
    assert_eq!(term.primary_grid.len(), 10);
    for row in term.primary_grid.iter() {
        assert_eq!(row.len(), 20);
    }
    assert_eq!(term.cursor_row, 9);
    assert_eq!(term.cursor_col, 19);
}

#[test]
fn resize_zero_is_a_no_op() {
    let mut term = TerminalState::new(24, 80);
    term.resize(0, 100);
    assert_eq!(term.rows, 24);
    assert_eq!(term.cols, 80);
    term.resize(100, 0);
    assert_eq!(term.rows, 24);
    assert_eq!(term.cols, 80);
}

#[test]
fn resize_dimension_round_trip() {
    let mut term = TerminalState::new(24, 80);
    term.resize(30, 100);
    let rows_once = term.rows;
    let cols_once = term.cols;
    term.resize(12, 40);
    term.resize(30, 100);
    assert_eq!(term.rows, rows_once);
    assert_eq!(term.cols, cols_once);
    assert!(term.cursor_row < term.rows);
    assert!(term.cursor_col < term.cols);
}

#[test]
fn scrollback_is_capped_and_evicts_the_oldest() {
    let mut term = TerminalState::new(2, 4);
    let mut parser = Parser::new();
    feed(&mut parser, &mut term, b"A");
    term.scroll_up();
    assert_eq!(term.history.len(), 1);
    assert_eq!(term.history[0][0].c, 'A');
    for _ in 0..4999 {
        term.scroll_up();
    }
    assert_eq!(term.history.len(), 5000);
    assert_eq!(term.history[0][0].c, 'A');
    term.scroll_up();
    assert_eq!(term.history.len(), 5000);
    assert_eq!(term.history[0][0].c, ' ');
}

#[test]
fn alternate_screen_round_trip_restores_cursor_and_primary() {
    let mut term = TerminalState::new(24, 80);
    let mut parser = Parser::new();
    feed(&mut parser, &mut term, b"shell output\r\nsecond line");
    let primary_before = term.primary_grid.clone();
    let (row_before, col_before) = (term.cursor_row, term.cursor_col);
    feed(&mut parser, &mut term, b"\x1b[?1049h");
    assert!(term.is_alt_screen);
    assert_eq!(term.cursor_row, 0);
    assert_eq!(term.cursor_col, 0);
    feed(&mut parser, &mut term, b"full screen app\x1b[5;5Hmore");
    assert_eq!(term.history.len(), 0);
    feed(&mut parser, &mut term, b"\x1b[?1049l");
    assert!(!term.is_alt_screen);
    assert_eq!(term.cursor_row, row_before);
    assert_eq!(term.cursor_col, col_before);
    assert_eq!(term.primary_grid, primary_before);
}

#[test]
fn alternate_screen_does_not_pollute_scrollback() {
    let mut term = TerminalState::new(2, 10);
    let mut parser = Parser::new();
    feed(&mut parser, &mut term, b"\x1b[?1049h");
    for _ in 0..10 {
        feed(&mut parser, &mut term, b"\n");
    }
    assert_eq!(term.history.len(), 0);
    feed(&mut parser, &mut term, b"\x1b[?1049l");
    for _ in 0..10 {
        feed(&mut parser, &mut term, b"\n");
    }
    assert!(term.history.len() > 0);
}

#[test]
fn wide_character_writes_continuation_cell() {
    let mut term = TerminalState::new(24, 80);
    let mut parser = Parser::new();
    feed(&mut parser, &mut term, "你".as_bytes());
    assert_eq!(term.primary_grid[0][0].c, '你');
    assert!(!term.primary_grid[0][0].is_wide_continuation);
    assert!(term.primary_grid[0][1].is_wide_continuation);
    assert_eq!(term.primary_grid[0][1].c, ' ');
    assert_eq!(term.cursor_col, 2);
}

#[test]
fn narrow_character_at_last_column_wraps() {
    let mut term = TerminalState::new(24, 10);
    let mut parser = Parser::new();
    feed(&mut parser, &mut term, b"\x1b[1;10Ha");
    assert_eq!(term.primary_grid[0][9].c, 'a');
    assert_eq!(term.cursor_col, 10);
    feed(&mut parser, &mut term, b"b");
    assert_eq!(term.primary_grid[1][0].c, 'b');
    assert_eq!(term.cursor_row, 1);
    assert_eq!(term.cursor_col, 1);
}

#[test]
fn wide_character_at_last_column_wraps_first() {
    let mut term = TerminalState::new(24, 10);
    let mut parser = Parser::new();
    feed(&mut parser, &mut term, b"\x1b[1;10H");
    assert_eq!(term.cursor_col, 9);
    feed(&mut parser, &mut term, "你".as_bytes());
    assert_eq!(term.primary_grid[0][9].c, ' ');
    assert_eq!(term.primary_grid[1][0].c, '你');
    assert!(term.primary_grid[1][1].is_wide_continuation);
    assert_eq!(term.cursor_row, 1);
    assert_eq!(term.cursor_col, 2);
}

#[test]
fn two_byte_utf8_decodes() {
    let mut term = TerminalState::new(24, 80);
    let mut parser = Parser::new();
    feed(&mut parser, &mut term, "é".as_bytes());
    assert_eq!(term.primary_grid[0][0].c, 'é');
}

#[test]
fn invalid_utf8_is_discarded_and_resynchronizes() {
    let mut term = TerminalState::new(24, 80);
    let mut parser = Parser::new();
    feed(&mut parser, &mut term, &[0xff, 0x80, 0xc3]);
    assert_eq!(term.cursor_col, 0);
    feed(&mut parser, &mut term, b"ok");
    assert_eq!(term.primary_grid[0][0].c, 'o');
    assert_eq!(term.primary_grid[0][1].c, 'k');
}

#[test]
fn overlong_utf8_encoding_is_rejected() {
    let mut term = TerminalState::new(24, 80);
    let mut parser = Parser::new();
    feed(&mut parser, &mut term, &[0xe0, 0x80, 0xaf]);
    assert_eq!(term.cursor_col, 0);
    assert_eq!(term.primary_grid[0][0].c, ' ');
}

#[test]
fn backspace_and_tab_move_the_cursor() {
    let mut term = TerminalState::new(24, 80);
    let mut parser = Parser::new();
    feed(&mut parser, &mut term, b"abc\x08");
    assert_eq!(term.cursor_col, 2);
    feed(&mut parser, &mut term, b"\x08\x08\x08");
    assert_eq!(term.cursor_col, 0);
    feed(&mut parser, &mut term, b"\t");
    assert_eq!(term.cursor_col, 8);
    feed(&mut parser, &mut term, b"x\t");
    assert_eq!(term.cursor_col, 16);
}

#[test]
fn tab_clamps_to_last_column() {
    let mut term = TerminalState::new(24, 10);
    let mut parser = Parser::new();
    feed(&mut parser, &mut term, b"\t\t");
    assert_eq!(term.cursor_col, 9);
}

#[test]
fn scrolled_in_row_carries_current_attributes() {
    let mut term = TerminalState::new(2, 4);
    let mut parser = Parser::new();
    feed(&mut parser, &mut term, b"\x1b[41m");
    term.scroll_up();
    for cell in term.primary_grid[1].iter() {
        assert_eq!(cell.c, ' ');
        assert_eq!(cell.bg, ansi_color(1));
    }
    for cell in term.primary_grid[0].iter() {
        assert_eq!(cell.bg, Color::transparent());
    }
}

#[test]
fn wide_character_wrapping_at_the_bottom_scrolls() {
    let mut term = TerminalState::new(2, 4);
    let mut parser = Parser::new();
    feed(&mut parser, &mut term, b"\x1b[2;4H");
    feed(&mut parser, &mut term, "宽".as_bytes());
    assert_eq!(term.history.len(), 1);
    assert_eq!(term.primary_grid[1][0].c, '宽');
    assert!(term.primary_grid[1][1].is_wide_continuation);
    assert_eq!(term.cursor_row, 1);
    assert_eq!(term.cursor_col, 2);
}

#[test]
fn grid_accessor_follows_the_active_screen() {
    let mut term = TerminalState::new(3, 5);
    let mut parser = Parser::new();
    feed(&mut parser, &mut term, b"p");
    assert_eq!(term.grid()[0][0].c, 'p');
    feed(&mut parser, &mut term, b"\x1b[?1049ha");
    assert_eq!(term.grid()[0][0].c, 'a');
    assert_eq!(term.primary_grid[0][0].c, 'p');
    feed(&mut parser, &mut term, b"\x1b[?1049l");
    assert_eq!(term.grid()[0][0].c, 'p');
}
