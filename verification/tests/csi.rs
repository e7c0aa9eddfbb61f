use verbium::cell::{ansi_color, Cell, Color};
use verbium::parser::Parser;
use verbium::screen::TerminalState;

fn feed(parser: &mut Parser, term: &mut TerminalState, bytes: &[u8]) {
    parser.advance_bytes(term, bytes);
}

#[test]
fn cursor_absolute_position_is_one_based_and_clamped() {
    let mut term = TerminalState::new(24, 80);
    let mut parser = Parser::new();
    feed(&mut parser, &mut term, b"\x1b[5;10H");
    assert_eq!(term.cursor_row, 4);
    assert_eq!(term.cursor_col, 9);
    feed(&mut parser, &mut term, b"\x1b[999;999f");
    assert_eq!(term.cursor_row, 23);
    assert_eq!(term.cursor_col, 79);
    feed(&mut parser, &mut term, b"\x1b[H");
    assert_eq!(term.cursor_row, 0);
    assert_eq!(term.cursor_col, 0);
}

#[test]
fn cursor_column_and_row_absolute() {
    let mut term = TerminalState::new(24, 80);
    let mut parser = Parser::new();
    feed(&mut parser, &mut term, b"\x1b[40G");
    assert_eq!(term.cursor_col, 39);
    feed(&mut parser, &mut term, b"\x1b[12d");
    assert_eq!(term.cursor_row, 11);
}

#[test]
fn relative_moves_are_clamped_at_the_edges() {
    let mut term = TerminalState::new(24, 80);
    let mut parser = Parser::new();
    feed(&mut parser, &mut term, b"\x1b[10;10H\x1b[3A");
    assert_eq!(term.cursor_row, 6);
    feed(&mut parser, &mut term, b"\x1b[99A");
    assert_eq!(term.cursor_row, 0);
    feed(&mut parser, &mut term, b"\x1b[99B");
    assert_eq!(term.cursor_row, 23);
    feed(&mut parser, &mut term, b"\x1b[99C");
    assert_eq!(term.cursor_col, 79);
    feed(&mut parser, &mut term, b"\x1b[2D");
    assert_eq!(term.cursor_col, 77);
    feed(&mut parser, &mut term, b"\x1b[99D");
    assert_eq!(term.cursor_col, 0);
    feed(&mut parser, &mut term, b"\x1b[1;1H\x1b[B");
    assert_eq!(term.cursor_row, 1);
}

#[test]
fn erase_display_full_clear_homes_cursor() {
    let mut term = TerminalState::new(24, 80);
    let mut parser = Parser::new();
    feed(&mut parser, &mut term, b"some text\x1b[2J");
    assert_eq!(term.cursor_row, 0);
    assert_eq!(term.cursor_col, 0);
    for row in term.primary_grid.iter() {
        for cell in row.iter() {
            assert_eq!(*cell, Cell::default());
        }
    }
}

#[test]
fn erase_display_other_forms_are_ignored() {
    let mut term = TerminalState::new(24, 80);
    let mut parser = Parser::new();
    feed(&mut parser, &mut term, b"keep\x1b[0J\x1b[1J\x1b[J");
    assert_eq!(term.primary_grid[0][0].c, 'k');
    assert_eq!(term.cursor_col, 4);
}

#[test]
fn erase_in_line_clears_from_cursor_to_end() {
    let mut term = TerminalState::new(24, 80);
    let mut parser = Parser::new();
    feed(&mut parser, &mut term, b"abcdef\x1b[1;3H\x1b[K");
    assert_eq!(term.primary_grid[0][0].c, 'a');
    assert_eq!(term.primary_grid[0][1].c, 'b');
    for j in 2..80 {
        assert_eq!(term.primary_grid[0][j], Cell::default());
    }
}

#[test]
fn erase_characters_forward() {
    let mut term = TerminalState::new(24, 80);
    let mut parser = Parser::new();
    feed(&mut parser, &mut term, b"abcdef\x1b[1;2H\x1b[3X");
    assert_eq!(term.primary_grid[0][0].c, 'a');
    assert_eq!(term.primary_grid[0][1].c, ' ');
    assert_eq!(term.primary_grid[0][2].c, ' ');
    assert_eq!(term.primary_grid[0][3].c, ' ');
    assert_eq!(term.primary_grid[0][4].c, 'e');
    assert_eq!(term.primary_grid[0][5].c, 'f');
}

#[test]
fn delete_characters_shifts_left_and_pads() {
    let mut term = TerminalState::new(2, 6);
    let mut parser = Parser::new();
    feed(&mut parser, &mut term, b"abcdef\x1b[1;2H\x1b[2P");
    let row: String = term.primary_grid[0].iter().map(|c| c.c).collect();
    assert_eq!(row, "adef  ");
    assert_eq!(term.primary_grid[0].len(), 6);
}

#[test]
fn private_modes_toggle_visibility_and_application_cursor() {
    let mut term = TerminalState::new(24, 80);
    let mut parser = Parser::new();
    assert!(term.cursor_visible);
    assert!(!term.application_cursor);
    feed(&mut parser, &mut term, b"\x1b[?25l");
    assert!(!term.cursor_visible);
    feed(&mut parser, &mut term, b"\x1b[?25h");
    assert!(term.cursor_visible);
    feed(&mut parser, &mut term, b"\x1b[?1h");
    assert!(term.application_cursor);
    feed(&mut parser, &mut term, b"\x1b[?1l");
    assert!(!term.application_cursor);
    feed(&mut parser, &mut term, b"\x1b[?25;1h");
    assert!(term.cursor_visible);
    assert!(term.application_cursor);
}

#[test]
fn sgr_palette_bright_and_background() {
    let mut term = TerminalState::new(24, 80);
    let mut parser = Parser::new();
    feed(&mut parser, &mut term, b"\x1b[93mA");
    assert_eq!(term.primary_grid[0][0].fg, ansi_color(11));
    feed(&mut parser, &mut term, b"\x1b[44mB");
    assert_eq!(term.primary_grid[0][1].bg, ansi_color(4));
    feed(&mut parser, &mut term, b"\x1b[104mC");
    assert_eq!(term.primary_grid[0][2].bg, ansi_color(12));
    feed(&mut parser, &mut term, b"\x1b[39;49mD");
    assert_eq!(term.primary_grid[0][3].fg, Color::default_fg());
    assert_eq!(term.primary_grid[0][3].bg, Color::transparent());
}

#[test]
fn sgr_indexed_and_rgb_colors() {
    let mut term = TerminalState::new(24, 80);
    let mut parser = Parser::new();
    feed(&mut parser, &mut term, b"\x1b[38;5;14mA");
    assert_eq!(term.primary_grid[0][0].fg, ansi_color(14));
    feed(&mut parser, &mut term, b"\x1b[48;5;3mB");
    assert_eq!(term.primary_grid[0][1].bg, ansi_color(3));
    feed(&mut parser, &mut term, b"\x1b[38;2;12;34;56mC");
    assert_eq!(term.primary_grid[0][2].fg, Color::rgb(12, 34, 56));
    feed(&mut parser, &mut term, b"\x1b[48;2;200;100;0mD");
    assert_eq!(term.primary_grid[0][3].bg, Color::rgb(200, 100, 0));
}

#[test]
fn sgr_inverse_set_and_clear() {
    let mut term = TerminalState::new(24, 80);
    let mut parser = Parser::new();
    feed(&mut parser, &mut term, b"\x1b[7mA\x1b[27mB");
    assert!(term.primary_grid[0][0].inverse);
    assert!(!term.primary_grid[0][1].inverse);
}

#[test]
fn sgr_unknown_codes_and_empty_list_are_ignored() {
    let mut term = TerminalState::new(24, 80);
    let mut parser = Parser::new();
    feed(&mut parser, &mut term, b"\x1b[31m\x1b[999m\x1b[mA");
    assert_eq!(term.primary_grid[0][0].fg, ansi_color(1));
}

#[test]
fn unknown_csi_finals_and_string_sequences_are_discarded() {
    let mut term = TerminalState::new(24, 80);
    let mut parser = Parser::new();
    feed(&mut parser, &mut term, b"\x1b[5q\x1b]0;title\x07\x1bP1;2|data\x1b\\ok");
    assert_eq!(term.primary_grid[0][0].c, 'o');
    assert_eq!(term.primary_grid[0][1].c, 'k');
    assert_eq!(term.cursor_col, 2);
}

#[test]
fn control_bytes_act_inside_a_csi_sequence() {
    let mut term = TerminalState::new(24, 80);
    let mut parser = Parser::new();
    feed(&mut parser, &mut term, b"ab\x1b[\n3Dc");
    assert_eq!(term.cursor_row, 1);
    assert_eq!(term.primary_grid[1][0].c, 'c');
}

#[test]
fn colon_subparameters_are_tolerated() {
    let mut term = TerminalState::new(24, 80);
    let mut parser = Parser::new();
    feed(&mut parser, &mut term, b"\x1b[4:3mA");
    assert_eq!(term.primary_grid[0][0].c, 'A');
    assert_eq!(term.primary_grid[0][0].fg, Color::default_fg());
}

#[test]
fn parameter_values_saturate() {
    let mut term = TerminalState::new(24, 80);
    let mut parser = Parser::new();
    feed(&mut parser, &mut term, b"\x1b[99999999999999999BX");
    assert_eq!(term.cursor_row, 23);
    assert_eq!(term.primary_grid[23][0].c, 'X');
}

#[test]
fn sequences_split_across_chunks_are_reassembled() {
    let mut term = TerminalState::new(24, 80);
    let mut parser = Parser::new();
    feed(&mut parser, &mut term, b"\x1b[3");
    feed(&mut parser, &mut term, b"1");
    feed(&mut parser, &mut term, b"mX");
    assert_eq!(term.primary_grid[0][0].c, 'X');
    assert_eq!(term.primary_grid[0][0].fg, ansi_color(1));
}

#[test]
fn cancel_byte_abandons_a_sequence() {
    let mut term = TerminalState::new(24, 80);
    let mut parser = Parser::new();
    feed(&mut parser, &mut term, b"\x1b[3\x18mX");
    assert_eq!(term.primary_grid[0][0].c, 'm');
    assert_eq!(term.primary_grid[0][1].c, 'X');
    assert_eq!(term.primary_grid[0][0].fg, Color::default_fg());
}
