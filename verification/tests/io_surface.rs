use verbium::cell::{ansi_color, Color};
use verbium::code_editor;
use verbium::encoder::{encode_key, KeyEvent};
use verbium::parser::Parser;
use verbium::screen::TerminalState;
use verbium::terminal;
use verbium::viewport::viewport_range;
use verbium::{CorePlugin, Tab};

#[test]
fn encoder_basic_keys() {
    assert_eq!(encode_key(&KeyEvent::Enter, false), b"\r");
    assert_eq!(encode_key(&KeyEvent::Enter, true), b"\r");
    assert_eq!(encode_key(&KeyEvent::Backspace { ctrl: false }, false), b"\x7f");
    assert_eq!(encode_key(&KeyEvent::Backspace { ctrl: true }, false), b"\x17");
    assert_eq!(encode_key(&KeyEvent::Tab, false), b"\t");
    assert_eq!(encode_key(&KeyEvent::Escape, false), b"\x1b");
    assert_eq!(encode_key(&KeyEvent::CtrlC, false), b"\x03");
    assert_eq!(encode_key(&KeyEvent::CtrlD, false), b"\x04");
    assert_eq!(encode_key(&KeyEvent::CtrlL, false), b"\x0c");
    assert_eq!(encode_key(&KeyEvent::CtrlZ, false), b"\x1a");
}

#[test]
fn encoder_arrows_respect_application_mode() {
    assert_eq!(encode_key(&KeyEvent::ArrowUp, false), b"\x1b[A");
    assert_eq!(encode_key(&KeyEvent::ArrowDown, false), b"\x1b[B");
    assert_eq!(encode_key(&KeyEvent::ArrowRight, false), b"\x1b[C");
    assert_eq!(encode_key(&KeyEvent::ArrowLeft, false), b"\x1b[D");
    assert_eq!(encode_key(&KeyEvent::ArrowUp, true), b"\x1bOA");
    assert_eq!(encode_key(&KeyEvent::ArrowDown, true), b"\x1bOB");
    assert_eq!(encode_key(&KeyEvent::ArrowRight, true), b"\x1bOC");
    assert_eq!(encode_key(&KeyEvent::ArrowLeft, true), b"\x1bOD");
}

#[test]
fn application_mode_flag_flows_from_the_screen_state() {
    let mut term = TerminalState::new(24, 80);
    let mut parser = Parser::new();
    parser.advance_bytes(&mut term, b"\x1b[?1h");
    assert_eq!(encode_key(&KeyEvent::ArrowUp, term.application_cursor), b"\x1bOA");
    parser.advance_bytes(&mut term, b"\x1b[?1l");
    assert_eq!(encode_key(&KeyEvent::ArrowUp, term.application_cursor), b"\x1b[A");
}

#[test]
fn ansi_palette_exact_values() {
    assert_eq!(ansi_color(0), Color::rgb(0, 0, 0));
    assert_eq!(ansi_color(1), Color::rgb(205, 0, 0));
    assert_eq!(ansi_color(7), Color::rgb(229, 229, 229));
    assert_eq!(ansi_color(8), Color::rgb(127, 127, 127));
    assert_eq!(ansi_color(12), Color::rgb(92, 92, 255));
    assert_eq!(ansi_color(15), Color::rgb(255, 255, 255));
    assert_eq!(ansi_color(16), Color::default_fg());
    assert_eq!(ansi_color(255), Color::default_fg());
}

#[test]
fn viewport_at_the_live_bottom() {
    let (top, bottom) = viewport_range(10, 24, 24, 0);
    assert_eq!(bottom, 33);
    assert_eq!(top, 10);
}

#[test]
fn viewport_scrolled_back_and_clamped() {
    let (top, bottom) = viewport_range(10, 24, 24, 4);
    assert_eq!(bottom, 29);
    assert_eq!(top, 6);
    let (top, bottom) = viewport_range(10, 24, 24, 9999);
    assert_eq!(bottom, 23);
    assert_eq!(top, 0);
}

#[test]
fn viewport_with_no_scrollback() {
    let (top, bottom) = viewport_range(0, 24, 24, 0);
    assert_eq!(top, 0);
    assert_eq!(bottom, 23);
    let (top, bottom) = viewport_range(0, 5, 24, 0);
    assert_eq!(top, 0);
    assert_eq!(bottom, 4);
}

#[test]
fn content_rows_map_scrollback_then_grid() {
    let mut term = TerminalState::new(2, 4);
    let mut parser = Parser::new();
    parser.advance_bytes(&mut term, b"hist");
    term.scroll_up();
    parser.advance_bytes(&mut term, b"\x1b[1;1Hgrid");
    let h = term.content_row(0).expect("scrollback row");
    assert_eq!(h[0].c, 'h');
    assert_eq!(h[3].c, 't');
    let g = term.content_row(1).expect("first grid row");
    assert_eq!(g[0].c, 'g');
    let g2 = term.content_row(2).expect("second grid row");
    assert_eq!(g2[0].c, ' ');
    assert!(term.content_row(3).is_none());
}

#[test]
fn tab_titles() {
    assert_eq!(Tab::Empty.title(), "Empty");
    assert_eq!(Tab::CoreTerminal.title(), "Terminal");
    assert_eq!(Tab::CoreEditor("notes.rs".to_string()).title(), "Editor - notes.rs");
}

#[test]
fn plugin_registry_entries() {
    let core = CorePlugin::default();
    assert_eq!(core.new_file_counter, 1);
    assert_eq!(core.name(), "core");
    let editor = code_editor::create();
    assert_eq!(editor.name(), "code_editor");
    let term_plugin = terminal::create();
    assert_eq!(term_plugin.name(), "terminal");
}

#[test]
fn language_mapping_for_known_and_unknown_extensions() {
    let m = |s: &str| code_editor::language_for_extension(&s.to_string());
    assert_eq!(m("rs"), "rs");
    assert_eq!(m("py"), "py");
    assert_eq!(m("ts"), "js");
    assert_eq!(m("js"), "js");
    assert_eq!(m("html"), "html");
    assert_eq!(m("css"), "css");
    assert_eq!(m("json"), "json");
    assert_eq!(m("md"), "md");
    assert_eq!(m("toml"), "toml");
    assert_eq!(m("h"), "c");
    assert_eq!(m("cxx"), "cpp");
    assert_eq!(m("weird"), "txt");
    assert_eq!(m(""), "txt");
}

#[test]
fn content_rows_follow_the_alternate_screen() {
    let mut term = TerminalState::new(2, 4);
    let mut parser = Parser::new();
    parser.advance_bytes(&mut term, b"main\x1b[?1049halt!");
    let g = term.content_row(0).expect("first visible row");
    assert_eq!(g[0].c, 'a');
    assert_eq!(g[3].c, '!');
    parser.advance_bytes(&mut term, b"\x1b[?1049l");
    let g = term.content_row(0).expect("first visible row");
    assert_eq!(g[0].c, 'm');
}
