use oxink::input::{
    content_width_from_terminal_columns, InputAction, InputOption, InputRenderer, InputTheme,
    InputView, KeyCode, KeyEvent, KeyModifiers, SlashInput, TerminalColor, DEFAULT_INPUT_WIDTH,
};
use oxink::styles::{
    ansi256_to_ansi, hex_to_ansi, hex_to_rgb, rgb_to_ansi256, wrap_ansi16, wrap_ansi16m,
    AnsiStyles, BgColorStyles, ColorStyles, ModifierStyles, StyleCode,
};
use oxink::input::view::display_rows;
use oxink::prompt::handle_prompt_key;
use oxink::text::visible_text_width;

fn opts(commands: &[&str]) -> Vec<InputOption> {
    commands.iter().map(|command| InputOption::from(*command)).collect()
}

fn type_text(input: &mut SlashInput, text: &str) {
    for ch in text.chars() {
        input.handle_key(KeyEvent::plain(KeyCode::Char(ch)));
    }
}

#[test]
fn backspace_undoes_typing_in_the_middle() {
    let mut input = SlashInput::new(opts(&["help"]));
    type_text(&mut input, "ab");
    input.handle_key(KeyEvent::plain(KeyCode::Left));
    type_text(&mut input, "x");
    assert_eq!(input.value(), "axb");
    assert_eq!(input.cursor(), 2);
    input.handle_key(KeyEvent::plain(KeyCode::Backspace));
    assert_eq!(input.value(), "ab");
    assert_eq!(input.cursor(), 1);
}

#[test]
fn delete_removes_the_character_under_the_cursor() {
    let mut input = SlashInput::new(opts(&["help"]));
    type_text(&mut input, "abc");
    input.handle_key(KeyEvent::plain(KeyCode::Home));
    input.handle_key(KeyEvent::plain(KeyCode::Delete));
    assert_eq!(input.value(), "bc");
    assert_eq!(input.cursor(), 0);
    input.handle_key(KeyEvent::plain(KeyCode::End));
    input.handle_key(KeyEvent::plain(KeyCode::Delete));
    assert_eq!(input.value(), "bc");
    assert_eq!(input.cursor(), 2);
}

#[test]
fn shortcuts_leave_the_input_unchanged() {
    let mut input = SlashInput::new(opts(&["help"]));
    type_text(&mut input, "hi");
    assert_eq!(input.handle_key(KeyEvent::ctrl(KeyCode::Char('x'))), InputAction::Noop);
    assert_eq!(input.handle_key(KeyEvent::ctrl(KeyCode::Left)), InputAction::Noop);
    assert_eq!(
        input.handle_key(KeyEvent::ctrl(KeyCode::Char('C'))),
        InputAction::CopyRequested("hi".to_string())
    );
    assert_eq!(input.value(), "hi");
    assert_eq!(input.cursor(), 2);
}

#[test]
fn alt_characters_type_nothing() {
    let mut input = SlashInput::new(opts(&["help"]));
    let action = input.handle_key(KeyEvent::new(KeyCode::Char('a'), KeyModifiers::alt()));
    assert_eq!(action, InputAction::Noop);
    assert_eq!(input.value(), "");
    input.handle_key(KeyEvent::new(KeyCode::Char('a'), KeyModifiers::shift()));
    assert_eq!(input.value(), "a");
}

#[test]
fn enter_applies_the_visible_suggestion() {
    let mut input = SlashInput::new(opts(&["help"]));
    type_text(&mut input, "/");
    assert!(input.is_dropdown_visible());
    assert_eq!(
        input.handle_key(KeyEvent::plain(KeyCode::Tab)),
        InputAction::SuggestionApplied("/help ".to_string())
    );
    assert_eq!(input.cursor(), 6);
    assert!(!input.is_dropdown_visible());
}

#[test]
fn tab_without_suggestions_does_nothing() {
    let mut input = SlashInput::new(opts(&["help"]));
    type_text(&mut input, "/x");
    assert_eq!(input.handle_key(KeyEvent::plain(KeyCode::Tab)), InputAction::Noop);
    assert_eq!(input.value(), "/x");
}

#[test]
fn esc_hides_the_dropdown_and_enter_then_submits() {
    let mut input = SlashInput::new(opts(&["help"]));
    type_text(&mut input, "/h");
    input.handle_key(KeyEvent::plain(KeyCode::Esc));
    assert!(!input.is_dropdown_visible());
    assert_eq!(
        input.handle_key(KeyEvent::plain(KeyCode::Enter)),
        InputAction::Submitted("/h".to_string())
    );
    assert_eq!(input.value(), "");
}

#[test]
fn selection_moves_are_inverse() {
    let mut input = SlashInput::new(opts(&["help", "hello", "history"]));
    type_text(&mut input, "/h");
    input.handle_key(KeyEvent::plain(KeyCode::Down));
    assert_eq!(input.selected_command(), Some("hello"));
    input.handle_key(KeyEvent::plain(KeyCode::Down));
    input.handle_key(KeyEvent::plain(KeyCode::Up));
    assert_eq!(input.selected_command(), Some("hello"));
    input.handle_key(KeyEvent::plain(KeyCode::Up));
    input.handle_key(KeyEvent::plain(KeyCode::Up));
    assert_eq!(input.selected_command(), Some("history"));
    input.handle_key(KeyEvent::plain(KeyCode::Down));
    assert_eq!(input.selected_command(), Some("help"));
}

#[test]
fn matching_ignores_ascii_case() {
    let mut input = SlashInput::new(opts(&["Help", "history", "exit"]));
    type_text(&mut input, "/HE");
    assert_eq!(input.filtered_commands(), vec!["Help"]);
    assert_eq!(input.selected_option(), Some(&InputOption::new("Help", "")));
}

#[test]
fn slash_later_in_the_value_shows_no_suggestions() {
    let mut input = SlashInput::new(opts(&["help"]));
    type_text(&mut input, "a/h");
    assert!(input.filtered_options().is_empty());
    assert_eq!(input.selected_option(), None);
    assert_eq!(input.selected_command(), None);
}

#[test]
fn options_are_normalized_and_empty_ones_dropped() {
    let option = InputOption::new("  //help \t", "  Show help \n");
    assert_eq!(option.command, "help");
    assert_eq!(option.description, "Show help");
    let input = SlashInput::new(vec![
        InputOption::new(" / ", "nothing"),
        InputOption::new("quit", ""),
    ]);
    assert_eq!(input.options(), &[InputOption::new("quit", "")]);
}

#[test]
fn replacing_options_keeps_the_selection_within_the_suggestions() {
    let mut input = SlashInput::new(opts(&["ha", "hb", "hc"]));
    type_text(&mut input, "/h");
    input.handle_key(KeyEvent::plain(KeyCode::Up));
    assert_eq!(input.selected_command(), Some("hc"));
    input.set_options(opts(&["ha", "hb"]));
    assert_eq!(input.selected_command(), Some("hb"));
}

#[test]
fn paste_inserts_at_the_cursor_and_opens_the_dropdown() {
    let mut input = SlashInput::new(opts(&["help"]));
    type_text(&mut input, "lp");
    input.handle_key(KeyEvent::plain(KeyCode::Home));
    input.handle_paste("/he");
    assert_eq!(input.value(), "/help");
    assert_eq!(input.cursor(), 3);
    assert_eq!(input.filtered_commands(), vec!["help"]);
}

#[test]
fn cursor_moves_are_inverse() {
    let mut input = SlashInput::new(opts(&["help"]));
    type_text(&mut input, "abc");
    input.handle_key(KeyEvent::plain(KeyCode::Left));
    input.handle_key(KeyEvent::plain(KeyCode::Right));
    assert_eq!(input.cursor(), 3);
    input.handle_key(KeyEvent::plain(KeyCode::Right));
    assert_eq!(input.cursor(), 3);
    input.handle_key(KeyEvent::plain(KeyCode::Home));
    input.handle_key(KeyEvent::plain(KeyCode::Left));
    assert_eq!(input.cursor(), 0);
}

#[test]
fn box_lines_span_the_box_for_wide_text() {
    let mut input = SlashInput::new(opts(&["help"]))
        .with_theme(InputTheme::ocean().with_text_color(TerminalColor::Rgb(1, 2, 3)));
    type_text(&mut input, "日本語 text");
    let view = input.render();
    for line in &view.lines[0..3] {
        assert_eq!(visible_text_width(line), DEFAULT_INPUT_WIDTH + 2);
    }
    assert_eq!(view.cursor_column, 1 + 6 + 5);
}

#[test]
fn applied_command_line_spans_the_box() {
    let mut input = SlashInput::new(opts(&["help"])).with_input_width(Some(20));
    type_text(&mut input, "/");
    input.handle_key(KeyEvent::plain(KeyCode::Enter));
    type_text(&mut input, "now");
    let view = input.render();
    assert_eq!(visible_text_width(&view.lines[1]), 22);
    assert!(view.lines[1].starts_with(" \x1B[34m/help\x1B[39m now"));
}

#[test]
fn value_wider_than_the_box_widens_it() {
    let mut input = SlashInput::with_min_width(opts(&["help"]), 0);
    type_text(&mut input, "abc");
    let view = input.render();
    assert_eq!(view.lines[0], "     ");
    assert_eq!(view.lines[1], " abc ");
}

#[test]
fn drawing_has_header_box_and_visible_entries() {
    let mut input = SlashInput::new(opts(&["a1", "a2", "a3"]))
        .with_header_lines(vec!["title".to_string(), String::new()]);
    type_text(&mut input, "/a");
    let view = input.render_with_terminal_width(12);
    assert_eq!(view.lines.len(), 2 + 3 + 3);
    assert_eq!(view.lines[0], "title");
    assert_eq!(view.cursor_row, 3);
    assert_eq!(view.cursor_column, 3);
    assert_eq!(view.lines[2], " ".repeat(12));
    assert_eq!(content_width_from_terminal_columns(12), 10);
    assert_eq!(content_width_from_terminal_columns(1), 1);
}

#[test]
fn renderer_moves_the_cursor_and_clears_once() {
    let mut renderer = InputRenderer::new(10);
    let view = InputView {
        lines: vec!["ab".to_string(), "cd".to_string()],
        cursor_row: 0,
        cursor_column: 1,
    };
    assert_eq!(renderer.render_view(&view), "ab\r\ncd\x1B[1A\r\x1B[1C\x1B[?25h");
    assert_eq!(renderer.clear(), "\r\x1B[0J\x1B[?25h");
    assert_eq!(renderer.clear(), "");
}

#[test]
fn renderer_counts_wrapped_rows() {
    let mut renderer = InputRenderer::new(4);
    let view = InputView {
        lines: vec!["abcdefghij".to_string(), "\x1B[31mxy\x1B[39m".to_string()],
        cursor_row: 1,
        cursor_column: 5,
    };
    assert_eq!(renderer.render_view(&view), "abcdefghij\r\n\x1B[31mxy\x1B[39m\r\x1B[1C\x1B[?25h");
    assert_eq!(renderer.clear(), "\r\x1B[4A\x1B[0J\x1B[?25h");
    let zero = InputRenderer::new(0);
    let mut zero = zero;
    let single = InputView { lines: vec!["abc".to_string()], cursor_row: 0, cursor_column: 2 };
    assert_eq!(zero.render_view(&single), "abc\r\x1B[?25h");
}

#[test]
fn renderer_draws_an_input() {
    let mut renderer = InputRenderer::new(30);
    let mut input = SlashInput::new(opts(&["help"]));
    type_text(&mut input, "hi");
    let out = renderer.render(&input);
    assert!(out.starts_with(&" ".repeat(30)));
    assert!(out.ends_with("\x1B[1A\r\x1B[3C\x1B[?25h"));
}

#[test]
fn visible_width_skips_escapes_and_controls() {
    assert_eq!(visible_text_width("\x1B[38;5;12mab\x1B[0m"), 2);
    assert_eq!(visible_text_width("\x1Bxab"), 2);
    assert_eq!(visible_text_width("a\tb\u{0301}"), 2);
    assert_eq!(visible_text_width("\x1B[12"), 0);
    assert_eq!(visible_text_width("中"), 2);
    assert_eq!(display_rows("abcdefghijk", 5), 3);
    assert_eq!(display_rows("\x1B[31m", 5), 1);
}

#[test]
fn style_groups_hold_the_standard_codes() {
    let styles = AnsiStyles::new();
    let codes = styles.codes();
    assert_eq!(codes.len(), 41);
    assert_eq!(codes.get(&53), Some(&55));
    assert_eq!(codes.get(&2), Some(&22));
    assert_eq!(codes.get(&5), None);
    assert_eq!(styles.modifier.overline.open_escape(), "\x1B[53m");
    assert_eq!(styles.color.gray, styles.color.black_bright);
    assert_eq!(styles.bg_color.bg_red.open, styles.color.red.open + 10);
    assert_eq!(ColorStyles::new().close, "\x1B[39m");
    assert_eq!(BgColorStyles::new().close, "\x1B[49m");
    assert_eq!(ModifierStyles::new().names().len(), 9);
    assert_eq!(styles.color_names().len(), 36);
    assert!(styles.color_names().contains(&"bgWhiteBright"));
    assert_eq!(StyleCode::new(1, 22), styles.modifier.bold);
}

#[test]
fn escapes_are_written_in_decimal() {
    assert_eq!(wrap_ansi16(10, 31), "\x1B[41m");
    assert_eq!(wrap_ansi16m(0, 0, 100, 255), "\x1B[38;2;0;100;255m");
    assert_eq!(AnsiStyles::new().bg_color.ansi16m(9, 10, 11), "\x1B[48;2;9;10;11m");
}

#[test]
fn rgb_and_256_color_conversions() {
    assert_eq!(rgb_to_ansi256(7, 7, 7), 16);
    assert_eq!(rgb_to_ansi256(249, 249, 249), 231);
    assert_eq!(rgb_to_ansi256(128, 128, 128), 244);
    assert_eq!(rgb_to_ansi256(0, 128, 255), 16 + 0 + 6 * 3 + 5);
    assert_eq!(ansi256_to_ansi(3), 33);
    assert_eq!(ansi256_to_ansi(12), 94);
    assert_eq!(ansi256_to_ansi(244), 37);
    assert_eq!(ansi256_to_ansi(240), 30);
    assert_eq!(ansi256_to_ansi(16), 30);
    assert_eq!(ansi256_to_ansi(22), 30);
    assert_eq!(ansi256_to_ansi(34), 32);
    assert_eq!(ansi256_to_ansi(231), 97);
}

#[test]
fn hex_shorthand_equals_long_form() {
    assert_eq!(hex_to_rgb("#abc"), hex_to_rgb("#aabbcc"));
    assert_eq!(hex_to_rgb("color: #ABCDEF;"), [171, 205, 239]);
    assert_eq!(hex_to_rgb("zz12"), [0, 0, 0]);
    assert_eq!(hex_to_ansi("#000"), 30);
}

#[test]
fn modifiers_combine_as_bit_sets() {
    let both = KeyModifiers::control() | KeyModifiers::shift();
    assert!(both.contains(KeyModifiers::control()));
    assert!(!both.contains(KeyModifiers::alt()));
    assert!(both.intersects(KeyModifiers::shift() | KeyModifiers::alt()));
    let mut m = KeyModifiers::default();
    assert_eq!(m, KeyModifiers::none());
    m |= KeyModifiers::super_key();
    assert!(m.contains(KeyModifiers::super_key()));
    assert_eq!(KeyEvent::super_key(KeyCode::Tab).modifiers, KeyModifiers::super_key());
}

#[test]
fn themes_set_their_colors() {
    let theme = InputTheme::ocean();
    assert_eq!(theme.border_color, Some(TerminalColor::Ansi256(81)));
    assert_eq!(theme.suggestion_color, Some(TerminalColor::Ansi16(37)));
    assert_eq!(theme.selected_text_color, None);
    assert_eq!(InputTheme::new(), InputTheme::default());
    let themed = InputTheme::new().with_selected_text_color(TerminalColor::Ansi16(35));
    let mut input = SlashInput::new(opts(&["help"])).with_theme(themed);
    type_text(&mut input, "/");
    assert!(input.render().as_string().contains("\x1B[35m /help\x1B[39m"));
}

#[test]
fn options_convert_from_strings_and_pairs() {
    let from_str = InputOption::from(" /help ");
    assert_eq!(from_str.command, "help");
    assert_eq!(from_str.description, "");
    assert_eq!(InputOption::from(String::from("//quit")), InputOption::new("quit", ""));
    assert_eq!(
        InputOption::from(("/help", "  Show help ")),
        InputOption::new("help", "Show help")
    );
    assert_eq!(
        InputOption::from((String::from("help"), String::from(" Show "))),
        InputOption::new("help", "Show")
    );
    assert_eq!(
        InputOption::from((String::from("help"), "x")),
        InputOption::from(("help", String::from("x")))
    );
}

#[test]
fn renderer_parts_commit_only_when_asked() {
    let mut renderer = InputRenderer::new(10);
    let view = InputView {
        lines: vec!["ab".to_string(), "cd".to_string()],
        cursor_row: 0,
        cursor_column: 1,
    };
    assert_eq!(renderer.clear_text(), "");
    assert_eq!(renderer.drawing_text(&view), "ab\r\ncd\x1B[1A\r\x1B[1C\x1B[?25h");
    // Nothing is recorded until the drawing is committed.
    assert_eq!(renderer.clear_text(), "");
    renderer.commit_drawing(&view);
    assert_eq!(renderer.clear_text(), "\r\x1B[0J\x1B[?25h");
    assert_eq!(renderer.clear_text(), "\r\x1B[0J\x1B[?25h");
    renderer.commit_clear();
    assert_eq!(renderer.clear_text(), "");

    let below = InputView { lines: vec!["a".to_string(), "b".to_string(), "c".to_string()], cursor_row: 2, cursor_column: 0 };
    renderer.commit_drawing(&below);
    assert_eq!(renderer.clear(), "\r\x1B[2A\x1B[0J\x1B[?25h");
    assert_eq!(renderer.clear(), "");
}

#[test]
fn code_pairs_list_every_style_in_order() {
    let pairs = oxink::styles::code_pairs();
    assert_eq!(pairs.len(), 45);
    assert_eq!(pairs[0], (0, 0));
    assert_eq!(pairs[5], (53, 55));
    assert_eq!(pairs[17], (90, 39));
    assert_eq!(pairs[19], (90, 39));
    assert_eq!(pairs[44], (107, 49));
    let codes = AnsiStyles::new().codes();
    for (open, close) in &pairs {
        assert_eq!(codes.get(open), Some(close));
    }
    let collected: std::collections::BTreeMap<u8, u8> = pairs.iter().copied().collect();
    assert_eq!(collected, codes);
}

#[test]
fn prompt_keys_type_erase_submit_and_quit() {
    let mut text = String::new();
    assert!(!handle_prompt_key(&mut text, KeyEvent::plain(KeyCode::Char('h'))));
    assert!(!handle_prompt_key(&mut text, KeyEvent::plain(KeyCode::Char('é'))));
    assert!(!handle_prompt_key(&mut text, KeyEvent::super_key(KeyCode::Char('c'))));
    assert_eq!(text, "héc");
    assert!(!handle_prompt_key(&mut text, KeyEvent::plain(KeyCode::Backspace)));
    assert!(!handle_prompt_key(&mut text, KeyEvent::plain(KeyCode::Backspace)));
    assert_eq!(text, "h");
    assert!(!handle_prompt_key(&mut text, KeyEvent::plain(KeyCode::Left)));
    assert_eq!(text, "h");
    assert!(handle_prompt_key(&mut text, KeyEvent::ctrl(KeyCode::Char('c'))));
    assert_eq!(text, "h");
    assert!(!handle_prompt_key(&mut text, KeyEvent::plain(KeyCode::Enter)));
    assert_eq!(text, "");
    assert!(!handle_prompt_key(&mut text, KeyEvent::plain(KeyCode::Backspace)));
    assert_eq!(text, "");
    assert!(handle_prompt_key(&mut text, KeyEvent::plain(KeyCode::Esc)));
}
