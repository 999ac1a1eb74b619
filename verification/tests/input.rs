use oxink::input::{
    content_width_from_terminal_columns, InputAction, InputOption, InputTheme, KeyCode, KeyEvent,
    SlashInput, TerminalColor, DEFAULT_INPUT_WIDTH, DROPDOWN_TOP_PADDING,
};
use oxink::text::visible_text_width;

fn opts(commands: &[&str]) -> Vec<InputOption> {
    commands.iter().map(|command| InputOption::from(*command)).collect()
}

fn type_text(input: &mut SlashInput, text: &str) {
    for ch in text.chars() {
        input.handle_key(KeyEvent::plain(KeyCode::Char(ch)));
    }
}

#[test]
fn renders_input_box_and_accepts_text() {
    let mut input = SlashInput::new(opts(&["help", "exit"]));
    type_text(&mut input, "hello");

    let width = DEFAULT_INPUT_WIDTH.max("hello".chars().count());
    let border = " ".repeat(width + 2);
    let line = format!(" hello{} ", " ".repeat(width - "hello".chars().count()));

    assert_eq!(input.value(), "hello");
    assert_eq!(input.render().lines, vec![border.clone(), line, border]);
}

#[test]
fn reports_copy_and_paste_shortcuts() {
    let mut input = SlashInput::new(opts(&["help"]));
    type_text(&mut input, "hello");

    assert_eq!(
        input.handle_key(KeyEvent::ctrl(KeyCode::Char('c'))),
        InputAction::CopyRequested("hello".to_string())
    );
    assert_eq!(
        input.handle_key(KeyEvent::super_key(KeyCode::Char('v'))),
        InputAction::PasteRequested
    );

    input.handle_paste(" world");
    assert_eq!(input.value(), "hello world");
}

#[test]
fn leading_slash_opens_filtered_dropdown() {
    let mut input = SlashInput::new(opts(&["help", "hello", "exit"]));
    type_text(&mut input, "/he");

    assert!(input.is_dropdown_visible());
    assert_eq!(input.filtered_commands(), vec!["help", "hello"]);

    let rendered = input.render().as_string();
    assert!(rendered.contains(" /help"));
    assert!(rendered.contains(" /hello"));
    assert!(!rendered.contains("/exit"));
}

#[test]
fn slash_only_works_for_the_first_character() {
    let mut input = SlashInput::new(opts(&["help"]));
    type_text(&mut input, "a/");

    assert!(!input.is_dropdown_visible());
}

#[test]
fn arrow_keys_change_selection_and_enter_applies_it() {
    let mut input = SlashInput::new(opts(&["help", "hello", "history"]));
    type_text(&mut input, "/h");

    input.handle_key(KeyEvent::plain(KeyCode::Down));
    input.handle_key(KeyEvent::plain(KeyCode::Down));

    assert_eq!(input.selected_command(), Some("history"));
    assert_eq!(
        input.handle_key(KeyEvent::plain(KeyCode::Enter)),
        InputAction::SuggestionApplied("/history ".to_string())
    );
    assert_eq!(input.value(), "/history ");
    assert!(!input.is_dropdown_visible());
}

#[test]
fn enter_submits_when_dropdown_is_not_visible() {
    let mut input = SlashInput::new(opts(&["help"]));
    type_text(&mut input, "run");

    assert_eq!(
        input.handle_key(KeyEvent::plain(KeyCode::Enter)),
        InputAction::Submitted("run".to_string())
    );
    assert_eq!(input.value(), "");
    assert_eq!(input.cursor(), 0);
    assert!(!input.is_dropdown_visible());
}

#[test]
fn render_supports_custom_background_color() {
    let mut input = SlashInput::new(opts(&["help"]));
    input.set_background_color(TerminalColor::Ansi256(236));

    let rendered = input.render().as_string();
    assert!(rendered.contains("\x1B[48;5;236m"));
}

#[test]
fn cursor_column_uses_display_width_for_chinese_text() {
    let mut input = SlashInput::new(opts(&["help"]));
    type_text(&mut input, "你好a");

    let view = input.render();
    assert_eq!(view.cursor_column, 6);
    assert_eq!(visible_text_width(&view.lines[1]), DEFAULT_INPUT_WIDTH + 2);
}

#[test]
fn moving_cursor_over_chinese_text_preserves_wide_character_boundaries() {
    let mut input = SlashInput::new(opts(&["help"]));
    type_text(&mut input, "你好a");

    input.handle_key(KeyEvent::plain(KeyCode::Left));
    assert_eq!(input.cursor(), 2);
    assert_eq!(input.render().cursor_column, 5);

    input.handle_key(KeyEvent::plain(KeyCode::Left));
    assert_eq!(input.cursor(), 1);
    assert_eq!(input.render().cursor_column, 3);
}

#[test]
fn container_fill_uses_background_color() {
    let input = SlashInput::new(opts(&["help"])).with_theme(
        InputTheme::ocean()
            .with_border_color(TerminalColor::Ansi256(81))
            .with_background_color(TerminalColor::Ansi256(236)),
    );

    let view = input.render();
    assert!(view.lines[0].starts_with("\x1B[48;5;236m "));
    assert!(view.lines[1].starts_with("\x1B[48;5;236m "));
}

#[test]
fn input_width_can_be_overridden_or_reset_to_default() {
    let mut input = SlashInput::new(opts(&["help"])).with_input_width(Some(12));
    type_text(&mut input, "hello");

    assert_eq!(input.render().lines[0], " ".repeat(14));

    input.set_input_width(None);

    let width = DEFAULT_INPUT_WIDTH.max("hello".chars().count());
    let border = " ".repeat(width + 2);
    assert_eq!(input.render().lines[0], border);
}

#[test]
fn theme_builder_applies_selected_suggestion_colors() {
    let input = SlashInput::new(opts(&["help", "hello"])).with_theme(
        InputTheme::ocean().with_selected_background_color(TerminalColor::Rgb(10, 20, 30)),
    );

    let themed = input.with_background_color(TerminalColor::Ansi16(40));
    assert_eq!(
        themed.theme().background_color,
        Some(TerminalColor::Ansi16(40))
    );
    assert_eq!(
        themed.theme().selected_background_color,
        Some(TerminalColor::Rgb(10, 20, 30))
    );
}

#[test]
fn options_can_be_replaced_from_outside() {
    let mut input = SlashInput::new(opts(&["help", "hello"]));
    type_text(&mut input, "/h");

    assert_eq!(input.filtered_commands(), vec!["help", "hello"]);

    input.set_options(opts(&["history", "theme"]));

    assert_eq!(
        input.options(),
        &[
            InputOption::new("history", ""),
            InputOption::new("theme", "")
        ]
    );
    assert_eq!(input.filtered_commands(), vec!["history"]);
    assert_eq!(
        input.selected_option(),
        Some(&InputOption::new("history", ""))
    );
}

#[test]
fn with_options_replaces_existing_dropdown_data() {
    let input = SlashInput::new(opts(&["help"])).with_options(opts(&["clear", "/quit"]));

    assert_eq!(
        input.options(),
        &[InputOption::new("clear", ""), InputOption::new("quit", "")]
    );
}

#[test]
fn applied_command_is_rendered_in_blue_with_a_trailing_space() {
    let mut input = SlashInput::new(opts(&["help", "history"]));
    type_text(&mut input, "/h");

    input.handle_key(KeyEvent::plain(KeyCode::Down));
    input.handle_key(KeyEvent::plain(KeyCode::Enter));

    let rendered = input.render().as_string();
    assert_eq!(input.value(), "/history ");
    assert!(rendered.contains("\x1B[34m/history"));
    assert!(rendered.contains("\x1B[39m "));
}

#[test]
fn dropdown_render_has_no_marker_border_or_background() {
    let mut input = SlashInput::new(opts(&["help", "history"])).with_theme(
        InputTheme::ocean()
            .with_suggestion_background_color(TerminalColor::Ansi256(238))
            .with_selected_background_color(TerminalColor::Ansi256(31)),
    );
    type_text(&mut input, "/h");

    let view = input.render();
    let rendered = view.as_string();
    assert!(!rendered.contains("> /"));
    assert!(!view.lines[3 + DROPDOWN_TOP_PADDING].starts_with("| "));
    assert!(!rendered.contains("\x1B[48;5;238m"));
    assert!(!rendered.contains("\x1B[48;5;31m"));
}

#[test]
fn dropdown_renders_command_and_description_with_more_spacing() {
    let mut input = SlashInput::new(vec![
        InputOption::from(("help", "Show available commands")),
        InputOption::from(("history", "Previous commands")),
    ]);
    type_text(&mut input, "/h");

    let view = input.render();
    assert_eq!(view.lines.len(), 3 + DROPDOWN_TOP_PADDING + 2);
    assert!(view.lines[3 + DROPDOWN_TOP_PADDING].contains(" /help     Show available commands"));
    assert!(view.lines[4 + DROPDOWN_TOP_PADDING].contains(" /history"));
    assert!(view.lines[4 + DROPDOWN_TOP_PADDING].contains("  Previous commands"));
}

#[test]
fn dropdown_uses_white_for_unselected_and_blue_for_selected() {
    let mut input = SlashInput::new(vec![
        InputOption::from(("help", "Show available commands")),
        InputOption::from(("history", "Previous commands")),
    ]);
    type_text(&mut input, "/h");

    let rendered = input.render().as_string();
    assert!(rendered.contains("\x1B[34m /help     Show available commands"));
    assert!(rendered.contains("\x1B[37m /history\x1B[39m\x1B[90m  Previous commands\x1B[39m"));
}

#[test]
fn dropdown_renders_at_most_eight_visible_options() {
    let options = (1..=10)
        .map(|index| {
            InputOption::new(
                &format!("help{index}"),
                &format!("Show available command {index}"),
            )
        })
        .collect();
    let mut input = SlashInput::new(options);
    type_text(&mut input, "/h");

    let view = input.render();
    let rendered = view.as_string();

    assert_eq!(view.lines.len(), 3 + DROPDOWN_TOP_PADDING + 8);
    assert!(rendered.contains(" /help1"));
    assert!(rendered.contains(" /help8"));
    assert!(!rendered.contains(" /help9"));
    assert!(!rendered.contains(" /help10"));
}

#[test]
fn dropdown_scrolls_when_selection_moves_past_visible_window() {
    let options = (1..=10)
        .map(|index| {
            InputOption::new(
                &format!("help{index}"),
                &format!("Show available command {index}"),
            )
        })
        .collect();
    let mut input = SlashInput::new(options);
    type_text(&mut input, "/h");

    for _ in 0..8 {
        input.handle_key(KeyEvent::plain(KeyCode::Down));
    }

    let rendered = input.render().as_string();

    assert_eq!(input.selected_command(), Some("help9"));
    assert!(!rendered.contains(" /help1"));
    assert!(rendered.contains(" /help2"));
    assert!(rendered.contains("\x1B[34m /help9"));
    assert!(!rendered.contains(" /help10"));
}

#[test]
fn dropdown_selection_wraps_between_first_and_last_options() {
    let options = (1..=10)
        .map(|index| {
            InputOption::new(
                &format!("help{index}"),
                &format!("Show available command {index}"),
            )
        })
        .collect();
    let mut input = SlashInput::new(options);
    type_text(&mut input, "/h");

    input.handle_key(KeyEvent::plain(KeyCode::Up));
    assert_eq!(input.selected_command(), Some("help10"));

    let wrapped_to_last = input.render();
    assert!(wrapped_to_last.lines[3 + DROPDOWN_TOP_PADDING].contains(" /help3"));
    assert!(wrapped_to_last.lines.last().is_some_and(|line| line.contains("\x1B[34m /help10")));

    input.handle_key(KeyEvent::plain(KeyCode::Down));
    assert_eq!(input.selected_command(), Some("help1"));

    let wrapped_to_first = input.render();
    assert!(wrapped_to_first.lines[3 + DROPDOWN_TOP_PADDING].contains("\x1B[34m /help1"));
    assert!(wrapped_to_first.lines.last().is_some_and(|line| line.contains(" /help8")));
}

#[test]
fn render_with_terminal_width_uses_available_columns() {
    let mut input = SlashInput::new(opts(&["help"]));
    type_text(&mut input, "hello");

    let view = input.render_with_terminal_width(40);
    let width = content_width_from_terminal_columns(40);
    let border = " ".repeat(width + 2);
    let line = format!(" hello{} ", " ".repeat(width - "hello".chars().count()));

    assert_eq!(view.lines[0], border);
    assert_eq!(view.lines[1], line);
    assert_eq!(view.lines[2], border);
}
