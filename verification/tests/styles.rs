use oxink::styles::{ansi256_to_ansi, hex_to_ansi, hex_to_ansi256, hex_to_rgb, rgb_to_ansi, rgb_to_ansi256, AnsiStyles};

#[test]
fn style_codes_render_escape_sequences() {
    let styles = AnsiStyles::new();
    assert_eq!(styles.color.red.open_escape(), "\x1B[31m");
    assert_eq!(styles.color.red.close_escape(), "\x1B[39m");
    assert_eq!(styles.bg_color.bg_blue.open_escape(), "\x1B[44m");
    assert_eq!(styles.bg_color.bg_blue.close_escape(), "\x1B[49m");
}

#[test]
fn group_helpers_match_js_behavior() {
    let ansi_styles = AnsiStyles::new();
    assert_eq!(ansi_styles.color.ansi(31), "\x1B[31m");
    assert_eq!(ansi_styles.color.ansi256(128), "\x1B[38;5;128m");
    assert_eq!(ansi_styles.color.ansi16m(1, 2, 3), "\x1B[38;2;1;2;3m");
    assert_eq!(ansi_styles.bg_color.ansi(31), "\x1B[41m");
    assert_eq!(ansi_styles.bg_color.ansi256(128), "\x1B[48;5;128m");
    assert_eq!(ansi_styles.bg_color.ansi16m(1, 2, 3), "\x1B[48;2;1;2;3m");
}

#[test]
fn conversions_match_reference_logic() {
    assert_eq!(rgb_to_ansi256(0, 0, 0), 16);
    assert_eq!(rgb_to_ansi256(255, 255, 255), 231);
    assert_eq!(hex_to_rgb("#abc"), [170, 187, 204]);
    assert_eq!(hex_to_rgb("0xff8800"), [255, 136, 0]);
    assert_eq!(hex_to_rgb("invalid"), [0, 0, 0]);
    assert_eq!(hex_to_ansi256("#ff0000"), 196);
    assert_eq!(ansi256_to_ansi(196), 91);
    assert_eq!(rgb_to_ansi(255, 0, 0), 91);
    assert_eq!(hex_to_ansi("#ff0000"), 91);
}

#[test]
fn codes_map_contains_open_close_pairs() {
    let codes = AnsiStyles::new().codes();
    assert_eq!(codes.get(&1), Some(&22));
    assert_eq!(codes.get(&31), Some(&39));
    assert_eq!(codes.get(&100), Some(&49));
}
