//! ANSI style codes, escape sequences for 16, 256 and true colors, and color
//! conversions between RGB, hex notation, the 256-color palette and the
//! 16 basic colors.

use vstd::prelude::*;

use crate::text::{
    chars_of, decimal, push_decimal, string_push, ESC,
};

verus! {

broadcast use vstd::string::group_string_axioms;

/// Offset between a foreground color code and the matching background code.
pub const ANSI_BACKGROUND_OFFSET: u8 = 10;

/// A Select Graphic Rendition sequence: `ESC [ body m`.
pub open spec fn sgr(body: Seq<char>) -> Seq<char> {
    seq![ESC, '['] + body + seq!['m']
}

/// The SGR sequence that selects the single parameter `n`.
pub open spec fn sgr_code(n: nat) -> Seq<char> {
    sgr(decimal(n))
}

/// Appends `ESC [` to `s`.
fn push_csi(s: &mut String)
    ensures
        final(s)@ == old(s)@ + seq![ESC, '['],
{
    string_push(s, ESC);
    string_push(s, '[');
    assert(s@ =~= old(s)@ + seq![ESC, '[']);
}

/// The SGR sequence `ESC [ n m`.
fn sgr_string(n: u64) -> (s: String)
    ensures
        s@ == sgr_code(n as nat),
{
    let mut s = String::new();
    push_csi(&mut s);
    push_decimal(&mut s, n);
    string_push(&mut s, 'm');
    assert(s@ =~= sgr_code(n as nat));
    s
}

/// An opening SGR code together with the code that undoes it.
#[derive(Debug, Clone, Copy, PartialEq, Eq, Hash, Structural)]
pub struct StyleCode {
    pub open: u8,
    pub close: u8,
}

/// The style code with the given opening and closing parameters.
pub open spec fn style(open: u8, close: u8) -> StyleCode {
    StyleCode { open, close }
}

impl StyleCode {
    /// A style code from its opening and closing parameters.
    pub fn new(open: u8, close: u8) -> (r: Self)
        ensures
            r == style(open, close),
    {
        StyleCode { open, close }
    }

    /// The escape sequence that switches the style on.
    pub fn open_escape(self) -> (s: String)
        ensures
            s@ == sgr_code(self.open as nat),
    {
        sgr_string(self.open as u64)
    }

    /// The escape sequence that switches the style off.
    pub fn close_escape(self) -> (s: String)
        ensures
            s@ == sgr_code(self.close as nat),
    {
        sgr_string(self.close as u64)
    }
}

/// Text modifiers (bold, dim, italic, ...).
#[derive(Debug, Clone, Copy)]
pub struct ModifierStyles {
    pub reset: StyleCode,
    pub bold: StyleCode,
    pub dim: StyleCode,
    pub italic: StyleCode,
    pub underline: StyleCode,
    pub overline: StyleCode,
    pub inverse: StyleCode,
    pub hidden: StyleCode,
    pub strikethrough: StyleCode,
}

/// The modifier codes: each modifier and the code that ends it.
pub open spec fn modifier_styles() -> ModifierStyles {
    ModifierStyles {
        reset: style(0, 0),
        bold: style(1, 22),
        dim: style(2, 22),
        italic: style(3, 23),
        underline: style(4, 24),
        overline: style(53, 55),
        inverse: style(7, 27),
        hidden: style(8, 28),
        strikethrough: style(9, 29),
    }
}

/// Names of the modifiers, in the order of their fields.
pub open spec fn modifier_names() -> Seq<Seq<char>> {
    seq![
        "reset"@,
        "bold"@,
        "dim"@,
        "italic"@,
        "underline"@,
        "overline"@,
        "inverse"@,
        "hidden"@,
        "strikethrough"@,
    ]
}

/// The views of a list of names.
pub open spec fn name_views(names: Seq<&str>) -> Seq<Seq<char>> {
    names.map_values(|n: &str| n@)
}

impl ModifierStyles {
    /// The standard modifier codes.
    pub fn new() -> (r: Self)
        ensures
            r == modifier_styles(),
    {
        ModifierStyles {
            reset: StyleCode::new(0, 0),
            bold: StyleCode::new(1, 22),
            dim: StyleCode::new(2, 22),
            italic: StyleCode::new(3, 23),
            underline: StyleCode::new(4, 24),
            overline: StyleCode::new(53, 55),
            inverse: StyleCode::new(7, 27),
            hidden: StyleCode::new(8, 28),
            strikethrough: StyleCode::new(9, 29),
        }
    }

    /// The modifier names.
    pub fn names(&self) -> (r: Vec<&'static str>)
        ensures
            name_views(r@) == modifier_names(),
    {
        let r = vec![
            "reset",
            "bold",
            "dim",
            "italic",
            "underline",
            "overline",
            "inverse",
            "hidden",
            "strikethrough",
        ];
        assert(name_views(r@) =~= modifier_names());
        r
    }
}

/// Foreground colors.
#[derive(Debug, Clone, Copy)]
pub struct ColorStyles {
    pub black: StyleCode,
    pub red: StyleCode,
    pub green: StyleCode,
    pub yellow: StyleCode,
    pub blue: StyleCode,
    pub magenta: StyleCode,
    pub cyan: StyleCode,
    pub white: StyleCode,
    pub black_bright: StyleCode,
    pub gray: StyleCode,
    pub grey: StyleCode,
    pub red_bright: StyleCode,
    pub green_bright: StyleCode,
    pub yellow_bright: StyleCode,
    pub blue_bright: StyleCode,
    pub magenta_bright: StyleCode,
    pub cyan_bright: StyleCode,
    pub white_bright: StyleCode,
    pub close: &'static str,
}

/// Whether the foreground colors hold the standard codes: 30..=37 and
/// 90..=97 (gray and grey being bright black), each closed by 39, and whose
/// `close` sequence resets the foreground color.
pub open spec fn is_standard_colors(c: ColorStyles) -> bool {
    &&& c.black == style(30, 39)
    &&& c.red == style(31, 39)
    &&& c.green == style(32, 39)
    &&& c.yellow == style(33, 39)
    &&& c.blue == style(34, 39)
    &&& c.magenta == style(35, 39)
    &&& c.cyan == style(36, 39)
    &&& c.white == style(37, 39)
    &&& c.black_bright == style(90, 39)
    &&& c.gray == style(90, 39)
    &&& c.grey == style(90, 39)
    &&& c.red_bright == style(91, 39)
    &&& c.green_bright == style(92, 39)
    &&& c.yellow_bright == style(93, 39)
    &&& c.blue_bright == style(94, 39)
    &&& c.magenta_bright == style(95, 39)
    &&& c.cyan_bright == style(96, 39)
    &&& c.white_bright == style(97, 39)
    &&& c.close@ == sgr_code(39)
}

/// Names of the foreground colors.
pub open spec fn foreground_color_names() -> Seq<Seq<char>> {
    seq![
        "black"@,
        "red"@,
        "green"@,
        "yellow"@,
        "blue"@,
        "magenta"@,
        "cyan"@,
        "white"@,
        "blackBright"@,
        "gray"@,
        "grey"@,
        "redBright"@,
        "greenBright"@,
        "yellowBright"@,
        "blueBright"@,
        "magentaBright"@,
        "cyanBright"@,
        "whiteBright"@,
    ]
}

/// Shows that a literal `ESC [ d1 d2 m` is the SGR sequence of `10 * d1 + d2`.
proof fn lemma_two_digit_sgr(n: nat)
    requires
        10 <= n < 100,
    ensures
        sgr_code(n) == seq![ESC, '[', digit_of(n / 10), digit_of(n % 10), 'm'],
{
    assert(decimal(n / 10) == seq![digit_of(n / 10)]);
    assert(decimal(n) =~= seq![digit_of(n / 10), digit_of(n % 10)]);
    assert(sgr_code(n) =~= seq![ESC, '[', digit_of(n / 10), digit_of(n % 10), 'm']);
}

/// The digit character of `d`, as `decimal` writes it.
pub open spec fn digit_of(d: nat) -> char {
    crate::text::digit_char(d)
}

impl ColorStyles {
    /// The standard foreground colors.
    pub fn new() -> (r: Self)
        ensures
            is_standard_colors(r),
    {
        let r = ColorStyles {
            black: StyleCode::new(30, 39),
            red: StyleCode::new(31, 39),
            green: StyleCode::new(32, 39),
            yellow: StyleCode::new(33, 39),
            blue: StyleCode::new(34, 39),
            magenta: StyleCode::new(35, 39),
            cyan: StyleCode::new(36, 39),
            white: StyleCode::new(37, 39),
            black_bright: StyleCode::new(90, 39),
            gray: StyleCode::new(90, 39),
            grey: StyleCode::new(90, 39),
            red_bright: StyleCode::new(91, 39),
            green_bright: StyleCode::new(92, 39),
            yellow_bright: StyleCode::new(93, 39),
            blue_bright: StyleCode::new(94, 39),
            magenta_bright: StyleCode::new(95, 39),
            cyan_bright: StyleCode::new(96, 39),
            white_bright: StyleCode::new(97, 39),
            close: "\x1B[39m",
        };
        proof {
            reveal_strlit("\x1B[39m");
            lemma_two_digit_sgr(39);
            assert(r.close@ =~= sgr_code(39));
        }
        r
    }

    /// The foreground color names.
    pub fn names(&self) -> (r: Vec<&'static str>)
        ensures
            name_views(r@) == foreground_color_names(),
    {
        let r = foreground_names_vec();
        r
    }

    /// Foreground escape for a 16-color code.
    pub fn ansi(&self, code: u8) -> (s: String)
        ensures
            s@ == sgr_code(code as nat),
    {
        wrap_ansi16(0, code)
    }

    /// Foreground escape for a 256-color code.
    pub fn ansi256(&self, code: u8) -> (s: String)
        ensures
            s@ == ansi256_escape(0, code),
    {
        wrap_ansi256(0, code)
    }

    /// Foreground escape for a true color.
    pub fn ansi16m(&self, red: u8, green: u8, blue: u8) -> (s: String)
        ensures
            s@ == ansi16m_escape(0, red, green, blue),
    {
        wrap_ansi16m(0, red, green, blue)
    }
}

fn foreground_names_vec() -> (r: Vec<&'static str>)
    ensures
        name_views(r@) == foreground_color_names(),
{
    let r = vec![
        "black",
        "red",
        "green",
        "yellow",
        "blue",
        "magenta",
        "cyan",
        "white",
        "blackBright",
        "gray",
        "grey",
        "redBright",
        "greenBright",
        "yellowBright",
        "blueBright",
        "magentaBright",
        "cyanBright",
        "whiteBright",
    ];
    assert(name_views(r@) =~= foreground_color_names());
    r
}

fn background_names_vec() -> (r: Vec<&'static str>)
    ensures
        name_views(r@) == background_color_names(),
{
    let r = vec![
        "bgBlack",
        "bgRed",
        "bgGreen",
        "bgYellow",
        "bgBlue",
        "bgMagenta",
        "bgCyan",
        "bgWhite",
        "bgBlackBright",
        "bgGray",
        "bgGrey",
        "bgRedBright",
        "bgGreenBright",
        "bgYellowBright",
        "bgBlueBright",
        "bgMagentaBright",
        "bgCyanBright",
        "bgWhiteBright",
    ];
    assert(name_views(r@) =~= background_color_names());
    r
}

/// Background colors.
#[derive(Debug, Clone, Copy)]
pub struct BgColorStyles {
    pub bg_black: StyleCode,
    pub bg_red: StyleCode,
    pub bg_green: StyleCode,
    pub bg_yellow: StyleCode,
    pub bg_blue: StyleCode,
    pub bg_magenta: StyleCode,
    pub bg_cyan: StyleCode,
    pub bg_white: StyleCode,
    pub bg_black_bright: StyleCode,
    pub bg_gray: StyleCode,
    pub bg_grey: StyleCode,
    pub bg_red_bright: StyleCode,
    pub bg_green_bright: StyleCode,
    pub bg_yellow_bright: StyleCode,
    pub bg_blue_bright: StyleCode,
    pub bg_magenta_bright: StyleCode,
    pub bg_cyan_bright: StyleCode,
    pub bg_white_bright: StyleCode,
    pub close: &'static str,
}

/// Whether the background colors hold the standard codes: the foreground
/// codes moved up by ten (40..=47 and 100..=107), each closed by 49, and whose
/// `close` sequence resets the background color.
pub open spec fn is_standard_bg_colors(c: BgColorStyles) -> bool {
    &&& c.bg_black == style(40, 49)
    &&& c.bg_red == style(41, 49)
    &&& c.bg_green == style(42, 49)
    &&& c.bg_yellow == style(43, 49)
    &&& c.bg_blue == style(44, 49)
    &&& c.bg_magenta == style(45, 49)
    &&& c.bg_cyan == style(46, 49)
    &&& c.bg_white == style(47, 49)
    &&& c.bg_black_bright == style(100, 49)
    &&& c.bg_gray == style(100, 49)
    &&& c.bg_grey == style(100, 49)
    &&& c.bg_red_bright == style(101, 49)
    &&& c.bg_green_bright == style(102, 49)
    &&& c.bg_yellow_bright == style(103, 49)
    &&& c.bg_blue_bright == style(104, 49)
    &&& c.bg_magenta_bright == style(105, 49)
    &&& c.bg_cyan_bright == style(106, 49)
    &&& c.bg_white_bright == style(107, 49)
    &&& c.close@ == sgr_code(49)
}

/// Names of the background colors.
pub open spec fn background_color_names() -> Seq<Seq<char>> {
    seq![
        "bgBlack"@,
        "bgRed"@,
        "bgGreen"@,
        "bgYellow"@,
        "bgBlue"@,
        "bgMagenta"@,
        "bgCyan"@,
        "bgWhite"@,
        "bgBlackBright"@,
        "bgGray"@,
        "bgGrey"@,
        "bgRedBright"@,
        "bgGreenBright"@,
        "bgYellowBright"@,
        "bgBlueBright"@,
        "bgMagentaBright"@,
        "bgCyanBright"@,
        "bgWhiteBright"@,
    ]
}

impl BgColorStyles {
    /// The standard background colors.
    pub fn new() -> (r: Self)
        ensures
            is_standard_bg_colors(r),
    {
        let r = BgColorStyles {
            bg_black: StyleCode::new(40, 49),
            bg_red: StyleCode::new(41, 49),
            bg_green: StyleCode::new(42, 49),
            bg_yellow: StyleCode::new(43, 49),
            bg_blue: StyleCode::new(44, 49),
            bg_magenta: StyleCode::new(45, 49),
            bg_cyan: StyleCode::new(46, 49),
            bg_white: StyleCode::new(47, 49),
            bg_black_bright: StyleCode::new(100, 49),
            bg_gray: StyleCode::new(100, 49),
            bg_grey: StyleCode::new(100, 49),
            bg_red_bright: StyleCode::new(101, 49),
            bg_green_bright: StyleCode::new(102, 49),
            bg_yellow_bright: StyleCode::new(103, 49),
            bg_blue_bright: StyleCode::new(104, 49),
            bg_magenta_bright: StyleCode::new(105, 49),
            bg_cyan_bright: StyleCode::new(106, 49),
            bg_white_bright: StyleCode::new(107, 49),
            close: "\x1B[49m",
        };
        proof {
            reveal_strlit("\x1B[49m");
            lemma_two_digit_sgr(49);
            assert(r.close@ =~= sgr_code(49));
        }
        r
    }

    /// The background color names.
    pub fn names(&self) -> (r: Vec<&'static str>)
        ensures
            name_views(r@) == background_color_names(),
    {
        background_names_vec()
    }

    /// Background escape for a 16-color foreground code.
    pub fn ansi(&self, code: u8) -> (s: String)
        requires
            code + ANSI_BACKGROUND_OFFSET <= u8::MAX,
        ensures
            s@ == sgr_code((code + ANSI_BACKGROUND_OFFSET) as nat),
    {
        wrap_ansi16(ANSI_BACKGROUND_OFFSET, code)
    }

    /// Background escape for a 256-color code.
    pub fn ansi256(&self, code: u8) -> (s: String)
        ensures
            s@ == ansi256_escape(ANSI_BACKGROUND_OFFSET, code),
    {
        wrap_ansi256(ANSI_BACKGROUND_OFFSET, code)
    }

    /// Background escape for a true color.
    pub fn ansi16m(&self, red: u8, green: u8, blue: u8) -> (s: String)
        ensures
            s@ == ansi16m_escape(ANSI_BACKGROUND_OFFSET, red, green, blue),
    {
        wrap_ansi16m(ANSI_BACKGROUND_OFFSET, red, green, blue)
    }
}

/// All style groups together.
#[derive(Debug, Clone, Copy)]
pub struct AnsiStyles {
    pub modifier: ModifierStyles,
    pub color: ColorStyles,
    pub bg_color: BgColorStyles,
}

/// Whether every group holds its standard codes.
pub open spec fn is_standard_styles(s: AnsiStyles) -> bool {
    &&& s.modifier == modifier_styles()
    &&& is_standard_colors(s.color)
    &&& is_standard_bg_colors(s.bg_color)
}

impl AnsiStyles {
    /// The standard style groups.
    pub fn new() -> (r: Self)
        ensures
            is_standard_styles(r),
    {
        AnsiStyles {
            modifier: ModifierStyles::new(),
            color: ColorStyles::new(),
            bg_color: BgColorStyles::new(),
        }
    }

    /// Map from every opening code to its closing code.
    pub fn codes(&self) -> (m: std::collections::BTreeMap<u8, u8>)
        ensures
            m@ == code_map(),
    {
        codes()
    }

    /// Names of all foreground and background colors.
    pub fn color_names(&self) -> (r: Vec<&'static str>)
        ensures
            name_views(r@) == foreground_color_names() + background_color_names(),
    {
        let mut r = foreground_names_vec();
        let mut bg = background_names_vec();
        let ghost fg = r@;
        let ghost bgv = bg@;
        r.append(&mut bg);
        assert(r@ == fg + bgv);
        assert(name_views(r@) =~= name_views(fg) + name_views(bgv));
        r
    }

    /// See [`rgb_to_ansi256`].
    pub fn rgb_to_ansi256(&self, red: u8, green: u8, blue: u8) -> (code: u8)
        ensures
            code == ansi256_of_rgb(red, green, blue),
    {
        rgb_to_ansi256(red, green, blue)
    }

    /// See [`hex_to_rgb`].
    pub fn hex_to_rgb(&self, hex: &str) -> (rgb: [u8; 3])
        ensures
            rgb@ == rgb_of_hex(hex@),
    {
        hex_to_rgb(hex)
    }

    /// See [`hex_to_ansi256`].
    pub fn hex_to_ansi256(&self, hex: &str) -> (code: u8)
        ensures
            code == ansi256_of_hex(hex@),
    {
        hex_to_ansi256(hex)
    }

    /// See [`ansi256_to_ansi`].
    pub fn ansi256_to_ansi(&self, code: u8) -> (r: u8)
        ensures
            r == ansi16_of_ansi256(code),
    {
        ansi256_to_ansi(code)
    }

    /// See [`rgb_to_ansi`].
    pub fn rgb_to_ansi(&self, red: u8, green: u8, blue: u8) -> (r: u8)
        ensures
            r == ansi16_of_ansi256(ansi256_of_rgb(red, green, blue)),
    {
        rgb_to_ansi(red, green, blue)
    }

    /// See [`hex_to_ansi`].
    pub fn hex_to_ansi(&self, hex: &str) -> (r: u8)
        ensures
            r == ansi16_of_ansi256(ansi256_of_hex(hex@)),
    {
        hex_to_ansi(hex)
    }
}

/// Whether `k` opens one of the standard styles.
pub open spec fn is_open_code(k: u8) -> bool {
    ||| k <= 4
    ||| 7 <= k <= 9
    ||| k == 53
    ||| 30 <= k <= 37
    ||| 40 <= k <= 47
    ||| 90 <= k <= 97
    ||| 100 <= k <= 107
}

/// The code that closes the style opened by `k`.
pub open spec fn close_code(k: u8) -> u8 {
    if k == 0 {
        0
    } else if k == 1 || k == 2 {
        22
    } else if k == 53 {
        55
    } else if k <= 9 {
        (k + 20) as u8
    } else if (30 <= k <= 37) || (90 <= k <= 97) {
        39
    } else {
        49
    }
}

/// Every opening code of the standard styles mapped to its closing code.
pub open spec fn code_map() -> Map<u8, u8> {
    Map::new(|k: u8| is_open_code(k), |k: u8| close_code(k))
}

/// The (opening, closing) code pairs of the standard styles: the modifiers,
/// then the foreground colors, then the background colors, in the order of
/// the fields of the style groups.
pub open spec fn code_pairs_spec() -> Seq<(u8, u8)> {
    seq![
        (0u8, 0u8),
        (1u8, 22u8),
        (2u8, 22u8),
        (3u8, 23u8),
        (4u8, 24u8),
        (53u8, 55u8),
        (7u8, 27u8),
        (8u8, 28u8),
        (9u8, 29u8),
        (30u8, 39u8),
        (31u8, 39u8),
        (32u8, 39u8),
        (33u8, 39u8),
        (34u8, 39u8),
        (35u8, 39u8),
        (36u8, 39u8),
        (37u8, 39u8),
        (90u8, 39u8),
        (90u8, 39u8),
        (90u8, 39u8),
        (91u8, 39u8),
        (92u8, 39u8),
        (93u8, 39u8),
        (94u8, 39u8),
        (95u8, 39u8),
        (96u8, 39u8),
        (97u8, 39u8),
        (40u8, 49u8),
        (41u8, 49u8),
        (42u8, 49u8),
        (43u8, 49u8),
        (44u8, 49u8),
        (45u8, 49u8),
        (46u8, 49u8),
        (47u8, 49u8),
        (100u8, 49u8),
        (100u8, 49u8),
        (100u8, 49u8),
        (101u8, 49u8),
        (102u8, 49u8),
        (103u8, 49u8),
        (104u8, 49u8),
        (105u8, 49u8),
        (106u8, 49u8),
        (107u8, 49u8),
    ]
}

/// The (opening, closing) code pairs of the standard styles.
pub fn code_pairs() -> (r: Vec<(u8, u8)>)
    ensures
        r@ == code_pairs_spec(),
{
    let s = AnsiStyles::new();
    let r = vec![
        (s.modifier.reset.open, s.modifier.reset.close),
        (s.modifier.bold.open, s.modifier.bold.close),
        (s.modifier.dim.open, s.modifier.dim.close),
        (s.modifier.italic.open, s.modifier.italic.close),
        (s.modifier.underline.open, s.modifier.underline.close),
        (s.modifier.overline.open, s.modifier.overline.close),
        (s.modifier.inverse.open, s.modifier.inverse.close),
        (s.modifier.hidden.open, s.modifier.hidden.close),
        (s.modifier.strikethrough.open, s.modifier.strikethrough.close),
        (s.color.black.open, s.color.black.close),
        (s.color.red.open, s.color.red.close),
        (s.color.green.open, s.color.green.close),
        (s.color.yellow.open, s.color.yellow.close),
        (s.color.blue.open, s.color.blue.close),
        (s.color.magenta.open, s.color.magenta.close),
        (s.color.cyan.open, s.color.cyan.close),
        (s.color.white.open, s.color.white.close),
        (s.color.black_bright.open, s.color.black_bright.close),
        (s.color.gray.open, s.color.gray.close),
        (s.color.grey.open, s.color.grey.close),
        (s.color.red_bright.open, s.color.red_bright.close),
        (s.color.green_bright.open, s.color.green_bright.close),
        (s.color.yellow_bright.open, s.color.yellow_bright.close),
        (s.color.blue_bright.open, s.color.blue_bright.close),
        (s.color.magenta_bright.open, s.color.magenta_bright.close),
        (s.color.cyan_bright.open, s.color.cyan_bright.close),
        (s.color.white_bright.open, s.color.white_bright.close),
        (s.bg_color.bg_black.open, s.bg_color.bg_black.close),
        (s.bg_color.bg_red.open, s.bg_color.bg_red.close),
        (s.bg_color.bg_green.open, s.bg_color.bg_green.close),
        (s.bg_color.bg_yellow.open, s.bg_color.bg_yellow.close),
        (s.bg_color.bg_blue.open, s.bg_color.bg_blue.close),
        (s.bg_color.bg_magenta.open, s.bg_color.bg_magenta.close),
        (s.bg_color.bg_cyan.open, s.bg_color.bg_cyan.close),
        (s.bg_color.bg_white.open, s.bg_color.bg_white.close),
        (s.bg_color.bg_black_bright.open, s.bg_color.bg_black_bright.close),
        (s.bg_color.bg_gray.open, s.bg_color.bg_gray.close),
        (s.bg_color.bg_grey.open, s.bg_color.bg_grey.close),
        (s.bg_color.bg_red_bright.open, s.bg_color.bg_red_bright.close),
        (s.bg_color.bg_green_bright.open, s.bg_color.bg_green_bright.close),
        (s.bg_color.bg_yellow_bright.open, s.bg_color.bg_yellow_bright.close),
        (s.bg_color.bg_blue_bright.open, s.bg_color.bg_blue_bright.close),
        (s.bg_color.bg_magenta_bright.open, s.bg_color.bg_magenta_bright.close),
        (s.bg_color.bg_cyan_bright.open, s.bg_color.bg_cyan_bright.close),
        (s.bg_color.bg_white_bright.open, s.bg_color.bg_white_bright.close),
    ];
    assert(r@ =~= code_pairs_spec());
    r
}

/// Map from every opening code of the standard styles to its closing code.
pub fn codes() -> (m: std::collections::BTreeMap<u8, u8>)
    ensures
        m@ == code_map(),
{
    proof {
        broadcast use vstd::laws_cmp::group_laws_cmp;
    }
    let s = AnsiStyles::new();
    let mut m: std::collections::BTreeMap<u8, u8> = std::collections::BTreeMap::new();
    m.insert(s.modifier.reset.open, s.modifier.reset.close);
    m.insert(s.modifier.bold.open, s.modifier.bold.close);
    m.insert(s.modifier.dim.open, s.modifier.dim.close);
    m.insert(s.modifier.italic.open, s.modifier.italic.close);
    m.insert(s.modifier.underline.open, s.modifier.underline.close);
    m.insert(s.modifier.overline.open, s.modifier.overline.close);
    m.insert(s.modifier.inverse.open, s.modifier.inverse.close);
    m.insert(s.modifier.hidden.open, s.modifier.hidden.close);
    m.insert(s.modifier.strikethrough.open, s.modifier.strikethrough.close);
    m.insert(s.color.black.open, s.color.black.close);
    m.insert(s.color.red.open, s.color.red.close);
    m.insert(s.color.green.open, s.color.green.close);
    m.insert(s.color.yellow.open, s.color.yellow.close);
    m.insert(s.color.blue.open, s.color.blue.close);
    m.insert(s.color.magenta.open, s.color.magenta.close);
    m.insert(s.color.cyan.open, s.color.cyan.close);
    m.insert(s.color.white.open, s.color.white.close);
    m.insert(s.color.black_bright.open, s.color.black_bright.close);
    m.insert(s.color.gray.open, s.color.gray.close);
    m.insert(s.color.grey.open, s.color.grey.close);
    m.insert(s.color.red_bright.open, s.color.red_bright.close);
    m.insert(s.color.green_bright.open, s.color.green_bright.close);
    m.insert(s.color.yellow_bright.open, s.color.yellow_bright.close);
    m.insert(s.color.blue_bright.open, s.color.blue_bright.close);
    m.insert(s.color.magenta_bright.open, s.color.magenta_bright.close);
    m.insert(s.color.cyan_bright.open, s.color.cyan_bright.close);
    m.insert(s.color.white_bright.open, s.color.white_bright.close);
    m.insert(s.bg_color.bg_black.open, s.bg_color.bg_black.close);
    m.insert(s.bg_color.bg_red.open, s.bg_color.bg_red.close);
    m.insert(s.bg_color.bg_green.open, s.bg_color.bg_green.close);
    m.insert(s.bg_color.bg_yellow.open, s.bg_color.bg_yellow.close);
    m.insert(s.bg_color.bg_blue.open, s.bg_color.bg_blue.close);
    m.insert(s.bg_color.bg_magenta.open, s.bg_color.bg_magenta.close);
    m.insert(s.bg_color.bg_cyan.open, s.bg_color.bg_cyan.close);
    m.insert(s.bg_color.bg_white.open, s.bg_color.bg_white.close);
    m.insert(s.bg_color.bg_black_bright.open, s.bg_color.bg_black_bright.close);
    m.insert(s.bg_color.bg_gray.open, s.bg_color.bg_gray.close);
    m.insert(s.bg_color.bg_grey.open, s.bg_color.bg_grey.close);
    m.insert(s.bg_color.bg_red_bright.open, s.bg_color.bg_red_bright.close);
    m.insert(s.bg_color.bg_green_bright.open, s.bg_color.bg_green_bright.close);
    m.insert(s.bg_color.bg_yellow_bright.open, s.bg_color.bg_yellow_bright.close);
    m.insert(s.bg_color.bg_blue_bright.open, s.bg_color.bg_blue_bright.close);
    m.insert(s.bg_color.bg_magenta_bright.open, s.bg_color.bg_magenta_bright.close);
    m.insert(s.bg_color.bg_cyan_bright.open, s.bg_color.bg_cyan_bright.close);
    m.insert(s.bg_color.bg_white_bright.open, s.bg_color.bg_white_bright.close);
    assert(m@ =~= code_map());
    m
}

// ---------------------------------------------------------------------------
// Escape sequences
// ---------------------------------------------------------------------------

/// `ESC [ 38+offset ; 5 ; code m`: a 256-color foreground (offset 0) or
/// background (offset 10) escape.
pub open spec fn ansi256_escape(offset: u8, code: u8) -> Seq<char> {
    sgr(decimal((38 + offset) as nat) + seq![';', '5', ';'] + decimal(code as nat))
}

/// `ESC [ 38+offset ; 2 ; r ; g ; b m`: a true-color foreground (offset 0) or
/// background (offset 10) escape.
pub open spec fn ansi16m_escape(offset: u8, red: u8, green: u8, blue: u8) -> Seq<char> {
    sgr(
        decimal((38 + offset) as nat) + seq![';', '2', ';'] + decimal(red as nat) + seq![';'] + decimal(
            green as nat,
        ) + seq![';'] + decimal(blue as nat),
    )
}

/// The escape for the 16-color code `code + offset`.
pub fn wrap_ansi16(offset: u8, code: u8) -> (s: String)
    requires
        code + offset <= u8::MAX,
    ensures
        s@ == sgr_code((code + offset) as nat),
{
    sgr_string((code + offset) as u64)
}

/// The 256-color escape for `code`, in the foreground (offset 0) or the
/// background (offset 10).
pub fn wrap_ansi256(offset: u8, code: u8) -> (s: String)
    requires
        38 + offset <= u8::MAX,
    ensures
        s@ == ansi256_escape(offset, code),
{
    let mut s = String::new();
    push_csi(&mut s);
    push_decimal(&mut s, (38 + offset) as u64);
    string_push(&mut s, ';');
    string_push(&mut s, '5');
    string_push(&mut s, ';');
    push_decimal(&mut s, code as u64);
    string_push(&mut s, 'm');
    assert(s@ =~= ansi256_escape(offset, code));
    s
}

/// The true-color escape for (`red`, `green`, `blue`), in the foreground
/// (offset 0) or the background (offset 10).
pub fn wrap_ansi16m(offset: u8, red: u8, green: u8, blue: u8) -> (s: String)
    requires
        38 + offset <= u8::MAX,
    ensures
        s@ == ansi16m_escape(offset, red, green, blue),
{
    let mut s = String::new();
    push_csi(&mut s);
    push_decimal(&mut s, (38 + offset) as u64);
    string_push(&mut s, ';');
    string_push(&mut s, '2');
    string_push(&mut s, ';');
    push_decimal(&mut s, red as u64);
    string_push(&mut s, ';');
    push_decimal(&mut s, green as u64);
    string_push(&mut s, ';');
    push_decimal(&mut s, blue as u64);
    string_push(&mut s, 'm');
    assert(s@ =~= ansi16m_escape(offset, red, green, blue));
    s
}

// ---------------------------------------------------------------------------
// Color conversions
// ---------------------------------------------------------------------------

/// `n / d` rounded to the nearest integer, halves rounded up (`d > 0`).
pub open spec fn round_div(n: int, d: int) -> int {
    (2 * n + d) / (2 * d)
}

/// Level 0..=5 of a channel on the 6x6x6 color cube: `x * 5 / 255`, rounded.
pub open spec fn cube_level(x: u8) -> int {
    round_div(5 * x, 255)
}

/// The 256-color code nearest to an RGB color: a shade of the gray ramp
/// 232..=255 (or black 16, white 231) when the three channels are equal,
/// otherwise the cell `16 + 36 r + 6 g + b` of the color cube.
pub open spec fn ansi256_of_rgb(red: u8, green: u8, blue: u8) -> u8 {
    if red == green && green == blue {
        if red < 8 {
            16
        } else if red > 248 {
            231
        } else {
            (232 + round_div(24 * (red - 8), 247)) as u8
        }
    } else {
        (16 + 36 * cube_level(red) + 6 * cube_level(green) + cube_level(blue)) as u8
    }
}

/// Rounded channel level `(10 x + 255) / 510`, computed in exact arithmetic.
fn cube_level_of(x: u8) -> (l: u32)
    ensures
        l == cube_level(x),
        l <= 5,
{
    let l = (10 * (x as u32) + 255) / 510;
    l
}

/// The 256-color code nearest to an RGB color.
pub fn rgb_to_ansi256(red: u8, green: u8, blue: u8) -> (code: u8)
    ensures
        code == ansi256_of_rgb(red, green, blue),
{
    if red == green && green == blue {
        if red < 8 {
            return 16;
        }
        if red > 248 {
            return 231;
        }
        let step: u32 = (48 * ((red - 8) as u32) + 247) / 494;
        assert(step <= 23);
        return (232 + step) as u8;
    }
    let r = cube_level_of(red);
    let g = cube_level_of(green);
    let b = cube_level_of(blue);
    (16 + 36 * r + 6 * g + b) as u8
}

/// A channel of intensity `x / den` counts as on from one half upwards.
pub open spec fn channel_on(x: int, den: int) -> int {
    if 2 * x >= den {
        1
    } else {
        0
    }
}

/// The 16-color code for the channel intensities `r / den`, `g / den`,
/// `b / den`: black when all are zero, otherwise `30 + 4 b + 2 g + r` over the
/// rounded channels, moved to the bright range when the strongest channel is
/// at full intensity.
pub open spec fn ansi16_of_levels(r: int, g: int, b: int, den: int) -> u8 {
    if r == 0 && g == 0 && b == 0 {
        30
    } else {
        let base = 30 + 4 * channel_on(b, den) + 2 * channel_on(g, den) + channel_on(r, den);
        if r == den || g == den || b == den {
            (base + 60) as u8
        } else {
            base as u8
        }
    }
}

/// The 16-color code closest to a 256-color code: the basic colors map to
/// 30..=37 and 90..=97 directly, the gray ramp and the color cube by their
/// channel intensities.
pub open spec fn ansi16_of_ansi256(code: u8) -> u8 {
    if code < 8 {
        (30 + code) as u8
    } else if code < 16 {
        (90 + (code - 8)) as u8
    } else if code >= 232 {
        let level = 10 * (code - 232) + 8;
        ansi16_of_levels(level, level, level, 255)
    } else {
        let c = code - 16;
        ansi16_of_levels(c / 36, (c % 36) / 6, c % 6, 5)
    }
}

/// The 16-color code closest to a 256-color code.
pub fn ansi256_to_ansi(code: u8) -> (r: u8)
    ensures
        r == ansi16_of_ansi256(code),
{
    if code < 8 {
        return 30 + code;
    }
    if code < 16 {
        return 90 + (code - 8);
    }
    if code >= 232 {
        let level: u32 = 10 * ((code - 232) as u32) + 8;
        if 2 * level >= 255 {
            return 37;
        } else {
            return 30;
        }
    }
    let c: u32 = (code - 16) as u32;
    let red = c / 36;
    let remainder = c % 36;
    let green = remainder / 6;
    let blue = remainder % 6;
    if red == 0 && green == 0 && blue == 0 {
        return 30;
    }
    let mut result: u32 = 30;
    if 2 * blue >= 5 {
        result = result + 4;
    }
    if 2 * green >= 5 {
        result = result + 2;
    }
    if 2 * red >= 5 {
        result = result + 1;
    }
    if red == 5 || green == 5 || blue == 5 {
        result = result + 60;
    }
    result as u8
}

/// The 16-color code closest to an RGB color.
pub fn rgb_to_ansi(red: u8, green: u8, blue: u8) -> (r: u8)
    ensures
        r == ansi16_of_ansi256(ansi256_of_rgb(red, green, blue)),
{
    ansi256_to_ansi(rgb_to_ansi256(red, green, blue))
}

/// A hexadecimal digit, in either case.
pub open spec fn is_hex_digit(c: char) -> bool {
    ('0' <= c && c <= '9') || ('a' <= c && c <= 'f') || ('A' <= c && c <= 'F')
}

/// The value of a hexadecimal digit.
pub open spec fn hex_value(c: char) -> int {
    if '0' <= c && c <= '9' {
        c as int - '0' as int
    } else if 'a' <= c && c <= 'f' {
        c as int - 'a' as int + 10
    } else {
        c as int - 'A' as int + 10
    }
}

/// `s[i..i+n)` lies within `s` and consists of hexadecimal digits.
pub open spec fn is_hex_run(s: Seq<char>, i: int, n: nat) -> bool {
    &&& 0 <= i
    &&& i + n <= s.len()
    &&& forall|k: int| i <= k < i + n ==> is_hex_digit(#[trigger] s[k])
}

/// The first position at or after `i` where `n` hexadecimal digits follow.
pub open spec fn first_hex_run(s: Seq<char>, n: nat, i: int) -> Option<int>
    decreases s.len() - i,
{
    if i < 0 || i + n > s.len() {
        None
    } else if is_hex_run(s, i, n) {
        Some(i)
    } else {
        first_hex_run(s, n, i + 1)
    }
}

/// The byte written by the two hexadecimal digits `s[i]`, `s[i + 1]`.
pub open spec fn hex_byte(s: Seq<char>, i: int) -> u8 {
    (16 * hex_value(s[i]) + hex_value(s[i + 1])) as u8
}

/// The RGB color written in `s`: the first six consecutive hexadecimal digits
/// as `rrggbb`, else the first three as `rgb` (each digit doubled), else black.
pub open spec fn rgb_of_hex(s: Seq<char>) -> Seq<u8> {
    match first_hex_run(s, 6, 0) {
        Some(i) => seq![hex_byte(s, i), hex_byte(s, i + 2), hex_byte(s, i + 4)],
        None => match first_hex_run(s, 3, 0) {
            Some(i) => seq![
                (17 * hex_value(s[i])) as u8,
                (17 * hex_value(s[i + 1])) as u8,
                (17 * hex_value(s[i + 2])) as u8,
            ],
            None => seq![0u8, 0u8, 0u8],
        },
    }
}

/// The 256-color code for the color written in `s`.
pub open spec fn ansi256_of_hex(s: Seq<char>) -> u8 {
    ansi256_of_rgb(rgb_of_hex(s)[0], rgb_of_hex(s)[1], rgb_of_hex(s)[2])
}

/// Whether `ch` is a hexadecimal digit.
fn is_hex_digit_char(ch: char) -> (r: bool)
    ensures
        r == is_hex_digit(ch),
{
    ('0' <= ch && ch <= '9') || ('a' <= ch && ch <= 'f') || ('A' <= ch && ch <= 'F')
}

/// The value of the hexadecimal digit `ch`.
fn hex_digit_value(ch: char) -> (v: u8)
    requires
        is_hex_digit(ch),
    ensures
        v == hex_value(ch),
        v < 16,
{
    let u = ch as u32;
    if '0' <= ch && ch <= '9' {
        (u - 48) as u8
    } else if 'a' <= ch && ch <= 'f' {
        (u - 97 + 10) as u8
    } else {
        (u - 65 + 10) as u8
    }
}

/// The first position where `n` hexadecimal digits follow in `v`.
fn first_hex_match(v: &Vec<char>, n: usize) -> (r: Option<usize>)
    requires
        n > 0,
    ensures
        match r {
            Some(i) => first_hex_run(v@, n as nat, 0) == Some(i as int) && is_hex_run(
                v@,
                i as int,
                n as nat,
            ),
            None => first_hex_run(v@, n as nat, 0) is None,
        },
{
    let len = v.len();
    if len < n {
        return None;
    }
    let mut i: usize = 0;
    while i <= len - n
        invariant
            n > 0,
            len == v@.len(),
            n <= len,
            i <= len - n + 1,
            first_hex_run(v@, n as nat, 0) == first_hex_run(v@, n as nat, i as int),
        decreases len - i,
    {
        let mut k: usize = 0;
        while k < n && is_hex_digit_char(v[i + k])
            invariant
                i + n <= len == v@.len(),
                k <= n,
                forall|j: int| i <= j < i + k ==> is_hex_digit(#[trigger] v@[j]),
            decreases n - k,
        {
            k = k + 1;
        }
        if k == n {
            assert(is_hex_run(v@, i as int, n as nat));
            return Some(i);
        }
        assert(!is_hex_run(v@, i as int, n as nat));
        i = i + 1;
    }
    None
}

/// The RGB color written in `hex` (see [`rgb_of_hex`]).
pub fn hex_to_rgb(hex: &str) -> (rgb: [u8; 3])
    ensures
        rgb@ == rgb_of_hex(hex@),
{
    let v = chars_of(hex);
    match first_hex_match(&v, 6) {
        Some(i) => {
            assert(is_hex_run(v@, i as int, 6));
            assert(is_hex_digit(v@[i as int]) && is_hex_digit(v@[i + 1]));
            assert(is_hex_digit(v@[i + 2]) && is_hex_digit(v@[i + 3]));
            assert(is_hex_digit(v@[i + 4]) && is_hex_digit(v@[i + 5]));
            let r = 16 * hex_digit_value(v[i]) + hex_digit_value(v[i + 1]);
            let g = 16 * hex_digit_value(v[i + 2]) + hex_digit_value(v[i + 3]);
            let b = 16 * hex_digit_value(v[i + 4]) + hex_digit_value(v[i + 5]);
            let rgb = [r, g, b];
            assert(rgb@ =~= rgb_of_hex(hex@));
            rgb
        },
        None => match first_hex_match(&v, 3) {
            Some(i) => {
                assert(is_hex_run(v@, i as int, 3));
                assert(is_hex_digit(v@[i as int]) && is_hex_digit(v@[i + 1]));
                assert(is_hex_digit(v@[i + 2]));
                let r = 17 * hex_digit_value(v[i]);
                let g = 17 * hex_digit_value(v[i + 1]);
                let b = 17 * hex_digit_value(v[i + 2]);
                let rgb = [r, g, b];
                assert(rgb@ =~= rgb_of_hex(hex@));
                rgb
            },
            None => {
                let rgb = [0u8, 0u8, 0u8];
                assert(rgb@ =~= rgb_of_hex(hex@));
                rgb
            },
        },
    }
}

/// The 256-color code for the color written in `hex`.
pub fn hex_to_ansi256(hex: &str) -> (code: u8)
    ensures
        code == ansi256_of_hex(hex@),
{
    let rgb = hex_to_rgb(hex);
    rgb_to_ansi256(rgb[0], rgb[1], rgb[2])
}

/// The 16-color code for the color written in `hex`.
pub fn hex_to_ansi(hex: &str) -> (r: u8)
    ensures
        r == ansi16_of_ansi256(ansi256_of_hex(hex@)),
{
    ansi256_to_ansi(hex_to_ansi256(hex))
}

// ---------------------------------------------------------------------------
// Laws
// ---------------------------------------------------------------------------

/// The code map pairs the opening code of every standard style with its
/// closing code.
pub proof fn law_codes_pair_every_style(s: AnsiStyles)
    requires
        is_standard_styles(s),
    ensures
        code_map().contains_key(s.modifier.reset.open) && code_map()[s.modifier.reset.open] == s.modifier.reset.close,
        code_map().contains_key(s.modifier.bold.open) && code_map()[s.modifier.bold.open] == s.modifier.bold.close,
        code_map().contains_key(s.modifier.dim.open) && code_map()[s.modifier.dim.open] == s.modifier.dim.close,
        code_map().contains_key(s.modifier.italic.open) && code_map()[s.modifier.italic.open] == s.modifier.italic.close,
        code_map().contains_key(s.modifier.underline.open) && code_map()[s.modifier.underline.open] == s.modifier.underline.close,
        code_map().contains_key(s.modifier.overline.open) && code_map()[s.modifier.overline.open] == s.modifier.overline.close,
        code_map().contains_key(s.modifier.inverse.open) && code_map()[s.modifier.inverse.open] == s.modifier.inverse.close,
        code_map().contains_key(s.modifier.hidden.open) && code_map()[s.modifier.hidden.open] == s.modifier.hidden.close,
        code_map().contains_key(s.modifier.strikethrough.open) && code_map()[s.modifier.strikethrough.open] == s.modifier.strikethrough.close,
        code_map().contains_key(s.color.black.open) && code_map()[s.color.black.open] == s.color.black.close,
        code_map().contains_key(s.color.red.open) && code_map()[s.color.red.open] == s.color.red.close,
        code_map().contains_key(s.color.green.open) && code_map()[s.color.green.open] == s.color.green.close,
        code_map().contains_key(s.color.yellow.open) && code_map()[s.color.yellow.open] == s.color.yellow.close,
        code_map().contains_key(s.color.blue.open) && code_map()[s.color.blue.open] == s.color.blue.close,
        code_map().contains_key(s.color.magenta.open) && code_map()[s.color.magenta.open] == s.color.magenta.close,
        code_map().contains_key(s.color.cyan.open) && code_map()[s.color.cyan.open] == s.color.cyan.close,
        code_map().contains_key(s.color.white.open) && code_map()[s.color.white.open] == s.color.white.close,
        code_map().contains_key(s.color.black_bright.open) && code_map()[s.color.black_bright.open] == s.color.black_bright.close,
        code_map().contains_key(s.color.gray.open) && code_map()[s.color.gray.open] == s.color.gray.close,
        code_map().contains_key(s.color.grey.open) && code_map()[s.color.grey.open] == s.color.grey.close,
        code_map().contains_key(s.color.red_bright.open) && code_map()[s.color.red_bright.open] == s.color.red_bright.close,
        code_map().contains_key(s.color.green_bright.open) && code_map()[s.color.green_bright.open] == s.color.green_bright.close,
        code_map().contains_key(s.color.yellow_bright.open) && code_map()[s.color.yellow_bright.open] == s.color.yellow_bright.close,
        code_map().contains_key(s.color.blue_bright.open) && code_map()[s.color.blue_bright.open] == s.color.blue_bright.close,
        code_map().contains_key(s.color.magenta_bright.open) && code_map()[s.color.magenta_bright.open] == s.color.magenta_bright.close,
        code_map().contains_key(s.color.cyan_bright.open) && code_map()[s.color.cyan_bright.open] == s.color.cyan_bright.close,
        code_map().contains_key(s.color.white_bright.open) && code_map()[s.color.white_bright.open] == s.color.white_bright.close,
        code_map().contains_key(s.bg_color.bg_black.open) && code_map()[s.bg_color.bg_black.open] == s.bg_color.bg_black.close,
        code_map().contains_key(s.bg_color.bg_red.open) && code_map()[s.bg_color.bg_red.open] == s.bg_color.bg_red.close,
        code_map().contains_key(s.bg_color.bg_green.open) && code_map()[s.bg_color.bg_green.open] == s.bg_color.bg_green.close,
        code_map().contains_key(s.bg_color.bg_yellow.open) && code_map()[s.bg_color.bg_yellow.open] == s.bg_color.bg_yellow.close,
        code_map().contains_key(s.bg_color.bg_blue.open) && code_map()[s.bg_color.bg_blue.open] == s.bg_color.bg_blue.close,
        code_map().contains_key(s.bg_color.bg_magenta.open) && code_map()[s.bg_color.bg_magenta.open] == s.bg_color.bg_magenta.close,
        code_map().contains_key(s.bg_color.bg_cyan.open) && code_map()[s.bg_color.bg_cyan.open] == s.bg_color.bg_cyan.close,
        code_map().contains_key(s.bg_color.bg_white.open) && code_map()[s.bg_color.bg_white.open] == s.bg_color.bg_white.close,
        code_map().contains_key(s.bg_color.bg_black_bright.open) && code_map()[s.bg_color.bg_black_bright.open] == s.bg_color.bg_black_bright.close,
        code_map().contains_key(s.bg_color.bg_gray.open) && code_map()[s.bg_color.bg_gray.open] == s.bg_color.bg_gray.close,
        code_map().contains_key(s.bg_color.bg_grey.open) && code_map()[s.bg_color.bg_grey.open] == s.bg_color.bg_grey.close,
        code_map().contains_key(s.bg_color.bg_red_bright.open) && code_map()[s.bg_color.bg_red_bright.open] == s.bg_color.bg_red_bright.close,
        code_map().contains_key(s.bg_color.bg_green_bright.open) && code_map()[s.bg_color.bg_green_bright.open] == s.bg_color.bg_green_bright.close,
        code_map().contains_key(s.bg_color.bg_yellow_bright.open) && code_map()[s.bg_color.bg_yellow_bright.open] == s.bg_color.bg_yellow_bright.close,
        code_map().contains_key(s.bg_color.bg_blue_bright.open) && code_map()[s.bg_color.bg_blue_bright.open] == s.bg_color.bg_blue_bright.close,
        code_map().contains_key(s.bg_color.bg_magenta_bright.open) && code_map()[s.bg_color.bg_magenta_bright.open] == s.bg_color.bg_magenta_bright.close,
        code_map().contains_key(s.bg_color.bg_cyan_bright.open) && code_map()[s.bg_color.bg_cyan_bright.open] == s.bg_color.bg_cyan_bright.close,
        code_map().contains_key(s.bg_color.bg_white_bright.open) && code_map()[s.bg_color.bg_white_bright.open] == s.bg_color.bg_white_bright.close,
{
}

/// The position in [`code_pairs_spec`] of the first pair opened by `k`.
pub open spec fn pair_index(k: u8) -> int {
    if k <= 4 {
        k as int
    } else if k == 53 {
        5
    } else if k <= 9 {
        k - 1
    } else if 30 <= k <= 37 {
        k - 21
    } else if k == 90 {
        17
    } else if 91 <= k <= 97 {
        k - 71
    } else if 40 <= k <= 47 {
        k - 13
    } else if k == 100 {
        35
    } else {
        k - 63
    }
}

/// The code pairs and the code map say the same: every pair maps its opening
/// code to its closing code, and every opening code of the map opens a pair.
pub proof fn law_code_pairs_make_the_code_map()
    ensures
        forall|i: int|
            0 <= i < code_pairs_spec().len() ==> code_map().contains_key(
                #[trigger] code_pairs_spec()[i].0,
            ) && code_map()[code_pairs_spec()[i].0] == code_pairs_spec()[i].1,
        forall|k: u8|
            #[trigger] code_map().contains_key(k) ==> 0 <= pair_index(k) < code_pairs_spec().len()
                && code_pairs_spec()[pair_index(k)] == (k, close_code(k)),
{
    let p = code_pairs_spec();
    assert forall|i: int| 0 <= i < p.len() implies code_map().contains_key(#[trigger] p[i].0)
        && code_map()[p[i].0] == p[i].1 by {
        assert(is_open_code(p[i].0) && close_code(p[i].0) == p[i].1);
    }
    assert forall|k: u8| #[trigger] code_map().contains_key(k) implies 0 <= pair_index(k) < p.len()
        && p[pair_index(k)] == (k, close_code(k)) by {
        assert(is_open_code(k));
    }
}

/// Over the color cube (codes 16..=231, channel levels `r = (code - 16) / 36`,
/// `g`, `b` in 0..=5): the black cell is 30; otherwise a channel at full level
/// 5 puts the color in the bright range 90..=97 and none leaves it in 30..=37,
/// and within its range the color is `4 b + 2 g + r` over the channels at level
/// 3 or more.
pub proof fn law_cube_to_ansi16(code: u8)
    requires
        16 <= code <= 231,
    ensures
        ({
            let c = code - 16;
            let r = c / 36;
            let g = (c % 36) / 6;
            let b = c % 6;
            let x = ansi16_of_ansi256(code);
            &&& (r == 0 && g == 0 && b == 0) ==> x == 30
            &&& (r == 5 || g == 5 || b == 5) ==> 90 <= x <= 97
            &&& !(r == 5 || g == 5 || b == 5) ==> 30 <= x <= 37
            &&& !(r == 0 && g == 0 && b == 0) ==> (x - 30) % 60 == (if b >= 3 {
                4int
            } else {
                0
            }) + (if g >= 3 {
                2int
            } else {
                0
            }) + (if r >= 3 {
                1int
            } else {
                0
            })
        }),
{
}

/// The gray ramp (codes 232..=255) never reaches the bright range: its darker
/// half is black 30 and its lighter half, from code 244 on, is white 37.
pub proof fn law_gray_ramp_to_ansi16(code: u8)
    requires
        232 <= code,
    ensures
        ansi16_of_ansi256(code) == if code < 244 {
            30u8
        } else {
            37u8
        },
{
}

/// A color with a channel at 255 is at full intensity, so it converts to a
/// bright 16-color code (90..=97); pure blue `(0, 0, 255)` is bright blue 94.
pub proof fn law_full_channel_is_bright(red: u8, green: u8, blue: u8)
    requires
        red == 255 || green == 255 || blue == 255,
    ensures
        90 <= ansi16_of_ansi256(ansi256_of_rgb(red, green, blue)) <= 97,
        (red == 0 && green == 0 && blue == 255) ==> ansi16_of_ansi256(ansi256_of_rgb(red, green, blue)) == 94,
        (red == 255 && green == 0 && blue == 0) ==> ansi16_of_ansi256(ansi256_of_rgb(red, green, blue)) == 91,
        (red == 0 && green == 255 && blue == 0) ==> ansi16_of_ansi256(ansi256_of_rgb(red, green, blue)) == 92,
{
    lemma_cube_level_bounds(red);
    lemma_cube_level_bounds(green);
    lemma_cube_level_bounds(blue);
    assert((2 * (5 * 255int) + 255) / (2 * 255int) == 5) by (nonlinear_arith);
    assert(cube_level(255) == 5);
    assert(cube_level(0) == 0);
    let code = ansi256_of_rgb(red, green, blue);
    if !(red == green && green == blue) {
        let (r, g, b) = (cube_level(red), cube_level(green), cube_level(blue));
        assert(code - 16 == 36 * r + 6 * g + b);
        assert((36 * r + 6 * g + b) / 36 == r && ((36 * r + 6 * g + b) % 36) / 6 == g && (36 * r + 6 * g + b) % 6 == b)
            by (nonlinear_arith)
            requires
                0 <= r <= 5,
                0 <= g <= 5,
                0 <= b <= 5,
        ;
        law_cube_to_ansi16(code);
    }
}

/// Each background color is its foreground color ten codes up.
pub proof fn law_background_is_foreground_moved_up(c: ColorStyles, b: BgColorStyles)
    requires
        is_standard_colors(c),
        is_standard_bg_colors(b),
    ensures
        b.bg_black.open == c.black.open + ANSI_BACKGROUND_OFFSET,
        b.bg_red.open == c.red.open + ANSI_BACKGROUND_OFFSET,
        b.bg_green.open == c.green.open + ANSI_BACKGROUND_OFFSET,
        b.bg_yellow.open == c.yellow.open + ANSI_BACKGROUND_OFFSET,
        b.bg_blue.open == c.blue.open + ANSI_BACKGROUND_OFFSET,
        b.bg_magenta.open == c.magenta.open + ANSI_BACKGROUND_OFFSET,
        b.bg_cyan.open == c.cyan.open + ANSI_BACKGROUND_OFFSET,
        b.bg_white.open == c.white.open + ANSI_BACKGROUND_OFFSET,
        b.bg_black_bright.open == c.black_bright.open + ANSI_BACKGROUND_OFFSET,
        b.bg_gray.open == c.gray.open + ANSI_BACKGROUND_OFFSET,
        b.bg_grey.open == c.grey.open + ANSI_BACKGROUND_OFFSET,
        b.bg_red_bright.open == c.red_bright.open + ANSI_BACKGROUND_OFFSET,
        b.bg_green_bright.open == c.green_bright.open + ANSI_BACKGROUND_OFFSET,
        b.bg_yellow_bright.open == c.yellow_bright.open + ANSI_BACKGROUND_OFFSET,
        b.bg_blue_bright.open == c.blue_bright.open + ANSI_BACKGROUND_OFFSET,
        b.bg_magenta_bright.open == c.magenta_bright.open + ANSI_BACKGROUND_OFFSET,
        b.bg_cyan_bright.open == c.cyan_bright.open + ANSI_BACKGROUND_OFFSET,
        b.bg_white_bright.open == c.white_bright.open + ANSI_BACKGROUND_OFFSET,
{
}

/// An RGB color never maps onto the 16 basic colors of the 256-color palette,
/// and a gray maps onto black (16), white (231) or the gray ramp (232..=255).
pub proof fn law_rgb_maps_above_basic_colors(red: u8, green: u8, blue: u8)
    ensures
        ansi256_of_rgb(red, green, blue) >= 16,
        red == green && green == blue ==> {
            let c = ansi256_of_rgb(red, green, blue);
            c == 16 || c == 231 || 232 <= c
        },
{
    lemma_cube_level_bounds(red);
    lemma_cube_level_bounds(green);
    lemma_cube_level_bounds(blue);
    if red == green && green == blue && 8 <= red <= 248 {
        lemma_gray_step_bounds(red);
    }
}

/// `round_div(n, d)` is the integer nearest to `n / d`: it is off by at most
/// half of `d`.
proof fn lemma_round_div_nearest(n: int, d: int)
    requires
        0 <= n,
        0 < d,
    ensures
        -d <= 2 * (n - d * round_div(n, d)) <= d,
{
    let q = round_div(n, d);
    assert(2 * d * q <= 2 * n + d < 2 * d * q + 2 * d) by (nonlinear_arith)
        requires
            q == (2 * n + d) / (2 * d),
            0 < d,
    ;
    assert(2 * (n - d * q) == 2 * n - 2 * d * q) by (nonlinear_arith);
}

/// An RGB color goes to the nearest entry: a color with unequal channels to
/// the cube cell whose levels (0..=5) are its channels scaled from 0..=255 to
/// 0..=5 and rounded to the nearest; a gray below 8 to black (16), above 248
/// to white (231), and otherwise to the step of the gray ramp 232..=255
/// nearest to `(gray - 8) / 247` of the way along its 24 steps.
pub proof fn law_rgb_to_nearest_entry(red: u8, green: u8, blue: u8)
    ensures
        !(red == green && green == blue) ==> {
            let c = ansi256_of_rgb(red, green, blue) - 16;
            let (r, g, b) = (c / 36, (c % 36) / 6, c % 6);
            &&& 16 <= ansi256_of_rgb(red, green, blue) <= 231
            &&& -255 <= 2 * (5 * red - 255 * r) <= 255
            &&& -255 <= 2 * (5 * green - 255 * g) <= 255
            &&& -255 <= 2 * (5 * blue - 255 * b) <= 255
        },
        (red == green && green == blue && red < 8) ==> ansi256_of_rgb(red, green, blue) == 16,
        (red == green && green == blue && red > 248) ==> ansi256_of_rgb(red, green, blue) == 231,
        (red == green && green == blue && 8 <= red <= 248) ==> {
            let k = ansi256_of_rgb(red, green, blue) - 232;
            &&& 232 <= ansi256_of_rgb(red, green, blue)
            &&& -247 <= 2 * (24 * (red - 8) - 247 * k) <= 247
        },
{
    lemma_cube_level_bounds(red);
    lemma_cube_level_bounds(green);
    lemma_cube_level_bounds(blue);
    lemma_round_div_nearest(5 * red, 255);
    lemma_round_div_nearest(5 * green, 255);
    lemma_round_div_nearest(5 * blue, 255);
    if !(red == green && green == blue) {
        let (r, g, b) = (cube_level(red), cube_level(green), cube_level(blue));
        assert((36 * r + 6 * g + b) / 36 == r && ((36 * r + 6 * g + b) % 36) / 6 == g && (36 * r + 6
            * g + b) % 6 == b) by (nonlinear_arith)
            requires
                0 <= r <= 5,
                0 <= g <= 5,
                0 <= b <= 5,
        ;
    }
    if red == green && green == blue && 8 <= red <= 248 {
        lemma_gray_step_bounds(red);
        lemma_round_div_nearest(24 * (red - 8), 247);
    }
}

/// A cube level lies in `0..=5`.
proof fn lemma_cube_level_bounds(x: u8)
    ensures
        0 <= cube_level(x) <= 5,
{
    assert(0 <= (2 * (5 * x) + 255) / (2 * 255int) <= 5) by (nonlinear_arith)
        requires
            0 <= x <= 255,
    ;
}

/// A gray step lies in `0..=23`.
proof fn lemma_gray_step_bounds(v: u8)
    requires
        8 <= v <= 248,
    ensures
        0 <= round_div(24 * (v - 8), 247) <= 23,
{
    assert(0 <= (2 * (24 * (v - 8)) + 247) / (2 * 247int) <= 23) by (nonlinear_arith)
        requires
            8 <= v <= 248,
    ;
}

/// Every 256-color code maps onto one of the 16 basic SGR color codes, and
/// the basic colors 0..=15 map onto their own codes.
pub proof fn law_ansi16_codes(code: u8)
    ensures
        (30 <= ansi16_of_ansi256(code) <= 37) || (90 <= ansi16_of_ansi256(code) <= 97),
        code < 8 ==> ansi16_of_ansi256(code) == 30 + code,
        8 <= code < 16 ==> ansi16_of_ansi256(code) == 90 + (code - 8),
{
}

/// The shorthand `#rgb` writes the same color as `#rrggbb`.
pub proof fn law_hex_shorthand(r: char, g: char, b: char)
    requires
        is_hex_digit(r),
        is_hex_digit(g),
        is_hex_digit(b),
    ensures
        rgb_of_hex(seq!['#', r, g, b]) == rgb_of_hex(seq!['#', r, r, g, g, b, b]),
{
    let short = seq!['#', r, g, b];
    let long = seq!['#', r, r, g, g, b, b];
    assert(first_hex_run(short, 6, 0) is None);
    assert(!is_hex_digit('#'));
    assert(!is_hex_run(short, 0, 3));
    assert(is_hex_run(short, 1, 3));
    assert(first_hex_run(short, 3, 1) == Some(1int));
    assert(first_hex_run(short, 3, 0) == Some(1int));
    assert(!is_hex_run(long, 0, 6));
    assert(is_hex_run(long, 1, 6));
    assert(first_hex_run(long, 6, 1) == Some(1int));
    assert(first_hex_run(long, 6, 0) == Some(1int));
    assert(rgb_of_hex(short) =~= rgb_of_hex(long));
}

/// The first run of `n` hexadecimal digits from `from` on is the one at `i`
/// when none starts between `from` and `i`.
proof fn lemma_first_hex_run_at(s: Seq<char>, n: nat, from: int, i: int)
    requires
        0 <= from <= i,
        is_hex_run(s, i, n),
        forall|j: int| from <= j < i ==> !is_hex_run(s, j, n),
    ensures
        first_hex_run(s, n, from) == Some(i),
    decreases i - from,
{
    if from < i {
        assert(!is_hex_run(s, from, n));
        lemma_first_hex_run_at(s, n, from + 1, i);
    }
}

/// There is no run of `n` hexadecimal digits from `from` on when none starts
/// at any position from `from` on.
proof fn lemma_no_hex_run(s: Seq<char>, n: nat, from: int)
    requires
        0 <= from,
        forall|j: int| from <= j ==> !is_hex_run(s, j, n),
    ensures
        first_hex_run(s, n, from) is None,
    decreases s.len() - from,
{
    if from + n <= s.len() {
        assert(!is_hex_run(s, from, n));
        lemma_no_hex_run(s, n, from + 1);
    }
}

/// A color is read from the first six consecutive hexadecimal digits of the
/// text, wherever they stand (at the start, after `#` or `0x`, or later), as
/// `rrggbb`: each channel is sixteen times its first digit plus its second.
pub proof fn law_hex_reads_the_first_six_digits(s: Seq<char>, i: int)
    requires
        0 <= i,
        i + 6 <= s.len(),
        forall|k: int| i <= k < i + 6 ==> is_hex_digit(#[trigger] s[k]),
        forall|j: int| 0 <= j < i ==> !is_hex_run(s, j, 6),
    ensures
        rgb_of_hex(s) == seq![
            (16 * hex_value(s[i]) + hex_value(s[i + 1])) as u8,
            (16 * hex_value(s[i + 2]) + hex_value(s[i + 3])) as u8,
            (16 * hex_value(s[i + 4]) + hex_value(s[i + 5])) as u8,
        ],
{
    lemma_first_hex_run_at(s, 6, 0, i);
}

/// Text that starts with six hexadecimal digits gives the color they write.
pub proof fn law_hex_leading_six_digits(s: Seq<char>)
    requires
        6 <= s.len(),
        forall|k: int| 0 <= k < 6 ==> is_hex_digit(#[trigger] s[k]),
    ensures
        rgb_of_hex(s) == seq![
            (16 * hex_value(s[0]) + hex_value(s[1])) as u8,
            (16 * hex_value(s[2]) + hex_value(s[3])) as u8,
            (16 * hex_value(s[4]) + hex_value(s[5])) as u8,
        ],
{
    law_hex_reads_the_first_six_digits(s, 0);
}

/// Without six consecutive hexadecimal digits, a color is read from the first
/// three as `rgb`, each digit doubled (seventeen times its value).
pub proof fn law_hex_reads_the_first_three_digits(s: Seq<char>, i: int)
    requires
        0 <= i,
        i + 3 <= s.len(),
        forall|k: int| i <= k < i + 3 ==> is_hex_digit(#[trigger] s[k]),
        forall|j: int| 0 <= j < i ==> !is_hex_run(s, j, 3),
        forall|j: int| 0 <= j ==> !is_hex_run(s, j, 6),
    ensures
        rgb_of_hex(s) == seq![
            (17 * hex_value(s[i])) as u8,
            (17 * hex_value(s[i + 1])) as u8,
            (17 * hex_value(s[i + 2])) as u8,
        ],
{
    lemma_no_hex_run(s, 6, 0);
    lemma_first_hex_run_at(s, 3, 0, i);
}

/// Text without three consecutive hexadecimal digits gives black.
pub proof fn law_hex_without_digits_is_black(s: Seq<char>)
    requires
        forall|j: int| 0 <= j ==> !is_hex_run(s, j, 3),
    ensures
        rgb_of_hex(s) == seq![0u8, 0u8, 0u8],
{
    assert forall|j: int| 0 <= j implies !is_hex_run(s, j, 6) by {
        if is_hex_run(s, j, 6) {
            assert(is_hex_run(s, j, 3));
        }
    }
    lemma_no_hex_run(s, 6, 0);
    lemma_no_hex_run(s, 3, 0);
}

} // verus!
