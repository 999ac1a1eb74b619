//! Terminal colors, the themes built from them, and styling of text segments.

use vstd::prelude::*;

use crate::styles::{
    ansi16m_escape, ansi256_escape, sgr_code,
    BgColorStyles, ColorStyles, ANSI_BACKGROUND_OFFSET,
};
use crate::text::{
    decimal, is_control, is_csi_parameter, is_sgr_escape, lemma_decimal_digits,
    lemma_sgr_of_digits, lemma_visible_escape_prefix, lemma_visible_plain_prefix, push_str,
    text_width, visible_from, ESC,
};

verus! {

broadcast use vstd::string::group_string_axioms;

/// A color as a terminal understands it.
#[derive(Debug, Clone, Copy, PartialEq, Eq, Hash, Structural)]
pub enum TerminalColor {
    /// A 16-color foreground code (30..=37, 90..=97).
    Ansi16(u8),
    /// An index into the 256-color palette.
    Ansi256(u8),
    /// A true color.
    Rgb(u8, u8, u8),
}

/// The escape that selects `c` as foreground color.
pub open spec fn foreground_escape_of(c: TerminalColor) -> Seq<char> {
    match c {
        TerminalColor::Ansi16(code) => sgr_code(code as nat),
        TerminalColor::Ansi256(code) => ansi256_escape(0, code),
        TerminalColor::Rgb(r, g, b) => ansi16m_escape(0, r, g, b),
    }
}

/// The escape that selects `c` as background color; a 16-color code moves
/// to its background counterpart ten codes up.
pub open spec fn background_escape_of(c: TerminalColor) -> Seq<char> {
    match c {
        TerminalColor::Ansi16(code) => sgr_code((code + ANSI_BACKGROUND_OFFSET) as nat),
        TerminalColor::Ansi256(code) => ansi256_escape(ANSI_BACKGROUND_OFFSET, code),
        TerminalColor::Rgb(r, g, b) => ansi16m_escape(ANSI_BACKGROUND_OFFSET, r, g, b),
    }
}

/// `c` can be used as background: a 16-color code must stay a byte once
/// moved to the background range.
pub open spec fn fits_background(c: TerminalColor) -> bool {
    match c {
        TerminalColor::Ansi16(code) => code + ANSI_BACKGROUND_OFFSET <= u8::MAX,
        _ => true,
    }
}

/// An optional background that can be used as such.
pub open spec fn fits_background_opt(c: Option<TerminalColor>) -> bool {
    match c {
        Some(c) => fits_background(c),
        None => true,
    }
}

impl TerminalColor {
    /// The escape that selects this color as foreground color.
    pub fn foreground_escape(self) -> (s: String)
        ensures
            s@ == foreground_escape_of(self),
    {
        let colors = ColorStyles::new();
        match self {
            TerminalColor::Ansi16(code) => colors.ansi(code),
            TerminalColor::Ansi256(code) => colors.ansi256(code),
            TerminalColor::Rgb(red, green, blue) => colors.ansi16m(red, green, blue),
        }
    }

    /// The escape that selects this color as background color.
    pub fn background_escape(self) -> (s: String)
        requires
            fits_background(self),
        ensures
            s@ == background_escape_of(self),
    {
        let colors = BgColorStyles::new();
        match self {
            TerminalColor::Ansi16(code) => colors.ansi(code),
            TerminalColor::Ansi256(code) => colors.ansi256(code),
            TerminalColor::Rgb(red, green, blue) => colors.ansi16m(red, green, blue),
        }
    }
}

/// `text` wrapped in the foreground escape `fg` and the background `bg`:
/// the escapes come first, then the text, then the resets (background first),
/// and an unstyled text is left as it is.
pub open spec fn styled(text: Seq<char>, fg: Option<Seq<char>>, bg: Option<TerminalColor>) -> Seq<
    char,
> {
    if fg is None && bg is None {
        text
    } else {
        (match fg {
            Some(e) => e,
            None => Seq::empty(),
        }) + (match bg {
            Some(c) => background_escape_of(c),
            None => Seq::empty(),
        }) + text + (if bg is Some {
            sgr_code(49)
        } else {
            Seq::empty()
        }) + (if fg is Some {
            sgr_code(39)
        } else {
            Seq::empty()
        })
    }
}

/// The foreground escape of an optional color.
pub open spec fn foreground_escape_opt(c: Option<TerminalColor>) -> Option<Seq<char>> {
    match c {
        Some(c) => Some(foreground_escape_of(c)),
        None => None,
    }
}

/// `text` in the foreground color `fg` on the background `bg`.
pub open spec fn style_spec(text: Seq<char>, fg: Option<TerminalColor>, bg: Option<TerminalColor>) -> Seq<
    char,
> {
    styled(text, foreground_escape_opt(fg), bg)
}

/// The view of an optional string.
pub open spec fn string_opt_view(s: Option<String>) -> Option<Seq<char>> {
    match s {
        Some(s) => Some(s@),
        None => None,
    }
}

/// `text` wrapped in the foreground escape and the background color.
pub fn style_text_with_escape(
    text: &str,
    foreground_escape: Option<String>,
    background: Option<TerminalColor>,
) -> (s: String)
    requires
        fits_background_opt(background),
    ensures
        s@ == styled(text@, string_opt_view(foreground_escape), background),
{
    let ghost fg = string_opt_view(foreground_escape);
    if foreground_escape.is_none() && background.is_none() {
        return text.to_owned();
    }
    let mut styled_text = String::new();
    let has_foreground = foreground_escape.is_some();
    if let Some(foreground_escape) = foreground_escape {
        push_str(&mut styled_text, foreground_escape.as_str());
    }
    if let Some(background) = background {
        let escape = background.background_escape();
        push_str(&mut styled_text, escape.as_str());
    }
    push_str(&mut styled_text, text);
    if background.is_some() {
        let bg_colors = BgColorStyles::new();
        push_str(&mut styled_text, bg_colors.close);
    }
    if has_foreground {
        let colors = ColorStyles::new();
        push_str(&mut styled_text, colors.close);
    }
    assert(styled_text@ =~= styled(text@, fg, background));
    styled_text
}

/// `text` in the foreground color `foreground` on the background `background`.
pub fn style_text(
    text: &str,
    foreground: Option<TerminalColor>,
    background: Option<TerminalColor>,
) -> (s: String)
    requires
        fits_background_opt(background),
    ensures
        s@ == style_spec(text@, foreground, background),
{
    let escape = match foreground {
        Some(color) => Some(color.foreground_escape()),
        None => None,
    };
    style_text_with_escape(text, escape, background)
}

/// All characters of `s` are control sequence parameters.
pub open spec fn all_parameters(s: Seq<char>) -> bool {
    forall|k: int| 0 <= k < s.len() ==> is_csi_parameter(#[trigger] s[k])
}

proof fn lemma_parameters_concat(a: Seq<char>, b: Seq<char>)
    requires
        all_parameters(a),
        all_parameters(b),
    ensures
        all_parameters(a + b),
{
    assert forall|k: int| 0 <= k < (a + b).len() implies is_csi_parameter(#[trigger] (a + b)[k]) by {
        if k < a.len() {
            assert((a + b)[k] == a[k]);
        } else {
            assert((a + b)[k] == b[k - a.len()]);
        }
    }
}

proof fn lemma_decimal_parameters(n: nat)
    ensures
        all_parameters(decimal(n)),
{
    lemma_decimal_digits(n);
}

/// `ESC [ params m` over the parameter sequence `params` is an SGR escape.
proof fn lemma_sgr_parameters(params: Seq<char>)
    requires
        all_parameters(params),
    ensures
        is_sgr_escape(seq![ESC, '['] + params + seq!['m']),
{
    lemma_sgr_of_digits(params);
}

/// The escapes of the style codes and of the 256 and true colors are SGR escapes.
pub proof fn lemma_escapes_are_sgr(n: nat, offset: u8, code: u8, r: u8, g: u8, b: u8)
    ensures
        is_sgr_escape(sgr_code(n)),
        is_sgr_escape(ansi256_escape(offset, code)),
        is_sgr_escape(ansi16m_escape(offset, r, g, b)),
{
    lemma_decimal_parameters(n);
    lemma_sgr_parameters(decimal(n));
    assert(sgr_code(n) =~= seq![ESC, '['] + decimal(n) + seq!['m']);
    let head = decimal((38 + offset) as nat);
    lemma_decimal_parameters((38 + offset) as nat);
    lemma_decimal_parameters(code as nat);
    lemma_decimal_parameters(r as nat);
    lemma_decimal_parameters(g as nat);
    lemma_decimal_parameters(b as nat);
    assert(all_parameters(seq![';', '5', ';']));
    assert(all_parameters(seq![';', '2', ';']));
    assert(all_parameters(seq![';']));
    let p256 = head + seq![';', '5', ';'] + decimal(code as nat);
    lemma_parameters_concat(head, seq![';', '5', ';']);
    lemma_parameters_concat(head + seq![';', '5', ';'], decimal(code as nat));
    lemma_sgr_parameters(p256);
    assert(ansi256_escape(offset, code) =~= seq![ESC, '['] + p256 + seq!['m']);
    let p1 = head + seq![';', '2', ';'];
    lemma_parameters_concat(head, seq![';', '2', ';']);
    let p2 = p1 + decimal(r as nat);
    lemma_parameters_concat(p1, decimal(r as nat));
    let p3 = p2 + seq![';'];
    lemma_parameters_concat(p2, seq![';']);
    let p4 = p3 + decimal(g as nat);
    lemma_parameters_concat(p3, decimal(g as nat));
    let p5 = p4 + seq![';'];
    lemma_parameters_concat(p4, seq![';']);
    let p6 = p5 + decimal(b as nat);
    lemma_parameters_concat(p5, decimal(b as nat));
    lemma_sgr_parameters(p6);
    assert(ansi16m_escape(offset, r, g, b) =~= seq![ESC, '['] + p6 + seq!['m']);
}

/// The foreground and background escapes of a color are SGR escapes.
pub proof fn lemma_color_escapes_are_sgr(c: TerminalColor)
    ensures
        is_sgr_escape(foreground_escape_of(c)),
        is_sgr_escape(background_escape_of(c)),
{
    match c {
        TerminalColor::Ansi16(code) => {
            lemma_escapes_are_sgr(code as nat, 0, 0, 0, 0, 0);
            lemma_escapes_are_sgr((code + ANSI_BACKGROUND_OFFSET) as nat, 0, 0, 0, 0, 0);
        },
        TerminalColor::Ansi256(code) => {
            lemma_escapes_are_sgr(0, 0, code, 0, 0, 0);
            lemma_escapes_are_sgr(0, ANSI_BACKGROUND_OFFSET, code, 0, 0, 0);
        },
        TerminalColor::Rgb(r, g, b) => {
            lemma_escapes_are_sgr(0, 0, 0, r, g, b);
            lemma_escapes_are_sgr(0, ANSI_BACKGROUND_OFFSET, 0, r, g, b);
        },
    }
}

/// An escape that may be absent takes no column.
proof fn lemma_optional_escape_prefix(e: Seq<char>, rest: Seq<char>)
    requires
        e.len() == 0 || is_sgr_escape(e),
    ensures
        visible_from(e + rest, 0, false) == visible_from(rest, 0, false),
{
    if e.len() == 0 {
        assert(e + rest =~= rest);
    } else {
        lemma_visible_escape_prefix(e, rest);
    }
}

/// Styling a text without control characters does not change what it shows:
/// the escapes around it take no column, and what follows is scanned afresh.
pub proof fn law_styling_keeps_visible_width(
    text: Seq<char>,
    fg: Option<Seq<char>>,
    bg: Option<TerminalColor>,
    rest: Seq<char>,
)
    requires
        forall|k: int| 0 <= k < text.len() ==> !is_control(#[trigger] text[k]),
        fg matches Some(e) ==> is_sgr_escape(e),
    ensures
        visible_from(styled(text, fg, bg) + rest, 0, false) == text_width(text) + visible_from(
            rest,
            0,
            false,
        ),
{
    if fg is None && bg is None {
        lemma_visible_plain_prefix(text, rest);
    } else {
        let f = match fg {
            Some(e) => e,
            None => Seq::empty(),
        };
        let b = match bg {
            Some(c) => background_escape_of(c),
            None => Seq::empty(),
        };
        let c1 = if bg is Some {
            sgr_code(49)
        } else {
            Seq::empty()
        };
        let c2 = if fg is Some {
            sgr_code(39)
        } else {
            Seq::empty()
        };
        if let Some(c) = bg {
            lemma_color_escapes_are_sgr(c);
        }
        lemma_escapes_are_sgr(49, 0, 0, 0, 0, 0);
        lemma_escapes_are_sgr(39, 0, 0, 0, 0, 0);
        let tail = c2 + rest;
        let mid = c1 + tail;
        let body = text + mid;
        let after_b = b + body;
        assert(styled(text, fg, bg) + rest =~= f + after_b);
        lemma_optional_escape_prefix(f, after_b);
        lemma_optional_escape_prefix(b, body);
        lemma_visible_plain_prefix(text, mid);
        lemma_optional_escape_prefix(c1, tail);
        lemma_optional_escape_prefix(c2, rest);
    }
}

/// Styling a text without control characters in a color keeps its visible width.
pub proof fn law_style_keeps_visible_width(
    text: Seq<char>,
    fg: Option<TerminalColor>,
    bg: Option<TerminalColor>,
    rest: Seq<char>,
)
    requires
        forall|k: int| 0 <= k < text.len() ==> !is_control(#[trigger] text[k]),
    ensures
        visible_from(style_spec(text, fg, bg) + rest, 0, false) == text_width(text) + visible_from(
            rest,
            0,
            false,
        ),
{
    if let Some(c) = fg {
        lemma_color_escapes_are_sgr(c);
    }
    law_styling_keeps_visible_width(text, foreground_escape_opt(fg), bg, rest);
}

/// Colors of the parts of the input box and its dropdown; `None` keeps the
/// terminal's own color.
#[derive(Debug, Clone, PartialEq, Eq, Structural)]
pub struct InputTheme {
    pub border_color: Option<TerminalColor>,
    pub text_color: Option<TerminalColor>,
    pub background_color: Option<TerminalColor>,
    pub suggestion_color: Option<TerminalColor>,
    pub suggestion_background_color: Option<TerminalColor>,
    pub selected_text_color: Option<TerminalColor>,
    pub selected_background_color: Option<TerminalColor>,
}

/// The theme that sets no color.
pub open spec fn plain_theme() -> InputTheme {
    InputTheme {
        border_color: None,
        text_color: None,
        background_color: None,
        suggestion_color: None,
        suggestion_background_color: None,
        selected_text_color: None,
        selected_background_color: None,
    }
}

/// The foreground of an unselected dropdown entry when the theme sets none.
pub open spec fn unselected_dropdown_color_spec() -> TerminalColor {
    TerminalColor::Ansi16(37)
}

/// The color of the description of an unselected dropdown entry.
pub open spec fn unselected_description_color_spec() -> TerminalColor {
    TerminalColor::Ansi16(90)
}

/// The blue foreground escape of an applied command and a selected entry.
pub open spec fn command_escape_spec() -> Seq<char> {
    sgr_code(34)
}

/// The foreground of an unselected dropdown entry when the theme sets none.
pub fn unselected_dropdown_color() -> (c: TerminalColor)
    ensures
        c == unselected_dropdown_color_spec(),
{
    TerminalColor::Ansi16(ColorStyles::new().white.open)
}

/// The color of the description of an unselected dropdown entry.
pub fn unselected_dropdown_description_color() -> (c: TerminalColor)
    ensures
        c == unselected_description_color_spec(),
{
    TerminalColor::Ansi16(ColorStyles::new().gray.open)
}

/// The escape that colors an applied command.
pub fn command_color_escape() -> (s: String)
    ensures
        s@ == command_escape_spec(),
{
    ColorStyles::new().blue.open_escape()
}

/// The escape that colors the selected dropdown entry.
pub fn selected_dropdown_color_escape() -> (s: String)
    ensures
        s@ == command_escape_spec(),
{
    ColorStyles::new().blue.open_escape()
}

impl Default for InputTheme {
    fn default() -> (r: Self)
        ensures
            r == plain_theme(),
    {
        InputTheme {
            border_color: None,
            text_color: None,
            background_color: None,
            suggestion_color: None,
            suggestion_background_color: None,
            selected_text_color: None,
            selected_background_color: None,
        }
    }
}

/// The "ocean" theme: light-blue border, near-white text on a dark blue
/// background, white suggestions on dark teal, selection on a medium blue.
pub open spec fn ocean_theme() -> InputTheme {
    InputTheme {
        border_color: Some(TerminalColor::Ansi256(81)),
        text_color: Some(TerminalColor::Ansi256(255)),
        background_color: Some(TerminalColor::Ansi256(24)),
        suggestion_color: Some(unselected_dropdown_color_spec()),
        suggestion_background_color: Some(TerminalColor::Ansi256(23)),
        selected_text_color: None,
        selected_background_color: Some(TerminalColor::Ansi256(31)),
    }
}

impl InputTheme {
    /// The theme that sets no color.
    pub fn new() -> (r: Self)
        ensures
            r == plain_theme(),
    {
        Self::default()
    }

    /// The "ocean" theme.
    pub fn ocean() -> (r: Self)
        ensures
            r == ocean_theme(),
    {
        Self::new().with_border_color(TerminalColor::Ansi256(81)).with_text_color(
            TerminalColor::Ansi256(255),
        ).with_background_color(TerminalColor::Ansi256(24)).with_suggestion_color(
            unselected_dropdown_color(),
        ).with_suggestion_background_color(TerminalColor::Ansi256(23)).with_selected_background_color(
            TerminalColor::Ansi256(31),
        )
    }

    /// This theme with the given border color.
    pub fn with_border_color(self, color: TerminalColor) -> (r: Self)
        ensures
            r == (InputTheme { border_color: Some(color), ..self }),
    {
        let mut theme = self;
        theme.border_color = Some(color);
        theme
    }

    /// This theme with the given text color.
    pub fn with_text_color(self, color: TerminalColor) -> (r: Self)
        ensures
            r == (InputTheme { text_color: Some(color), ..self }),
    {
        let mut theme = self;
        theme.text_color = Some(color);
        theme
    }

    /// This theme with the given background color.
    pub fn with_background_color(self, color: TerminalColor) -> (r: Self)
        ensures
            r == (InputTheme { background_color: Some(color), ..self }),
    {
        let mut theme = self;
        theme.background_color = Some(color);
        theme
    }

    /// This theme with the given suggestion color.
    pub fn with_suggestion_color(self, color: TerminalColor) -> (r: Self)
        ensures
            r == (InputTheme { suggestion_color: Some(color), ..self }),
    {
        let mut theme = self;
        theme.suggestion_color = Some(color);
        theme
    }

    /// This theme with the given suggestion background color.
    pub fn with_suggestion_background_color(self, color: TerminalColor) -> (r: Self)
        ensures
            r == (InputTheme { suggestion_background_color: Some(color), ..self }),
    {
        let mut theme = self;
        theme.suggestion_background_color = Some(color);
        theme
    }

    /// This theme with the given text color for the selected suggestion.
    pub fn with_selected_text_color(self, color: TerminalColor) -> (r: Self)
        ensures
            r == (InputTheme { selected_text_color: Some(color), ..self }),
    {
        let mut theme = self;
        theme.selected_text_color = Some(color);
        theme
    }

    /// This theme with the given background color for the selected suggestion.
    pub fn with_selected_background_color(self, color: TerminalColor) -> (r: Self)
        ensures
            r == (InputTheme { selected_background_color: Some(color), ..self }),
    {
        let mut theme = self;
        theme.selected_background_color = Some(color);
        theme
    }
}

} // verus!
