//! How a slash input is drawn: the header lines, the input box between two
//! border lines, and the visible part of the dropdown.

use vstd::prelude::*;

use crate::input::color::{
    command_escape_spec, fits_background_opt, selected_dropdown_color_escape, style_spec,
    style_text, style_text_with_escape, styled, command_color_escape,
    unselected_description_color_spec, unselected_dropdown_color, unselected_dropdown_color_spec,
    InputTheme, TerminalColor,
};
use crate::input::model::{filtered, matching, option_matches, query_of, starts_with_slash, InputModel};
use crate::input::options::{InputOption, OptionModel};
use crate::input::state::{lines_view, option_refs_view, SlashInput, DEFAULT_INPUT_WIDTH};
use crate::text::{
    chars_of, lemma_text_width_bound, min_nat, push_repeat, push_str, repeat_char, spaces,
    string_push, text_display_width, text_display_width_up_to, text_width, width_of,
    width_of_prefix,
};
use crate::input::view::{InputView, ViewModel};

verus! {

broadcast use vstd::string::group_string_axioms;

/// Empty lines between the input box and the dropdown.
pub const DROPDOWN_TOP_PADDING: usize = 0;

/// Empty lines between two dropdown entries.
pub const DROPDOWN_VERTICAL_SPACING: usize = 0;

/// The dropdown shows at most this many entries at a time.
pub const MAX_VISIBLE_DROPDOWN_OPTIONS: usize = 8;

/// The larger of two naturals.
pub open spec fn max_nat(a: nat, b: nat) -> nat {
    if a >= b {
        a
    } else {
        b
    }
}

/// `a - b`, or zero when `b` is larger.
pub open spec fn sat_sub(a: int, b: int) -> nat {
    if a >= b {
        (a - b) as nat
    } else {
        0
    }
}

/// The content width that a terminal of `columns` columns leaves inside the
/// box: two columns less, at least one.
pub open spec fn content_columns(columns: nat) -> nat {
    max_nat(sat_sub(columns as int, 2), 1)
}

/// The content width of the input box: the fixed width if one is set, else
/// the terminal's content width if the terminal width is known, else the
/// default width; never narrower than the value (at least one column).
pub open spec fn render_width(m: InputModel, terminal_columns: Option<usize>) -> nat {
    let content = max_nat(text_width(m.value), 1);
    match m.input_width {
        Some(w) => max_nat(w as nat, content),
        None => match terminal_columns {
            Some(t) => max_nat(content_columns(t as nat), content),
            None => max_nat(DEFAULT_INPUT_WIDTH as nat, content),
        },
    }
}

/// The window `[start, end)` of the `n` suggestions that the dropdown shows:
/// all of them when they fit, otherwise the eight that end at the selection,
/// or the first eight while the selection lies among them.
pub open spec fn visible_bounds(n: nat, selected: nat) -> (nat, nat) {
    if n == 0 {
        (0, 0)
    } else if n <= MAX_VISIBLE_DROPDOWN_OPTIONS {
        (0, n)
    } else {
        let sel = min_nat(selected, (n - 1) as nat);
        let start = min_nat(
            sat_sub(sel + 1 as int, MAX_VISIBLE_DROPDOWN_OPTIONS as int),
            (n - MAX_VISIBLE_DROPDOWN_OPTIONS) as nat,
        );
        (start, start + MAX_VISIBLE_DROPDOWN_OPTIONS as nat)
    }
}

/// The background of the input box: the theme's background, else its border color.
pub open spec fn container_background(t: InputTheme) -> Option<TerminalColor> {
    match t.background_color {
        Some(c) => Some(c),
        None => t.border_color,
    }
}

/// The line above and below the input text: `width + 2` blanks on the box background.
pub open spec fn border_line(width: nat, bg: Option<TerminalColor>) -> Seq<char> {
    style_spec(repeat_char(' ', width + 2), None, bg)
}

/// The first position at or after `i` that holds a space.
pub open spec fn first_space_from(v: Seq<char>, i: int) -> Option<int>
    decreases v.len() - i,
{
    if i < 0 || i >= v.len() {
        None
    } else if v[i] == ' ' {
        Some(i)
    } else {
        first_space_from(v, i + 1)
    }
}

/// A value that holds an applied command, split into the command (`/name`)
/// and the rest (from the first space on); `None` for any other value.
pub open spec fn split_applied(v: Seq<char>) -> Option<(Seq<char>, Seq<char>)> {
    if !starts_with_slash(v) {
        None
    } else {
        match first_space_from(v, 0) {
            Some(k) => if k == 1 {
                None
            } else {
                Some((v.take(k), v.skip(k)))
            },
            None => None,
        }
    }
}

/// The text inside the box, padded with blanks to `width` columns: an applied
/// command in blue followed by the rest in the text color, or the plain value
/// in the text color.
pub open spec fn input_body(m: InputModel, width: nat) -> Seq<char> {
    let bg = container_background(m.theme);
    match split_applied(m.value) {
        Some((command, rest)) => {
            let used = text_width(command) + text_width(rest);
            styled(command, Some(command_escape_spec()), bg) + style_spec(
                rest,
                m.theme.text_color,
                bg,
            ) + if used < width {
                style_spec(repeat_char(' ', (width - used) as nat), m.theme.text_color, bg)
            } else {
                Seq::empty()
            }
        },
        None => style_spec(
            m.value + repeat_char(' ', sat_sub(width as int, text_width(m.value) as int)),
            m.theme.text_color,
            bg,
        ),
    }
}

/// The parts of a value holding an applied command make up the value.
pub proof fn lemma_split_applied_parts(v: Seq<char>)
    ensures
        split_applied(v) matches Some((command, rest)) ==> command + rest == v && command.len()
            >= 2,
{
    if let Some((command, rest)) = split_applied(v) {
        let k = first_space_from(v, 0)->0;
        lemma_first_space_from(v, 0);
        assert(command + rest =~= v);
    }
}

/// Where `first_space_from` finds a space, there is one, at or after `i`.
pub proof fn lemma_first_space_from(v: Seq<char>, i: int)
    ensures
        first_space_from(v, i) matches Some(k) ==> i <= k < v.len() && v[k] == ' ' && i >= 0,
    decreases v.len() - i,
{
    if 0 <= i < v.len() && v[i] != ' ' {
        lemma_first_space_from(v, i + 1);
    }
}

/// The line holding the input text: a blank, the body and a blank, on the box background.
pub open spec fn input_line(m: InputModel, width: nat) -> Seq<char> {
    let bg = container_background(m.theme);
    style_spec(seq![' '], None, bg) + input_body(m, width) + style_spec(seq![' '], None, bg)
}

/// ` /command` of a dropdown entry.
pub open spec fn command_segment(o: OptionModel) -> Seq<char> {
    seq![' ', '/'] + o.command
}

/// The description of a dropdown entry, aligned two columns after the
/// widest visible command; `None` without description.
pub open spec fn description_segment(o: OptionModel, max_command_width: nat) -> Option<Seq<char>> {
    if o.description.len() == 0 {
        None
    } else {
        Some(
            repeat_char(' ', 2 + sat_sub(max_command_width as int, text_width(o.command) as int))
                + o.description,
        )
    }
}

/// A dropdown entry: the selected entry wholly in its color (blue when the
/// theme sets none), any other entry with its command in `fg` and its
/// description in gray.
pub open spec fn dropdown_line(
    o: OptionModel,
    max_command_width: nat,
    fg: Option<TerminalColor>,
    selected: bool,
) -> Seq<char> {
    let command = command_segment(o);
    let description = description_segment(o, max_command_width);
    let line = command + match description {
        Some(d) => d,
        None => Seq::empty(),
    };
    if selected && fg is None {
        styled(line, Some(command_escape_spec()), None)
    } else if selected {
        style_spec(line, fg, None)
    } else {
        style_spec(command, fg, None) + match description {
            Some(d) => style_spec(d, Some(unselected_description_color_spec()), None),
            None => Seq::empty(),
        }
    }
}

/// The foreground of a dropdown entry.
pub open spec fn entry_foreground(t: InputTheme, selected: bool) -> Option<TerminalColor> {
    if selected {
        t.selected_text_color
    } else {
        match t.suggestion_color {
            Some(c) => Some(c),
            None => Some(unselected_dropdown_color_spec()),
        }
    }
}

/// The widest command among `options` (0 for none).
pub open spec fn max_command_width(options: Seq<OptionModel>) -> nat
    decreases options.len(),
{
    if options.len() == 0 {
        0
    } else {
        max_nat(max_command_width(options.drop_last()), text_width(options.last().command))
    }
}

/// A bound on the command widths of the options holds of the options that match.
pub proof fn lemma_matching_widths(options: Seq<OptionModel>, query: Seq<char>, bound: nat)
    requires
        forall|i: int| 0 <= i < options.len() ==> text_width((#[trigger] options[i]).command) <= bound,
    ensures
        forall|i: int|
            0 <= i < matching(options, query).len() ==> text_width(
                (#[trigger] matching(options, query)[i]).command,
            ) <= bound,
    decreases options.len(),
{
    if options.len() > 0 {
        let prev = matching(options.drop_last(), query);
        lemma_matching_widths(options.drop_last(), query, bound);
        let last = options.last();
        if option_matches(last, query) {
            assert forall|i: int| 0 <= i < prev.push(last).len() implies text_width(
                (#[trigger] prev.push(last)[i]).command,
            ) <= bound by {
                if i < prev.len() {
                    assert(prev.push(last)[i] == prev[i]);
                }
            }
        }
    }
}

/// `n` empty lines.
pub open spec fn empty_lines(n: nat) -> Seq<Seq<char>> {
    Seq::new(n, |_i: int| Seq::<char>::empty())
}

/// The lines of the first `k` visible entries `visible`, the first of which
/// is suggestion number `start`, separated by the vertical spacing.
pub open spec fn dropdown_rows(
    m: InputModel,
    visible: Seq<OptionModel>,
    start: nat,
    max_width: nat,
    k: nat,
) -> Seq<Seq<char>>
    decreases k,
{
    if k == 0 {
        Seq::empty()
    } else {
        let j = (k - 1) as nat;
        let prev = dropdown_rows(m, visible, start, max_width, j);
        let selected = start + j == m.selected;
        let line = dropdown_line(visible[j as int], max_width, entry_foreground(m.theme, selected), selected);
        (if j > 0 {
            prev + empty_lines(DROPDOWN_VERTICAL_SPACING as nat)
        } else {
            prev
        }).push(line)
    }
}

/// The suggestions inside the visible window.
pub open spec fn visible_options(m: InputModel) -> Seq<OptionModel> {
    let f = filtered(m);
    let bounds = visible_bounds(f.len(), m.selected);
    f.subrange(bounds.0 as int, bounds.1 as int)
}

/// All lines of the drawing: header lines, border, input line, border, then
/// (when there are suggestions) the padding and the visible entries.
pub open spec fn render_lines(m: InputModel, terminal_columns: Option<usize>) -> Seq<Seq<char>> {
    let visible = visible_options(m);
    let start = visible_bounds(filtered(m).len(), m.selected).0;
    let width = render_width(m, terminal_columns);
    let border = border_line(width, container_background(m.theme));
    let boxed = m.header_lines + seq![border, input_line(m, width), border];
    if visible.len() == 0 {
        boxed
    } else {
        boxed + empty_lines(DROPDOWN_TOP_PADDING as nat) + dropdown_rows(
            m,
            visible,
            start,
            max_command_width(visible),
            visible.len(),
        )
    }
}

/// The drawing of the input: its lines, with the cursor on the input line,
/// one column after the box edge plus the width of the text before the cursor.
pub open spec fn render_model(m: InputModel, terminal_columns: Option<usize>) -> ViewModel {
    ViewModel {
        lines: render_lines(m, terminal_columns),
        cursor_row: m.header_lines.len() + 1,
        cursor_column: 1 + text_width(m.value.take(m.cursor as int)),
    }
}

/// The drawing fits the machine: its width and line counts stay within
/// `usize`, and a 16-color box background has a background code.
pub open spec fn render_fits(m: InputModel, terminal_columns: Option<usize>) -> bool {
    &&& render_width(m, terminal_columns) + 2 <= usize::MAX
    &&& m.header_lines.len() + 1 <= usize::MAX
    &&& fits_background_opt(container_background(m.theme))
    &&& forall|i: int|
        0 <= i < m.options.len() ==> text_width((#[trigger] m.options[i]).command) + 2 <= usize::MAX
}

/// The content width that a terminal of `terminal_columns` columns leaves
/// inside the box.
pub fn content_width_from_terminal_columns(terminal_columns: usize) -> (w: usize)
    ensures
        w == content_columns(terminal_columns as nat),
{
    let w = if terminal_columns >= 2 {
        terminal_columns - 2
    } else {
        0
    };
    if w < 1 {
        1
    } else {
        w
    }
}

/// A value holding an applied command split into the command and the rest.
pub fn split_applied_command(value: &str) -> (r: Option<(&str, &str)>)
    ensures
        match r {
            Some((command, rest)) => split_applied(value@) == Some((command@, rest@)),
            None => split_applied(value@) is None,
        },
{
    let v = chars_of(value);
    if !(v.len() > 0 && v[0] == '/') {
        return None;
    }
    let n = v.len();
    let mut k: usize = 0;
    while k < n && v[k] != ' '
        invariant
            k <= n == v@.len(),
            first_space_from(v@, 0) == first_space_from(v@, k as int),
        decreases n - k,
    {
        k = k + 1;
    }
    if k == n || k == 1 {
        return None;
    }
    let command = value.substring_char(0, k);
    let rest = value.substring_char(k, n);
    assert(v@.subrange(0, k as int) =~= v@.take(k as int));
    assert(v@.subrange(k as int, n as int) =~= v@.skip(k as int));
    Some((command, rest))
}

/// A copy of `lines`.
fn copy_lines(lines: &[String]) -> (r: Vec<String>)
    ensures
        lines_view(r@) == lines_view(lines@),
{
    let mut r: Vec<String> = Vec::new();
    let mut i: usize = 0;
    while i < lines.len()
        invariant
            i <= lines@.len(),
            r@.len() == i,
            lines_view(r@) == lines_view(lines@).take(i as int),
        decreases lines@.len() - i,
    {
        let line = lines[i].clone();
        assert(line@ == lines@[i as int]@);
        let ghost before = r@;
        r.push(line);
        assert(r@ == before.push(line));
        assert forall|k: int| 0 <= k < i + 1 implies #[trigger] lines_view(r@)[k] == lines_view(
            lines@,
        ).take(i + 1)[k] by {
            if k < i {
                assert(lines_view(before)[k] == lines_view(lines@).take(i as int)[k]);
            }
        }
        i = i + 1;
        assert(lines_view(r@) =~= lines_view(lines@).take(i as int));
    }
    assert(lines_view(lines@).take(lines@.len() as int) =~= lines_view(lines@));
    r
}

/// Appends `n` empty lines.
fn push_empty_lines(lines: &mut Vec<String>, n: usize)
    ensures
        lines_view(final(lines)@) == lines_view(old(lines)@) + empty_lines(n as nat),
{
    let mut i: usize = 0;
    while i < n
        invariant
            i <= n,
            lines@.len() == old(lines)@.len() + i,
            lines_view(lines@) == lines_view(old(lines)@) + empty_lines(i as nat),
        decreases n - i,
    {
        let empty = String::new();
        let ghost before = lines@;
        lines.push(empty);
        assert(lines@ == before.push(empty));
        assert(empty@ =~= Seq::<char>::empty());
        assert forall|k: int| 0 <= k < lines@.len() implies #[trigger] lines_view(lines@)[k] == (
        lines_view(old(lines)@) + empty_lines((i + 1) as nat))[k] by {
            if k < before.len() {
                assert(lines_view(before)[k] == (lines_view(old(lines)@) + empty_lines(i as nat))[k]);
            }
        }
        i = i + 1;
        assert(lines_view(lines@) =~= lines_view(old(lines)@) + empty_lines(i as nat));
    }
}

impl SlashInput {
    /// The drawing of the input with the default width.
    pub fn render(&self) -> (v: InputView)
        requires
            self.wf(),
            render_fits(self@, None),
        ensures
            v@ == render_model(self@, None),
    {
        self.render_internal(None)
    }

    /// The drawing of the input on a terminal of `terminal_columns` columns.
    pub fn render_with_terminal_width(&self, terminal_columns: usize) -> (v: InputView)
        requires
            self.wf(),
            render_fits(self@, Some(terminal_columns)),
        ensures
            v@ == render_model(self@, Some(terminal_columns)),
    {
        self.render_internal(Some(terminal_columns))
    }

    /// The drawing of the input on a terminal of the given width, if known.
    fn render_internal(&self, terminal_columns: Option<usize>) -> (v: InputView)
        requires
            self.wf(),
            render_fits(self@, terminal_columns),
        ensures
            v@ == render_model(self@, terminal_columns),
    {
        let ghost m = self@;
        let suggestions = self.filtered_options();
        let (visible_start, visible_end) = self.visible_option_bounds(suggestions.len());
        let width = self.resolve_render_width(terminal_columns);
        let ghost visible = visible_options(m);
        proof {
            if filtered(m).len() > 0 {
                lemma_matching_widths(m.options, query_of(m.value), (usize::MAX - 2) as nat);
            }
            assert forall|k: int| 0 <= k < filtered(m).len() implies text_width(
                (#[trigger] filtered(m)[k]).command,
            ) + 2 <= usize::MAX by {}
        }
        let mut widest: usize = 0;
        let mut i: usize = visible_start;
        while i < visible_end
            invariant
                visible_start <= i <= visible_end <= suggestions@.len(),
                option_refs_view(suggestions@) == filtered(m),
                visible == filtered(m).subrange(visible_start as int, visible_end as int),
                widest == max_command_width(visible.take(i - visible_start)),
                widest + 2 <= usize::MAX,
                forall|k: int|
                    0 <= k < filtered(m).len() ==> text_width((#[trigger] filtered(m)[k]).command)
                        + 2 <= usize::MAX,
            decreases visible_end - i,
        {
            assert(option_refs_view(suggestions@)[i as int] == suggestions@[i as int]@);
            let command_width = text_display_width(suggestions[i].command.as_str());
            assert(visible.take(i + 1 - visible_start).drop_last() =~= visible.take(
                i - visible_start,
            ));
            if command_width > widest {
                widest = command_width;
            }
            i = i + 1;
        }
        assert(visible.take(visible.len() as int) =~= visible);
        let mut lines = copy_lines(self.header_lines());
        let border = self.render_container_fill(width);
        lines.push(border.clone());
        lines.push(self.render_input_line(width));
        lines.push(border);
        let ghost border_view = border_line(width as nat, container_background(m.theme));
        let ghost boxed = m.header_lines + seq![border_view, input_line(m, width as nat), border_view];
        assert(lines_view(lines@) =~= boxed);
        assert(visible.len() == visible_end - visible_start);
        if visible_start < visible_end {
            push_empty_lines(&mut lines, DROPDOWN_TOP_PADDING);
            let ghost head = boxed + empty_lines(DROPDOWN_TOP_PADDING as nat);
            let mut visible_index: usize = 0;
            while visible_index < visible_end - visible_start
                invariant
                    visible_start < visible_end <= suggestions@.len(),
                    visible_index <= visible_end - visible_start,
                    option_refs_view(suggestions@) == filtered(m),
                    visible == filtered(m).subrange(visible_start as int, visible_end as int),
                    m == self@,
                    widest + 2 <= usize::MAX,
                    lines_view(lines@) == head + dropdown_rows(
                        m,
                        visible,
                        visible_start as nat,
                        widest as nat,
                        visible_index as nat,
                    ),
                decreases visible_end - visible_start - visible_index,
            {
                let index = visible_start + visible_index;
                let is_selected = index == self.selected_index();
                let theme = self.theme();
                let foreground = if is_selected {
                    theme.selected_text_color
                } else {
                    match theme.suggestion_color {
                        Some(color) => Some(color),
                        None => Some(unselected_dropdown_color()),
                    }
                };
                assert(foreground == entry_foreground(m.theme, is_selected));
                let ghost before = lines_view(lines@);
                if visible_index > 0 {
                    push_empty_lines(&mut lines, DROPDOWN_VERTICAL_SPACING);
                }
                let ghost spaced = lines_view(lines@);
                assert(option_refs_view(suggestions@)[index as int] == suggestions@[index as int]@);
                assert(visible[visible_index as int] == suggestions@[index as int]@);
                let line = self.render_dropdown_line(
                    suggestions[index],
                    widest,
                    foreground,
                    is_selected,
                );
                lines.push(line);
                proof {
                    assert(lines_view(lines@) =~= spaced.push(line@));
                    assert(head + dropdown_rows(
                        m,
                        visible,
                        visible_start as nat,
                        widest as nat,
                        (visible_index + 1) as nat,
                    ) =~= lines_view(lines@));
                }
                visible_index = visible_index + 1;
            }
            assert(lines_view(lines@) == render_lines(m, terminal_columns));
        } else {
            assert(lines_view(lines@) == render_lines(m, terminal_columns));
        }
        let cursor_row = self.header_lines().len() + 1;
        let cursor_column = 1 + self.cursor_display_width();
        InputView { lines, cursor_row, cursor_column }
    }

    /// The content width of the box (see [`render_width`]).
    fn resolve_render_width(&self, terminal_columns: Option<usize>) -> (w: usize)
        ensures
            w == render_width(self@, terminal_columns),
    {
        let value_width = self.input_display_width();
        let content_width = if value_width < 1 {
            1
        } else {
            value_width
        };
        let base = match self.input_width_setting() {
            Some(width) => width,
            None => match terminal_columns {
                Some(columns) => content_width_from_terminal_columns(columns),
                None => DEFAULT_INPUT_WIDTH,
            },
        };
        if base >= content_width {
            base
        } else {
            content_width
        }
    }

    /// The window of the `filtered_len` suggestions that the dropdown shows.
    fn visible_option_bounds(&self, filtered_len: usize) -> (r: (usize, usize))
        ensures
            r.0 == visible_bounds(filtered_len as nat, self@.selected).0,
            r.1 == visible_bounds(filtered_len as nat, self@.selected).1,
            r.0 <= r.1 <= filtered_len,
    {
        if filtered_len == 0 {
            return (0, 0);
        }
        if filtered_len <= MAX_VISIBLE_DROPDOWN_OPTIONS {
            return (0, filtered_len);
        }
        let selected = self.selected_index();
        let selected = if selected <= filtered_len - 1 {
            selected
        } else {
            filtered_len - 1
        };
        let max_start = filtered_len - MAX_VISIBLE_DROPDOWN_OPTIONS;
        let past = selected + 1;
        let from = if past >= MAX_VISIBLE_DROPDOWN_OPTIONS {
            past - MAX_VISIBLE_DROPDOWN_OPTIONS
        } else {
            0
        };
        let start = if from <= max_start {
            from
        } else {
            max_start
        };
        (start, start + MAX_VISIBLE_DROPDOWN_OPTIONS)
    }

    /// A border line of the box.
    fn render_container_fill(&self, width: usize) -> (s: String)
        requires
            width + 2 <= usize::MAX,
            fits_background_opt(container_background(self@.theme)),
        ensures
            s@ == border_line(width as nat, container_background(self@.theme)),
    {
        let fill = spaces(width + 2);
        style_text(fill.as_str(), None, self.container_background_color())
    }

    /// The background of the box.
    fn container_background_color(&self) -> (c: Option<TerminalColor>)
        ensures
            c == container_background(self@.theme),
    {
        let theme = self.theme();
        match theme.background_color {
            Some(color) => Some(color),
            None => theme.border_color,
        }
    }

    /// A dropdown entry (see [`dropdown_line`]).
    fn render_dropdown_line(
        &self,
        option: &InputOption,
        max_command_width: usize,
        foreground: Option<TerminalColor>,
        is_selected: bool,
    ) -> (s: String)
        requires
            max_command_width + 2 <= usize::MAX,
        ensures
            s@ == dropdown_line(option@, max_command_width as nat, foreground, is_selected),
    {
        let ghost o = option@;
        let mut command_text = String::new();
        string_push(&mut command_text, ' ');
        string_push(&mut command_text, '/');
        push_str(&mut command_text, option.command.as_str());
        assert(command_text@ =~= command_segment(o));
        let description_segment = if option.description.as_str().is_empty() {
            None
        } else {
            let command_width = text_display_width(option.command.as_str());
            let gap = if max_command_width >= command_width {
                max_command_width - command_width
            } else {
                0
            };
            let mut segment = spaces(2 + gap);
            push_str(&mut segment, option.description.as_str());
            Some(segment)
        };
        let mut line = command_text.clone();
        if let Some(segment) = &description_segment {
            push_str(&mut line, segment.as_str());
        }
        if is_selected && foreground.is_none() {
            return style_text_with_escape(line.as_str(), Some(selected_dropdown_color_escape()), None);
        }
        if is_selected {
            return style_text(line.as_str(), foreground, None);
        }
        let mut rendered = style_text(command_text.as_str(), foreground, None);
        if let Some(segment) = description_segment {
            let description = style_text(
                segment.as_str(),
                Some(crate::input::color::unselected_dropdown_description_color()),
                None,
            );
            push_str(&mut rendered, description.as_str());
        }
        rendered
    }

    /// The line holding the input text (see [`input_line`]).
    fn render_input_line(&self, width: usize) -> (s: String)
        requires
            fits_background_opt(container_background(self@.theme)),
        ensures
            s@ == input_line(self@, width as nat),
    {
        let background = self.container_background_color();
        let mut line = style_text(" ", None, background);
        let body = self.render_input_body(width);
        let right = style_text(" ", None, background);
        push_str(&mut line, body.as_str());
        push_str(&mut line, right.as_str());
        proof {
            reveal_strlit(" ");
        }
        line
    }

    /// The text inside the box (see [`input_body`]).
    fn render_input_body(&self, width: usize) -> (s: String)
        requires
            fits_background_opt(container_background(self@.theme)),
        ensures
            s@ == input_body(self@, width as nat),
    {
        let background = self.container_background_color();
        let text_color = self.theme().text_color;
        match split_applied_command(self.value()) {
            Some((command, remainder)) => {
                let mut body = style_text_with_escape(
                    command,
                    Some(command_color_escape()),
                    background,
                );
                let rest = style_text(remainder, text_color, background);
                push_str(&mut body, rest.as_str());
                let command_width = text_display_width(command);
                let remainder_width = text_display_width(remainder);
                proof {
                    lemma_text_width_bound(command@);
                    lemma_text_width_bound(remainder@);
                    lemma_text_width_bound(self@.value);
                    crate::text::lemma_text_width_concat(command@, remainder@);
                    lemma_split_applied_parts(self@.value);
                }
                let chars = chars_of(self.value());
                let visible_len = command_width + remainder_width;
                if visible_len < width {
                    let pad = spaces(width - visible_len);
                    let padding = style_text(pad.as_str(), text_color, background);
                    push_str(&mut body, padding.as_str());
                }
                body
            },
            None => {
                let visible_len = self.input_display_width();
                let mut text = String::new();
                push_str(&mut text, self.value());
                let pad = if width >= visible_len {
                    width - visible_len
                } else {
                    0
                };
                push_repeat(&mut text, ' ', pad);
                style_text(text.as_str(), text_color, background)
            },
        }
    }

    /// Display width of the value.
    fn input_display_width(&self) -> (w: usize)
        ensures
            w == text_width(self@.value),
    {
        text_display_width(self.value())
    }

    /// Display width of the value before the cursor.
    fn cursor_display_width(&self) -> (w: usize)
        requires
            self.wf(),
        ensures
            w == text_width(self@.value.take(self@.cursor as int)),
            w + 1 <= usize::MAX,
    {
        let v = chars_of(self.value());
        proof {
            lemma_text_width_bound(self@.value.take(self@.cursor as int));
        }
        width_of_prefix(&v, self.cursor())
    }
}

} // verus!
