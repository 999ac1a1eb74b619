//! Properties of the slash input that hold across its operations.

use vstd::prelude::*;

use crate::input::keys::{ActionModel, KeyCode, KeyEvent};
use crate::input::layout::{
    split_applied, visible_bounds, MAX_VISIBLE_DROPDOWN_OPTIONS,
};
use crate::input::model::{
    applied_value, dropdown_visible, filtered, query_of, matching, move_down, move_up, option_matches,
    selected_option, starts_with_slash, step, InputModel,
};
use crate::input::options::OptionModel;
use crate::input::state::DEFAULT_INPUT_WIDTH;
use crate::input::color::{
    command_escape_spec, law_style_keeps_visible_width, law_styling_keeps_visible_width,
    lemma_escapes_are_sgr, style_spec, styled,
};
use crate::input::layout::{
    border_line, container_background, dropdown_rows, empty_lines, first_space_from, input_body,
    input_line, lemma_split_applied_parts, render_lines, render_width, visible_options,
};
use crate::text::{
    ascii_lower, is_control, lower, lemma_text_width_concat, min_nat, repeat_char, text_width, visible_from,
    visible_width,
};

verus! {

/// A key pressed without modifiers is no shortcut and types text.
pub proof fn lemma_plain_key(e: KeyEvent)
    requires
        e.modifiers@ == 0,
    ensures
        !crate::input::model::is_shortcut(e),
        crate::input::model::types_text(e),
{
    assert(0u8 & (2u8 | 8u8) == 0u8) by (bit_vector);
    assert(0u8 & (2u8 | 4u8 | 8u8) == 0u8) by (bit_vector);
}

/// Typing a character and then pressing Backspace gives back the value and
/// the cursor position from before.
pub proof fn law_backspace_undoes_typing(m: InputModel, c: char, typed: KeyEvent, back: KeyEvent)
    requires
        m.wf(),
        typed.code == KeyCode::Char(c),
        typed.modifiers@ == 0,
        back.code == KeyCode::Backspace,
        back.modifiers@ == 0,
    ensures
        step(step(m, typed).0, back).0.value == m.value,
        step(step(m, typed).0, back).0.cursor == m.cursor,
{
    lemma_plain_key(typed);
    lemma_plain_key(back);
    let m1 = step(m, typed).0;
    let i = m.cursor as int;
    assert(m1.cursor == m.cursor + 1);
    assert(m1.value =~= m.value.take(i) + seq![c] + m.value.skip(i));
    let m2 = step(m1, back).0;
    assert(m1.value.take(i) =~= m.value.take(i));
    assert(m1.value.skip(i + 1) =~= m.value.skip(i));
    assert(m2.value =~= m.value);
}

/// A shortcut (control or super held) never changes the input.
pub proof fn law_shortcuts_leave_input_unchanged(m: InputModel, e: KeyEvent)
    requires
        crate::input::model::is_shortcut(e),
    ensures
        step(m, e).0 == m,
{
}

/// Enter without visible suggestions submits the value and empties the input.
pub proof fn law_enter_submits(m: InputModel, e: KeyEvent)
    requires
        e.code == KeyCode::Enter,
        e.modifiers@ == 0,
        !dropdown_visible(m),
    ensures
        step(m, e).1 == ActionModel::Submitted(m.value),
        step(m, e).0.value.len() == 0,
        step(m, e).0.cursor == 0,
        !dropdown_visible(step(m, e).0),
{
    lemma_plain_key(e);
}

/// While suggestions are visible there is always a selected one, so Enter or
/// Tab applies it: the value becomes `/command ` with the cursor at its end,
/// and the dropdown closes.
pub proof fn law_enter_applies_visible_suggestion(m: InputModel, e: KeyEvent)
    requires
        m.wf(),
        e.code == KeyCode::Enter || e.code == KeyCode::Tab,
        e.modifiers@ == 0,
        dropdown_visible(m),
    ensures
        selected_option(m) is Some,
        step(m, e).1 == ActionModel::SuggestionApplied(
            applied_value(selected_option(m)->0.command),
        ),
        step(m, e).0.value == applied_value(selected_option(m)->0.command),
        step(m, e).0.cursor == step(m, e).0.value.len(),
        !dropdown_visible(step(m, e).0),
{
    lemma_plain_key(e);
}

/// Moving the selection down and then up (or up and then down) comes back to
/// the same suggestion.
pub proof fn law_selection_moves_are_inverse(m: InputModel)
    requires
        m.wf(),
    ensures
        move_up(move_down(m)).selected == m.selected,
        move_down(move_up(m)).selected == m.selected,
{
}

/// Only a value that starts with a slash shows suggestions.
pub proof fn law_suggestions_need_leading_slash(m: InputModel)
    ensures
        dropdown_visible(m) ==> starts_with_slash(m.value),
{
}

/// The suggestions are exactly the options that match the query, in order:
/// each suggestion matches, is one of the options, and appears no earlier
/// than an option that comes before it.
pub proof fn law_suggestions_are_matching_options(options: Seq<OptionModel>, query: Seq<char>)
    ensures
        forall|i: int|
            0 <= i < matching(options, query).len() ==> option_matches(
                #[trigger] matching(options, query)[i],
                query,
            ) && options.contains(matching(options, query)[i]),
        forall|j: int|
            0 <= j < options.len() && option_matches(#[trigger] options[j], query)
                ==> matching(options, query).contains(options[j]),
    decreases options.len(),
{
    if options.len() > 0 {
        let init = options.drop_last();
        let last = options.last();
        let prev = matching(init, query);
        law_suggestions_are_matching_options(init, query);
        let all = matching(options, query);
        assert forall|i: int| 0 <= i < all.len() implies option_matches(#[trigger] all[i], query)
            && options.contains(all[i]) by {
            if i < prev.len() {
                assert(all[i] == prev[i]);
                let k = choose|k: int| 0 <= k < init.len() && init[k] == prev[i];
                assert(options[k] == init[k]);
            } else {
                assert(all[i] == last);
                assert(options[options.len() - 1] == last);
            }
        }
        assert forall|j: int| 0 <= j < options.len() && option_matches(#[trigger] options[j], query)
            implies all.contains(options[j]) by {
            if j < options.len() - 1 {
                assert(init[j] == options[j]);
                assert(prev.contains(options[j]));
                let k = choose|k: int| 0 <= k < prev.len() && prev[k] == options[j];
                assert(all[k] == prev[k]);
            } else {
                assert(all[all.len() - 1] == last);
            }
        }
    }
}

/// The dropdown shows at most eight suggestions, all of them when they fit,
/// and the selected suggestion is always among those shown: the first eight
/// while it is one of them, otherwise the eight that end with it.
pub proof fn law_selection_stays_visible(n: nat, selected: nat)
    requires
        selected < n,
    ensures
        visible_bounds(n, selected).0 <= selected < visible_bounds(n, selected).1 <= n,
        visible_bounds(n, selected).1 - visible_bounds(n, selected).0 == min_nat(
            n,
            MAX_VISIBLE_DROPDOWN_OPTIONS as nat,
        ),
        selected < MAX_VISIBLE_DROPDOWN_OPTIONS ==> visible_bounds(n, selected).0 == 0,
        selected >= MAX_VISIBLE_DROPDOWN_OPTIONS ==> visible_bounds(n, selected).1 == selected + 1,
{
}

/// The value that applying a command leaves is drawn as that command (with
/// its slash) followed by the space, for a command without spaces.
pub proof fn law_applied_value_is_drawn_as_command(command: Seq<char>)
    requires
        command.len() > 0,
        forall|k: int| 0 <= k < command.len() ==> #[trigger] command[k] != ' ',
    ensures
        split_applied(applied_value(command)) == Some((seq!['/'] + command, seq![' '])),
{
    let v = applied_value(command);
    let n = command.len() + 1;
    assert(v[0] == '/');
    assert forall|k: int| 0 <= k < n implies #[trigger] v[k] != ' ' by {
        if k > 0 {
            assert(v[k] == command[k - 1]);
        }
    }
    lemma_no_space_before(v, 0, n as int);
    assert(v.take(n as int) =~= seq!['/'] + command);
    assert(v.skip(n as int) =~= seq![' ']);
}

/// Without a space in `v[i..n)` and with one at `n`, the first space at or
/// after `i` is at `n`.
proof fn lemma_no_space_before(v: Seq<char>, i: int, n: int)
    requires
        0 <= i <= n < v.len(),
        v[n] == ' ',
        forall|k: int| i <= k < n ==> #[trigger] v[k] != ' ',
    ensures
        crate::input::layout::first_space_from(v, i) == Some(n),
    decreases n - i,
{
    if i < n {
        lemma_no_space_before(v, i + 1, n);
    }
}

/// Blanks take one column each.
pub proof fn lemma_blanks_width(n: nat)
    ensures
        text_width(repeat_char(' ', n)) == n,
        forall|k: int| 0 <= k < n ==> !is_control(#[trigger] repeat_char(' ', n)[k]),
    decreases n,
{
    if n > 0 {
        lemma_blanks_width((n - 1) as nat);
        assert(repeat_char(' ', n).drop_last() =~= repeat_char(' ', (n - 1) as nat));
    }
}

/// No character of `s` is a control character.
pub open spec fn control_free(s: Seq<char>) -> bool {
    forall|k: int| 0 <= k < s.len() ==> !is_control(#[trigger] s[k])
}

proof fn lemma_control_free_concat(a: Seq<char>, b: Seq<char>)
    requires
        control_free(a),
        control_free(b),
    ensures
        control_free(a + b),
{
    assert forall|k: int| 0 <= k < (a + b).len() implies !is_control(#[trigger] (a + b)[k]) by {
        if k < a.len() {
            assert((a + b)[k] == a[k]);
        } else {
            assert((a + b)[k] == b[k - a.len()]);
        }
    }
}

/// The text inside the box, followed by `rest`, shows `width` columns and then `rest`.
proof fn lemma_input_body_width(m: InputModel, width: nat, rest: Seq<char>)
    requires
        control_free(m.value),
        text_width(m.value) <= width,
    ensures
        visible_from(input_body(m, width) + rest, 0, false) == width + visible_from(rest, 0, false),
{
    let bg = container_background(m.theme);
    lemma_split_applied_parts(m.value);
    match crate::input::layout::split_applied(m.value) {
        Some((command, remainder)) => {
            let used = text_width(command) + text_width(remainder);
            lemma_text_width_concat(command, remainder);
            assert forall|k: int| 0 <= k < command.len() implies !is_control(#[trigger] command[k]) by {
                assert(command[k] == m.value[k]);
            }
            assert forall|k: int| 0 <= k < remainder.len() implies !is_control(
                #[trigger] remainder[k],
            ) by {
                assert(remainder[k] == m.value[k + command.len()]);
            }
            let pad = if used < width {
                style_spec(repeat_char(' ', (width - used) as nat), m.theme.text_color, bg)
            } else {
                Seq::empty()
            };
            let a = styled(command, Some(command_escape_spec()), bg);
            let b = style_spec(remainder, m.theme.text_color, bg);
            assert(input_body(m, width) + rest =~= a + (b + (pad + rest)));
            lemma_escapes_are_sgr(34, 0, 0, 0, 0, 0);
            law_styling_keeps_visible_width(command, Some(command_escape_spec()), bg, b + (pad + rest));
            law_style_keeps_visible_width(remainder, m.theme.text_color, bg, pad + rest);
            if used < width {
                lemma_blanks_width((width - used) as nat);
                law_style_keeps_visible_width(
                    repeat_char(' ', (width - used) as nat),
                    m.theme.text_color,
                    bg,
                    rest,
                );
            } else {
                assert(pad + rest =~= rest);
            }
        },
        None => {
            let blanks = repeat_char(
                ' ',
                crate::input::layout::sat_sub(width as int, text_width(m.value) as int),
            );
            lemma_blanks_width(blanks.len());
            lemma_control_free_concat(m.value, blanks);
            lemma_text_width_concat(m.value, blanks);
            law_style_keeps_visible_width(m.value + blanks, m.theme.text_color, bg, rest);
        },
    }
}

/// The two border lines and the input line of a drawing each show exactly
/// the box width plus its two edge columns, for a value without control
/// characters.
pub proof fn law_box_lines_span_the_box(m: InputModel, terminal_columns: Option<usize>)
    requires
        control_free(m.value),
    ensures
        ({
            let h = m.header_lines.len() as int;
            let w = render_width(m, terminal_columns);
            let lines = render_lines(m, terminal_columns);
            &&& visible_width(lines[h]) == w + 2
            &&& visible_width(lines[h + 1]) == w + 2
            &&& visible_width(lines[h + 2]) == w + 2
        }),
{
    let h = m.header_lines.len() as int;
    let w = render_width(m, terminal_columns);
    let bg = container_background(m.theme);
    let lines = render_lines(m, terminal_columns);
    let boxed = m.header_lines + seq![border_line(w, bg), input_line(m, w), border_line(w, bg)];
    assert(lines[h] == boxed[h]);
    assert(lines[h + 1] == boxed[h + 1]);
    assert(lines[h + 2] == boxed[h + 2]);
    let empty = Seq::<char>::empty();
    lemma_blanks_width(w + 2);
    law_style_keeps_visible_width(repeat_char(' ', w + 2), None, bg, empty);
    assert(border_line(w, bg) + empty =~= border_line(w, bg));
    let blank = seq![' '];
    lemma_blanks_width(1);
    assert(repeat_char(' ', 1) =~= blank);
    let right = style_spec(blank, None, bg);
    let body = input_body(m, w);
    assert(input_line(m, w) + empty =~= style_spec(blank, None, bg) + (body + (right + empty)));
    law_style_keeps_visible_width(blank, None, bg, body + (right + empty));
    law_style_keeps_visible_width(blank, None, bg, empty);
    assert(input_line(m, w) + empty =~= input_line(m, w));
    lemma_input_body_width(m, w, right + empty);
}

/// The dropdown rows of `k` entries are `k` lines (no spacing between entries).
proof fn lemma_dropdown_rows_len(
    m: InputModel,
    visible: Seq<OptionModel>,
    start: nat,
    max_width: nat,
    k: nat,
)
    ensures
        dropdown_rows(m, visible, start, max_width, k).len() == k,
    decreases k,
{
    if k > 0 {
        lemma_dropdown_rows_len(m, visible, start, max_width, (k - 1) as nat);
        assert(empty_lines(0).len() == 0);
    }
}

/// A drawing has one line per header line, three lines for the box, and one
/// line per visible suggestion, of which there are at most eight.
pub proof fn law_drawing_line_count(m: InputModel, terminal_columns: Option<usize>)
    requires
        m.wf(),
    ensures
        render_lines(m, terminal_columns).len() == m.header_lines.len() + 3
            + visible_options(m).len(),
        visible_options(m).len() <= MAX_VISIBLE_DROPDOWN_OPTIONS,
        visible_options(m).len() == min_nat(filtered(m).len(), MAX_VISIBLE_DROPDOWN_OPTIONS as nat),
{
    let f = filtered(m);
    let b = visible_bounds(f.len(), m.selected);
    let visible = visible_options(m);
    lemma_dropdown_rows_len(m, visible, b.0, crate::input::layout::max_command_width(visible), visible.len());
}

/// Left then Right (away from the start), or Right then Left (away from the
/// end), puts the cursor back where it was; the value does not change.
pub proof fn law_cursor_moves_are_inverse(m: InputModel, left: KeyEvent, right: KeyEvent)
    requires
        m.wf(),
        left.code == KeyCode::Left,
        left.modifiers@ == 0,
        right.code == KeyCode::Right,
        right.modifiers@ == 0,
    ensures
        m.cursor > 0 ==> step(step(m, left).0, right).0.cursor == m.cursor,
        m.cursor < m.value.len() ==> step(step(m, right).0, left).0.cursor == m.cursor,
        step(m, left).0.value == m.value,
        step(m, right).0.value == m.value,
{
    lemma_plain_key(left);
    lemma_plain_key(right);
}

/// What follows the slash is a prefix, ignoring ASCII case, of the command of
/// every suggestion: a command is suggested exactly when it is at least as
/// long as the typed query and agrees with it, letter by letter, up to case.
/// So a query longer than every command (a command with an argument typed
/// after it) suggests nothing.
pub proof fn law_suggestions_start_with_the_query(m: InputModel)
    ensures
        forall|i: int|
            #![trigger filtered(m)[i]]
            0 <= i < filtered(m).len() ==> {
                let o = filtered(m)[i];
                &&& m.dropdown_open && starts_with_slash(m.value)
                &&& m.options.contains(o)
                &&& m.value.len() - 1 <= o.command.len()
                &&& forall|k: int|
                    0 <= k < m.value.len() - 1 ==> ascii_lower(#[trigger] o.command[k])
                        == ascii_lower(m.value[k + 1])
            },
        m.dropdown_open && starts_with_slash(m.value) ==> forall|j: int|
            #![trigger m.options[j]]
            0 <= j < m.options.len() && m.value.len() - 1 <= m.options[j].command.len() && (
            forall|k: int|
                0 <= k < m.value.len() - 1 ==> ascii_lower(#[trigger] m.options[j].command[k])
                    == ascii_lower(m.value[k + 1])) ==> filtered(m).contains(m.options[j]),
{
    let q = query_of(m.value);
    law_suggestions_are_matching_options(m.options, q);
    if m.dropdown_open && starts_with_slash(m.value) {
        let f = filtered(m);
        assert forall|i: int| #![trigger f[i]] 0 <= i < f.len() implies {
            let o = f[i];
            &&& m.options.contains(o)
            &&& m.value.len() - 1 <= o.command.len()
            &&& forall|k: int|
                0 <= k < m.value.len() - 1 ==> ascii_lower(#[trigger] o.command[k])
                    == ascii_lower(m.value[k + 1])
        } by {
            let o = f[i];
            assert(option_matches(o, q));
            assert forall|k: int| 0 <= k < m.value.len() - 1 implies ascii_lower(
                #[trigger] o.command[k],
            ) == ascii_lower(m.value[k + 1]) by {
                assert(lower(o.command).take(q.len() as int)[k] == q[k]);
                assert(m.value.drop_first()[k] == m.value[k + 1]);
            }
        }
        assert forall|j: int| #![trigger m.options[j]]
            0 <= j < m.options.len() && m.value.len() - 1 <= m.options[j].command.len() && (
            forall|k: int|
                0 <= k < m.value.len() - 1 ==> ascii_lower(#[trigger] m.options[j].command[k])
                    == ascii_lower(m.value[k + 1])) implies f.contains(m.options[j]) by {
            let o = m.options[j];
            assert(lower(o.command).take(q.len() as int) =~= q) by {
                assert forall|k: int| 0 <= k < q.len() implies lower(o.command).take(
                    q.len() as int,
                )[k] == q[k] by {
                    assert(m.value.drop_first()[k] == m.value[k + 1]);
                    assert(o.command[k] == m.options[j].command[k]);
                }
            }
            assert(option_matches(o, q));
        }
    }
}

/// Enter on a slash command with an argument, or on any query longer than
/// every command, has no suggestion to apply: it submits the value as typed.
pub proof fn law_enter_submits_a_query_longer_than_every_command(m: InputModel, e: KeyEvent)
    requires
        e.code == KeyCode::Enter,
        e.modifiers@ == 0,
        forall|j: int|
            0 <= j < m.options.len() ==> (#[trigger] m.options[j]).command.len() < m.value.len()
                - 1,
    ensures
        !dropdown_visible(m),
        step(m, e).1 == ActionModel::Submitted(m.value),
{
    law_suggestions_start_with_the_query(m);
    if filtered(m).len() > 0 {
        let o = filtered(m)[0];
        let j = choose|j: int| 0 <= j < m.options.len() && m.options[j] == o;
        assert(m.options[j].command.len() < m.value.len() - 1);
    }
    law_enter_submits(m, e);
}

/// The content width of the input box: a fixed width, once set, is kept
/// whatever the terminal width, widened only to fit the value; without one,
/// a known terminal width gives its width less the two edge columns, and an
/// unknown one the default width, again widened to fit the value. The border
/// lines span that width plus the two edge columns.
pub proof fn law_box_width(m: InputModel, terminal_columns: Option<usize>)
    ensures
        ({
            let content: int = if text_width(m.value) < 1 {
                1
            } else {
                text_width(m.value) as int
            };
            let base: int = match m.input_width {
                Some(w) => w as int,
                None => match terminal_columns {
                    Some(t) => if t >= 3 {
                        t - 2
                    } else {
                        1
                    },
                    None => DEFAULT_INPUT_WIDTH as int,
                },
            };
            render_width(m, terminal_columns) == if base < content {
                content
            } else {
                base
            }
        }),
        control_free(m.value) ==> visible_width(
            render_lines(m, terminal_columns)[m.header_lines.len() as int],
        ) == render_width(m, terminal_columns) + 2,
{
    if control_free(m.value) {
        law_box_lines_span_the_box(m, terminal_columns);
    }
}

/// Down selects the next suggestion and Up the one before, both wrapping
/// around the list; with no suggestion shown neither changes anything, and
/// neither ever touches the text.
pub proof fn law_arrows_cycle_through_suggestions(m: InputModel, up: KeyEvent, down: KeyEvent)
    requires
        m.wf(),
        up.code == KeyCode::Up,
        up.modifiers@ == 0,
        down.code == KeyCode::Down,
        down.modifiers@ == 0,
    ensures
        ({
            let n = filtered(m).len();
            &&& n > 0 ==> step(m, down).0.selected == (m.selected + 1) % n
            &&& n > 0 ==> step(m, up).0.selected == ((m.selected + n - 1) as nat) % n
            &&& n == 0 ==> step(m, down).0 == m && step(m, up).0 == m
            &&& step(m, down).0.value == m.value && step(m, down).0.cursor == m.cursor
            &&& step(m, up).0.value == m.value && step(m, up).0.cursor == m.cursor
            &&& step(m, down).1 == ActionModel::Noop && step(m, up).1 == ActionModel::Noop
        }),
{
    lemma_plain_key(up);
    lemma_plain_key(down);
    let n = filtered(m).len();
    if n > 0 {
        let sel = m.selected;
        assert(sel < n);
        if sel + 1 < n {
            vstd::arithmetic::div_mod::lemma_small_mod(sel + 1, n);
        } else {
            vstd::arithmetic::div_mod::lemma_mod_self_0(n as int);
        }
        if sel == 0 {
            vstd::arithmetic::div_mod::lemma_small_mod((n - 1) as nat, n);
        } else {
            vstd::arithmetic::div_mod::lemma_mod_add_multiples_vanish(sel - 1, n as int);
            vstd::arithmetic::div_mod::lemma_small_mod((sel - 1) as nat, n);
        }
    }
}

} // verus!
