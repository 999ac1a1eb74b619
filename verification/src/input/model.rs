//! The mathematical model of the slash input: its state, the dropdown that
//! the state shows, and how each key changes it.

use vstd::prelude::*;

use crate::input::color::InputTheme;
use crate::input::keys::{ActionModel, KeyCode, KeyEvent, ALT_BIT, CONTROL_BIT, SUPER_BIT};
use crate::input::options::OptionModel;
use crate::text::{ascii_lower, has_prefix, lower};

verus! {

/// The state of a slash input.
pub struct InputModel {
    /// The commands the dropdown can offer.
    pub options: Seq<OptionModel>,
    /// The text typed so far.
    pub value: Seq<char>,
    /// Cursor position, in characters from the start of `value`.
    pub cursor: nat,
    /// Fixed content width, or `None` to follow the terminal.
    pub input_width: Option<usize>,
    pub theme: InputTheme,
    /// Lines drawn above the input box.
    pub header_lines: Seq<Seq<char>>,
    /// Whether the dropdown may show; it is closed by `Esc` and by applying a suggestion.
    pub dropdown_open: bool,
    /// Index of the selected suggestion among the matching commands.
    pub selected: nat,
}

/// `v` starts with a slash.
pub open spec fn starts_with_slash(v: Seq<char>) -> bool {
    v.len() > 0 && v[0] == '/'
}

/// The text after the leading slash, in ASCII lower case.
pub open spec fn query_of(v: Seq<char>) -> Seq<char> {
    lower(v.drop_first())
}

/// A command matches a query when, ignoring ASCII case, it starts with it.
pub open spec fn option_matches(o: OptionModel, query: Seq<char>) -> bool {
    has_prefix(lower(o.command), query)
}

/// The options that match `query`, in their order.
pub open spec fn matching(options: Seq<OptionModel>, query: Seq<char>) -> Seq<OptionModel>
    decreases options.len(),
{
    if options.len() == 0 {
        Seq::empty()
    } else {
        let prev = matching(options.drop_last(), query);
        if option_matches(options.last(), query) {
            prev.push(options.last())
        } else {
            prev
        }
    }
}

/// The suggestions the dropdown shows: while it is open and the value starts
/// with a slash, the options whose command starts with the rest of the value.
pub open spec fn filtered(m: InputModel) -> Seq<OptionModel> {
    if m.dropdown_open && starts_with_slash(m.value) {
        matching(m.options, query_of(m.value))
    } else {
        Seq::empty()
    }
}

/// The dropdown shows at least one suggestion.
pub open spec fn dropdown_visible(m: InputModel) -> bool {
    filtered(m).len() > 0
}

/// The selected suggestion, if the selection points at one.
pub open spec fn selected_option(m: InputModel) -> Option<OptionModel> {
    if m.selected < filtered(m).len() {
        Some(filtered(m)[m.selected as int])
    } else {
        None
    }
}

impl InputModel {
    /// The invariant of the input: the cursor lies within the value, every
    /// option has a command, and an open dropdown belongs to a value starting
    /// with a slash and selects one of its suggestions (or 0 when it has none).
    pub open spec fn wf(self) -> bool {
        &&& self.cursor <= self.value.len()
        &&& forall|i: int| 0 <= i < self.options.len() ==> (#[trigger] self.options[i]).command.len() > 0
        &&& self.dropdown_open ==> starts_with_slash(self.value)
        &&& self.dropdown_open ==> (self.selected < filtered(self).len() || (filtered(self).len() == 0
            && self.selected == 0))
    }
}

/// `s` with `t` inserted before position `i`.
pub open spec fn insert_at(s: Seq<char>, i: int, t: Seq<char>) -> Seq<char> {
    s.take(i) + t + s.skip(i)
}

/// `s` without the character at position `i`.
pub open spec fn remove_at(s: Seq<char>, i: int) -> Seq<char> {
    s.take(i) + s.skip(i + 1)
}

/// Typing `t` at the cursor: the text goes in before the cursor, which moves past it.
pub open spec fn insert_text(m: InputModel, t: Seq<char>) -> InputModel {
    InputModel { value: insert_at(m.value, m.cursor as int, t), cursor: m.cursor + t.len(), ..m }
}

/// Backspace: the character before the cursor goes away.
pub open spec fn delete_backward(m: InputModel) -> InputModel {
    if m.cursor == 0 {
        m
    } else {
        InputModel { value: remove_at(m.value, m.cursor - 1), cursor: (m.cursor - 1) as nat, ..m }
    }
}

/// Delete: the character under the cursor goes away.
pub open spec fn delete_forward(m: InputModel) -> InputModel {
    if m.cursor >= m.value.len() {
        m
    } else {
        InputModel { value: remove_at(m.value, m.cursor as int), ..m }
    }
}

/// After the value or the options change: the dropdown opens exactly when the
/// value starts with a slash; the selection goes back to the first suggestion
/// when `reset` holds or nothing matches, and is otherwise kept within the
/// suggestions.
pub open spec fn refresh(m: InputModel, reset: bool) -> InputModel {
    let open = starts_with_slash(m.value);
    let opened = InputModel { dropdown_open: open, ..m };
    if !open {
        InputModel { selected: 0, ..opened }
    } else {
        let count = filtered(opened).len();
        if count == 0 || reset {
            InputModel { selected: 0, ..opened }
        } else if m.selected <= count - 1 {
            opened
        } else {
            InputModel { selected: (count - 1) as nat, ..opened }
        }
    }
}

/// Up: the selection moves to the previous suggestion, wrapping to the last.
pub open spec fn move_up(m: InputModel) -> InputModel {
    let count = filtered(m).len();
    if count == 0 {
        m
    } else if m.selected == 0 {
        InputModel { selected: (count - 1) as nat, ..m }
    } else {
        InputModel { selected: (m.selected - 1) as nat, ..m }
    }
}

/// Down: the selection moves to the next suggestion, wrapping to the first.
pub open spec fn move_down(m: InputModel) -> InputModel {
    let count = filtered(m).len();
    if count == 0 {
        m
    } else if m.selected + 1 >= count {
        InputModel { selected: 0, ..m }
    } else {
        InputModel { selected: m.selected + 1, ..m }
    }
}

/// The value that applying the command `command` leaves: `/command `.
pub open spec fn applied_value(command: Seq<char>) -> Seq<char> {
    seq!['/'] + command + seq![' ']
}

/// Applying the selected suggestion: the value becomes `/command ` with the
/// cursor at its end and the dropdown closed.
pub open spec fn apply_selected(m: InputModel) -> (InputModel, ActionModel) {
    match selected_option(m) {
        Some(o) => {
            let v = applied_value(o.command);
            (
                InputModel { value: v, cursor: v.len(), dropdown_open: false, selected: 0, ..m },
                ActionModel::SuggestionApplied(v),
            )
        },
        None => (m, ActionModel::Noop),
    }
}

/// The input emptied: no text, cursor at the start, dropdown closed.
pub open spec fn cleared(m: InputModel) -> InputModel {
    InputModel { value: Seq::empty(), cursor: 0, dropdown_open: false, selected: 0, ..m }
}

/// Control or super held: the key is a shortcut.
pub open spec fn is_shortcut(e: KeyEvent) -> bool {
    e.modifiers@ & (CONTROL_BIT | SUPER_BIT) != 0
}

/// No control, alt or super held: a character key types text.
pub open spec fn types_text(e: KeyEvent) -> bool {
    e.modifiers@ & (CONTROL_BIT | ALT_BIT | SUPER_BIT) == 0
}

/// What a shortcut asks for: `c` copies the value, `v` asks for a paste
/// (either case), anything else nothing.
pub open spec fn shortcut_action(m: InputModel, e: KeyEvent) -> ActionModel {
    match e.code {
        KeyCode::Char(c) => if ascii_lower(c) == 'c' {
            ActionModel::CopyRequested(m.value)
        } else if ascii_lower(c) == 'v' {
            ActionModel::PasteRequested
        } else {
            ActionModel::Noop
        },
        _ => ActionModel::Noop,
    }
}

/// The next state and the requested action after the key `e`.
pub open spec fn step(m: InputModel, e: KeyEvent) -> (InputModel, ActionModel) {
    if is_shortcut(e) {
        (m, shortcut_action(m, e))
    } else {
        match e.code {
            KeyCode::Char(c) => if types_text(e) {
                (refresh(insert_text(m, seq![c]), true), ActionModel::Noop)
            } else {
                (m, ActionModel::Noop)
            },
            KeyCode::Backspace => (refresh(delete_backward(m), true), ActionModel::Noop),
            KeyCode::Delete => (refresh(delete_forward(m), true), ActionModel::Noop),
            KeyCode::Left => (
                InputModel {
                    cursor: if m.cursor == 0 {
                        0
                    } else {
                        (m.cursor - 1) as nat
                    },
                    ..m
                },
                ActionModel::Noop,
            ),
            KeyCode::Right => (
                InputModel {
                    cursor: if m.cursor + 1 <= m.value.len() {
                        m.cursor + 1
                    } else {
                        m.value.len()
                    },
                    ..m
                },
                ActionModel::Noop,
            ),
            KeyCode::Home => (InputModel { cursor: 0, ..m }, ActionModel::Noop),
            KeyCode::End => (InputModel { cursor: m.value.len(), ..m }, ActionModel::Noop),
            KeyCode::Up => (move_up(m), ActionModel::Noop),
            KeyCode::Down => (move_down(m), ActionModel::Noop),
            KeyCode::Esc => (InputModel { dropdown_open: false, ..m }, ActionModel::Noop),
            KeyCode::Tab => if dropdown_visible(m) {
                apply_selected(m)
            } else {
                (m, ActionModel::Noop)
            },
            KeyCode::Enter => if dropdown_visible(m) {
                apply_selected(m)
            } else {
                (cleared(m), ActionModel::Submitted(m.value))
            },
        }
    }
}

/// Pasting `t`: inserted at the cursor like typing, the selection reset.
pub open spec fn paste(m: InputModel, t: Seq<char>) -> InputModel {
    refresh(insert_text(m, t), true)
}

/// Refreshing the dropdown of a state whose cursor and options are valid
/// gives a valid state.
pub proof fn lemma_refresh_wf(m: InputModel, reset: bool)
    requires
        m.cursor <= m.value.len(),
        forall|i: int| 0 <= i < m.options.len() ==> (#[trigger] m.options[i]).command.len() > 0,
    ensures
        refresh(m, reset).wf(),
{
}

/// Every key keeps the state valid.
pub proof fn lemma_step_wf(m: InputModel, e: KeyEvent)
    requires
        m.wf(),
    ensures
        step(m, e).0.wf(),
{
    if !is_shortcut(e) {
        match e.code {
            KeyCode::Char(c) => {
                if types_text(e) {
                    lemma_refresh_wf(insert_text(m, seq![c]), true);
                }
            },
            KeyCode::Backspace => lemma_refresh_wf(delete_backward(m), true),
            KeyCode::Delete => lemma_refresh_wf(delete_forward(m), true),
            _ => {},
        }
    }
}

/// Pasting keeps the state valid.
pub proof fn lemma_paste_wf(m: InputModel, t: Seq<char>)
    requires
        m.wf(),
    ensures
        paste(m, t).wf(),
{
    lemma_refresh_wf(insert_text(m, t), true);
}

} // verus!
