//! The slash input: its state, its editing operations and key handling.

use vstd::prelude::*;

use crate::input::color::{plain_theme, InputTheme, TerminalColor};
use crate::input::keys::{InputAction, KeyCode, KeyEvent, KeyModifiers};
use crate::input::model::{
    apply_selected, applied_value, cleared, delete_backward, delete_forward, dropdown_visible,
    filtered, insert_at, insert_text, is_shortcut, lemma_paste_wf, lemma_refresh_wf,
    lemma_step_wf, matching, move_down, move_up, option_matches, paste, query_of, refresh,
    remove_at, selected_option, shortcut_action, starts_with_slash, step, InputModel,
};
use crate::input::options::{
    collect_lines, collect_options, lemma_non_empty_options, non_empty_options, options_view,
    InputOption, OptionModel,
};
use crate::text::{
    ascii_lower, chars_of, has_prefix, lower, push_range, push_str, string_push, to_ascii_lower,
};

verus! {

broadcast use vstd::string::group_string_axioms;

/// The width of the input box content when neither the caller nor the
/// terminal gives one.
pub const DEFAULT_INPUT_WIDTH: usize = 28;

/// A single-line text input. A `/` typed as first character opens a dropdown
/// of the commands that start with what follows it.
#[derive(Debug, Clone, PartialEq, Eq)]
pub struct SlashInput {
    pub(crate) options: Vec<InputOption>,
    pub(crate) value: String,
    pub(crate) cursor: usize,
    pub(crate) input_width: Option<usize>,
    pub(crate) theme: InputTheme,
    pub(crate) header_lines: Vec<String>,
    pub(crate) dropdown_open: bool,
    pub(crate) selected_suggestion: usize,
}

/// The views of a sequence of strings.
pub open spec fn lines_view(lines: Seq<String>) -> Seq<Seq<char>> {
    lines.map_values(|s: String| s@)
}

/// The views of a sequence of option references.
pub open spec fn option_refs_view(options: Seq<&InputOption>) -> Seq<OptionModel> {
    options.map_values(|o: &InputOption| o@)
}

/// The views of a sequence of string slices.
pub open spec fn strs_view(items: Seq<&str>) -> Seq<Seq<char>> {
    items.map_values(|s: &str| s@)
}

/// The commands of a sequence of options.
pub open spec fn commands_of(options: Seq<OptionModel>) -> Seq<Seq<char>> {
    options.map_values(|o: OptionModel| o.command)
}

/// A width given by the caller, at least one column.
pub open spec fn normalized_width(w: Option<usize>) -> Option<usize> {
    match w {
        Some(w) => Some(if w < 1 {
            1
        } else {
            w
        }),
        None => None,
    }
}

/// A width given by the caller, raised to at least one column.
pub fn normalize_input_width(input_width: Option<usize>) -> (r: Option<usize>)
    ensures
        r == normalized_width(input_width),
{
    match input_width {
        Some(width) => Some(if width < 1 {
            1
        } else {
            width
        }),
        None => None,
    }
}

/// The state of a fresh input offering `options`.
pub open spec fn initial_model(options: Seq<OptionModel>, input_width: Option<usize>) -> InputModel {
    InputModel {
        options: non_empty_options(options),
        value: Seq::empty(),
        cursor: 0,
        input_width: normalized_width(input_width),
        theme: plain_theme(),
        header_lines: Seq::empty(),
        dropdown_open: false,
        selected: 0,
    }
}

/// The views of the options that match `query`, as `matching` lists them.
proof fn lemma_matching_step(options: Seq<OptionModel>, query: Seq<char>, i: int)
    requires
        0 <= i < options.len(),
    ensures
        matching(options.take(i + 1), query) == if option_matches(options[i], query) {
            matching(options.take(i), query).push(options[i])
        } else {
            matching(options.take(i), query)
        },
{
    assert(options.take(i + 1).drop_last() =~= options.take(i));
}

impl View for SlashInput {
    type V = InputModel;

    closed spec fn view(&self) -> InputModel {
        InputModel {
            options: options_view(self.options@),
            value: self.value@,
            cursor: self.cursor as nat,
            input_width: self.input_width,
            theme: self.theme,
            header_lines: lines_view(self.header_lines@),
            dropdown_open: self.dropdown_open,
            selected: self.selected_suggestion as nat,
        }
    }
}

/// Whether the command `command` starts with `query`, ignoring ASCII case.
fn command_matches(command: &str, query: &Vec<char>) -> (r: bool)
    ensures
        r == has_prefix(lower(command@), query@),
{
    let c = chars_of(command);
    if c.len() < query.len() {
        return false;
    }
    let mut k: usize = 0;
    while k < query.len()
        invariant
            c@ == command@,
            query@.len() <= c@.len(),
            k <= query@.len(),
            forall|j: int| 0 <= j < k ==> #[trigger] ascii_lower(c@[j]) == query@[j],
        decreases query@.len() - k,
    {
        assert(lower(command@)[k as int] == ascii_lower(c@[k as int]));
        if to_ascii_lower(c[k]) != query[k] {
            assert(lower(command@).take(query@.len() as int)[k as int] != query@[k as int]);
            return false;
        }
        k = k + 1;
    }
    assert(lower(command@).take(query@.len() as int) =~= query@);
    true
}

impl SlashInput {
    /// The invariant of the input (see [`InputModel::wf`]).
    pub open spec fn wf(&self) -> bool {
        self@.wf()
    }

    /// An empty input offering the options with a command.
    pub fn new(options: Vec<InputOption>) -> (r: Self)
        ensures
            r@ == initial_model(options_view(options@), None),
            r.wf(),
    {
        let r = SlashInput {
            options: collect_options(options),
            value: String::new(),
            cursor: 0,
            input_width: None,
            theme: InputTheme::default(),
            header_lines: Vec::new(),
            dropdown_open: false,
            selected_suggestion: 0,
        };
        proof {
            lemma_non_empty_options(options_view(options@));
            assert(lines_view(r.header_lines@) =~= Seq::empty());
        }
        r
    }

    /// An empty input offering the options with a command, with a content
    /// width of `min_width` columns (at least one).
    pub fn with_min_width(options: Vec<InputOption>, min_width: usize) -> (r: Self)
        ensures
            r@ == initial_model(options_view(options@), Some(min_width)),
            r.wf(),
    {
        let r = SlashInput {
            options: collect_options(options),
            value: String::new(),
            cursor: 0,
            input_width: normalize_input_width(Some(min_width)),
            theme: InputTheme::default(),
            header_lines: Vec::new(),
            dropdown_open: false,
            selected_suggestion: 0,
        };
        proof {
            lemma_non_empty_options(options_view(options@));
            assert(lines_view(r.header_lines@) =~= Seq::empty());
        }
        r
    }

    /// The text typed so far.
    pub fn value(&self) -> (r: &str)
        ensures
            r@ == self@.value,
    {
        self.value.as_str()
    }

    /// The cursor position, in characters.
    pub fn cursor(&self) -> (r: usize)
        ensures
            r == self@.cursor,
    {
        self.cursor
    }

    /// The fixed content width, if any.
    pub(crate) fn input_width_setting(&self) -> (r: Option<usize>)
        ensures
            r == self@.input_width,
    {
        self.input_width
    }

    /// The index of the selected suggestion.
    pub(crate) fn selected_index(&self) -> (r: usize)
        ensures
            r == self@.selected,
    {
        self.selected_suggestion
    }

    /// The options offered.
    pub fn options(&self) -> (r: &[InputOption])
        ensures
            options_view(r@) == self@.options,
    {
        self.options.as_slice()
    }

    /// This input with a fixed content width (at least one column), or one
    /// that follows the terminal for `None`.
    pub fn with_input_width(self, input_width: Option<usize>) -> (r: Self)
        requires
            self.wf(),
        ensures
            r@ == (InputModel { input_width: normalized_width(input_width), ..self@ }),
            r.wf(),
    {
        let mut r = self;
        r.input_width = normalize_input_width(input_width);
        r
    }

    /// Sets a fixed content width (at least one column), or one that follows
    /// the terminal for `None`.
    pub fn set_input_width(&mut self, input_width: Option<usize>)
        requires
            old(self).wf(),
        ensures
            final(self)@ == (InputModel { input_width: normalized_width(input_width), ..old(self)@ }),
            final(self).wf(),
    {
        self.input_width = normalize_input_width(input_width);
    }

    /// This input offering the options of `options` that have a command.
    pub fn with_options(self, options: Vec<InputOption>) -> (r: Self)
        requires
            self.wf(),
        ensures
            r@ == refresh(
                InputModel { options: non_empty_options(options_view(options@)), ..self@ },
                false,
            ),
            r.wf(),
    {
        let mut r = self;
        r.set_options(options);
        r
    }

    /// Offers the options of `options` that have a command.
    pub fn set_options(&mut self, options: Vec<InputOption>)
        requires
            old(self).wf(),
        ensures
            final(self)@ == refresh(
                InputModel { options: non_empty_options(options_view(options@)), ..old(self)@ },
                false,
            ),
            final(self).wf(),
    {
        self.options = collect_options(options);
        proof {
            lemma_non_empty_options(options_view(options@));
            lemma_refresh_wf(self@, false);
        }
        self.refresh_dropdown(false);
    }

    /// The theme.
    pub fn theme(&self) -> (r: &InputTheme)
        ensures
            *r == self@.theme,
    {
        &self.theme
    }

    /// The lines drawn above the input box.
    pub fn header_lines(&self) -> (r: &[String])
        ensures
            lines_view(r@) == self@.header_lines,
    {
        self.header_lines.as_slice()
    }

    /// This input with the given lines above its box.
    pub fn with_header_lines(self, lines: Vec<String>) -> (r: Self)
        requires
            self.wf(),
        ensures
            r@ == (InputModel { header_lines: lines_view(lines@), ..self@ }),
            r.wf(),
    {
        let mut r = self;
        r.header_lines = collect_lines(lines);
        r
    }

    /// Sets the lines drawn above the input box.
    pub fn set_header_lines(&mut self, lines: Vec<String>)
        requires
            old(self).wf(),
        ensures
            final(self)@ == (InputModel { header_lines: lines_view(lines@), ..old(self)@ }),
            final(self).wf(),
    {
        self.header_lines = collect_lines(lines);
    }

    /// This input with the theme `theme`.
    pub fn with_theme(self, theme: InputTheme) -> (r: Self)
        requires
            self.wf(),
        ensures
            r@ == (InputModel { theme, ..self@ }),
            r.wf(),
    {
        let mut r = self;
        r.theme = theme;
        r
    }

    /// Sets the theme.
    pub fn set_theme(&mut self, theme: InputTheme)
        requires
            old(self).wf(),
        ensures
            final(self)@ == (InputModel { theme, ..old(self)@ }),
            final(self).wf(),
    {
        self.theme = theme;
    }

    /// This input with the box background `color`.
    pub fn with_background_color(self, color: TerminalColor) -> (r: Self)
        requires
            self.wf(),
        ensures
            r@ == (InputModel {
                theme: InputTheme { background_color: Some(color), ..self@.theme },
                ..self@
            }),
            r.wf(),
    {
        let mut r = self;
        r.set_background_color(color);
        r
    }

    /// Sets the box background to `color`.
    pub fn set_background_color(&mut self, color: TerminalColor)
        requires
            old(self).wf(),
        ensures
            final(self)@ == (InputModel {
                theme: InputTheme { background_color: Some(color), ..old(self)@.theme },
                ..old(self)@
            }),
            final(self).wf(),
    {
        self.theme.background_color = Some(color);
    }

    /// Whether the value starts with a slash.
    fn value_starts_with_slash(&self) -> (r: bool)
        ensures
            r == starts_with_slash(self@.value),
    {
        let v = chars_of(self.value.as_str());
        v.len() > 0 && v[0] == '/'
    }

    /// Whether the dropdown shows at least one suggestion.
    pub fn is_dropdown_visible(&self) -> (r: bool)
        ensures
            r == dropdown_visible(self@),
    {
        let filtered = self.filtered_options();
        filtered.len() > 0
    }

    /// The selected suggestion, if any.
    pub fn selected_option(&self) -> (r: Option<&InputOption>)
        ensures
            match r {
                Some(o) => selected_option(self@) == Some(o@),
                None => selected_option(self@) is None,
            },
    {
        let options = self.filtered_options();
        if self.selected_suggestion < options.len() {
            Some(options[self.selected_suggestion])
        } else {
            None
        }
    }

    /// The command of the selected suggestion, if any.
    pub fn selected_command(&self) -> (r: Option<&str>)
        ensures
            match r {
                Some(c) => selected_option(self@) is Some && c@ == selected_option(
                    self@,
                )->0.command,
                None => selected_option(self@) is None,
            },
    {
        match self.selected_option() {
            Some(option) => Some(option.command.as_str()),
            None => None,
        }
    }

    /// The suggestions the dropdown shows, in order.
    pub fn filtered_options(&self) -> (r: Vec<&InputOption>)
        ensures
            option_refs_view(r@) == filtered(self@),
    {
        let mut r: Vec<&InputOption> = Vec::new();
        if !self.dropdown_open || !self.value_starts_with_slash() {
            assert(option_refs_view(r@) =~= filtered(self@));
            return r;
        }
        let v = chars_of(self.value.as_str());
        let mut query: Vec<char> = Vec::new();
        let mut k: usize = 1;
        while k < v.len()
            invariant
                1 <= k <= v@.len(),
                query@ == lower(v@.subrange(1, k as int)),
            decreases v@.len() - k,
        {
            query.push(to_ascii_lower(v[k]));
            k = k + 1;
            assert(query@ =~= lower(v@.subrange(1, k as int)));
        }
        assert(v@.subrange(1, v@.len() as int) =~= v@.drop_first());
        let ghost all = options_view(self.options@);
        let n = self.options.len();
        let mut i: usize = 0;
        while i < n
            invariant
                n == self.options@.len(),
                all == options_view(self.options@),
                i <= n,
                query@ == query_of(self@.value),
                option_refs_view(r@) == matching(all.take(i as int), query@),
            decreases n - i,
        {
            let option = &self.options[i];
            proof {
                lemma_matching_step(all, query@, i as int);
                assert(all[i as int] == option@);
                if query@.len() == 0 {
                    assert(lower(option.command@).take(0) =~= query@);
                }
            }
            if query.len() == 0 || command_matches(option.command.as_str(), &query) {
                r.push(option);
                assert(option_refs_view(r@) =~= matching(all.take(i as int), query@).push(
                    all[i as int],
                ));
            }
            i = i + 1;
        }
        assert(all.take(n as int) =~= all);
        r
    }

    /// The commands the dropdown shows, in order.
    pub fn filtered_commands(&self) -> (r: Vec<&str>)
        ensures
            strs_view(r@) == commands_of(filtered(self@)),
    {
        let options = self.filtered_options();
        let mut r: Vec<&str> = Vec::new();
        let n = options.len();
        let mut i: usize = 0;
        while i < n
            invariant
                n == options@.len(),
                i <= n,
                option_refs_view(options@) == filtered(self@),
                strs_view(r@) == commands_of(filtered(self@)).take(i as int),
            decreases n - i,
        {
            assert(option_refs_view(options@)[i as int] == options@[i as int]@);
            assert(commands_of(filtered(self@))[i as int] == options@[i as int].command@);
            let ghost before = r@;
            r.push(options[i].command.as_str());
            assert(strs_view(r@) =~= strs_view(before).push(options@[i as int].command@));
            i = i + 1;
            assert(strs_view(r@) =~= commands_of(filtered(self@)).take(i as int));
        }
        assert(commands_of(filtered(self@)).take(n as int) =~= commands_of(filtered(self@)));
        r
    }

    /// Handles a key press: edits the value, moves the cursor or the
    /// selection, applies a suggestion or submits the value, and says what the
    /// caller should do (see [`step`]).
    pub fn handle_key(&mut self, event: KeyEvent) -> (action: InputAction)
        requires
            old(self).wf(),
        ensures
            (final(self)@, action@) == step(old(self)@, event),
            final(self).wf(),
    {
        proof {
            lemma_step_wf(self@, event);
        }
        if let Some(action) = self.handle_shortcut(event) {
            return action;
        }
        match event.code {
            KeyCode::Char(ch) => {
                if self.is_text_input(event.modifiers) {
                    self.insert_char(ch);
                    self.refresh_dropdown(true);
                }
                InputAction::Noop
            },
            KeyCode::Backspace => {
                self.delete_backward();
                self.refresh_dropdown(true);
                InputAction::Noop
            },
            KeyCode::Delete => {
                self.delete_forward();
                self.refresh_dropdown(true);
                InputAction::Noop
            },
            KeyCode::Left => {
                self.cursor = if self.cursor == 0 {
                    0
                } else {
                    self.cursor - 1
                };
                InputAction::Noop
            },
            KeyCode::Right => {
                let len = self.char_len();
                self.cursor = if self.cursor + 1 <= len {
                    self.cursor + 1
                } else {
                    len
                };
                InputAction::Noop
            },
            KeyCode::Home => {
                self.cursor = 0;
                InputAction::Noop
            },
            KeyCode::End => {
                self.cursor = self.char_len();
                InputAction::Noop
            },
            KeyCode::Up => {
                self.move_selection_up();
                InputAction::Noop
            },
            KeyCode::Down => {
                self.move_selection_down();
                InputAction::Noop
            },
            KeyCode::Esc => {
                self.dropdown_open = false;
                InputAction::Noop
            },
            KeyCode::Tab => {
                if self.is_dropdown_visible() {
                    self.apply_selected_command()
                } else {
                    InputAction::Noop
                }
            },
            KeyCode::Enter => {
                if self.is_dropdown_visible() {
                    self.apply_selected_command()
                } else {
                    let submitted = self.value.clone();
                    self.clear();
                    InputAction::Submitted(submitted)
                }
            },
        }
    }

    /// Inserts `text` at the cursor, as typing it would.
    pub fn handle_paste(&mut self, text: &str)
        requires
            old(self).wf(),
        ensures
            final(self)@ == paste(old(self)@, text@),
            final(self).wf(),
    {
        proof {
            lemma_paste_wf(self@, text@);
        }
        self.insert_str(text);
        self.refresh_dropdown(true);
    }

    /// The action of a shortcut (control or super held), or `None` when the
    /// key is no shortcut.
    fn handle_shortcut(&self, event: KeyEvent) -> (r: Option<InputAction>)
        ensures
            match r {
                Some(a) => is_shortcut(event) && a@ == shortcut_action(self@, event),
                None => !is_shortcut(event),
            },
    {
        if !event.modifiers.intersects(KeyModifiers::control() | KeyModifiers::super_key()) {
            return None;
        }
        match event.code {
            KeyCode::Char(ch) => {
                let lowered = to_ascii_lower(ch);
                if lowered == 'c' {
                    Some(InputAction::CopyRequested(self.value.clone()))
                } else if lowered == 'v' {
                    Some(InputAction::PasteRequested)
                } else {
                    Some(InputAction::Noop)
                }
            },
            _ => Some(InputAction::Noop),
        }
    }

    /// Whether a character key with `modifiers` types text.
    fn is_text_input(&self, modifiers: KeyModifiers) -> (r: bool)
        ensures
            r == (modifiers@ & (crate::input::keys::CONTROL_BIT | crate::input::keys::ALT_BIT
                | crate::input::keys::SUPER_BIT) == 0),
    {
        !modifiers.intersects(
            KeyModifiers::control() | KeyModifiers::alt() | KeyModifiers::super_key(),
        )
    }

    /// Inserts `ch` at the cursor and moves the cursor past it.
    fn insert_char(&mut self, ch: char)
        requires
            old(self).wf(),
        ensures
            final(self)@ == insert_text(old(self)@, seq![ch]),
    {
        let v = chars_of(self.value.as_str());
        let mut s = String::new();
        push_range(&mut s, &v, 0, self.cursor);
        string_push(&mut s, ch);
        push_range(&mut s, &v, self.cursor, v.len());
        assert(s@ =~= insert_at(v@, self.cursor as int, seq![ch]));
        self.value = s;
        self.cursor = self.cursor + 1;
    }

    /// Inserts `text` at the cursor and moves the cursor past it.
    fn insert_str(&mut self, text: &str)
        requires
            old(self).wf(),
        ensures
            final(self)@ == insert_text(old(self)@, text@),
    {
        let v = chars_of(self.value.as_str());
        let t = chars_of(text);
        let mut s = String::new();
        push_range(&mut s, &v, 0, self.cursor);
        push_str(&mut s, text);
        push_range(&mut s, &v, self.cursor, v.len());
        assert(s@ =~= insert_at(v@, self.cursor as int, text@));
        self.value = s;
        self.cursor = self.cursor + t.len();
    }

    /// Removes the character before the cursor.
    fn delete_backward(&mut self)
        requires
            old(self).wf(),
        ensures
            final(self)@ == delete_backward(old(self)@),
    {
        if self.cursor == 0 {
            return;
        }
        let v = chars_of(self.value.as_str());
        let mut s = String::new();
        push_range(&mut s, &v, 0, self.cursor - 1);
        push_range(&mut s, &v, self.cursor, v.len());
        assert(s@ =~= remove_at(v@, self.cursor - 1));
        self.value = s;
        self.cursor = self.cursor - 1;
    }

    /// Removes the character under the cursor.
    fn delete_forward(&mut self)
        requires
            old(self).wf(),
        ensures
            final(self)@ == delete_forward(old(self)@),
    {
        let v = chars_of(self.value.as_str());
        if self.cursor >= v.len() {
            return;
        }
        let mut s = String::new();
        push_range(&mut s, &v, 0, self.cursor);
        push_range(&mut s, &v, self.cursor + 1, v.len());
        assert(s@ =~= remove_at(v@, self.cursor as int));
        self.value = s;
    }

    /// Moves the selection to the previous suggestion, wrapping to the last.
    fn move_selection_up(&mut self)
        ensures
            final(self)@ == move_up(old(self)@),
    {
        let count = self.filtered_options().len();
        if count == 0 {
            return;
        }
        self.selected_suggestion = if self.selected_suggestion == 0 {
            count - 1
        } else {
            self.selected_suggestion - 1
        };
    }

    /// Moves the selection to the next suggestion, wrapping to the first.
    fn move_selection_down(&mut self)
        ensures
            final(self)@ == move_down(old(self)@),
    {
        let count = self.filtered_options().len();
        if count == 0 {
            return;
        }
        self.selected_suggestion = if self.selected_suggestion >= count - 1 {
            0
        } else {
            self.selected_suggestion + 1
        };
    }

    /// Replaces the value by the selected command (see [`apply_selected`]).
    fn apply_selected_command(&mut self) -> (action: InputAction)
        ensures
            (final(self)@, action@) == apply_selected(old(self)@),
    {
        let command = match self.selected_command() {
            Some(command) => command.to_owned(),
            None => {
                return InputAction::Noop;
            },
        };
        let mut value = String::new();
        string_push(&mut value, '/');
        push_str(&mut value, command.as_str());
        string_push(&mut value, ' ');
        assert(value@ =~= applied_value(command@));
        self.value = value;
        self.cursor = self.char_len();
        self.dropdown_open = false;
        self.selected_suggestion = 0;
        InputAction::SuggestionApplied(self.value.clone())
    }

    /// Opens the dropdown exactly when the value starts with a slash and
    /// keeps the selection among the suggestions (see [`refresh`]).
    fn refresh_dropdown(&mut self, reset_selection: bool)
        ensures
            final(self)@ == refresh(old(self)@, reset_selection),
    {
        self.dropdown_open = self.value_starts_with_slash();
        if !self.dropdown_open {
            self.selected_suggestion = 0;
            return;
        }
        let count = self.filtered_options().len();
        if count == 0 || reset_selection {
            self.selected_suggestion = 0;
        } else if self.selected_suggestion > count - 1 {
            self.selected_suggestion = count - 1;
        }
    }

    /// Number of characters of the value.
    fn char_len(&self) -> (r: usize)
        ensures
            r == self@.value.len(),
            r <= isize::MAX,
    {
        chars_of(self.value.as_str()).len()
    }

    /// Empties the input.
    fn clear(&mut self)
        ensures
            final(self)@ == cleared(old(self)@),
    {
        self.value = String::new();
        self.cursor = 0;
        self.dropdown_open = false;
        self.selected_suggestion = 0;
    }
}

} // verus!
