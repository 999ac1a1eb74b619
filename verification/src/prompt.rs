//! The key handling of a plain one-line prompt: type, erase, submit, quit.

use vstd::prelude::*;

use crate::input::keys::{KeyCode, KeyEvent, KeyModifiers, CONTROL_BIT};
use crate::text::{chars_of, push_range, string_push};

verus! {

/// What a key does to the prompt `text`: the new text, and whether the
/// prompt is to be left. Ctrl-C and Esc leave it unchanged and quit; any other
/// character is appended; Backspace drops the last character; Enter empties
/// the prompt; every other key does nothing.
pub open spec fn prompt_step(text: Seq<char>, event: KeyEvent) -> (Seq<char>, bool) {
    match event.code {
        KeyCode::Char(c) => if c == 'c' && event.modifiers@ & CONTROL_BIT == CONTROL_BIT {
            (text, true)
        } else {
            (text.push(c), false)
        },
        KeyCode::Esc => (text, true),
        KeyCode::Backspace => (if text.len() > 0 {
            text.drop_last()
        } else {
            text
        }, false),
        KeyCode::Enter => (Seq::empty(), false),
        _ => (text, false),
    }
}

/// Handles `event` on the prompt `text`; returns whether to quit.
pub fn handle_prompt_key(text: &mut String, event: KeyEvent) -> (quit: bool)
    ensures
        (final(text)@, quit) == prompt_step(old(text)@, event),
{
    match event.code {
        KeyCode::Char(c) => {
            if c == 'c' && event.modifiers.contains(KeyModifiers::control()) {
                true
            } else {
                string_push(text, c);
                false
            }
        },
        KeyCode::Esc => true,
        KeyCode::Backspace => {
            let v = chars_of(text.as_str());
            if v.len() > 0 {
                let mut s = String::new();
                push_range(&mut s, &v, 0, v.len() - 1);
                assert(s@ =~= old(text)@.drop_last());
                *text = s;
            }
            false
        },
        KeyCode::Enter => {
            *text = String::new();
            false
        },
        _ => false,
    }
}

} // verus!
