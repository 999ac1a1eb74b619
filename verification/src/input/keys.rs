//! Key events and the actions that handling them can request.

use vstd::prelude::*;

verus! {

/// A set of modifier keys held during a key press, as a bit set.
#[derive(Debug, Clone, Copy, PartialEq, Eq, Hash, Structural)]
pub struct KeyModifiers(u8);

impl View for KeyModifiers {
    type V = u8;

    closed spec fn view(&self) -> u8 {
        self.0
    }
}

/// Bit of the shift key.
pub const SHIFT_BIT: u8 = 1;

/// Bit of the control key.
pub const CONTROL_BIT: u8 = 2;

/// Bit of the alt key.
pub const ALT_BIT: u8 = 4;

/// Bit of the super (command) key.
pub const SUPER_BIT: u8 = 8;

impl KeyModifiers {
    /// The modifier set with the bits `bits`.
    pub closed spec fn from_bits(bits: u8) -> Self {
        KeyModifiers(bits)
    }

    /// Two modifier sets are equal exactly when their bits are.
    pub proof fn lemma_view_injective(a: Self, b: Self)
        ensures
            a@ == b@ <==> a == b,
    {
    }

    /// The bits of `from_bits(bits)` are `bits`.
    pub proof fn lemma_from_bits(bits: u8)
        ensures
            #[trigger] Self::from_bits(bits)@ == bits,
    {
    }

    /// No modifier.
    pub fn none() -> (r: Self)
        ensures
            r@ == 0,
    {
        KeyModifiers(0)
    }

    /// The shift key.
    pub fn shift() -> (r: Self)
        ensures
            r@ == SHIFT_BIT,
    {
        KeyModifiers(SHIFT_BIT)
    }

    /// The control key.
    pub fn control() -> (r: Self)
        ensures
            r@ == CONTROL_BIT,
    {
        KeyModifiers(CONTROL_BIT)
    }

    /// The alt key.
    pub fn alt() -> (r: Self)
        ensures
            r@ == ALT_BIT,
    {
        KeyModifiers(ALT_BIT)
    }

    /// The super (command) key.
    pub fn super_key() -> (r: Self)
        ensures
            r@ == SUPER_BIT,
    {
        KeyModifiers(SUPER_BIT)
    }

    /// Whether every modifier of `other` is held in `self`.
    pub fn contains(self, other: Self) -> (r: bool)
        ensures
            r == (self@ & other@ == other@),
    {
        (self.0 & other.0) == other.0
    }

    /// Whether `self` and `other` hold a modifier in common.
    pub fn intersects(self, other: Self) -> (r: bool)
        ensures
            r == (self@ & other@ != 0),
    {
        (self.0 & other.0) != 0
    }
}

impl Default for KeyModifiers {
    fn default() -> (r: Self)
        ensures
            r@ == 0,
    {
        KeyModifiers(0)
    }
}

impl core::ops::BitOr for KeyModifiers {
    type Output = Self;

    fn bitor(self, rhs: Self) -> (r: Self)
        ensures
            r@ == self@ | rhs@,
    {
        KeyModifiers(self.0 | rhs.0)
    }
}

impl vstd::std_specs::ops::BitOrSpecImpl for KeyModifiers {
    open spec fn obeys_bitor_spec() -> bool {
        true
    }

    open spec fn bitor_req(self, rhs: Self) -> bool {
        true
    }

    open spec fn bitor_spec(self, rhs: Self) -> Self {
        KeyModifiers::from_bits(self@ | rhs@)
    }
}

impl core::ops::BitOrAssign for KeyModifiers {
    fn bitor_assign(&mut self, rhs: Self)
        ensures
            final(self)@ == old(self)@ | rhs@,
    {
        self.0 = self.0 | rhs.0;
    }
}

/// A key of the keyboard.
#[derive(Debug, Clone, Copy, PartialEq, Eq, Hash, Structural)]
pub enum KeyCode {
    Backspace,
    Delete,
    Enter,
    Esc,
    Home,
    End,
    Left,
    Right,
    Up,
    Down,
    Tab,
    Char(char),
}

/// A key press with the modifiers held during it.
#[derive(Debug, Clone, Copy, PartialEq, Eq, Hash, Structural)]
pub struct KeyEvent {
    pub code: KeyCode,
    pub modifiers: KeyModifiers,
}

impl KeyEvent {
    /// A key press of `code` with `modifiers`.
    pub fn new(code: KeyCode, modifiers: KeyModifiers) -> (r: Self)
        ensures
            r.code == code,
            r.modifiers == modifiers,
    {
        KeyEvent { code, modifiers }
    }

    /// A key press of `code` without modifiers.
    pub fn plain(code: KeyCode) -> (r: Self)
        ensures
            r.code == code,
            r.modifiers@ == 0,
    {
        Self::new(code, KeyModifiers::none())
    }

    /// A key press of `code` with the control key held.
    pub fn ctrl(code: KeyCode) -> (r: Self)
        ensures
            r.code == code,
            r.modifiers@ == CONTROL_BIT,
    {
        Self::new(code, KeyModifiers::control())
    }

    /// A key press of `code` with the super key held.
    pub fn super_key(code: KeyCode) -> (r: Self)
        ensures
            r.code == code,
            r.modifiers@ == SUPER_BIT,
    {
        Self::new(code, KeyModifiers::super_key())
    }
}

/// What the caller of a key handler is asked to do.
#[derive(Debug, Clone, PartialEq, Eq)]
pub enum InputAction {
    /// Nothing to do.
    Noop,
    /// Put the given text on the clipboard.
    CopyRequested(String),
    /// Read the clipboard and hand its text to the input.
    PasteRequested,
    /// A suggestion was applied; the input now holds the given text.
    SuggestionApplied(String),
    /// The given text was submitted and the input cleared.
    Submitted(String),
}

/// The mathematical value of an [`InputAction`].
pub enum ActionModel {
    Noop,
    CopyRequested(Seq<char>),
    PasteRequested,
    SuggestionApplied(Seq<char>),
    Submitted(Seq<char>),
}

impl View for InputAction {
    type V = ActionModel;

    open spec fn view(&self) -> ActionModel {
        match self {
            InputAction::Noop => ActionModel::Noop,
            InputAction::CopyRequested(s) => ActionModel::CopyRequested(s@),
            InputAction::PasteRequested => ActionModel::PasteRequested,
            InputAction::SuggestionApplied(s) => ActionModel::SuggestionApplied(s@),
            InputAction::Submitted(s) => ActionModel::Submitted(s@),
        }
    }
}

} // verus!
