//! Keys, as far as the interface tells them apart.

use vstd::prelude::*;

verus! {

/// Which key it is.
#[derive(Clone, Copy, Debug, PartialEq, Eq, Structural)]
pub enum KeyCode {
    /// A key that types a character.
    Char(char),
    Enter,
    Esc,
    Tab,
    BackTab,
    Backspace,
    Delete,
    Insert,
    Home,
    End,
    Left,
    Right,
    Up,
    Down,
    /// Any other key. None of them does anything.
    Other,
}

/// The modifier keys that were held.
#[derive(Clone, Copy, Debug, PartialEq, Eq, Structural)]
pub struct KeyModifiers {
    /// The control key.
    pub control: bool,
}

/// What happened to the key.
#[derive(Clone, Copy, Debug, PartialEq, Eq, Structural)]
pub enum KeyEventKind {
    Press,
    Repeat,
    Release,
}

/// A key event of the terminal.
#[derive(Clone, Copy, Debug, PartialEq, Eq, Structural)]
pub struct KeyEvent {
    pub code: KeyCode,
    pub modifiers: KeyModifiers,
    pub kind: KeyEventKind,
}

impl KeyModifiers {
    /// No modifier key.
    pub fn none() -> (modifiers: Self)
        ensures
            !modifiers.control,
    {
        KeyModifiers { control: false }
    }

    /// The control key alone.
    pub fn control() -> (modifiers: Self)
        ensures
            modifiers.control,
    {
        KeyModifiers { control: true }
    }
}

impl KeyEvent {
    /// The event that the key was pressed.
    pub fn new(code: KeyCode, modifiers: KeyModifiers) -> (event: Self)
        ensures
            event.code == code,
            event.modifiers == modifiers,
            event.kind == KeyEventKind::Press,
    {
        KeyEvent { code, modifiers, kind: KeyEventKind::Press }
    }
}

} // verus!
