//! Key input as the typing engine reads it.

use vstd::prelude::*;

verus! {

/// The code of a key press.
#[derive(Clone, Copy, Debug, PartialEq, Eq, Structural)]
pub enum KeyCode {
    Char(char),
    Enter,
    Backspace,
    Esc,
    /// Any other key (arrows, function keys, ...): ignored by the engine.
    Other,
}

/// The modifier keys held during a key press.
#[derive(Clone, Copy, Debug, PartialEq, Eq, Structural)]
pub struct KeyModifiers {
    pub control: bool,
    pub shift: bool,
    pub alt: bool,
}

/// One key press: its code and modifiers.
#[derive(Clone, Copy, Debug, PartialEq, Eq, Structural)]
pub struct KeyEvent {
    pub code: KeyCode,
    pub modifiers: KeyModifiers,
}

impl KeyModifiers {
    /// No modifier held.
    pub fn none() -> (r: KeyModifiers)
        ensures
            !r.control && !r.shift && !r.alt,
    {
        KeyModifiers { control: false, shift: false, alt: false }
    }

    /// Only the control key held.
    pub fn control() -> (r: KeyModifiers)
        ensures
            r.control && !r.shift && !r.alt,
    {
        KeyModifiers { control: true, shift: false, alt: false }
    }
}

impl KeyEvent {
    /// A key press without modifiers.
    pub fn plain(code: KeyCode) -> (r: KeyEvent)
        ensures
            r.code == code,
            r.modifiers == (KeyModifiers { control: false, shift: false, alt: false }),
    {
        KeyEvent { code, modifiers: KeyModifiers::none() }
    }

    /// A key press with the control key held.
    pub fn with_control(code: KeyCode) -> (r: KeyEvent)
        ensures
            r.code == code,
            r.modifiers == (KeyModifiers { control: true, shift: false, alt: false }),
    {
        KeyEvent { code, modifiers: KeyModifiers::control() }
    }
}

} // verus!
