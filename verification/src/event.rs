//! Key presses, as the foreground hands them to the models.

use vstd::prelude::*;

verus! {

/// The key that was pressed.
#[derive(Debug, Clone, Copy, PartialEq, Eq, Structural)]
pub enum KeyCode {
    Backspace,
    Enter,
    Left,
    Right,
    Up,
    Down,
    Delete,
    Tab,
    Esc,
    Char(char),
    /// Any key that no model reacts to.
    Other,
}

/// The modifier keys that were held.
#[derive(Debug, Clone, Copy, PartialEq, Eq, Structural)]
pub struct KeyModifiers {
    pub shift: bool,
    pub control: bool,
    pub alt: bool,
}

impl KeyModifiers {
    /// Whether control is held and nothing else.
    pub open spec fn is_control(self) -> bool {
        self.control && !self.shift && !self.alt
    }

    /// No modifier.
    pub fn none() -> (r: KeyModifiers)
        ensures
            r == (KeyModifiers { shift: false, control: false, alt: false }),
    {
        KeyModifiers { shift: false, control: false, alt: false }
    }

    /// Decides `is_control`.
    pub fn control_only(&self) -> (r: bool)
        ensures
            r == self.is_control(),
    {
        self.control && !self.shift && !self.alt
    }
}

/// A key press.
#[derive(Debug, Clone, Copy, PartialEq, Eq, Structural)]
pub struct KeyEvent {
    pub code: KeyCode,
    pub modifiers: KeyModifiers,
}

} // verus!
