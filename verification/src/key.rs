//! Key events as the interaction core reads them.

use vstd::prelude::*;

verus! {

/// The key that was pressed.
#[derive(Debug, Clone, Copy, PartialEq, Eq, Structural)]
pub enum KeyCode {
    /// A character key, with the character it produces.
    Char(char),
    Enter,
    Esc,
    Tab,
    BackTab,
    Backspace,
    Left,
    Right,
    Up,
    Down,
    Home,
    End,
    /// Any key that has no binding.
    Other,
}

/// One key press: the key, and whether the modifier that turns Enter into a
/// line break was held.
#[derive(Debug, Clone, Copy, PartialEq, Eq, Structural)]
pub struct KeyEvent {
    pub code: KeyCode,
    pub alt: bool,
}

impl KeyEvent {
    /// A key press without modifier.
    pub fn plain(code: KeyCode) -> (k: KeyEvent)
        ensures
            k == (KeyEvent { code, alt: false }),
    {
        KeyEvent { code, alt: false }
    }
}

} // verus!
