//! Key input, as the editor receives it.

use vstd::prelude::*;

verus! {

/// One key press with its modifiers.
#[derive(Clone, Copy, PartialEq, Eq, Debug, Structural)]
pub struct Input {
    /// The typed key
    pub key: Key,
    /// Ctrl modifier; `true` means the Ctrl key was also pressed
    pub ctrl: bool,
    /// Alt modifier; `true` means the Alt key was also pressed
    pub alt: bool,
    /// Shift modifier; `true` means the Shift key was also pressed
    pub shift: bool,
}

/// Key input type
#[derive(Clone, Copy, PartialEq, Eq, Debug, Structural)]
pub enum Key {
    /// Normal letter input
    Character(char),
    /// Function ("F") keys
    Function(u8),
    /// Backspace key
    Backspace,
    /// Enter key
    Enter,
    /// Left arrow key
    LeftArrow,
    /// Right arrow key
    RightArrow,
    /// Up arrow key
    UpArrow,
    /// Down arrow key
    DownArrow,
    /// Tab key
    Tab,
    /// Delete key
    Delete,
    /// Home key
    Home,
    /// End key
    End,
    /// Page up key
    PageUp,
    /// Page down key
    PageDown,
    /// Escape key
    Escape,
    /// Invalid input - always ignored
    Null,
}

} // verus!
