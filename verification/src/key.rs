//! The key presses that the screens tell apart.

use vstd::prelude::*;

verus! {

/// One key press, as the keyboard reader decoded it.
#[derive(Clone, Copy, Debug, PartialEq, Eq, Structural)]
pub enum Key {
    /// A character key; Enter is `'\n'` and Tab is `'\t'`.
    Char(char),
    Backspace,
    Up,
    Down,
    Left,
    Right,
    /// Shift and Tab together.
    BackTab,
    Esc,
    /// Any key that no screen reacts to.
    Other,
}

} // verus!
