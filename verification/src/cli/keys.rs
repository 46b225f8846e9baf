//! Keys delivered to the interactive screens.
use vstd::prelude::*;

verus! {

/// A key press, as the interactive screens distinguish them.
#[derive(Debug, Clone, Copy, PartialEq, Eq, Structural)]
pub enum KeyCode {
    Up,
    Down,
    Left,
    Right,
    Enter,
    Esc,
    Backspace,
    Delete,
    /// A printable character.
    Char(char),
    /// Any other key; the screens ignore it.
    Other,
}

} // verus!
