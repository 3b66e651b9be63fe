//! The keys that the editor understands.

use vstd::prelude::*;

verus! {

/// One decoded key press.
#[derive(Debug, Clone, Copy, PartialEq, Eq)]
pub enum Key {
    /// A printable character.
    Char(char),
    /// The enter key.
    Enter,
    /// The backspace key.
    Backspace,
    /// The escape key.
    Esc,
    /// The up arrow.
    Up,
    /// The down arrow.
    Down,
    /// The left arrow.
    Left,
    /// The right arrow.
    Right,
    /// Any other key; it never has an effect.
    Other,
}

} // verus!
