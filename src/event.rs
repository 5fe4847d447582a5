//! Decoded terminal events, as plain values.

use vstd::prelude::*;

verus! {

/// A mouse button.
#[derive(Clone, Copy, Debug, PartialEq, Eq, Structural)]
pub enum MouseButton {
    Left,
    Right,
    Middle,
    WheelUp,
    WheelDown,
}

/// A key press.
#[derive(Clone, Copy, Debug, PartialEq, Eq, Structural)]
pub enum Key {
    /// A printable character.
    Char(char),
    /// A character typed with the control key held.
    Ctrl(char),
    Backspace,
    Left,
    Right,
    Up,
    Down,
    PageUp,
    PageDown,
    /// Any other key: function keys, alt combinations, escape and the like.
    Other,
}

/// A mouse action. Rows and columns are terminal coordinates, counted from 1.
#[derive(Clone, Copy, Debug, PartialEq, Eq, Structural)]
pub enum MouseEvent {
    /// A button went down at (row, column).
    Press(MouseButton, u16, u16),
    /// A button went up at (row, column).
    Release(u16, u16),
    /// The mouse moved with a button held, to (row, column).
    Hold(u16, u16),
}

/// One terminal event.
#[derive(Clone, Copy, Debug, PartialEq, Eq, Structural)]
pub enum Event {
    Key(Key),
    Mouse(MouseEvent),
    /// An event of a kind that this library does not handle.
    Unsupported,
}

/// The coordinates that an event carries into the editor are counted from 1.
pub open spec fn coordinates_valid(e: Event) -> bool {
    match e {
        Event::Mouse(MouseEvent::Press(_, row, col)) => row >= 1 && col >= 1,
        Event::Mouse(MouseEvent::Hold(row, col)) => row >= 1 && col >= 1,
        _ => true,
    }
}

/// Executable form of `coordinates_valid`.
pub fn has_valid_coordinates(e: &Event) -> (r: bool)
    ensures
        r == coordinates_valid(*e),
{
    match e {
        Event::Mouse(MouseEvent::Press(_, row, col)) => *row >= 1 && *col >= 1,
        Event::Mouse(MouseEvent::Hold(row, col)) => *row >= 1 && *col >= 1,
        _ => true,
    }
}

} // verus!
