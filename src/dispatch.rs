//! Turning one terminal event into at most one editor command.

use vstd::prelude::*;
use crate::event::{Event, Key, MouseEvent, coordinates_valid};

verus! {

/// A direction in which the cursor moves.
#[derive(Clone, Copy, Debug, PartialEq, Eq, Structural)]
pub enum Direction {
    Left,
    Right,
    Up,
    Down,
}

/// A direction in which the view scrolls by one page.
#[derive(Clone, Copy, Debug, PartialEq, Eq, Structural)]
pub enum Page {
    Up,
    Down,
}

/// An invocation of one operation of the editor.
/// Coordinates are editor coordinates, counted from 0.
#[derive(Clone, Copy, Debug, PartialEq, Eq, Structural)]
pub enum Command {
    InsertChar(char),
    Save,
    DeleteBackward,
    MoveCursor(Direction),
    ScrollPage(Page),
    /// Click at (x, y).
    Click(u64, u64),
    /// Drag to (x, y).
    Drag(u64, u64),
}

/// What the main loop is to do with an event.
#[derive(Clone, Copy, Debug, PartialEq, Eq, Structural)]
pub enum Dispatch {
    /// Invoke this command on the editor and pass its result on.
    Invoke(Command),
    /// The user asked to leave the editor.
    Exit,
    /// Nothing to do.
    Nothing,
}

/// An event that the dispatcher does not recognise.
#[derive(Clone, Copy, Debug, PartialEq, Eq, Structural)]
pub enum InputError {
    /// A control combination other than those bound.
    UnknownControl(char),
    /// A key that has no binding.
    UnsupportedKey,
    /// An event of a kind that has no binding.
    UnsupportedEvent,
}

/// Terminal coordinates count from 1, editor coordinates from 0.
pub open spec fn editor_coordinate(c: u16) -> u64 {
    (c - 1) as u64
}

/// What a key press asks for.
pub open spec fn key_dispatch(k: Key) -> Result<Dispatch, InputError> {
    match k {
        Key::Char(c) => Ok(Dispatch::Invoke(Command::InsertChar(c))),
        Key::Ctrl(c) => if c == 'c' {
            Ok(Dispatch::Exit)
        } else if c == 'w' {
            Ok(Dispatch::Invoke(Command::Save))
        } else {
            Err(InputError::UnknownControl(c))
        },
        Key::Backspace => Ok(Dispatch::Invoke(Command::DeleteBackward)),
        Key::Left => Ok(Dispatch::Invoke(Command::MoveCursor(Direction::Left))),
        Key::Right => Ok(Dispatch::Invoke(Command::MoveCursor(Direction::Right))),
        Key::Up => Ok(Dispatch::Invoke(Command::MoveCursor(Direction::Up))),
        Key::Down => Ok(Dispatch::Invoke(Command::MoveCursor(Direction::Down))),
        Key::PageUp => Ok(Dispatch::Invoke(Command::ScrollPage(Page::Up))),
        Key::PageDown => Ok(Dispatch::Invoke(Command::ScrollPage(Page::Down))),
        Key::Other => Err(InputError::UnsupportedKey),
    }
}

/// What a mouse action asks for: a press clicks and a held move drags, at the
/// column and row converted to editor coordinates; a release asks nothing.
pub open spec fn mouse_dispatch(m: MouseEvent) -> Dispatch {
    match m {
        MouseEvent::Press(_, row, col) => Dispatch::Invoke(
            Command::Click(editor_coordinate(col), editor_coordinate(row)),
        ),
        MouseEvent::Release(_, _) => Dispatch::Nothing,
        MouseEvent::Hold(row, col) => Dispatch::Invoke(
            Command::Drag(editor_coordinate(col), editor_coordinate(row)),
        ),
    }
}

/// What an event asks for.
pub open spec fn dispatch_of(e: Event) -> Result<Dispatch, InputError> {
    match e {
        Event::Key(k) => key_dispatch(k),
        Event::Mouse(m) => Ok(mouse_dispatch(m)),
        Event::Unsupported => Err(InputError::UnsupportedEvent),
    }
}

fn to_editor_coordinate(c: u16) -> (r: u64)
    requires
        c >= 1,
    ensures
        r == editor_coordinate(c),
{
    c as u64 - 1
}

/// Decides what the main loop does with one event: the editor command to
/// invoke, a request to exit (control-C), nothing (a mouse release), or an
/// error for an event that has no binding.
pub fn handle(event: &Event) -> (r: Result<Dispatch, InputError>)
    requires
        coordinates_valid(*event),
    ensures
        r == dispatch_of(*event),
{
    match event {
        Event::Key(key) => match key {
            Key::Char(c) => Ok(Dispatch::Invoke(Command::InsertChar(*c))),
            Key::Ctrl(c) => {
                if *c == 'c' {
                    Ok(Dispatch::Exit)
                } else if *c == 'w' {
                    Ok(Dispatch::Invoke(Command::Save))
                } else {
                    Err(InputError::UnknownControl(*c))
                }
            },
            Key::Backspace => Ok(Dispatch::Invoke(Command::DeleteBackward)),
            Key::Left => Ok(Dispatch::Invoke(Command::MoveCursor(Direction::Left))),
            Key::Right => Ok(Dispatch::Invoke(Command::MoveCursor(Direction::Right))),
            Key::Up => Ok(Dispatch::Invoke(Command::MoveCursor(Direction::Up))),
            Key::Down => Ok(Dispatch::Invoke(Command::MoveCursor(Direction::Down))),
            Key::PageUp => Ok(Dispatch::Invoke(Command::ScrollPage(Page::Up))),
            Key::PageDown => Ok(Dispatch::Invoke(Command::ScrollPage(Page::Down))),
            Key::Other => Err(InputError::UnsupportedKey),
        },
        Event::Mouse(mouse) => match mouse {
            MouseEvent::Press(_, row, col) => Ok(
                Dispatch::Invoke(
                    Command::Click(to_editor_coordinate(*col), to_editor_coordinate(*row)),
                ),
            ),
            MouseEvent::Release(_, _) => Ok(Dispatch::Nothing),
            MouseEvent::Hold(row, col) => Ok(
                Dispatch::Invoke(
                    Command::Drag(to_editor_coordinate(*col), to_editor_coordinate(*row)),
                ),
            ),
        },
        Event::Unsupported => Err(InputError::UnsupportedEvent),
    }
}

/// A printable character asks for exactly one command: inserting that character.
pub proof fn lemma_char_inserts(c: char)
    ensures
        dispatch_of(Event::Key(Key::Char(c))) == Ok::<Dispatch, InputError>(
            Dispatch::Invoke(Command::InsertChar(c)),
        ),
{
}

/// Control-W asks for exactly one command: saving.
pub proof fn lemma_ctrl_w_saves()
    ensures
        dispatch_of(Event::Key(Key::Ctrl('w'))) == Ok::<Dispatch, InputError>(
            Dispatch::Invoke(Command::Save),
        ),
{
}

/// Control-C asks the main loop to exit and invokes no editor command.
pub proof fn lemma_ctrl_c_exits()
    ensures
        dispatch_of(Event::Key(Key::Ctrl('c'))) == Ok::<Dispatch, InputError>(Dispatch::Exit),
{
}

/// Any other control combination is an input error, so no command is invoked.
pub proof fn lemma_other_ctrl_rejected(x: char)
    requires
        x != 'c',
        x != 'w',
    ensures
        dispatch_of(Event::Key(Key::Ctrl(x))) == Err::<Dispatch, InputError>(
            InputError::UnknownControl(x),
        ),
{
}

/// A press at terminal (row, column) clicks at editor (column - 1, row - 1),
/// and a held move drags there: each axis is shifted once, by one.
pub proof fn lemma_mouse_coordinates(b: crate::event::MouseButton, row: u16, col: u16)
    requires
        row >= 1,
        col >= 1,
    ensures
        dispatch_of(Event::Mouse(MouseEvent::Press(b, row, col))) == Ok::<Dispatch, InputError>(
            Dispatch::Invoke(Command::Click((col - 1) as u64, (row - 1) as u64)),
        ),
        dispatch_of(Event::Mouse(MouseEvent::Hold(row, col))) == Ok::<Dispatch, InputError>(
            Dispatch::Invoke(Command::Drag((col - 1) as u64, (row - 1) as u64)),
        ),
{
}

/// A mouse release succeeds and invokes no command.
pub proof fn lemma_release_does_nothing(row: u16, col: u16)
    ensures
        dispatch_of(Event::Mouse(MouseEvent::Release(row, col))) == Ok::<Dispatch, InputError>(
            Dispatch::Nothing,
        ),
{
}

/// An event of a kind that has no binding is an input error and invokes no
/// command.
pub proof fn lemma_unsupported_event_rejected()
    ensures
        dispatch_of(Event::Unsupported) == Err::<Dispatch, InputError>(
            InputError::UnsupportedEvent,
        ),
{
}

} // verus!
