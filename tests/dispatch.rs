use editor_input::dispatch::{handle, Command, Direction, Dispatch, InputError, Page};
use editor_input::event::{has_valid_coordinates, Event, Key, MouseButton, MouseEvent};

fn invoke(c: Command) -> Result<Dispatch, InputError> {
    Ok(Dispatch::Invoke(c))
}

#[test]
fn printable_chars_insert_themselves() {
    for c in ['a', 'Z', '0', ' ', '~', 'é', '中'] {
        assert_eq!(handle(&Event::Key(Key::Char(c))), invoke(Command::InsertChar(c)));
    }
}

#[test]
fn ctrl_w_saves() {
    assert_eq!(handle(&Event::Key(Key::Ctrl('w'))), invoke(Command::Save));
}

#[test]
fn ctrl_c_requests_exit() {
    assert_eq!(handle(&Event::Key(Key::Ctrl('c'))), Ok(Dispatch::Exit));
}

#[test]
fn other_ctrl_is_input_error() {
    for x in ['a', 'q', 'x', 'W', 'C', 's'] {
        assert_eq!(
            handle(&Event::Key(Key::Ctrl(x))),
            Err(InputError::UnknownControl(x))
        );
    }
}

#[test]
fn editing_and_motion_keys() {
    assert_eq!(handle(&Event::Key(Key::Backspace)), invoke(Command::DeleteBackward));
    assert_eq!(handle(&Event::Key(Key::Left)), invoke(Command::MoveCursor(Direction::Left)));
    assert_eq!(handle(&Event::Key(Key::Right)), invoke(Command::MoveCursor(Direction::Right)));
    assert_eq!(handle(&Event::Key(Key::Up)), invoke(Command::MoveCursor(Direction::Up)));
    assert_eq!(handle(&Event::Key(Key::Down)), invoke(Command::MoveCursor(Direction::Down)));
    assert_eq!(handle(&Event::Key(Key::PageUp)), invoke(Command::ScrollPage(Page::Up)));
    assert_eq!(handle(&Event::Key(Key::PageDown)), invoke(Command::ScrollPage(Page::Down)));
}

#[test]
fn unbound_key_is_input_error() {
    assert_eq!(handle(&Event::Key(Key::Other)), Err(InputError::UnsupportedKey));
}

#[test]
fn press_clicks_at_shifted_coordinates() {
    let e = Event::Mouse(MouseEvent::Press(MouseButton::Left, 5, 10));
    assert_eq!(handle(&e), invoke(Command::Click(9, 4)));
}

#[test]
fn press_at_origin_and_far_corner() {
    let e = Event::Mouse(MouseEvent::Press(MouseButton::Right, 1, 1));
    assert_eq!(handle(&e), invoke(Command::Click(0, 0)));
    let e = Event::Mouse(MouseEvent::Press(MouseButton::WheelDown, u16::MAX, u16::MAX));
    let far = u16::MAX as u64 - 1;
    assert_eq!(handle(&e), invoke(Command::Click(far, far)));
}

#[test]
fn hold_drags_at_shifted_coordinates() {
    let e = Event::Mouse(MouseEvent::Hold(3, 7));
    assert_eq!(handle(&e), invoke(Command::Drag(6, 2)));
}

#[test]
fn release_does_nothing() {
    let e = Event::Mouse(MouseEvent::Release(5, 10));
    assert_eq!(handle(&e), Ok(Dispatch::Nothing));
}

#[test]
fn unsupported_event_is_input_error() {
    assert_eq!(handle(&Event::Unsupported), Err(InputError::UnsupportedEvent));
}

#[test]
fn coordinates_must_count_from_one() {
    assert!(has_valid_coordinates(&Event::Mouse(MouseEvent::Hold(1, 1))));
    assert!(!has_valid_coordinates(&Event::Mouse(MouseEvent::Hold(0, 4))));
    assert!(!has_valid_coordinates(&Event::Mouse(MouseEvent::Press(MouseButton::Middle, 4, 0))));
    assert!(has_valid_coordinates(&Event::Mouse(MouseEvent::Release(0, 0))));
    assert!(has_valid_coordinates(&Event::Key(Key::Up)));
}
