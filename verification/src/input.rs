//! What the user does: keys, mouse and the passing of time.

use vstd::prelude::*;

verus! {

/// A key, as far as the map and its popups know it.
#[derive(Debug, Clone, Copy, PartialEq, Eq, Structural)]
pub enum KeyCode {
    Esc,
    Tab,
    Enter,
    Backspace,
    Up,
    Down,
    Left,
    Right,
    Char(char),
    Other,
}

/// A key with the one modifier that matters.
#[derive(Debug, Clone, Copy, PartialEq, Eq, Structural)]
pub struct KeyEvent {
    pub code: KeyCode,
    /// The control key is held.
    pub control: bool,
}

#[derive(Debug, Clone, Copy, PartialEq, Eq, Structural)]
pub enum MouseButton {
    Left,
    Right,
    Middle,
}

#[derive(Debug, Clone, Copy, PartialEq, Eq, Structural)]
pub enum MouseEventKind {
    Down(MouseButton),
    Up(MouseButton),
    Drag(MouseButton),
    ScrollUp,
    ScrollDown,
    Other,
}

/// Something the mouse did at a terminal cell.
#[derive(Debug, Clone, Copy, PartialEq, Eq, Structural)]
pub struct MouseEvent {
    pub kind: MouseEventKind,
    pub column: u16,
    pub row: u16,
}

/// A terminal event.
#[derive(Debug, Clone, Copy, PartialEq, Eq, Structural)]
pub enum Event {
    Key(KeyEvent),
    Mouse(MouseEvent),
    /// Anything else, such as a change of size or of focus.
    Other,
}

/// Host input events forwarded into the map and its popups.
#[derive(Debug, Clone, Copy, PartialEq, Eq, Structural)]
pub enum MapInput {
    CEvent(Event),
    Tick,
}

/// A change of the map view that a key asks for.
#[derive(Debug, Clone, Copy, PartialEq, Eq, Structural)]
pub enum MapCommand {
    ToggleBraille,
    ZoomIn,
    ZoomOut,
    PanLeft,
    PanRight,
    PanUp,
    PanDown,
}

/// The command of a key.
pub open spec fn command_of_key(code: KeyCode) -> Option<MapCommand> {
    match code {
        KeyCode::Char(c) => if c == 'c' {
            Some(MapCommand::ToggleBraille)
        } else if c == 'a' {
            Some(MapCommand::ZoomIn)
        } else if c == 'z' {
            Some(MapCommand::ZoomOut)
        } else {
            None
        },
        KeyCode::Left => Some(MapCommand::PanLeft),
        KeyCode::Right => Some(MapCommand::PanRight),
        KeyCode::Up => Some(MapCommand::PanUp),
        KeyCode::Down => Some(MapCommand::PanDown),
        _ => None,
    }
}

/// What an input asks of the map. Keys held with control, and all that is not a key, ask nothing.
pub fn map_command(input: MapInput) -> (r: Option<MapCommand>)
    ensures
        r == match input {
            MapInput::CEvent(Event::Key(k)) => if k.control {
                None
            } else {
                command_of_key(k.code)
            },
            _ => None,
        },
{
    match input {
        MapInput::CEvent(Event::Key(k)) => {
            if k.control {
                return None;
            }
            match k.code {
                KeyCode::Char('c') => Some(MapCommand::ToggleBraille),
                KeyCode::Char('a') => Some(MapCommand::ZoomIn),
                KeyCode::Char('z') => Some(MapCommand::ZoomOut),
                KeyCode::Left => Some(MapCommand::PanLeft),
                KeyCode::Right => Some(MapCommand::PanRight),
                KeyCode::Up => Some(MapCommand::PanUp),
                KeyCode::Down => Some(MapCommand::PanDown),
                _ => None,
            }
        },
        _ => None,
    }
}

} // verus!
