use vstd::prelude::*;

use crate::navigator::{ActionKind, Command};

verus! {

/// A key press, as read from the terminal.
#[derive(Clone, Copy, PartialEq, Eq, Debug)]
pub enum Key {
    Char(char),
    Left,
    Right,
    Up,
    Down,
    Enter,
    /// Any other key.
    Other,
}

/// The command that a key press stands for, if any.
pub open spec fn route_spec(key: Key) -> Option<Command> {
    match key {
        Key::Char('q') => Some(Command::Quit),
        Key::Char('c') => Some(Command::Dispatch(ActionKind::Shell)),
        Key::Char('p') => Some(Command::Dispatch(ActionKind::PortForward)),
        Key::Left => Some(Command::FocusPrev),
        Key::Right => Some(Command::FocusNext),
        Key::Enter => Some(Command::FocusNext),
        Key::Up => Some(Command::MoveUp),
        Key::Down => Some(Command::MoveDown),
        _ => None,
    }
}

/// Maps one key press to at most one navigator command: `q` quits, the
/// arrows move focus and selection, Enter advances the focus like Right,
/// `c` and `p` ask for a dispatch of a shell or a port forward. Any other
/// key is no command.
pub fn route(key: Key) -> (r: Option<Command>)
    ensures
        r == route_spec(key),
{
    match key {
        Key::Char(c) => {
            if c == 'q' {
                Some(Command::Quit)
            } else if c == 'c' {
                Some(Command::Dispatch(ActionKind::Shell))
            } else if c == 'p' {
                Some(Command::Dispatch(ActionKind::PortForward))
            } else {
                None
            }
        },
        Key::Left => Some(Command::FocusPrev),
        Key::Right => Some(Command::FocusNext),
        Key::Enter => Some(Command::FocusNext),
        Key::Up => Some(Command::MoveUp),
        Key::Down => Some(Command::MoveDown),
        Key::Other => None,
    }
}

} // verus!
