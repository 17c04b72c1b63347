use vstd::prelude::*;

use crate::mode::Mode;

verus! {

/// A key press, as the editor tells keys apart.
#[derive(Clone, Copy, Debug, PartialEq, Eq, Structural)]
pub enum Key {
    /// A character key, and whether Control was held.
    Char(char, bool),
    Enter,
    Backspace,
    Other,
}

/// What a key press asks of the editor.
#[derive(Clone, Copy, Debug, PartialEq, Eq, Structural)]
pub enum Action {
    Quit,
    Save,
    Insert,
    Drag,
    Redo,
    Undo,
    Delete,
    Select,
    ToggleDebug,
    /// A motion key or a digit of its count.
    Motion(char),
    /// Copy the selection, then treat the key as a motion key.
    CopyThenMotion(char),
    /// A character typed into a rectangle.
    Type(char),
    /// Enter; `copy` asks to copy the selection first.
    Commit(bool),
    Erase,
    Ignore,
}

/// The key bindings: in normal mode `q` quits, `s` saves, `i` inserts, `r` resizes
/// (Control+`r` redoes), `u` undoes, `x` deletes, `v` selects and `d` toggles the
/// debug panel; other characters are motions. In text entry characters are typed.
/// In a selection `y` copies it. Enter commits, copying a selection first;
/// Backspace erases.
pub open spec fn action_spec(mode: Mode, key: Key) -> Action {
    match key {
        Key::Char(c, ctrl) => match mode {
            Mode::Text(_) => Action::Type(c),
            Mode::Normal => if c == 'q' {
                Action::Quit
            } else if c == 's' {
                Action::Save
            } else if c == 'i' {
                Action::Insert
            } else if c == 'r' {
                if ctrl { Action::Redo } else { Action::Drag }
            } else if c == 'x' {
                Action::Delete
            } else if c == 'v' {
                Action::Select
            } else if c == 'd' {
                Action::ToggleDebug
            } else if c == 'u' {
                Action::Undo
            } else {
                Action::Motion(c)
            },
            Mode::Select(_) => if c == 'y' { Action::CopyThenMotion(c) } else { Action::Motion(c) },
            _ => Action::Motion(c),
        },
        Key::Enter => Action::Commit(mode is Select),
        Key::Backspace => Action::Erase,
        Key::Other => Action::Ignore,
    }
}

pub fn key_action(mode: &Mode, key: Key) -> (r: Action)
    ensures
        r == action_spec(*mode, key),
{
    match key {
        Key::Char(c, ctrl) => match mode {
            Mode::Text(_) => Action::Type(c),
            Mode::Normal => {
                if c == 'q' {
                    Action::Quit
                } else if c == 's' {
                    Action::Save
                } else if c == 'i' {
                    Action::Insert
                } else if c == 'r' {
                    if ctrl {
                        Action::Redo
                    } else {
                        Action::Drag
                    }
                } else if c == 'x' {
                    Action::Delete
                } else if c == 'v' {
                    Action::Select
                } else if c == 'd' {
                    Action::ToggleDebug
                } else if c == 'u' {
                    Action::Undo
                } else {
                    Action::Motion(c)
                }
            },
            Mode::Select(_) => {
                if c == 'y' {
                    Action::CopyThenMotion(c)
                } else {
                    Action::Motion(c)
                }
            },
            _ => Action::Motion(c),
        },
        Key::Enter => {
            let copy = match mode {
                Mode::Select(_) => true,
                _ => false,
            };
            Action::Commit(copy)
        },
        Key::Backspace => Action::Erase,
        Key::Other => Action::Ignore,
    }
}

} // verus!
