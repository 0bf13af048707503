//! Key presses as the selection engine sees them, and what each one asks for.

use vstd::prelude::*;

verus! {

/// The key that was pressed. Keys the engine has no use for are all `Other`.
#[derive(Clone, Copy, Debug, PartialEq, Eq, Structural)]
pub enum Key {
    Up,
    Down,
    Enter,
    Esc,
    Char(char),
    Other,
}

/// A key together with the state of the control modifier.
#[derive(Clone, Copy, Debug, PartialEq, Eq, Structural)]
pub struct KeyPress {
    pub key: Key,
    pub ctrl: bool,
}

/// What a key press asks a selection session to do.
#[derive(Clone, Copy, Debug, PartialEq, Eq, Structural)]
pub enum Action {
    MoveUp,
    MoveDown,
    ToggleCurrent,
    SelectAll,
    DeselectAll,
    Confirm,
    Cancel,
    Ignore,
}

/// Where a session stands after a key press.
#[derive(Clone, Debug, PartialEq, Eq)]
pub enum Step<T> {
    /// The session goes on.
    Continue,
    /// The session is over, with this result.
    Finish(T),
}

/// The navigation and exit keys that both modes share.
pub open spec fn shared_action(press: KeyPress) -> Action {
    match press.key {
        Key::Up => Action::MoveUp,
        Key::Down => Action::MoveDown,
        Key::Enter => Action::Confirm,
        Key::Esc => Action::Cancel,
        Key::Char(c) => if c == 'k' {
            Action::MoveUp
        } else if c == 'j' {
            Action::MoveDown
        } else if c == 'q' {
            Action::Cancel
        } else if c == 'c' && press.ctrl {
            Action::Cancel
        } else {
            Action::Ignore
        },
        Key::Other => Action::Ignore,
    }
}

/// What a key press means while one row is being picked.
pub open spec fn single_action_of(press: KeyPress) -> Action {
    shared_action(press)
}

/// What a key press means while several rows are being picked: the shared
/// keys, and space, `a` and `n` for the check marks.
pub open spec fn multi_action_of(press: KeyPress) -> Action {
    match press.key {
        Key::Char(c) => if c == ' ' {
            Action::ToggleCurrent
        } else if c == 'a' {
            Action::SelectAll
        } else if c == 'n' {
            Action::DeselectAll
        } else {
            shared_action(press)
        },
        _ => shared_action(press),
    }
}

/// The answer that a key gives to a yes/no question: `Some(true)` for an
/// explicit yes, `Some(false)` for every way of saying no, `None` for a key
/// that is no answer.
pub open spec fn answer_of(key: Key) -> Option<bool> {
    match key {
        Key::Char(c) => if c == 'y' || c == 'Y' {
            Some(true)
        } else if c == 'n' || c == 'N' || c == 'q' {
            Some(false)
        } else {
            None
        },
        Key::Esc => Some(false),
        Key::Enter => Some(false),
        _ => None,
    }
}

fn shared(press: KeyPress) -> (r: Action)
    ensures
        r == shared_action(press),
{
    match press.key {
        Key::Up => Action::MoveUp,
        Key::Down => Action::MoveDown,
        Key::Enter => Action::Confirm,
        Key::Esc => Action::Cancel,
        Key::Char(c) => if c == 'k' {
            Action::MoveUp
        } else if c == 'j' {
            Action::MoveDown
        } else if c == 'q' {
            Action::Cancel
        } else if c == 'c' && press.ctrl {
            Action::Cancel
        } else {
            Action::Ignore
        },
        Key::Other => Action::Ignore,
    }
}

/// What `press` asks for while one row is being picked.
pub fn single_action(press: KeyPress) -> (r: Action)
    ensures
        r == single_action_of(press),
{
    shared(press)
}

/// What `press` asks for while several rows are being picked.
pub fn multi_action(press: KeyPress) -> (r: Action)
    ensures
        r == multi_action_of(press),
{
    match press.key {
        Key::Char(c) => if c == ' ' {
            Action::ToggleCurrent
        } else if c == 'a' {
            Action::SelectAll
        } else if c == 'n' {
            Action::DeselectAll
        } else {
            shared(press)
        },
        _ => shared(press),
    }
}

/// The answer that `key` gives to a yes/no question, if it is one.
pub fn confirm_answer(key: Key) -> (r: Option<bool>)
    ensures
        r == answer_of(key),
{
    match key {
        Key::Char(c) => if c == 'y' || c == 'Y' {
            Some(true)
        } else if c == 'n' || c == 'N' || c == 'q' {
            Some(false)
        } else {
            None
        },
        Key::Esc => Some(false),
        Key::Enter => Some(false),
        _ => None,
    }
}

/// Only `y` and `Y` say yes.
pub proof fn law_only_explicit_yes(key: Key)
    ensures
        answer_of(key) == Some(true) <==> (key == Key::Char('y') || key == Key::Char('Y')),
{
}

/// While one row is being picked no key touches a check mark.
pub proof fn law_single_mode_has_no_marks(press: KeyPress)
    ensures
        single_action_of(press) != Action::ToggleCurrent,
        single_action_of(press) != Action::SelectAll,
        single_action_of(press) != Action::DeselectAll,
{
}

} // verus!
