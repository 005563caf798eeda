use vstd::prelude::*;

verus! {

/// A key press, as read from a terminal in raw mode.
#[derive(Clone, Copy, Debug, PartialEq, Eq, Structural)]
pub enum Key {
    Up,
    Down,
    Left,
    Right,
    Esc,
    Delete,
    Backspace,
    /// A printable character.
    Char(char),
    /// A character typed with Alt held.
    Alt(char),
    /// A character typed with Ctrl held.
    Ctrl(char),
    /// Any key the picker has no use for (function keys, Home, End, ...).
    Other,
}

/// The two ways of deleting a branch.
#[derive(Clone, Copy, Debug, PartialEq, Eq, Structural)]
pub enum DeleteMode {
    /// Refuses to delete a branch that is not fully merged.
    Safe,
    /// Deletes the branch whatever its merge status.
    Force,
}

/// What a key press asks the picker to do.
#[derive(Clone, Copy, Debug, PartialEq, Eq, Structural)]
pub enum Action {
    MoveDown,
    MoveUp,
    Quit,
    Delete(DeleteMode),
    NoOp,
}

/// The key table of the picker.
pub open spec fn action_of(key: Key) -> Action {
    match key {
        Key::Down | Key::Ctrl('n') | Key::Char('j') => Action::MoveDown,
        Key::Up | Key::Ctrl('p') | Key::Char('k') => Action::MoveUp,
        Key::Esc | Key::Char('q') | Key::Ctrl('c') => Action::Quit,
        Key::Delete | Key::Char('d') => Action::Delete(DeleteMode::Safe),
        Key::Char('D') => Action::Delete(DeleteMode::Force),
        _ => Action::NoOp,
    }
}

/// The keys that the table maps to something other than `NoOp`.
pub open spec fn is_bound(key: Key) -> bool {
    key == Key::Down || key == Key::Ctrl('n') || key == Key::Char('j')
        || key == Key::Up || key == Key::Ctrl('p') || key == Key::Char('k')
        || key == Key::Esc || key == Key::Char('q') || key == Key::Ctrl('c')
        || key == Key::Delete || key == Key::Char('d') || key == Key::Char('D')
}

/// Maps one key press to the action it stands for; keys outside the table
/// map to `Action::NoOp`.
pub fn key_to_action(key: Key) -> (r: Action)
    ensures
        r == action_of(key),
{
    match key {
        Key::Down | Key::Ctrl('n') | Key::Char('j') => Action::MoveDown,
        Key::Up | Key::Ctrl('p') | Key::Char('k') => Action::MoveUp,
        Key::Esc | Key::Char('q') | Key::Ctrl('c') => Action::Quit,
        Key::Delete | Key::Char('d') => Action::Delete(DeleteMode::Safe),
        Key::Char('D') => Action::Delete(DeleteMode::Force),
        _ => Action::NoOp,
    }
}

/// The key table is a function of the key alone: equal key presses map to
/// equal actions.
pub proof fn lemma_key_to_action_deterministic(a: Key, b: Key)
    requires
        a == b,
    ensures
        action_of(a) == action_of(b),
{
}

/// Every key outside the table maps to `NoOp`, and every key in it to
/// something else.
pub proof fn lemma_unbound_keys_do_nothing(key: Key)
    ensures
        !is_bound(key) <==> action_of(key) == Action::NoOp,
{
}

} // verus!
