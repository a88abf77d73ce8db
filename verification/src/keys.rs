use vstd::prelude::*;
use crossterm::event::KeyCode;

verus! {

/// `crossterm::event::KeyCode`, the key of a key event. The verifier sees
/// nothing of what a value holds.
#[verifier::external_type_specification]
#[verifier::external_body]
pub struct ExKeyCode(crossterm::event::KeyCode);

/// `crossterm::event::KeyModifiers`, the modifier keys held down with a
/// key. The verifier sees nothing of what a value holds.
#[verifier::external_type_specification]
#[verifier::external_body]
pub struct ExKeyModifiers(crossterm::event::KeyModifiers);

/// The keys that a dialog and its controls tell apart.
#[derive(Debug, Clone, Copy, PartialEq, Eq, Structural)]
pub enum Key {
    Left,
    Right,
    Home,
    End,
    Backspace,
    Delete,
    Enter,
    Esc,
    Tab,
    BackTab,
    Insert,
    Char(char),
    /// Any key that no control reacts to.
    Other,
}

/// Sorts a `crossterm::event::KeyCode` into the keys that the controls tell
/// apart. The variants are matched one by one and a character is handed on
/// as it came; nothing is claimed of the result, because the key code is
/// opaque to the verifier.
#[verifier::external_body]
pub(crate) fn decode(code: KeyCode) -> (key: Key) {
    match code {
        KeyCode::Left => Key::Left,
        KeyCode::Right => Key::Right,
        KeyCode::Home => Key::Home,
        KeyCode::End => Key::End,
        KeyCode::Backspace => Key::Backspace,
        KeyCode::Delete => Key::Delete,
        KeyCode::Enter => Key::Enter,
        KeyCode::Esc => Key::Esc,
        KeyCode::Tab => Key::Tab,
        KeyCode::BackTab => Key::BackTab,
        KeyCode::Insert => Key::Insert,
        KeyCode::Char(c) => Key::Char(c),
        _ => Key::Other,
    }
}

} // verus!
