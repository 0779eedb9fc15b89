//! Key presses as the components see them: a key code and the modifier keys
//! held down with it.
use vstd::prelude::*;

verus! {

/// A key on the keyboard.
#[derive(Debug, Clone, Copy, PartialEq, Eq, Hash, Structural)]
pub enum KeyCode {
    /// A character key.
    Char(char),
    /// Enter.
    Enter,
    /// Escape.
    Esc,
    /// Backspace.
    Backspace,
    /// Delete.
    Delete,
    /// Left arrow.
    Left,
    /// Right arrow.
    Right,
    /// Up arrow.
    Up,
    /// Down arrow.
    Down,
    /// Home.
    Home,
    /// End.
    End,
    /// Page up.
    PageUp,
    /// Page down.
    PageDown,
    /// Tab.
    Tab,
    /// Shift+Tab.
    BackTab,
    /// Insert.
    Insert,
    /// A function key, F1 to F24.
    F(u8),
    /// Any other key.
    Other,
}

/// The modifier keys held while a key was pressed.
#[derive(Debug, Clone, Copy, PartialEq, Eq, Hash, Structural)]
pub enum KeyModifiers {
    /// No modifier.
    NONE,
    /// Shift alone.
    SHIFT,
    /// Control alone.
    CONTROL,
    /// Alt alone.
    ALT,
    /// Any other combination, by its bits (shift 1, control 2, alt 4, super 8, hyper 16, meta 32).
    Other(u8),
}

/// A key press.
#[derive(Debug, Clone, Copy, PartialEq, Eq, Hash, Structural)]
pub struct KeyEvent {
    /// The key.
    pub code: KeyCode,
    /// The modifiers held with it.
    pub modifiers: KeyModifiers,
}

impl KeyEvent {
    /// A key press of `code` with `modifiers`.
    pub fn new(code: KeyCode, modifiers: KeyModifiers) -> (k: KeyEvent)
        ensures
            k.code == code,
            k.modifiers == modifiers,
    {
        KeyEvent { code, modifiers }
    }
}

/// The press of a character key with no modifier, or with Shift alone.
pub open spec fn is_plain_char(key: KeyEvent) -> bool {
    key.code is Char && (key.modifiers == KeyModifiers::NONE || key.modifiers
        == KeyModifiers::SHIFT)
}

/// The press of `code` with no modifier.
pub open spec fn pressed(key: KeyEvent, code: KeyCode) -> bool {
    key.code == code && key.modifiers == KeyModifiers::NONE
}

/// The press of the character `c` with no modifier.
pub open spec fn pressed_char(key: KeyEvent, c: char) -> bool {
    key.code == KeyCode::Char(c) && key.modifiers == KeyModifiers::NONE
}

/// A move down: `j` without modifier, or the down arrow with any modifiers.
pub open spec fn is_down(key: KeyEvent) -> bool {
    pressed_char(key, 'j') || key.code == KeyCode::Down
}

/// A move up: `k` without modifier, or the up arrow with any modifiers.
pub open spec fn is_up(key: KeyEvent) -> bool {
    pressed_char(key, 'k') || key.code == KeyCode::Up
}

/// Whether the key is a move down (`j`, or the down arrow).
pub fn key_is_down(key: KeyEvent) -> (b: bool)
    ensures
        b == is_down(key),
{
    match (key.code, key.modifiers) {
        (KeyCode::Char('j'), KeyModifiers::NONE) => true,
        (KeyCode::Down, _) => true,
        _ => false,
    }
}

/// Whether the key is a move up (`k`, or the up arrow).
pub fn key_is_up(key: KeyEvent) -> (b: bool)
    ensures
        b == is_up(key),
{
    match (key.code, key.modifiers) {
        (KeyCode::Char('k'), KeyModifiers::NONE) => true,
        (KeyCode::Up, _) => true,
        _ => false,
    }
}

/// Whether the key is `code` pressed without modifier.
pub fn key_pressed(key: KeyEvent, code: KeyCode) -> (b: bool)
    ensures
        b == pressed(key, code),
{
    key.code == code && key.modifiers == KeyModifiers::NONE
}

/// Whether the key is `Esc` pressed without modifier, or `q` without modifier.
pub fn key_is_cancel(key: KeyEvent) -> (b: bool)
    ensures
        b == (pressed(key, KeyCode::Esc) || pressed_char(key, 'q')),
{
    key_pressed(key, KeyCode::Esc) || key_pressed(key, KeyCode::Char('q'))
}

} // verus!
