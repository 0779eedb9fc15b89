//! Keyboard input, terminal events and key bindings.
pub mod handler;
pub mod key;
pub mod keys;

pub use handler::EventHandler;
pub use key::{KeyCode, KeyEvent, KeyModifiers};
pub use keys::{
    get_context_hints, get_keybindings, get_keybindings_for_context, get_keybindings_grouped,
    KeyBindings, KeyContext, Keybinding,
};

use vstd::prelude::*;

verus! {

/// Application events that the application processes.
#[derive(Debug, Clone, PartialEq, Eq)]
pub enum Event {
    /// A key was pressed.
    Key(KeyEvent),
    /// The terminal was resized to the given width and height.
    Resize(u16, u16),
    /// A periodic tick for background work and animations.
    Tick,
    /// A request to quit the application.
    Quit,
}

} // verus!
