//! The application's event handler.
use vstd::prelude::*;

verus! {

/// Handles application events.
pub struct EventHandler;

impl EventHandler {
    /// Create a new event handler.
    pub fn new() -> (h: EventHandler)
        ensures
            h == EventHandler,
    {
        EventHandler
    }
}

impl Default for EventHandler {
    fn default() -> (h: EventHandler)
        ensures
            h == EventHandler,
    {
        EventHandler::new()
    }
}

} // verus!
