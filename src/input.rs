//! Input handling of the interactive front end.

use vstd::prelude::*;

verus! {

/// Coordinator of keyboard input.
pub struct InputHandler;

impl InputHandler {
    /// A handler.
    pub fn new() -> (r: InputHandler) {
        InputHandler
    }
}

impl Default for InputHandler {
    fn default() -> (r: InputHandler) {
        InputHandler::new()
    }
}

} // verus!
