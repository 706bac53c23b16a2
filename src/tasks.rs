//! Task management of the interactive front end.

use vstd::prelude::*;

verus! {

/// Coordinator of front-end tasks.
pub struct TaskManager;

impl TaskManager {
    /// A manager.
    pub fn new() -> (r: TaskManager) {
        TaskManager
    }
}

} // verus!
