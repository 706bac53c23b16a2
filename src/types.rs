//! The task of the interactive front end, and its input modes.

use vstd::prelude::*;
use std::collections::HashMap;
use std::time::SystemTime;
use crate::storage::{Db, MemoryStorage};

verus! {

/// How input is read: commands, or text.
#[derive(Debug, Clone, Copy, PartialEq, Eq, Structural)]
pub enum Mode {
    /// Navigation and commands.
    Normal,
    /// Typing the text of a task.
    Insert,
}

/// A task of the interactive front end, with its scheduling dates.
#[derive(Debug)]
pub struct Task {
    /// Unique identifier, the storage key.
    pub id: String,
    /// Short name.
    pub title: String,
    /// Notes.
    pub description: String,
    /// Whether it is done.
    pub completed: bool,
    /// When it was created.
    pub created_at: SystemTime,
    /// When it should be done by.
    pub due: Option<SystemTime>,
    /// Until when it is put off.
    pub defer_until: Option<SystemTime>,
}

/// The value of a front-end task.
pub struct TodoView {
    pub id: Seq<char>,
    pub title: Seq<char>,
    pub description: Seq<char>,
    pub completed: bool,
    pub created_at: SystemTime,
    pub due: Option<SystemTime>,
    pub defer_until: Option<SystemTime>,
}

impl View for Task {
    type V = TodoView;

    open spec fn view(&self) -> TodoView {
        TodoView {
            id: self.id@,
            title: self.title@,
            description: self.description@,
            completed: self.completed,
            created_at: self.created_at,
            due: self.due,
            defer_until: self.defer_until,
        }
    }
}

impl Clone for Task {
    fn clone(&self) -> (r: Task)
        ensures
            r@ == self@,
    {
        Task {
            id: self.id.clone(),
            title: self.title.clone(),
            description: self.description.clone(),
            completed: self.completed,
            created_at: self.created_at,
            due: self.due,
            defer_until: self.defer_until,
        }
    }
}

/// The state of the interactive front end: its mode, flags, input, loaded tasks and
/// storage backend.
pub struct AppState<T: Db = MemoryStorage> {
    /// How input is read.
    pub mode: Mode,
    /// Whether the front end should exit.
    pub should_quit: bool,
    /// Text typed in insert mode.
    pub input_buffer: String,
    /// Whether the help panel shows.
    pub show_help: bool,
    /// The tasks loaded from storage.
    pub tasks: Vec<Task>,
    /// The storage backend.
    pub store: T,
    /// The task being edited, if any.
    pub editing_task: Option<Task>,
    /// Which field of it is edited (0 is the title).
    pub editing_field: usize,
}

impl<T: Db> AppState<T> {
    /// A fresh state over `store`: normal mode, nothing loaded, typed or edited.
    pub fn new(store: T) -> (r: AppState<T>)
        ensures
            r.mode == Mode::Normal,
            !r.should_quit,
            r.input_buffer@.len() == 0,
            !r.show_help,
            r.tasks@.len() == 0,
            r.store == store,
            r.editing_task is None,
            r.editing_field == 0,
    {
        AppState {
            mode: Mode::Normal,
            should_quit: false,
            input_buffer: String::new(),
            show_help: false,
            tasks: Vec::new(),
            store,
            editing_task: None,
            editing_field: 0,
        }
    }
}

impl Default for AppState<MemoryStorage> {
    fn default() -> (r: AppState<MemoryStorage>)
        ensures
            r.mode == Mode::Normal,
            !r.should_quit,
            r.input_buffer@.len() == 0,
            !r.show_help,
            r.tasks@.len() == 0,
            r.store.well_formed(),
            r.store.stored().dom().len() == 0,
            r.editing_task is None,
            r.editing_field == 0,
    {
        let store = MemoryStorage::new(HashMap::new());
        proof {
            assert(store.stored().dom() =~= Set::<Seq<char>>::empty());
        }
        AppState::new(store)
    }
}

} // verus!
