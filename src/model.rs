//! The persisted record: a task and its status.

use vstd::prelude::*;
use vstd::string::*;
use crate::text::{decimal, decimal_text};

verus! {

/// Identifier of the task model in the store's schema.
pub const MODEL_ID: u32 = 1;

/// Version of the task record's layout; records of another version need migrating.
pub const MODEL_VERSION: u32 = 1;

/// Where a task stands in its lifecycle.
#[derive(Debug, Clone, Copy, PartialEq, Eq, Structural)]
pub enum Status {
    /// Created, never started.
    Pending,
    /// Being worked on since the given instant (seconds since the epoch).
    InProgress(u64),
    /// Finished.
    Completed,
    /// Scheduled for later, until the given instant.
    Deferred(u64),
    /// Abandoned.
    Dropped,
    /// Paused; the time spent already counts every earlier session.
    OnHold,
}

/// A tracked unit of work, keyed by `id`.
#[derive(Debug)]
pub struct Task {
    pub id: String,
    pub name: String,
    pub status: Status,
    /// Seconds since the epoch at creation.
    pub created_at: u64,
    /// Seconds of active work accumulated so far.
    pub time_spent: u64,
}

/// The mathematical value of a task.
pub struct TaskView {
    pub id: Seq<char>,
    pub name: Seq<char>,
    pub status: Status,
    pub created_at: u64,
    pub time_spent: u64,
}

impl View for Task {
    type V = TaskView;

    open spec fn view(&self) -> TaskView {
        TaskView {
            id: self.id@,
            name: self.name@,
            status: self.status,
            created_at: self.created_at,
            time_spent: self.time_spent,
        }
    }
}

/// The value of an optional task.
pub open spec fn opt_view(t: Option<Task>) -> Option<TaskView> {
    match t {
        Some(t) => Some(t@),
        None => None,
    }
}

impl Clone for Task {
    fn clone(&self) -> (r: Task)
        ensures
            r@ == self@,
    {
        Task {
            id: self.id.clone(),
            name: self.name.clone(),
            status: self.status,
            created_at: self.created_at,
            time_spent: self.time_spent,
        }
    }
}

/// The human-readable form of a status.
pub open spec fn status_text(s: Status) -> Seq<char> {
    match s {
        Status::Pending => "Pending"@,
        Status::InProgress(since) => "In Progress since "@ + decimal(since as nat),
        Status::Completed => "Completed"@,
        Status::Dropped => "Dropped"@,
        Status::Deferred(until) => "Deferred until "@ + decimal(until as nat),
        Status::OnHold => "On Hold"@,
    }
}

/// The human-readable form of a task: its id, name, status, creation time and time spent.
pub open spec fn task_text(t: TaskView) -> Seq<char> {
    "Task(id: "@ + t.id + ", name: "@ + t.name + ", status: "@ + status_text(t.status)
        + ", created_at: "@ + decimal(t.created_at as nat) + ", time_spent: "@ + decimal(
        t.time_spent as nat,
    ) + ")"@
}

impl Status {
    /// Renders the status for people.
    pub fn to_string(&self) -> (r: String)
        ensures
            r@ == status_text(*self),
    {
        match self {
            Status::Pending => String::from_str("Pending"),
            Status::InProgress(since) => {
                let mut s = String::from_str("In Progress since ");
                let n = decimal_text(*since);
                s.append(n.as_str());
                s
            },
            Status::Completed => String::from_str("Completed"),
            Status::Dropped => String::from_str("Dropped"),
            Status::Deferred(until) => {
                let mut s = String::from_str("Deferred until ");
                let n = decimal_text(*until);
                s.append(n.as_str());
                s
            },
            Status::OnHold => String::from_str("On Hold"),
        }
    }
}

impl Task {
    /// Renders the task for people, one line.
    pub fn to_string(&self) -> (r: String)
        ensures
            r@ == task_text(self@),
    {
        let mut s = String::from_str("Task(id: ");
        s.append(self.id.as_str());
        s.append(", name: ");
        s.append(self.name.as_str());
        s.append(", status: ");
        let st = self.status.to_string();
        s.append(st.as_str());
        s.append(", created_at: ");
        let c = decimal_text(self.created_at);
        s.append(c.as_str());
        s.append(", time_spent: ");
        let t = decimal_text(self.time_spent);
        s.append(t.as_str());
        s.append(")");
        s
    }
}

/// The library's error: one kind, with a message that says what failed.
#[derive(Debug, PartialEq, Eq)]
pub enum WimmError {
    DbError(String),
}

/// The message of the error for an id that no stored task has.
pub open spec fn not_found_text(id: Seq<char>) -> Seq<char> {
    "Task not found for ID: "@ + id
}

impl WimmError {
    /// The error for an id that no stored task has.
    pub fn not_found(id: &str) -> (r: WimmError)
        ensures
            r == WimmError::DbError(r->DbError_0),
            r->DbError_0@ == not_found_text(id@),
    {
        let mut s = String::from_str("Task not found for ID: ");
        s.append(id);
        WimmError::DbError(s)
    }

    /// The error for a clock that reads earlier than the Unix epoch.
    pub fn clock_error() -> (r: WimmError)
        ensures
            r->DbError_0@ == "Time went backwards"@,
    {
        WimmError::DbError(String::from_str("Time went backwards"))
    }

    /// The message the error carries.
    pub fn message(&self) -> (r: &String)
        ensures
            r == self->DbError_0,
    {
        match self {
            WimmError::DbError(m) => m,
        }
    }

    /// Renders the error for people.
    pub fn to_string(&self) -> (r: String)
        ensures
            r@ == "Database error: "@ + self->DbError_0@,
    {
        let mut s = String::from_str("Database error: ");
        s.append(self.message().as_str());
        s
    }
}

} // verus!
