//! The task lifecycle: what start, pause and complete do to a task record.
//!
//! Each transition is a decision on the current record: either a new record, or
//! nothing to change. Time spent only ever grows.

use vstd::prelude::*;
use crate::clock::{fresh_id, is_hyphenated_uuid, unix_now};
use crate::model::{Status, Task, TaskView, WimmError, opt_view};

verus! {

/// Seconds from `started_at` to `now`; none when the clock reads earlier than the start.
pub open spec fn elapsed_spec(now: u64, started_at: u64) -> u64 {
    if now >= started_at {
        (now - started_at) as u64
    } else {
        0
    }
}

/// `spent + more`, held at the largest `u64`.
pub open spec fn add_time(spent: u64, more: u64) -> u64 {
    if spent + more <= u64::MAX {
        (spent + more) as u64
    } else {
        u64::MAX
    }
}

/// Whole seconds between the start of a session and `now`.
pub fn elapsed(now: u64, started_at: u64) -> (r: u64)
    ensures
        r == elapsed_spec(now, started_at),
{
    now.saturating_sub(started_at)
}

/// A transition of the lifecycle that a caller asks for.
#[derive(Debug, Clone, Copy, PartialEq, Eq, Structural)]
pub enum Transition {
    Start,
    Pause,
    Complete,
}

/// A record equal to `t` but for its status and time spent.
pub open spec fn with_status(t: TaskView, status: Status, time_spent: u64) -> TaskView {
    TaskView { id: t.id, name: t.name, status, created_at: t.created_at, time_spent }
}

/// Start: a running task keeps its session; any other begins one at `now`.
pub open spec fn start_spec(t: TaskView, now: u64) -> Option<TaskView> {
    match t.status {
        Status::InProgress(_) => None,
        _ => Some(with_status(t, Status::InProgress(now), t.time_spent)),
    }
}

/// Pause: a running task goes on hold and counts its session; others are left alone.
pub open spec fn pause_spec(t: TaskView, now: u64) -> Option<TaskView> {
    match t.status {
        Status::InProgress(started_at) => Some(
            with_status(t, Status::OnHold, add_time(t.time_spent, elapsed_spec(now, started_at))),
        ),
        _ => None,
    }
}

/// Complete: a completed task stays as it is; a running one counts its session.
pub open spec fn complete_spec(t: TaskView, now: u64) -> Option<TaskView> {
    match t.status {
        Status::Completed => None,
        Status::InProgress(started_at) => Some(
            with_status(
                t,
                Status::Completed,
                add_time(t.time_spent, elapsed_spec(now, started_at)),
            ),
        ),
        _ => Some(with_status(t, Status::Completed, t.time_spent)),
    }
}

/// The decision of `step` on `t` at `now`: a new record, or none for no change.
pub open spec fn decide_spec(step: Transition, t: TaskView, now: u64) -> Option<TaskView> {
    match step {
        Transition::Start => start_spec(t, now),
        Transition::Pause => pause_spec(t, now),
        Transition::Complete => complete_spec(t, now),
    }
}

/// The record after `step`: the decision's record, or `t` itself where nothing changes.
pub open spec fn apply_spec(step: Transition, t: TaskView, now: u64) -> TaskView {
    match decide_spec(step, t, now) {
        Some(n) => n,
        None => t,
    }
}

/// The record after each step of `ops` in turn, each with its own clock reading.
pub open spec fn run_spec(t: TaskView, ops: Seq<(Transition, u64)>) -> TaskView
    decreases ops.len(),
{
    if ops.len() == 0 {
        t
    } else {
        run_spec(apply_spec(ops[0].0, t, ops[0].1), ops.drop_first())
    }
}

/// A fresh record: pending, created at `now`, no time spent.
pub open spec fn new_task_spec(id: Seq<char>, name: Seq<char>, now: u64) -> TaskView {
    TaskView { id, name, status: Status::Pending, created_at: now, time_spent: 0 }
}

fn restatus(task: &Task, status: Status, time_spent: u64) -> (r: Task)
    ensures
        r@ == with_status(task@, status, time_spent),
{
    Task {
        id: task.id.clone(),
        name: task.name.clone(),
        status,
        created_at: task.created_at,
        time_spent,
    }
}

/// Decides a start at `now`.
pub fn decide_start(task: &Task, now: u64) -> (r: Option<Task>)
    ensures
        opt_view(r) == start_spec(task@, now),
{
    match task.status {
        Status::InProgress(_) => None,
        _ => Some(restatus(task, Status::InProgress(now), task.time_spent)),
    }
}

/// Decides a pause at `now`.
pub fn decide_pause(task: &Task, now: u64) -> (r: Option<Task>)
    ensures
        opt_view(r) == pause_spec(task@, now),
{
    match task.status {
        Status::InProgress(started_at) => {
            let spent = task.time_spent.saturating_add(elapsed(now, started_at));
            Some(restatus(task, Status::OnHold, spent))
        },
        _ => None,
    }
}

/// Decides a completion at `now`.
pub fn decide_complete(task: &Task, now: u64) -> (r: Option<Task>)
    ensures
        opt_view(r) == complete_spec(task@, now),
{
    match task.status {
        Status::Completed => None,
        Status::InProgress(started_at) => {
            let spent = task.time_spent.saturating_add(elapsed(now, started_at));
            Some(restatus(task, Status::Completed, spent))
        },
        _ => Some(restatus(task, Status::Completed, task.time_spent)),
    }
}

impl Transition {
    /// Decides this transition on `task` at `now`.
    pub fn decide(&self, task: &Task, now: u64) -> (r: Option<Task>)
        ensures
            opt_view(r) == decide_spec(*self, task@, now),
    {
        match self {
            Transition::Start => decide_start(task, now),
            Transition::Pause => decide_pause(task, now),
            Transition::Complete => decide_complete(task, now),
        }
    }
}

/// Builds the record of a task added under `id` at `now`.
pub fn task_record(id: String, name: &str, now: u64) -> (r: Task)
    ensures
        r@ == new_task_spec(id@, name@, now),
{
    Task {
        id,
        name: name.to_string(),
        status: Status::Pending,
        created_at: now,
        time_spent: 0,
    }
}

/// A fresh record named `name`: a random id, created now. Fails only where the
/// clock reads before the Unix epoch.
pub fn new_task(name: &str) -> (r: Result<Task, WimmError>)
    ensures
        r matches Ok(t) ==> exists|now: u64| t@ == new_task_spec(t.id@, name@, now),
        r matches Ok(t) ==> is_hyphenated_uuid(t.id@),
        r matches Err(e) ==> e->DbError_0@ == "Time went backwards"@,
{
    match unix_now() {
        Some(now) => {
            let id = fresh_id();
            Ok(task_record(id, name, now))
        },
        None => Err(WimmError::clock_error()),
    }
}

/// Every decision keeps the task's identity: id, name and creation time.
pub proof fn decision_keeps_identity(step: Transition, t: TaskView, now: u64)
    ensures
        decide_spec(step, t, now) matches Some(n) ==> n.id == t.id && n.name == t.name
            && n.created_at == t.created_at,
{
}

/// A session is open exactly when the task is in progress: after a start there is
/// one, and after a pause or a completion there is none.
pub proof fn session_open_only_after_start(step: Transition, t: TaskView, now: u64)
    ensures
        step == Transition::Start ==> apply_spec(step, t, now).status is InProgress,
        step != Transition::Start ==> !(apply_spec(step, t, now).status is InProgress),
{
}

/// Starting twice in a row: the second start changes nothing, so the start
/// instant and the time spent stay as the first start left them.
pub proof fn start_is_idempotent(t: TaskView, first: u64, second: u64)
    ensures
        apply_spec(Transition::Start, apply_spec(Transition::Start, t, first), second)
            == apply_spec(Transition::Start, t, first),
        decide_spec(Transition::Start, apply_spec(Transition::Start, t, first), second)
            is None,
{
}

/// Completing twice in a row: the second completion changes nothing, time spent included.
pub proof fn complete_is_idempotent(t: TaskView, first: u64, second: u64)
    ensures
        apply_spec(Transition::Complete, apply_spec(Transition::Complete, t, first), second)
            == apply_spec(Transition::Complete, t, first),
        decide_spec(Transition::Complete, apply_spec(Transition::Complete, t, first), second)
            is None,
{
}

/// Pausing a task that is not running changes nothing.
pub proof fn pause_of_idle_task_is_no_op(t: TaskView, now: u64)
    requires
        !(t.status is InProgress),
    ensures
        decide_spec(Transition::Pause, t, now) is None,
        apply_spec(Transition::Pause, t, now) == t,
{
}

/// One transition never lowers the time spent.
pub proof fn step_never_lowers_time_spent(step: Transition, t: TaskView, now: u64)
    ensures
        t.time_spent <= apply_spec(step, t, now).time_spent,
{
}

/// Over any sequence of transitions, the time spent never decreases.
pub proof fn time_spent_is_monotonic(t: TaskView, ops: Seq<(Transition, u64)>)
    ensures
        t.time_spent <= run_spec(t, ops).time_spent,
    decreases ops.len(),
{
    if ops.len() > 0 {
        step_never_lowers_time_spent(ops[0].0, t, ops[0].1);
        time_spent_is_monotonic(apply_spec(ops[0].0, t, ops[0].1), ops.drop_first());
    }
}

} // verus!
