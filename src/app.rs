//! The lifecycle engine: add, start, pause, complete, delete and list, each one
//! transaction of the task store.

use vstd::prelude::*;
use crate::clock::unix_now;
use crate::lifecycle::{new_task, new_task_spec, task_record, Transition};
use crate::model::{Task, TaskView, WimmError};
use crate::store::{TaskStore, is_not_found, lists, updated, views};

verus! {

/// The engine over a store of tasks.
pub struct App<S: TaskStore> {
    store: S,
}

/// `r` is the error for a clock that reads earlier than the epoch.
pub open spec fn is_clock_error<T>(r: Result<T, WimmError>) -> bool {
    r matches Err(WimmError::DbError(m)) && m@ == "Time went backwards"@
}

impl<S: TaskStore> App<S> {
    /// The engine's consistency: that of its store.
    pub closed spec fn inv(&self) -> bool {
        self.store.inv()
    }

    /// The committed tasks, by id.
    pub closed spec fn tasks(&self) -> Map<Seq<char>, TaskView> {
        self.store.contents()
    }

    /// Whether the store fails only as the contracts say.
    pub closed spec fn infallible(&self) -> bool {
        self.store.infallible()
    }

    /// An engine over `store`.
    pub fn new(store: S) -> (r: App<S>)
        requires
            store.inv(),
        ensures
            r.inv(),
            r.tasks() == store.contents(),
            r.infallible() == store.infallible(),
    {
        App { store }
    }

    /// Adds a pending task named `name`, created at `now`, under `id`. An id that is
    /// already stored is refused.
    pub fn add_task_at(&mut self, id: String, name: &str, now: u64) -> (r: Result<String, WimmError>)
        requires
            old(self).inv(),
        ensures
            final(self).inv(),
            final(self).infallible() == old(self).infallible(),
            r matches Ok(rid) ==> rid@ == id@ && !old(self).tasks().contains_key(id@)
                && final(self).tasks() == old(self).tasks().insert(
                id@,
                new_task_spec(id@, name@, now),
            ),
            r is Err ==> final(self).tasks() == old(self).tasks(),
            old(self).infallible() ==> (r is Ok <==> !old(self).tasks().contains_key(id@)),
    {
        let task = task_record(id, name, now);
        match self.store.insert_task(&task) {
            Ok(()) => Ok(task.id),
            Err(e) => Err(e),
        }
    }

    /// Adds a pending task named `name` under a fresh random id, created now.
    pub fn add_task(&mut self, name: &str) -> (r: Result<String, WimmError>)
        requires
            old(self).inv(),
        ensures
            final(self).inv(),
            final(self).infallible() == old(self).infallible(),
            r matches Ok(id) ==> !old(self).tasks().contains_key(id@) && exists|now: u64|
                final(self).tasks() == old(self).tasks().insert(
                    id@,
                    #[trigger] new_task_spec(id@, name@, now),
                ),
            r is Err ==> final(self).tasks() == old(self).tasks(),
            r is Err && old(self).infallible() ==> is_clock_error(r) || exists|k: Seq<char>|
                k.len() == 36 && #[trigger] old(self).tasks().contains_key(k),
    {
        let task = match new_task(name) {
            Ok(t) => t,
            Err(e) => return Err(e),
        };
        match self.store.insert_task(&task) {
            Ok(()) => Ok(task.id),
            Err(e) => Err(e),
        }
    }

    /// Runs `step` at `now` on the task under `id`.
    pub fn transition_at(&mut self, id: &str, step: Transition, now: u64) -> (r: Result<(), WimmError>)
        requires
            old(self).inv(),
        ensures
            final(self).inv(),
            final(self).infallible() == old(self).infallible(),
            r is Ok ==> old(self).tasks().contains_key(id@) && final(self).tasks() == updated(
                old(self).tasks(),
                id@,
                step,
                now,
            ),
            r is Err ==> final(self).tasks() == old(self).tasks(),
            !old(self).tasks().contains_key(id@) ==> is_not_found(r, id@),
            old(self).infallible() ==> (r is Ok <==> old(self).tasks().contains_key(id@)),
    {
        self.store.update_task(id, step, now)
    }

    /// Runs `step` now on the task under `id`.
    pub fn transition(&mut self, id: &str, step: Transition) -> (r: Result<(), WimmError>)
        requires
            old(self).inv(),
        ensures
            final(self).inv(),
            final(self).infallible() == old(self).infallible(),
            r is Ok ==> old(self).tasks().contains_key(id@) && exists|now: u64|
                final(self).tasks() == #[trigger] updated(old(self).tasks(), id@, step, now),
            r is Err ==> final(self).tasks() == old(self).tasks(),
            r is Err ==> is_clock_error(r) || !old(self).tasks().contains_key(id@) || !old(
                self,
            ).infallible(),
            !old(self).tasks().contains_key(id@) ==> is_not_found(r, id@) || is_clock_error(r),
    {
        match unix_now() {
            Some(now) => self.transition_at(id, step, now),
            None => Err(WimmError::clock_error()),
        }
    }

    /// Starts the task under `id` at `now`; a running task keeps its session.
    pub fn start_task_at(&mut self, id: &str, now: u64) -> (r: Result<(), WimmError>)
        requires
            old(self).inv(),
        ensures
            final(self).inv(),
            final(self).infallible() == old(self).infallible(),
            r is Ok ==> old(self).tasks().contains_key(id@) && final(self).tasks() == updated(
                old(self).tasks(),
                id@,
                Transition::Start,
                now,
            ),
            r is Err ==> final(self).tasks() == old(self).tasks(),
            !old(self).tasks().contains_key(id@) ==> is_not_found(r, id@),
            old(self).infallible() ==> (r is Ok <==> old(self).tasks().contains_key(id@)),
    {
        self.transition_at(id, Transition::Start, now)
    }

    /// Pauses the task under `id` at `now`, counting its session; a task that is not
    /// running is left alone.
    pub fn pause_task_at(&mut self, id: &str, now: u64) -> (r: Result<(), WimmError>)
        requires
            old(self).inv(),
        ensures
            final(self).inv(),
            final(self).infallible() == old(self).infallible(),
            r is Ok ==> old(self).tasks().contains_key(id@) && final(self).tasks() == updated(
                old(self).tasks(),
                id@,
                Transition::Pause,
                now,
            ),
            r is Err ==> final(self).tasks() == old(self).tasks(),
            !old(self).tasks().contains_key(id@) ==> is_not_found(r, id@),
            old(self).infallible() ==> (r is Ok <==> old(self).tasks().contains_key(id@)),
    {
        self.transition_at(id, Transition::Pause, now)
    }

    /// Completes the task under `id` at `now`, counting an open session; a completed
    /// task is left alone.
    pub fn complete_task_at(&mut self, id: &str, now: u64) -> (r: Result<(), WimmError>)
        requires
            old(self).inv(),
        ensures
            final(self).inv(),
            final(self).infallible() == old(self).infallible(),
            r is Ok ==> old(self).tasks().contains_key(id@) && final(self).tasks() == updated(
                old(self).tasks(),
                id@,
                Transition::Complete,
                now,
            ),
            r is Err ==> final(self).tasks() == old(self).tasks(),
            !old(self).tasks().contains_key(id@) ==> is_not_found(r, id@),
            old(self).infallible() ==> (r is Ok <==> old(self).tasks().contains_key(id@)),
    {
        self.transition_at(id, Transition::Complete, now)
    }

    /// Starts the task under `id` now.
    pub fn start_task(&mut self, id: &str) -> (r: Result<(), WimmError>)
        requires
            old(self).inv(),
        ensures
            final(self).inv(),
            r is Ok ==> old(self).tasks().contains_key(id@) && exists|now: u64|
                final(self).tasks() == #[trigger] updated(
                    old(self).tasks(),
                    id@,
                    Transition::Start,
                    now,
                ),
            final(self).infallible() == old(self).infallible(),
            r is Err ==> final(self).tasks() == old(self).tasks(),
            r is Err ==> is_clock_error(r) || !old(self).tasks().contains_key(id@) || !old(
                self,
            ).infallible(),
            !old(self).tasks().contains_key(id@) ==> is_not_found(r, id@) || is_clock_error(r),
    {
        self.transition(id, Transition::Start)
    }

    /// Pauses the task under `id` now.
    pub fn pause_task(&mut self, id: &str) -> (r: Result<(), WimmError>)
        requires
            old(self).inv(),
        ensures
            final(self).inv(),
            r is Ok ==> old(self).tasks().contains_key(id@) && exists|now: u64|
                final(self).tasks() == #[trigger] updated(
                    old(self).tasks(),
                    id@,
                    Transition::Pause,
                    now,
                ),
            final(self).infallible() == old(self).infallible(),
            r is Err ==> final(self).tasks() == old(self).tasks(),
            r is Err ==> is_clock_error(r) || !old(self).tasks().contains_key(id@) || !old(
                self,
            ).infallible(),
            !old(self).tasks().contains_key(id@) ==> is_not_found(r, id@) || is_clock_error(r),
    {
        self.transition(id, Transition::Pause)
    }

    /// Completes the task under `id` now.
    pub fn complete_task(&mut self, id: &str) -> (r: Result<(), WimmError>)
        requires
            old(self).inv(),
        ensures
            final(self).inv(),
            r is Ok ==> old(self).tasks().contains_key(id@) && exists|now: u64|
                final(self).tasks() == #[trigger] updated(
                    old(self).tasks(),
                    id@,
                    Transition::Complete,
                    now,
                ),
            final(self).infallible() == old(self).infallible(),
            r is Err ==> final(self).tasks() == old(self).tasks(),
            r is Err ==> is_clock_error(r) || !old(self).tasks().contains_key(id@) || !old(
                self,
            ).infallible(),
            !old(self).tasks().contains_key(id@) ==> is_not_found(r, id@) || is_clock_error(r),
    {
        self.transition(id, Transition::Complete)
    }

    /// Deletes the task under `id`, whatever its status.
    pub fn delete_task(&mut self, id: &str) -> (r: Result<(), WimmError>)
        requires
            old(self).inv(),
        ensures
            final(self).inv(),
            final(self).infallible() == old(self).infallible(),
            r is Ok ==> old(self).tasks().contains_key(id@) && final(self).tasks() == old(
                self,
            ).tasks().remove(id@),
            r is Err ==> final(self).tasks() == old(self).tasks(),
            !old(self).tasks().contains_key(id@) ==> is_not_found(r, id@),
            old(self).infallible() ==> (r is Ok <==> old(self).tasks().contains_key(id@)),
    {
        self.store.delete_task(id)
    }

    /// Every task, in the store's order, unfiltered.
    pub fn get_tasks(&self) -> (r: Result<Vec<Task>, WimmError>)
        requires
            self.inv(),
        ensures
            r matches Ok(v) ==> lists(views(v@), self.tasks()),
            self.infallible() ==> r is Ok,
    {
        self.store.get_tasks()
    }

    /// The task under `id`, if there is one.
    pub fn get_task(&self, id: &str) -> (r: Result<Option<Task>, WimmError>)
        requires
            self.inv(),
        ensures
            r matches Ok(Some(t)) ==> self.tasks().contains_key(id@) && t@ == self.tasks()[id@],
            r matches Ok(None) ==> !self.tasks().contains_key(id@),
            self.infallible() ==> r is Ok,
    {
        self.store.get_task(id)
    }
}

/// After a task is deleted, the store no longer holds its id and no listing of the
/// store shows it; so a second `delete_task` of it is the not-found error, by that
/// function's contract.
pub proof fn deleted_task_is_gone(m: Map<Seq<char>, TaskView>, id: Seq<char>, v: Seq<TaskView>)
    requires
        m.contains_key(id),
        lists(v, m.remove(id)),
    ensures
        !m.remove(id).contains_key(id),
        forall|i: int| 0 <= i < v.len() ==> v[i].id != id,
{
    assert forall|i: int| 0 <= i < v.len() implies v[i].id != id by {
        assert(m.remove(id).contains_key(v[i].id));
    }
}

/// Two tasks added one after the other, under the same name or any other, get
/// distinct ids.
pub proof fn added_ids_are_distinct(
    m: Map<Seq<char>, TaskView>,
    first: Seq<char>,
    second: Seq<char>,
    name: Seq<char>,
    now: u64,
)
    requires
        !m.contains_key(first),
        !m.insert(first, new_task_spec(first, name, now)).contains_key(second),
    ensures
        first != second,
{
}

} // verus!
