//! The transactional task store: records keyed by id.
//!
//! Each operation of a store is one transaction: it commits in full or, on an
//! error, leaves the store as it was.

use vstd::prelude::*;
use vstd::string::*;
use crate::lifecycle::{decide_spec, Transition};
use crate::model::{Task, TaskView, WimmError, not_found_text, opt_view};

verus! {

/// The values of a sequence of tasks.
pub open spec fn views(v: Seq<Task>) -> Seq<TaskView> {
    v.map_values(|t: Task| t@)
}

/// `v` lists the records of `m`: each once, in some order.
pub open spec fn lists(v: Seq<TaskView>, m: Map<Seq<char>, TaskView>) -> bool {
    &&& forall|i: int, j: int| 0 <= i < j < v.len() ==> v[i].id != v[j].id
    &&& forall|i: int| 0 <= i < v.len() ==> m.contains_key(#[trigger] v[i].id) && m[v[i].id] == v[i]
    &&& forall|k: Seq<char>| m.contains_key(k) ==> exists|i: int| 0 <= i < v.len() && v[i].id == k
}

/// The store's records after `step` on the record under `id` at `now`.
pub open spec fn updated(
    m: Map<Seq<char>, TaskView>,
    id: Seq<char>,
    step: Transition,
    now: u64,
) -> Map<Seq<char>, TaskView> {
    match decide_spec(step, m[id], now) {
        Some(n) => m.insert(id, n),
        None => m,
    }
}

/// `r` is the error for an id that no stored task has.
pub open spec fn is_not_found<T>(r: Result<T, WimmError>, id: Seq<char>) -> bool {
    r matches Err(WimmError::DbError(m)) && m@ == not_found_text(id)
}

/// Starting a task twice in a row: the second start leaves the store as the first
/// left it, start instant and time spent included.
pub proof fn store_start_twice(m: Map<Seq<char>, TaskView>, id: Seq<char>, first: u64, second: u64)
    requires
        m.contains_key(id),
    ensures
        updated(updated(m, id, Transition::Start, first), id, Transition::Start, second)
            == updated(m, id, Transition::Start, first),
{
    let m1 = updated(m, id, Transition::Start, first);
    assert(m1.contains_key(id));
    crate::lifecycle::start_is_idempotent(m[id], first, second);
}

/// Completing a task twice in a row: the second completion leaves the store as the
/// first left it, time spent included.
pub proof fn store_complete_twice(m: Map<Seq<char>, TaskView>, id: Seq<char>, first: u64, second: u64)
    requires
        m.contains_key(id),
    ensures
        updated(updated(m, id, Transition::Complete, first), id, Transition::Complete, second)
            == updated(m, id, Transition::Complete, first),
{
    let m1 = updated(m, id, Transition::Complete, first);
    assert(m1.contains_key(id));
    crate::lifecycle::complete_is_idempotent(m[id], first, second);
}

/// Pausing a task that is not running leaves the store unchanged.
pub proof fn store_pause_idle(m: Map<Seq<char>, TaskView>, id: Seq<char>, now: u64)
    requires
        m.contains_key(id),
        !(m[id].status is InProgress),
    ensures
        updated(m, id, Transition::Pause, now) == m,
{
}

/// No transition lowers the time spent of any stored task.
pub proof fn store_time_spent_grows(
    m: Map<Seq<char>, TaskView>,
    id: Seq<char>,
    step: Transition,
    now: u64,
    k: Seq<char>,
)
    requires
        m.contains_key(id),
        m.contains_key(k),
    ensures
        updated(m, id, step, now).contains_key(k),
        m[k].time_spent <= updated(m, id, step, now)[k].time_spent,
{
    crate::lifecycle::step_never_lowers_time_spent(step, m[id], now);
}

/// A store of task records keyed by id. Every operation is a transaction of its own.
pub trait TaskStore {
    /// The store's own consistency.
    spec fn inv(&self) -> bool;

    /// The committed records, by id.
    spec fn contents(&self) -> Map<Seq<char>, TaskView>;

    /// Whether the store's operations cannot fail for reasons of its own
    /// (disk, transaction conflicts); such a store fails only as the contracts say.
    spec fn infallible(&self) -> bool;

    /// Scans every record. The order is the store's.
    fn get_tasks(&self) -> (r: Result<Vec<Task>, WimmError>)
        requires
            self.inv(),
        ensures
            r matches Ok(v) ==> lists(views(v@), self.contents()),
            self.infallible() ==> r is Ok,
    ;

    /// Looks a record up by id.
    fn get_task(&self, id: &str) -> (r: Result<Option<Task>, WimmError>)
        requires
            self.inv(),
        ensures
            r matches Ok(t) ==> opt_view(t) == (if self.contents().contains_key(id@) {
                Some(self.contents()[id@])
            } else {
                None
            }),
            self.infallible() ==> r is Ok,
    ;

    /// Inserts a new record; an id already stored is refused.
    fn insert_task(&mut self, task: &Task) -> (r: Result<(), WimmError>)
        requires
            old(self).inv(),
        ensures
            final(self).inv(),
            final(self).infallible() == old(self).infallible(),
            r is Ok ==> !old(self).contents().contains_key(task.id@) && final(self).contents()
                == old(self).contents().insert(task.id@, task@),
            r is Err ==> final(self).contents() == old(self).contents(),
            old(self).contents().contains_key(task.id@) ==> r is Err,
            old(self).infallible() ==> (r is Ok <==> !old(self).contents().contains_key(
                task.id@,
            )),
    ;

    /// Removes the record under `id`, whatever its status.
    fn delete_task(&mut self, id: &str) -> (r: Result<(), WimmError>)
        requires
            old(self).inv(),
        ensures
            final(self).inv(),
            final(self).infallible() == old(self).infallible(),
            r is Ok ==> old(self).contents().contains_key(id@) && final(self).contents()
                == old(self).contents().remove(id@),
            r is Err ==> final(self).contents() == old(self).contents(),
            !old(self).contents().contains_key(id@) ==> is_not_found(r, id@),
            old(self).infallible() ==> (r is Ok <==> old(self).contents().contains_key(id@)),
    ;

    /// Reads the record under `id`, decides `step` on it at `now`, and writes the
    /// decision back unless it is to change nothing: one read-decide-commit.
    fn update_task(&mut self, id: &str, step: Transition, now: u64) -> (r: Result<(), WimmError>)
        requires
            old(self).inv(),
        ensures
            final(self).inv(),
            final(self).infallible() == old(self).infallible(),
            r is Ok ==> old(self).contents().contains_key(id@) && final(self).contents()
                == updated(old(self).contents(), id@, step, now),
            r is Err ==> final(self).contents() == old(self).contents(),
            !old(self).contents().contains_key(id@) ==> is_not_found(r, id@),
            old(self).infallible() ==> (r is Ok <==> old(self).contents().contains_key(id@)),
    ;
}

/// A store held in memory, in insertion order. Its operations never fail on their own.
pub struct MemStore {
    tasks: Vec<Task>,
    index: Ghost<Map<Seq<char>, TaskView>>,
}

proof fn lemma_lists_push(v: Seq<TaskView>, m: Map<Seq<char>, TaskView>, t: TaskView)
    requires
        lists(v, m),
        !m.contains_key(t.id),
    ensures
        lists(v.push(t), m.insert(t.id, t)),
{
    let w = v.push(t);
    let n = m.insert(t.id, t);
    assert forall|k: Seq<char>| n.contains_key(k) implies exists|i: int|
        0 <= i < w.len() && w[i].id == k by {
        if k == t.id {
            assert(w[v.len() as int].id == k);
        } else {
            let i = choose|i: int| 0 <= i < v.len() && v[i].id == k;
            assert(w[i].id == k);
        }
    }
}

proof fn lemma_lists_remove(v: Seq<TaskView>, m: Map<Seq<char>, TaskView>, i: int)
    requires
        lists(v, m),
        0 <= i < v.len(),
    ensures
        lists(v.remove(i), m.remove(v[i].id)),
{
    let w = v.remove(i);
    let n = m.remove(v[i].id);
    assert forall|a: int, b: int| 0 <= a < b < w.len() implies w[a].id != w[b].id by {
        let a0 = if a < i { a } else { a + 1 };
        let b0 = if b < i { b } else { b + 1 };
        assert(w[a] == v[a0] && w[b] == v[b0]);
    }
    assert forall|j: int| 0 <= j < w.len() implies n.contains_key(#[trigger] w[j].id) && n[w[j].id]
        == w[j] by {
        let j0 = if j < i { j } else { j + 1 };
        assert(w[j] == v[j0]);
        assert(v[j0].id != v[i].id);
    }
    assert forall|k: Seq<char>| n.contains_key(k) implies exists|j: int|
        0 <= j < w.len() && w[j].id == k by {
        let j0 = choose|j: int| 0 <= j < v.len() && v[j].id == k;
        assert(j0 != i);
        if j0 < i {
            assert(w[j0].id == k);
        } else {
            assert(w[j0 - 1].id == k);
        }
    }
}

proof fn lemma_lists_update(v: Seq<TaskView>, m: Map<Seq<char>, TaskView>, i: int, t: TaskView)
    requires
        lists(v, m),
        0 <= i < v.len(),
        t.id == v[i].id,
    ensures
        lists(v.update(i, t), m.insert(t.id, t)),
{
    let w = v.update(i, t);
    let n = m.insert(t.id, t);
    assert forall|a: int, b: int| 0 <= a < b < w.len() implies w[a].id != w[b].id by {
        assert(v[a].id != v[b].id);
    }
    assert forall|k: Seq<char>| n.contains_key(k) implies exists|j: int|
        0 <= j < w.len() && w[j].id == k by {
        let j0 = choose|j: int| 0 <= j < v.len() && v[j].id == k;
        assert(w[j0].id == k);
    }
}

impl MemStore {
    /// The store's consistency: its vector lists its records.
    pub closed spec fn wf(&self) -> bool {
        lists(views(self.tasks@), self.index@)
    }

    /// An empty store.
    pub fn new() -> (r: MemStore)
        ensures
            r.inv(),
            r.contents() == Map::<Seq<char>, TaskView>::empty(),
            r.infallible(),
    {
        let r = MemStore { tasks: Vec::new(), index: Ghost(Map::empty()) };
        assert(views(r.tasks@) =~= Seq::<TaskView>::empty());
        r
    }

    fn find(&self, id: &str) -> (r: Option<usize>)
        requires
            self.wf(),
        ensures
            r matches Some(i) ==> i < self.tasks@.len() && self.tasks@[i as int]@.id == id@,
            r is None ==> !self.index@.contains_key(id@),
    {
        let key = String::from_str(id);
        let mut i: usize = 0;
        while i < self.tasks.len()
            invariant
                self.wf(),
                key@ == id@,
                i <= self.tasks@.len(),
                forall|j: int| 0 <= j < i ==> self.tasks@[j]@.id != id@,
            decreases self.tasks@.len() - i,
        {
            if self.tasks[i].id == key {
                return Some(i);
            }
            i = i + 1;
        }
        proof {
            if self.index@.contains_key(id@) {
                let v = views(self.tasks@);
                let j = choose|j: int| 0 <= j < v.len() && v[j].id == id@;
                assert(v[j] == self.tasks@[j]@);
            }
        }
        None
    }
}

impl TaskStore for MemStore {
    closed spec fn inv(&self) -> bool {
        self.wf()
    }

    closed spec fn contents(&self) -> Map<Seq<char>, TaskView> {
        self.index@
    }

    open spec fn infallible(&self) -> bool {
        true
    }

    fn get_tasks(&self) -> (r: Result<Vec<Task>, WimmError>) {
        let mut out: Vec<Task> = Vec::new();
        let mut i: usize = 0;
        while i < self.tasks.len()
            invariant
                i <= self.tasks@.len(),
                views(out@) == views(self.tasks@).take(i as int),
            decreases self.tasks@.len() - i,
        {
            let t = self.tasks[i].clone();
            let ghost before = out@;
            out.push(t);
            proof {
                assert(views(out@) =~= views(before).push(t@));
                assert(views(self.tasks@).take(i + 1) =~= views(self.tasks@).take(i as int).push(
                    self.tasks@[i as int]@,
                ));
            }
            i = i + 1;
        }
        assert(views(self.tasks@).take(i as int) =~= views(self.tasks@));
        Ok(out)
    }

    fn get_task(&self, id: &str) -> (r: Result<Option<Task>, WimmError>) {
        match self.find(id) {
            Some(i) => {
                assert(views(self.tasks@)[i as int] == self.tasks@[i as int]@);
                Ok(Some(self.tasks[i].clone()))
            },
            None => Ok(None),
        }
    }

    fn insert_task(&mut self, task: &Task) -> (r: Result<(), WimmError>) {
        match self.find(task.id.as_str()) {
            Some(i) => {
                proof {
                    assert(views(self.tasks@)[i as int] == self.tasks@[i as int]@);
                }
                let mut m = String::from_str("Duplicate key for ID: ");
                m.append(task.id.as_str());
                Err(WimmError::DbError(m))
            },
            None => {
                let ghost before = self.tasks@;
                proof {
                    lemma_lists_push(views(before), self.index@, task@);
                }
                self.tasks.push(task.clone());
                self.index = Ghost(self.index@.insert(task.id@, task@));
                assert(views(self.tasks@) =~= views(before).push(task@));
                Ok(())
            },
        }
    }

    fn delete_task(&mut self, id: &str) -> (r: Result<(), WimmError>) {
        match self.find(id) {
            Some(i) => {
                let ghost before = self.tasks@;
                proof {
                    assert(views(before)[i as int] == before[i as int]@);
                    lemma_lists_remove(views(before), self.index@, i as int);
                }
                self.tasks.remove(i);
                self.index = Ghost(self.index@.remove(id@));
                assert(views(self.tasks@) =~= views(before).remove(i as int));
                Ok(())
            },
            None => Err(WimmError::not_found(id)),
        }
    }

    fn update_task(&mut self, id: &str, step: Transition, now: u64) -> (r: Result<(), WimmError>) {
        match self.find(id) {
            Some(i) => {
                let ghost before = self.tasks@;
                proof {
                    assert(views(before)[i as int] == before[i as int]@);
                }
                match step.decide(&self.tasks[i], now) {
                    Some(next) => {
                        proof {
                            crate::lifecycle::decision_keeps_identity(step, before[i as int]@, now);
                            lemma_lists_update(views(before), self.index@, i as int, next@);
                        }
                        self.tasks.set(i, next);
                        self.index = Ghost(self.index@.insert(id@, self.tasks@[i as int]@));
                        assert(views(self.tasks@) =~= views(before).update(
                            i as int,
                            self.tasks@[i as int]@,
                        ));
                        Ok(())
                    },
                    None => Ok(()),
                }
            },
            None => Err(WimmError::not_found(id)),
        }
    }
}

} // verus!
