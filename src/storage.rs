//! Storage of front-end tasks, keyed by id.

use vstd::prelude::*;
use vstd::string::*;
use std::collections::HashMap;
use crate::types::{Task, TodoView};

verus! {

/// What can go wrong in storage.
#[derive(Debug)]
pub enum DbError {
    /// The store could not be opened or reached.
    ConnectionError(String),
    /// A record could not be encoded or decoded.
    SerdeError(String),
    /// No task is stored under the id.
    NotFound(String),
    /// Any other failure of the store.
    OperationFailed(String),
}

/// The human-readable form of a storage error.
pub open spec fn db_error_text(e: DbError) -> Seq<char> {
    match e {
        DbError::ConnectionError(m) => "Database connection error: "@ + m@,
        DbError::SerdeError(m) => "Serialization/Deserialization error: "@ + m@,
        DbError::NotFound(m) => "Task not found: "@ + m@,
        DbError::OperationFailed(m) => "Database operation failed: "@ + m@,
    }
}

impl DbError {
    /// Renders the error for people.
    pub fn to_string(&self) -> (r: String)
        ensures
            r@ == db_error_text(*self),
    {
        let (mut s, m) = match self {
            DbError::ConnectionError(m) => (String::from_str("Database connection error: "), m),
            DbError::SerdeError(m) => (String::from_str("Serialization/Deserialization error: "), m),
            DbError::NotFound(m) => (String::from_str("Task not found: "), m),
            DbError::OperationFailed(m) => (String::from_str("Database operation failed: "), m),
        };
        s.append(m.as_str());
        s
    }
}

/// The values of a sequence of front-end tasks.
pub open spec fn todo_views(v: Seq<Task>) -> Seq<TodoView> {
    v.map_values(|t: Task| t@)
}

/// The keys and values of stored entries.
pub open spec fn entry_views(v: Seq<(String, Task)>) -> Seq<(Seq<char>, TodoView)> {
    v.map_values(|e: (String, Task)| (e.0@, e.1@))
}

/// `ks` are the keys under which `m` stores the values `v`, position by position:
/// every key of `m` once.
pub open spec fn keyed(ks: Seq<Seq<char>>, v: Seq<TodoView>, m: Map<Seq<char>, TodoView>) -> bool {
    &&& ks.len() == v.len()
    &&& forall|i: int, j: int| 0 <= i < j < ks.len() ==> ks[i] != ks[j]
    &&& forall|i: int| 0 <= i < ks.len() ==> m.contains_key(#[trigger] ks[i]) && m[ks[i]] == v[i]
    &&& forall|k: Seq<char>| m.contains_key(k) ==> exists|i: int| 0 <= i < ks.len() && ks[i] == k
}

/// `v` lists the values of `m`, one per key, in some order.
pub open spec fn listed_by_key(v: Seq<TodoView>, m: Map<Seq<char>, TodoView>) -> bool {
    exists|ks: Seq<Seq<char>>| #[trigger] keyed(ks, v, m)
}

/// `v` holds the entries of `m`: each key once, in some order.
pub open spec fn holds(v: Seq<(Seq<char>, TodoView)>, m: Map<Seq<char>, TodoView>) -> bool {
    &&& forall|i: int, j: int| 0 <= i < j < v.len() ==> v[i].0 != v[j].0
    &&& forall|i: int| 0 <= i < v.len() ==> m.contains_key(#[trigger] v[i].0) && m[v[i].0] == v[i].1
    &&& forall|k: Seq<char>| m.contains_key(k) ==> exists|i: int| 0 <= i < v.len() && v[i].0 == k
}

/// A task storage backend. Tasks are kept by id; saving under a stored id replaces.
pub trait Db {
    /// The backend's own consistency.
    spec fn well_formed(&self) -> bool;

    /// The stored tasks, by key.
    spec fn stored(&self) -> Map<Seq<char>, TodoView>;

    /// Whether the backend fails only as the contracts say.
    spec fn reliable(&self) -> bool;

    /// Every stored task, in the backend's order; empty storage gives an empty vector.
    fn load_tasks(&self) -> (r: Result<Vec<Task>, DbError>)
        requires
            self.well_formed(),
        ensures
            r matches Ok(v) ==> listed_by_key(todo_views(v@), self.stored()),
            self.reliable() ==> r is Ok,
    ;

    /// Saves `task` under its id, replacing what was stored there.
    fn save_task(&mut self, task: &Task) -> (r: Result<(), DbError>)
        requires
            old(self).well_formed(),
        ensures
            final(self).well_formed(),
            final(self).reliable() == old(self).reliable(),
            r is Ok ==> final(self).stored() == old(self).stored().insert(task.id@, task@),
            r is Err ==> final(self).stored() == old(self).stored(),
            old(self).reliable() ==> r is Ok,
    ;

    /// Removes the task under `task_id`; an id that is not stored gives `NotFound`.
    fn delete_task(&mut self, task_id: &str) -> (r: Result<(), DbError>)
        requires
            old(self).well_formed(),
        ensures
            final(self).well_formed(),
            final(self).reliable() == old(self).reliable(),
            r is Ok ==> old(self).stored().contains_key(task_id@) && final(self).stored()
                == old(self).stored().remove(task_id@),
            r is Err ==> final(self).stored() == old(self).stored(),
            !old(self).stored().contains_key(task_id@) ==> (r matches Err(DbError::NotFound(id))
                && id@ == task_id@),
            old(self).reliable() ==> (r is Ok <==> old(self).stored().contains_key(task_id@)),
    ;

    /// Removes every task.
    fn clear(&mut self) -> (r: Result<(), DbError>)
        requires
            old(self).well_formed(),
        ensures
            final(self).well_formed(),
            final(self).reliable() == old(self).reliable(),
            r is Ok ==> final(self).stored() == Map::<Seq<char>, TodoView>::empty(),
            r is Err ==> final(self).stored() == old(self).stored(),
            old(self).reliable() ==> r is Ok,
    ;
}

/// Relies on `HashMap::into_iter`: each entry of the map once, in the map's order.
#[verifier::external_body]
fn entries_of(m: HashMap<String, Task>) -> (r: Vec<(String, Task)>)
    ensures
        r@.len() == m@.len(),
        forall|i: int, j: int| 0 <= i < j < r@.len() ==> r@[i].0@ != r@[j].0@,
        forall|i: int| 0 <= i < r@.len() ==> #[trigger] m@.contains_key(r@[i].0) && m@[r@[i].0]
            == r@[i].1,
        forall|k: String| m@.contains_key(k) ==> exists|i: int| 0 <= i < r@.len() && r@[i].0 == k,
{
    m.into_iter().collect()
}

/// Storage in memory, for tests and for sessions that keep nothing.
///
/// The entries are held as a vector of key and task, keys distinct, in the order they
/// were first saved. A `HashMap` keyed by `String` would do the same work, but vstd
/// specifies a map's contents only for key types with a known hashing model, which
/// `String` is not; over a vector every operation below is proved.
pub struct MemoryStorage {
    tasks: Vec<(String, Task)>,
    index: Ghost<Map<Seq<char>, TodoView>>,
}

proof fn lemma_holds_values(v: Seq<(Seq<char>, TodoView)>, m: Map<Seq<char>, TodoView>, w: Seq<TodoView>)
    requires
        holds(v, m),
        w.len() == v.len(),
        forall|j: int| 0 <= j < w.len() ==> #[trigger] w[j] == v[j].1,
    ensures
        listed_by_key(w, m),
{
    let ks = v.map_values(|e: (Seq<char>, TodoView)| e.0);
    assert forall|i: int| 0 <= i < ks.len() implies m.contains_key(#[trigger] ks[i]) && m[ks[i]] == w[i] by {
        assert(ks[i] == v[i].0);
    }
    assert forall|i: int, j: int| 0 <= i < j < ks.len() implies ks[i] != ks[j] by {
        assert(ks[i] == v[i].0 && ks[j] == v[j].0);
    }
    assert forall|k: Seq<char>| m.contains_key(k) implies exists|i: int| 0 <= i < ks.len() && ks[i] == k by {
        let i = choose|i: int| 0 <= i < v.len() && v[i].0 == k;
        assert(ks[i] == k);
    }
    assert(keyed(ks, w, m));
}

proof fn lemma_holds_push(
    v: Seq<(Seq<char>, TodoView)>,
    m: Map<Seq<char>, TodoView>,
    k: Seq<char>,
    t: TodoView,
)
    requires
        holds(v, m),
        !m.contains_key(k),
    ensures
        holds(v.push((k, t)), m.insert(k, t)),
{
    let w = v.push((k, t));
    let n = m.insert(k, t);
    assert forall|q: Seq<char>| n.contains_key(q) implies exists|i: int|
        0 <= i < w.len() && w[i].0 == q by {
        if q == k {
            assert(w[v.len() as int].0 == q);
        } else {
            let i = choose|i: int| 0 <= i < v.len() && v[i].0 == q;
            assert(w[i].0 == q);
        }
    }
}

proof fn lemma_holds_remove(v: Seq<(Seq<char>, TodoView)>, m: Map<Seq<char>, TodoView>, i: int)
    requires
        holds(v, m),
        0 <= i < v.len(),
    ensures
        holds(v.remove(i), m.remove(v[i].0)),
{
    let w = v.remove(i);
    let n = m.remove(v[i].0);
    assert forall|a: int, b: int| 0 <= a < b < w.len() implies w[a].0 != w[b].0 by {
        let a0 = if a < i { a } else { a + 1 };
        let b0 = if b < i { b } else { b + 1 };
        assert(w[a] == v[a0] && w[b] == v[b0]);
    }
    assert forall|j: int| 0 <= j < w.len() implies n.contains_key(#[trigger] w[j].0) && n[w[j].0]
        == w[j].1 by {
        let j0 = if j < i { j } else { j + 1 };
        assert(w[j] == v[j0]);
        assert(v[j0].0 != v[i].0);
    }
    assert forall|q: Seq<char>| n.contains_key(q) implies exists|j: int|
        0 <= j < w.len() && w[j].0 == q by {
        let j0 = choose|j: int| 0 <= j < v.len() && v[j].0 == q;
        assert(j0 != i);
        if j0 < i {
            assert(w[j0].0 == q);
        } else {
            assert(w[j0 - 1].0 == q);
        }
    }
}

proof fn lemma_holds_update(
    v: Seq<(Seq<char>, TodoView)>,
    m: Map<Seq<char>, TodoView>,
    i: int,
    t: TodoView,
)
    requires
        holds(v, m),
        0 <= i < v.len(),
    ensures
        holds(v.update(i, (v[i].0, t)), m.insert(v[i].0, t)),
{
    let w = v.update(i, (v[i].0, t));
    let n = m.insert(v[i].0, t);
    assert forall|a: int, b: int| 0 <= a < b < w.len() implies w[a].0 != w[b].0 by {
        assert(v[a].0 != v[b].0);
    }
    assert forall|q: Seq<char>| n.contains_key(q) implies exists|j: int|
        0 <= j < w.len() && w[j].0 == q by {
        let j0 = choose|j: int| 0 <= j < v.len() && v[j].0 == q;
        assert(w[j0].0 == q);
    }
}

impl MemoryStorage {
    /// The storage's consistency: its vector holds its entries.
    pub closed spec fn wf(&self) -> bool {
        holds(entry_views(self.tasks@), self.index@)
    }

    /// A storage that starts with the entries of `tasks`.
    pub fn new(tasks: HashMap<String, Task>) -> (r: MemoryStorage)
        ensures
            r.well_formed(),
            r.reliable(),
            forall|k: String| tasks@.contains_key(k) ==> #[trigger] r.stored().contains_key(k@)
                && r.stored()[k@] == tasks@[k]@,
            forall|q: Seq<char>| #[trigger]
                r.stored().contains_key(q) ==> exists|k: String|
                    tasks@.contains_key(k) && k@ == q,
    {
        let entries = entries_of(tasks);
        let ghost v = entry_views(entries@);
        let ghost m = Map::new(
            |q: Seq<char>| exists|i: int| 0 <= i < v.len() && v[i].0 == q,
            |q: Seq<char>| v[choose|i: int| 0 <= i < v.len() && v[i].0 == q].1,
        );
        proof {
            assert forall|i: int| 0 <= i < v.len() implies m.contains_key(#[trigger] v[i].0) && m[v[i].0]
                == v[i].1 by {
                let j = choose|j: int| 0 <= j < v.len() && v[j].0 == v[i].0;
                assert(j == i) by {
                    if j != i {
                        if j < i {
                            assert(v[j].0 != v[i].0);
                        } else {
                            assert(v[i].0 != v[j].0);
                        }
                    }
                }
            }
            assert forall|k: String| tasks@.contains_key(k) implies #[trigger] m.contains_key(k@)
                && m[k@] == tasks@[k]@ by {
                let i = choose|i: int| 0 <= i < entries@.len() && entries@[i].0 == k;
                assert(v[i].0 == k@);
            }
            assert forall|q: Seq<char>| #[trigger] m.contains_key(q) implies exists|k: String|
                tasks@.contains_key(k) && k@ == q by {
                let i = choose|i: int| 0 <= i < v.len() && v[i].0 == q;
                assert(tasks@.contains_key(entries@[i].0));
            }
        }
        MemoryStorage { tasks: entries, index: Ghost(m) }
    }

    /// Whether nothing is stored.
    pub fn is_empty(&self) -> (r: bool)
        requires
            self.well_formed(),
        ensures
            r == (self.stored().dom().len() == 0),
    {
        proof {
            self.lemma_len();
        }
        self.tasks.len() == 0
    }

    proof fn lemma_len(&self)
        requires
            self.wf(),
        ensures
            self.index@.dom().finite(),
            self.index@.dom().len() == self.tasks@.len(),
    {
        let v = entry_views(self.tasks@);
        let keys = Seq::new(v.len(), |i: int| v[i].0);
        assert(keys.no_duplicates());
        assert(keys.to_set() =~= self.index@.dom()) by {
            assert forall|q: Seq<char>| self.index@.dom().contains(q) implies keys.to_set().contains(q) by {
                let i = choose|i: int| 0 <= i < v.len() && v[i].0 == q;
                assert(keys[i] == q);
            }
        }
        keys.unique_seq_to_set();
    }

    fn find(&self, id: &str) -> (r: Option<usize>)
        requires
            self.wf(),
        ensures
            r matches Some(i) ==> i < self.tasks@.len() && self.tasks@[i as int].0@ == id@,
            r is None ==> !self.index@.contains_key(id@),
    {
        let key = String::from_str(id);
        let mut i: usize = 0;
        while i < self.tasks.len()
            invariant
                self.wf(),
                key@ == id@,
                i <= self.tasks@.len(),
                forall|j: int| 0 <= j < i ==> self.tasks@[j].0@ != id@,
            decreases self.tasks@.len() - i,
        {
            if self.tasks[i].0 == key {
                return Some(i);
            }
            i = i + 1;
        }
        proof {
            if self.index@.contains_key(id@) {
                let v = entry_views(self.tasks@);
                let j = choose|j: int| 0 <= j < v.len() && v[j].0 == id@;
                assert(v[j].0 == self.tasks@[j].0@);
            }
        }
        None
    }
}

impl Db for MemoryStorage {
    closed spec fn well_formed(&self) -> bool {
        self.wf()
    }

    closed spec fn stored(&self) -> Map<Seq<char>, TodoView> {
        self.index@
    }

    open spec fn reliable(&self) -> bool {
        true
    }

    fn load_tasks(&self) -> (r: Result<Vec<Task>, DbError>) {
        let ghost v = entry_views(self.tasks@);
        let mut out: Vec<Task> = Vec::new();
        let mut i: usize = 0;
        while i < self.tasks.len()
            invariant
                self.wf(),
                v == entry_views(self.tasks@),
                i <= self.tasks@.len(),
                out@.len() == i,
                forall|j: int| 0 <= j < i ==> (#[trigger] out@[j])@ == v[j].1,
            decreases self.tasks@.len() - i,
        {
            let t = self.tasks[i].1.clone();
            out.push(t);
            i = i + 1;
        }
        proof {
            assert forall|j: int| 0 <= j < out@.len() implies #[trigger] todo_views(out@)[j]
                == v[j].1 by {
                assert(todo_views(out@)[j] == out@[j]@);
            }
            lemma_holds_values(v, self.index@, todo_views(out@));
        }
        Ok(out)
    }

    fn save_task(&mut self, task: &Task) -> (r: Result<(), DbError>) {
        let ghost before = self.tasks@;
        match self.find(task.id.as_str()) {
            Some(i) => {
                proof {
                    lemma_holds_update(entry_views(before), self.index@, i as int, task@);
                }
                self.tasks.set(i, (task.id.clone(), task.clone()));
                self.index = Ghost(self.index@.insert(task.id@, task@));
                assert(entry_views(self.tasks@) =~= entry_views(before).update(
                    i as int,
                    (entry_views(before)[i as int].0, task@),
                ));
            },
            None => {
                proof {
                    lemma_holds_push(entry_views(before), self.index@, task.id@, task@);
                }
                self.tasks.push((task.id.clone(), task.clone()));
                self.index = Ghost(self.index@.insert(task.id@, task@));
                assert(entry_views(self.tasks@) =~= entry_views(before).push((task.id@, task@)));
            },
        }
        Ok(())
    }

    fn delete_task(&mut self, task_id: &str) -> (r: Result<(), DbError>) {
        match self.find(task_id) {
            Some(i) => {
                let ghost before = self.tasks@;
                proof {
                    lemma_holds_remove(entry_views(before), self.index@, i as int);
                }
                self.tasks.remove(i);
                self.index = Ghost(self.index@.remove(task_id@));
                assert(entry_views(self.tasks@) =~= entry_views(before).remove(i as int));
                Ok(())
            },
            None => Err(DbError::NotFound(String::from_str(task_id))),
        }
    }

    fn clear(&mut self) -> (r: Result<(), DbError>) {
        self.tasks = Vec::new();
        self.index = Ghost(Map::empty());
        assert(entry_views(self.tasks@) =~= Seq::<(Seq<char>, TodoView)>::empty());
        Ok(())
    }
}

} // verus!
