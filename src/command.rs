//! The command-line actions on the engine, and what each reports.

use vstd::prelude::*;
use vstd::string::*;
use crate::app::{App, is_clock_error};
use crate::lifecycle::{new_task_spec, Transition};
use crate::model::{Task, TaskView, WimmError, task_text};
use crate::store::{TaskStore, is_not_found, lists, updated, views};

verus! {

/// One command-line action.
#[derive(Debug, PartialEq, Eq)]
pub enum Action {
    Start(String),
    List,
    Add(String),
    Delete(String),
    Complete(String),
    Pause(String),
}

/// The lines that report a listing of `v`: one per task, or a notice that there is none.
pub open spec fn listing_lines(v: Seq<TaskView>) -> Seq<Seq<char>> {
    if v.len() == 0 {
        seq!["No tasks found."@]
    } else {
        v.map_values(|t: TaskView| task_text(t))
    }
}

/// The text of each line.
pub open spec fn texts(v: Seq<String>) -> Seq<Seq<char>> {
    v.map_values(|s: String| s@)
}

/// The lines that report a listing of `tasks`.
pub fn listing(tasks: &Vec<Task>) -> (r: Vec<String>)
    ensures
        texts(r@) == listing_lines(views(tasks@)),
{
    let mut out: Vec<String> = Vec::new();
    if tasks.len() == 0 {
        out.push(String::from_str("No tasks found."));
        assert(texts(out@) =~= listing_lines(views(tasks@)));
        return out;
    }
    let mut i: usize = 0;
    while i < tasks.len()
        invariant
            i <= tasks@.len(),
            texts(out@) == views(tasks@).take(i as int).map_values(|t: TaskView| task_text(t)),
        decreases tasks@.len() - i,
    {
        let line = tasks[i].to_string();
        let ghost before = out@;
        out.push(line);
        proof {
            assert(texts(out@) =~= texts(before).push(line@));
            assert(views(tasks@).take(i + 1).map_values(|t: TaskView| task_text(t))
                =~= views(tasks@).take(i as int).map_values(|t: TaskView| task_text(t)).push(
                task_text(tasks@[i as int]@),
            ));
        }
        i = i + 1;
    }
    assert(views(tasks@).take(i as int) =~= views(tasks@));
    out
}

fn report(prefix: &str, id: &str) -> (r: Vec<String>)
    ensures
        texts(r@) == seq![prefix@ + id@],
{
    let mut line = String::from_str(prefix);
    line.append(id);
    let mut out: Vec<String> = Vec::new();
    out.push(line);
    assert(texts(out@) =~= seq![prefix@ + id@]);
    out
}

/// The lines that report `a` done on the task `id` (for an add, the new task's id).
pub open spec fn done_lines(a: Action, id: Seq<char>) -> Seq<Seq<char>> {
    match a {
        Action::Start(_) => seq!["Started task ID: "@ + id],
        Action::Pause(_) => seq!["Pause task: "@ + id],
        Action::Complete(_) => seq!["Completed task: "@ + id],
        Action::Delete(_) => seq!["Deleted task: "@ + id],
        Action::Add(_) => seq!["Added task: "@ + id],
        Action::List => Seq::empty(),
    }
}

/// The lines that report `action` done on the task `id` (for an add, the new task's
/// id); a listing reports through `listing` instead.
pub fn report_done(action: &Action, id: &str) -> (r: Vec<String>)
    ensures
        texts(r@) == done_lines(*action, id@),
{
    match action {
        Action::Start(_) => report("Started task ID: ", id),
        Action::Pause(_) => report("Pause task: ", id),
        Action::Complete(_) => report("Completed task: ", id),
        Action::Delete(_) => report("Deleted task: ", id),
        Action::Add(_) => report("Added task: ", id),
        Action::List => {
            let out: Vec<String> = Vec::new();
            assert(texts(out@) =~= Seq::<Seq<char>>::empty());
            out
        },
    }
}

/// The id an action names, if any.
pub open spec fn action_id(a: Action) -> Seq<char> {
    match a {
        Action::Start(id) => id@,
        Action::Delete(id) => id@,
        Action::Complete(id) => id@,
        Action::Pause(id) => id@,
        Action::Add(name) => name@,
        Action::List => Seq::empty(),
    }
}

/// The transition an action asks for, if it asks for one.
pub open spec fn action_step(a: Action) -> Option<Transition> {
    match a {
        Action::Start(_) => Some(Transition::Start),
        Action::Complete(_) => Some(Transition::Complete),
        Action::Pause(_) => Some(Transition::Pause),
        _ => None,
    }
}

/// Performs `action` on `app` and returns the lines that report it: the action's
/// change to the tasks, or none where it fails.
pub fn run_action<S: TaskStore>(app: &mut App<S>, action: Action) -> (r: Result<
    Vec<String>,
    WimmError,
>)
    requires
        old(app).inv(),
    ensures
        final(app).inv(),
        final(app).infallible() == old(app).infallible(),
        r is Err ==> final(app).tasks() == old(app).tasks(),
        action is List && old(app).infallible() ==> r is Ok,
        action matches Action::Delete(id) ==> (!old(app).tasks().contains_key(id@)
            ==> is_not_found(r, id@)) && (old(app).infallible() ==> (r is Ok <==> old(
            app,
        ).tasks().contains_key(id@))),
        action_step(action) is Some ==> (r is Err ==> is_clock_error(r) || !old(
            app,
        ).tasks().contains_key(action_id(action)) || !old(app).infallible()),
        action_step(action) is Some && !old(app).tasks().contains_key(action_id(action)) ==> (
        is_not_found(r, action_id(action)) || is_clock_error(r)),
        action is Add && r is Err && old(app).infallible() ==> is_clock_error(r) || exists|
            k: Seq<char>,
        | k.len() == 36 && #[trigger] old(app).tasks().contains_key(k),
        action_step(action) matches Some(step) ==> (r matches Ok(lines) ==> old(
            app,
        ).tasks().contains_key(action_id(action)) && (exists|now: u64|
            final(app).tasks() == #[trigger] updated(
                old(app).tasks(),
                action_id(action),
                step,
                now,
            )) && texts(lines@) == seq![
            (match step {
                Transition::Start => "Started task ID: "@,
                Transition::Complete => "Completed task: "@,
                Transition::Pause => "Pause task: "@,
            }) + action_id(action),
        ]),
        action matches Action::Delete(id) ==> (r matches Ok(lines) ==> old(
            app,
        ).tasks().contains_key(id@) && final(app).tasks() == old(app).tasks().remove(id@)
            && texts(lines@) == seq!["Deleted task: "@ + id@]),
        action matches Action::Add(name) ==> (r matches Ok(lines) ==> exists|id: Seq<char>, now: u64|
            !old(app).tasks().contains_key(id) && final(app).tasks() == old(app).tasks().insert(
                id,
                #[trigger] new_task_spec(id, name@, now),
            ) && texts(lines@) == seq!["Added task: "@ + id]),
        action is List ==> final(app).tasks() == old(app).tasks() && (r matches Ok(lines)
            ==> exists|v: Seq<TaskView>| #[trigger] lists(v, old(app).tasks()) && texts(lines@)
            == listing_lines(v)),
{
    match &action {
        Action::Start(id) => {
            app.start_task(id.as_str())?;
            Ok(report_done(&action, id.as_str()))
        },
        Action::List => {
            let tasks = app.get_tasks()?;
            let lines = listing(&tasks);
            assert(lists(views(tasks@), app.tasks()));
            Ok(lines)
        },
        Action::Add(name) => {
            let id = app.add_task(name.as_str())?;
            Ok(report_done(&action, id.as_str()))
        },
        Action::Delete(id) => {
            app.delete_task(id.as_str())?;
            Ok(report_done(&action, id.as_str()))
        },
        Action::Complete(id) => {
            app.complete_task(id.as_str())?;
            Ok(report_done(&action, id.as_str()))
        },
        Action::Pause(id) => {
            app.pause_task(id.as_str())?;
            Ok(report_done(&action, id.as_str()))
        },
    }
}

} // verus!
