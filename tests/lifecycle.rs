use wimm::app::App;
use wimm::command::{listing, report_done, run_action, Action};
use wimm::lifecycle::{
    decide_complete, decide_pause, decide_start, elapsed, task_record, Transition,
};
use wimm::model::{Status, Task, WimmError, MODEL_ID, MODEL_VERSION};
use wimm::store::{MemStore, TaskStore};
use wimm::text::decimal_text;

fn task(status: Status, time_spent: u64) -> Task {
    Task {
        id: "T1".to_string(),
        name: "Write spec".to_string(),
        status,
        created_at: 5,
        time_spent,
    }
}

fn one(app: &App<MemStore>, id: &str) -> Task {
    app.get_task(id).unwrap().unwrap()
}

fn message(e: WimmError) -> String {
    match e {
        WimmError::DbError(m) => m,
    }
}

#[test]
fn scenario_full_lifecycle() {
    let mut app = App::new(MemStore::new());
    let id = app.add_task_at("T1".to_string(), "Write spec", 0).unwrap();
    assert_eq!(id, "T1");
    let listed = app.get_tasks().unwrap();
    assert_eq!(listed.len(), 1);
    assert_eq!(listed[0].id, "T1");
    assert_eq!(listed[0].status, Status::Pending);
    assert_eq!(listed[0].time_spent, 0);

    app.start_task_at("T1", 1000).unwrap();
    assert_eq!(one(&app, "T1").status, Status::InProgress(1000));

    app.pause_task_at("T1", 1030).unwrap();
    let t = one(&app, "T1");
    assert_eq!(t.status, Status::OnHold);
    assert_eq!(t.time_spent, 30);

    app.start_task_at("T1", 2000).unwrap();
    assert_eq!(one(&app, "T1").status, Status::InProgress(2000));

    app.complete_task_at("T1", 2050).unwrap();
    let t = one(&app, "T1");
    assert_eq!(t.status, Status::Completed);
    assert_eq!(t.time_spent, 80);

    app.complete_task_at("T1", 3000).unwrap();
    let t = one(&app, "T1");
    assert_eq!(t.status, Status::Completed);
    assert_eq!(t.time_spent, 80);

    app.delete_task("T1").unwrap();
    assert!(app.get_tasks().unwrap().is_empty());
    let again = app.delete_task("T1").unwrap_err();
    assert_eq!(message(again), "Task not found for ID: T1");
}

#[test]
fn start_twice_keeps_first_session() {
    let running = task(Status::InProgress(100), 7);
    assert!(decide_start(&running, 500).is_none());
    let mut app = App::new(MemStore::new());
    app.add_task_at("T1".to_string(), "x", 0).unwrap();
    app.start_task_at("T1", 100).unwrap();
    app.start_task_at("T1", 500).unwrap();
    let t = one(&app, "T1");
    assert_eq!(t.status, Status::InProgress(100));
    assert_eq!(t.time_spent, 0);
}

#[test]
fn complete_twice_keeps_time_spent() {
    let done = task(Status::Completed, 42);
    assert!(decide_complete(&done, 9999).is_none());
}

#[test]
fn pause_of_idle_tasks_changes_nothing() {
    for s in [
        Status::Pending,
        Status::OnHold,
        Status::Completed,
        Status::Deferred(77),
        Status::Dropped,
    ] {
        assert!(decide_pause(&task(s, 3), 1000).is_none());
    }
    let mut app = App::new(MemStore::new());
    app.add_task_at("T1".to_string(), "x", 0).unwrap();
    app.pause_task_at("T1", 50).unwrap();
    let t = one(&app, "T1");
    assert_eq!(t.status, Status::Pending);
    assert_eq!(t.time_spent, 0);
}

#[test]
fn time_spent_never_decreases_over_a_run() {
    let mut app = App::new(MemStore::new());
    app.add_task_at("T1".to_string(), "x", 0).unwrap();
    let steps = [
        (Transition::Start, 10),
        (Transition::Pause, 25),
        (Transition::Complete, 30),
        (Transition::Start, 40),
        (Transition::Complete, 35),
        (Transition::Start, 50),
        (Transition::Pause, 100),
    ];
    let mut last = 0;
    for (step, now) in steps {
        app.transition_at("T1", step, now).unwrap();
        let spent = one(&app, "T1").time_spent;
        assert!(spent >= last);
        last = spent;
    }
    assert_eq!(last, 15 + 50);
}

#[test]
fn adds_with_same_name_get_distinct_ids() {
    let mut app = App::new(MemStore::new());
    let a = app.add_task("Same").unwrap();
    let b = app.add_task("Same").unwrap();
    assert_ne!(a, b);
    assert_eq!(a.len(), 36);
    assert_eq!(app.get_tasks().unwrap().len(), 2);
    let t = one(&app, &a);
    assert_eq!(t.name, "Same");
    assert_eq!(t.status, Status::Pending);
    assert_eq!(t.time_spent, 0);
}

#[test]
fn duplicate_id_is_refused() {
    let mut app = App::new(MemStore::new());
    app.add_task_at("T1".to_string(), "first", 0).unwrap();
    let e = app.add_task_at("T1".to_string(), "second", 1).unwrap_err();
    assert_eq!(message(e), "Duplicate key for ID: T1");
    assert_eq!(one(&app, "T1").name, "first");
}

#[test]
fn unknown_id_is_not_found_for_every_transition() {
    let mut app = App::new(MemStore::new());
    for r in [
        app.start_task_at("nope", 1),
        app.pause_task_at("nope", 1),
        app.complete_task_at("nope", 1),
        app.start_task("nope"),
        app.delete_task("nope"),
    ] {
        assert_eq!(message(r.unwrap_err()), "Task not found for ID: nope");
    }
    assert!(app.get_task("nope").unwrap().is_none());
}

#[test]
fn restart_of_finished_work_is_allowed() {
    for s in [Status::Completed, Status::Dropped, Status::Deferred(9), Status::OnHold] {
        let next = decide_start(&task(s, 11), 600).unwrap();
        assert_eq!(next.status, Status::InProgress(600));
        assert_eq!(next.time_spent, 11);
        assert_eq!(next.id, "T1");
        assert_eq!(next.created_at, 5);
    }
}

#[test]
fn complete_counts_open_session_only() {
    let next = decide_complete(&task(Status::InProgress(100), 10), 160).unwrap();
    assert_eq!(next.status, Status::Completed);
    assert_eq!(next.time_spent, 70);
    let next = decide_complete(&task(Status::OnHold, 10), 160).unwrap();
    assert_eq!(next.time_spent, 10);
    let next = decide_complete(&task(Status::Deferred(3), 10), 160).unwrap();
    assert_eq!(next.status, Status::Completed);
}

#[test]
fn elapsed_saturates_and_time_spent_holds_at_max() {
    assert_eq!(elapsed(1030, 1000), 30);
    assert_eq!(elapsed(1000, 1030), 0);
    let next = decide_pause(&task(Status::InProgress(0), u64::MAX - 5), 100).unwrap();
    assert_eq!(next.time_spent, u64::MAX);
    let next = decide_pause(&task(Status::InProgress(2000), 4), 1000).unwrap();
    assert_eq!(next.time_spent, 4);
    assert_eq!(next.status, Status::OnHold);
}

#[test]
fn fresh_record_values() {
    let t = task_record("abc".to_string(), "Name", 123);
    assert_eq!(t.id, "abc");
    assert_eq!(t.name, "Name");
    assert_eq!(t.status, Status::Pending);
    assert_eq!(t.created_at, 123);
    assert_eq!(t.time_spent, 0);
    assert_eq!(MODEL_ID, 1);
    assert_eq!(MODEL_VERSION, 1);
}

#[test]
fn rendering_of_tasks_and_statuses() {
    assert_eq!(decimal_text(0), "0");
    assert_eq!(decimal_text(1030), "1030");
    assert_eq!(decimal_text(u64::MAX), "18446744073709551615");
    assert_eq!(Status::Pending.to_string(), "Pending");
    assert_eq!(Status::InProgress(1000).to_string(), "In Progress since 1000");
    assert_eq!(Status::Deferred(7).to_string(), "Deferred until 7");
    assert_eq!(Status::OnHold.to_string(), "On Hold");
    assert_eq!(Status::Dropped.to_string(), "Dropped");
    assert_eq!(Status::Completed.to_string(), "Completed");
    assert_eq!(
        task(Status::OnHold, 30).to_string(),
        "Task(id: T1, name: Write spec, status: On Hold, created_at: 5, time_spent: 30)"
    );
    let e = WimmError::not_found("T9");
    assert_eq!(e.to_string(), "Database error: Task not found for ID: T9");
}

#[test]
fn cli_actions_report_their_work() {
    let mut app = App::new(MemStore::new());
    assert_eq!(run_action(&mut app, Action::List).unwrap(), vec!["No tasks found."]);
    let added = run_action(&mut app, Action::Add("Write spec".to_string())).unwrap();
    let id = added[0].strip_prefix("Added task: ").unwrap().to_string();
    assert_eq!(
        run_action(&mut app, Action::Start(id.clone())).unwrap(),
        vec![format!("Started task ID: {id}")]
    );
    assert_eq!(
        run_action(&mut app, Action::Pause(id.clone())).unwrap(),
        vec![format!("Pause task: {id}")]
    );
    assert_eq!(
        run_action(&mut app, Action::Complete(id.clone())).unwrap(),
        vec![format!("Completed task: {id}")]
    );
    let lines = run_action(&mut app, Action::List).unwrap();
    assert_eq!(lines.len(), 1);
    assert!(lines[0].starts_with(&format!("Task(id: {id}, name: Write spec, status: Completed")));
    assert_eq!(
        run_action(&mut app, Action::Delete(id.clone())).unwrap(),
        vec![format!("Deleted task: {id}")]
    );
    let e = run_action(&mut app, Action::Delete(id.clone())).unwrap_err();
    assert_eq!(message(e), format!("Task not found for ID: {id}"));
}

#[test]
fn listing_lines() {
    let tasks = vec![task(Status::Pending, 0), task(Status::InProgress(3), 2)];
    assert_eq!(
        listing(&tasks),
        vec![
            "Task(id: T1, name: Write spec, status: Pending, created_at: 5, time_spent: 0)",
            "Task(id: T1, name: Write spec, status: In Progress since 3, created_at: 5, time_spent: 2)",
        ]
    );
    assert_eq!(listing(&Vec::new()), vec!["No tasks found."]);
}

#[test]
fn store_operations_directly() {
    let mut store = MemStore::new();
    store.insert_task(&task(Status::Pending, 0)).unwrap();
    store.update_task("T1", Transition::Start, 10).unwrap();
    assert_eq!(store.get_task("T1").unwrap().unwrap().status, Status::InProgress(10));
    store.delete_task("T1").unwrap();
    assert!(store.get_tasks().unwrap().is_empty());
    assert!(store.update_task("T1", Transition::Pause, 20).is_err());
}

#[test]
fn done_reports() {
    assert_eq!(report_done(&Action::Start("a".to_string()), "a"), vec!["Started task ID: a"]);
    assert_eq!(report_done(&Action::Pause("a".to_string()), "a"), vec!["Pause task: a"]);
    assert_eq!(report_done(&Action::Complete("a".to_string()), "a"), vec!["Completed task: a"]);
    assert_eq!(report_done(&Action::Delete("a".to_string()), "a"), vec!["Deleted task: a"]);
    assert_eq!(report_done(&Action::Add("n".to_string()), "x1"), vec!["Added task: x1"]);
    assert!(report_done(&Action::List, "a").is_empty());
}

#[test]
fn fresh_ids_are_hyphenated_lower_hex() {
    let t = wimm::lifecycle::new_task("n").unwrap();
    assert_eq!(t.id.len(), 36);
    for (i, c) in t.id.chars().enumerate() {
        if [8, 13, 18, 23].contains(&i) {
            assert_eq!(c, '-');
        } else {
            assert!(c.is_ascii_digit() || ('a'..='f').contains(&c));
        }
    }
}
