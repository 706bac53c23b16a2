use std::collections::HashMap;
use std::time::SystemTime;
use wimm::storage::{Db, MemoryStorage};
use wimm::types::{AppState, Mode, Task};

fn create_test_task(id: &str, title: &str) -> Task {
    Task {
        id: id.to_string(),
        title: title.to_string(),
        description: format!("Description for {title}"),
        completed: false,
        created_at: SystemTime::now(),
        due: None,
        defer_until: None,
    }
}

#[test]
fn test_appstate_new() {
    let store = MemoryStorage::new(HashMap::new());
    let app_state = AppState::new(store);

    assert_eq!(app_state.mode, Mode::Normal);
    assert!(!app_state.should_quit);
    assert!(app_state.input_buffer.is_empty());
    assert!(!app_state.show_help);
    assert!(app_state.tasks.is_empty());
    assert!(app_state.editing_task.is_none());
    assert_eq!(app_state.editing_field, 0);
}

#[test]
fn test_appstate_default() {
    let app_state = AppState::default();

    assert_eq!(app_state.mode, Mode::Normal);
    assert!(!app_state.should_quit);
    assert!(app_state.input_buffer.is_empty());
    assert!(!app_state.show_help);
    assert!(app_state.tasks.is_empty());
    assert!(app_state.editing_task.is_none());
    assert_eq!(app_state.editing_field, 0);
}

#[test]
fn test_appstate_with_tasks() {
    let mut store = MemoryStorage::new(HashMap::new());
    let task1 = create_test_task("1", "Task 1");
    let task2 = create_test_task("2", "Task 2");

    store.save_task(&task1).unwrap();
    store.save_task(&task2).unwrap();

    let mut app_state = AppState::new(store);
    app_state.tasks = vec![task1.clone(), task2.clone()];

    assert_eq!(app_state.tasks.len(), 2);
    assert_eq!(app_state.tasks[0].id, "1");
    assert_eq!(app_state.tasks[1].id, "2");
}

#[test]
fn test_appstate_editing_task() {
    let store = MemoryStorage::new(HashMap::new());
    let mut app_state = AppState::new(store);
    let task = create_test_task("edit_test", "Editing Task");

    app_state.editing_task = Some(task.clone());
    app_state.editing_field = 2;

    assert!(app_state.editing_task.is_some());
    assert_eq!(app_state.editing_task.unwrap().id, "edit_test");
    assert_eq!(app_state.editing_field, 2);
}

#[test]
fn test_appstate_mode_changes() {
    let store = MemoryStorage::new(HashMap::new());
    let mut app_state = AppState::new(store);

    assert_eq!(app_state.mode, Mode::Normal);

    app_state.mode = Mode::Insert;
    assert_eq!(app_state.mode, Mode::Insert);

    app_state.mode = Mode::Normal;
    assert_eq!(app_state.mode, Mode::Normal);
}

#[test]
fn test_appstate_input_buffer() {
    let store = MemoryStorage::new(HashMap::new());
    let mut app_state = AppState::new(store);

    assert!(app_state.input_buffer.is_empty());

    app_state.input_buffer = "test input".to_string();
    assert_eq!(app_state.input_buffer, "test input");

    app_state.input_buffer.clear();
    assert!(app_state.input_buffer.is_empty());
}

#[test]
fn test_appstate_flags() {
    let store = MemoryStorage::new(HashMap::new());
    let mut app_state = AppState::new(store);

    assert!(!app_state.should_quit);
    assert!(!app_state.show_help);

    app_state.should_quit = true;
    app_state.show_help = true;

    assert!(app_state.should_quit);
    assert!(app_state.show_help);
}

#[test]
fn test_appstate_properties() {
    let app_state = AppState::default();

    assert_eq!(app_state.mode, Mode::Normal);
    assert!(!app_state.should_quit);
    assert!(!app_state.show_help);
    assert!(app_state.input_buffer.is_empty());
    assert!(app_state.tasks.is_empty());
    assert_eq!(app_state.editing_field, 0);
    assert!(app_state.editing_task.is_none());
}

#[test]
fn test_app_state_properties_integration() {
    let storage = MemoryStorage::new(HashMap::new());
    let mut app_state = AppState::new(storage);

    app_state.tasks.push(create_test_task("1", "Task 1"));
    app_state.input_buffer = "test input".to_string();
    app_state.mode = Mode::Insert;
    app_state.show_help = true;

    assert_eq!(app_state.mode, Mode::Insert);
    assert_eq!(app_state.input_buffer, "test input");
    assert!(app_state.show_help);
    assert_eq!(app_state.tasks.len(), 1);
    assert_eq!(app_state.tasks[0].title, "Task 1");
}

#[test]
fn default_state_has_an_empty_store() {
    let state = AppState::default();
    assert!(state.store.load_tasks().unwrap().is_empty());
    assert!(state.store.is_empty());
}
