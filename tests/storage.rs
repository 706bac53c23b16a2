use std::collections::HashMap;
use std::time::SystemTime;
use wimm::storage::{Db, DbError, MemoryStorage};
use wimm::types::Task;

fn create_test_task(id: &str, title: &str) -> Task {
    Task {
        id: id.to_string(),
        title: title.to_string(),
        description: format!("Description for {title}"),
        completed: false,
        created_at: SystemTime::now(),
        due: None,
        defer_until: None,
    }
}

#[test]
fn test_db_error_display() {
    let connection_error = DbError::ConnectionError("connection failed".to_string());
    assert_eq!(
        connection_error.to_string(),
        "Database connection error: connection failed"
    );

    let serde_error = DbError::SerdeError("serialization failed".to_string());
    assert_eq!(
        serde_error.to_string(),
        "Serialization/Deserialization error: serialization failed"
    );

    let not_found_error = DbError::NotFound("task123".to_string());
    assert_eq!(not_found_error.to_string(), "Task not found: task123");

    let operation_error = DbError::OperationFailed("operation failed".to_string());
    assert_eq!(
        operation_error.to_string(),
        "Database operation failed: operation failed"
    );
}

#[test]
fn test_memory_storage_new() {
    let tasks = HashMap::new();
    let storage = MemoryStorage::new(tasks);
    assert!(storage.is_empty());
}

#[test]
fn test_memory_storage_load_tasks_empty() {
    let storage = MemoryStorage::new(HashMap::new());
    let tasks = storage.load_tasks().unwrap();
    assert!(tasks.is_empty());
}

#[test]
fn test_memory_storage_load_tasks_with_data() {
    let mut initial_tasks = HashMap::new();
    let task1 = create_test_task("1", "Task 1");
    let task2 = create_test_task("2", "Task 2");

    initial_tasks.insert("1".to_string(), task1.clone());
    initial_tasks.insert("2".to_string(), task2.clone());

    let storage = MemoryStorage::new(initial_tasks);
    let loaded_tasks = storage.load_tasks().unwrap();

    assert_eq!(loaded_tasks.len(), 2);
    assert!(loaded_tasks
        .iter()
        .any(|t| t.id == "1" && t.title == "Task 1"));
    assert!(loaded_tasks
        .iter()
        .any(|t| t.id == "2" && t.title == "Task 2"));
}

#[test]
fn test_memory_storage_save_task() {
    let mut storage = MemoryStorage::new(HashMap::new());
    let task = create_test_task("test123", "Test Task");

    storage.save_task(&task).unwrap();

    let loaded_tasks = storage.load_tasks().unwrap();
    assert_eq!(loaded_tasks.len(), 1);
    assert_eq!(loaded_tasks[0].id, "test123");
    assert_eq!(loaded_tasks[0].title, "Test Task");
}

#[test]
fn test_memory_storage_save_task_overwrite() {
    let mut storage = MemoryStorage::new(HashMap::new());
    let task1 = create_test_task("same_id", "Original Task");
    let mut task2 = create_test_task("same_id", "Updated Task");
    task2.completed = true;

    storage.save_task(&task1).unwrap();
    storage.save_task(&task2).unwrap();

    let loaded_tasks = storage.load_tasks().unwrap();
    assert_eq!(loaded_tasks.len(), 1);
    assert_eq!(loaded_tasks[0].title, "Updated Task");
    assert!(loaded_tasks[0].completed);
}

#[test]
fn test_memory_storage_delete_task() {
    let mut initial_tasks = HashMap::new();
    let task1 = create_test_task("1", "Task 1");
    let task2 = create_test_task("2", "Task 2");

    initial_tasks.insert("1".to_string(), task1);
    initial_tasks.insert("2".to_string(), task2);

    let mut storage = MemoryStorage::new(initial_tasks);

    storage.delete_task("1").unwrap();

    let loaded_tasks = storage.load_tasks().unwrap();
    assert_eq!(loaded_tasks.len(), 1);
    assert_eq!(loaded_tasks[0].id, "2");
}

#[test]
fn test_memory_storage_delete_task_not_found() {
    let mut storage = MemoryStorage::new(HashMap::new());

    let result = storage.delete_task("nonexistent");

    assert!(result.is_err());
    match result.unwrap_err() {
        DbError::NotFound(id) => assert_eq!(id, "nonexistent"),
        _ => panic!("Expected NotFound error"),
    }
}

#[test]
fn test_memory_storage_clear() {
    let mut initial_tasks = HashMap::new();
    initial_tasks.insert("1".to_string(), create_test_task("1", "Task 1"));
    initial_tasks.insert("2".to_string(), create_test_task("2", "Task 2"));

    let mut storage = MemoryStorage::new(initial_tasks);

    storage.clear().unwrap();

    let loaded_tasks = storage.load_tasks().unwrap();
    assert!(loaded_tasks.is_empty());
}

#[test]
fn test_memory_storage_integration() {
    let mut storage = MemoryStorage::new(HashMap::new());

    let task1 = create_test_task("1", "First Task");
    let task2 = create_test_task("2", "Second Task");

    storage.save_task(&task1).unwrap();
    storage.save_task(&task2).unwrap();

    let loaded_tasks = storage.load_tasks().unwrap();
    assert_eq!(loaded_tasks.len(), 2);

    storage.delete_task("1").unwrap();
    let remaining_tasks = storage.load_tasks().unwrap();
    assert_eq!(remaining_tasks.len(), 1);
    assert_eq!(remaining_tasks[0].id, "2");

    storage.clear().unwrap();
    let empty_tasks = storage.load_tasks().unwrap();
    assert!(empty_tasks.is_empty());
}

#[test]
fn saving_keeps_insertion_order_and_replaces_in_place() {
    let mut storage = MemoryStorage::new(HashMap::new());
    storage.save_task(&create_test_task("a", "A")).unwrap();
    storage.save_task(&create_test_task("b", "B")).unwrap();
    storage.save_task(&create_test_task("a", "A2")).unwrap();
    let loaded = storage.load_tasks().unwrap();
    let titles: Vec<&str> = loaded.iter().map(|t| t.title.as_str()).collect();
    assert_eq!(titles, vec!["A2", "B"]);
    assert!(!storage.is_empty());
}

#[test]
fn deleting_twice_reports_not_found() {
    let mut storage = MemoryStorage::new(HashMap::new());
    storage.save_task(&create_test_task("x", "X")).unwrap();
    storage.delete_task("x").unwrap();
    assert!(matches!(storage.delete_task("x"), Err(DbError::NotFound(id)) if id == "x"));
}

#[test]
fn equal_tasks_under_two_keys_are_both_listed() {
    let mut initial = HashMap::new();
    let t = create_test_task("x", "Same");
    initial.insert("a".to_string(), t.clone());
    initial.insert("b".to_string(), t.clone());
    initial.insert("c".to_string(), create_test_task("y", "Other"));
    let storage = MemoryStorage::new(initial);
    let loaded = storage.load_tasks().unwrap();
    assert_eq!(loaded.len(), 3);
    assert_eq!(loaded.iter().filter(|t| t.title == "Same").count(), 2);
    assert_eq!(loaded.iter().filter(|t| t.title == "Other").count(), 1);
}
