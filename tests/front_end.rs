use std::time::{Duration, SystemTime};
use wimm::cli::{Cli, Commands, ConfigAction};
use wimm::input::InputHandler;
use wimm::tasks::TaskManager;
use wimm::time_tracking::{TimeEntry, TimeTracker};
use wimm::types::{Mode, Task};
use wimm::ui::{
    format_date, format_time_relative, relative_text, EventHandler, HelpPanel, InputBar,
    LayoutManager,
};

fn create_test_task(id: &str, title: &str) -> Task {
    Task {
        id: id.to_string(),
        title: title.to_string(),
        description: format!("Description for {title}"),
        completed: false,
        created_at: SystemTime::now(),
        due: None,
        defer_until: None,
    }
}

#[test]
fn test_has_config_changes() {
    let cli = Cli {
        config: None,
        verbose: false,
        command: None,
    };
    assert!(!cli.has_config_changes());
}

#[test]
fn test_should_run_tui() {
    let cli = Cli {
        config: None,
        verbose: false,
        command: None,
    };
    assert!(cli.should_run_tui());

    let cli = Cli {
        config: None,
        verbose: false,
        command: Some(Commands::Run),
    };
    assert!(cli.should_run_tui());

    let cli = Cli {
        config: None,
        verbose: false,
        command: Some(Commands::Config {
            action: ConfigAction::Show,
        }),
    };
    assert!(!cli.should_run_tui());
}

#[test]
fn test_input_handler_new() {
    let _handler = InputHandler::new();
}

#[test]
fn test_input_handler_default() {
    let _handler = InputHandler;
}

#[test]
fn test_input_handler_struct_exists() {
    let _handler1 = InputHandler::new();
    let _handler2 = InputHandler;
}

#[test]
fn task_manager_new() {
    let _manager = TaskManager::new();
}

#[test]
fn test_time_tracker_new() {
    let _tracker = TimeTracker::new();
    assert!(true);
}

#[test]
fn test_time_tracker_default() {
    let _tracker = TimeTracker::default();
    assert!(true);
}

#[test]
fn test_time_entry_new() {
    let task_id = "test_task_123".to_string();
    let entry = TimeEntry::new(task_id.clone());

    assert_eq!(entry.task_id, task_id);
    assert!(entry.end_time.is_none());
    assert!(entry.duration.is_none());
    assert!(entry.start_time <= SystemTime::now());
}

#[test]
fn test_time_entry_debug_format() {
    let entry = TimeEntry::new("debug_test".to_string());
    let debug_str = format!("{:?}", entry);

    assert!(debug_str.contains("TimeEntry"));
    assert!(debug_str.contains("debug_test"));
    assert!(debug_str.contains("task_id"));
    assert!(debug_str.contains("start_time"));
    assert!(debug_str.contains("end_time"));
    assert!(debug_str.contains("duration"));
}

#[test]
fn test_time_entry_with_empty_task_id() {
    let entry = TimeEntry::new(String::new());
    assert_eq!(entry.task_id, "");
    assert!(entry.end_time.is_none());
    assert!(entry.duration.is_none());
}

#[test]
fn test_time_entry_with_long_task_id() {
    let long_id = "a".repeat(1000);
    let entry = TimeEntry::new(long_id.clone());
    assert_eq!(entry.task_id, long_id);
}

#[test]
fn test_time_entry_immediate_stop() {
    let mut entry = TimeEntry::new("immediate_test".to_string());
    entry.stop();

    assert!(entry.end_time.is_some());
    assert!(entry.duration.is_some());

    if let Some(duration) = entry.duration {
        assert!(duration.as_nanos() > 0 || duration.as_nanos() == 0);
    }
}

#[test]
fn time_entry_stop_measures_from_start_to_end() {
    let mut entry = TimeEntry::new("measured".to_string());
    entry.stop();
    let end = entry.end_time.unwrap();
    assert!(end >= entry.start_time);
    assert_eq!(entry.duration, end.duration_since(entry.start_time).ok());
}

#[test]
fn test_mode_equality() {
    assert_eq!(Mode::Normal, Mode::Normal);
    assert_eq!(Mode::Insert, Mode::Insert);
    assert_ne!(Mode::Normal, Mode::Insert);
}

#[test]
fn test_mode_clone() {
    let mode = Mode::Normal;
    let cloned_mode = mode.clone();
    assert_eq!(mode, cloned_mode);
}

#[test]
fn test_task_creation() {
    let now = SystemTime::now();
    let task = Task {
        id: "test123".to_string(),
        title: "Test Task".to_string(),
        description: "This is a test task".to_string(),
        completed: false,
        created_at: now,
        due: None,
        defer_until: None,
    };

    assert_eq!(task.id, "test123");
    assert_eq!(task.title, "Test Task");
    assert_eq!(task.description, "This is a test task");
    assert!(!task.completed);
    assert_eq!(task.created_at, now);
    assert!(task.due.is_none());
    assert!(task.defer_until.is_none());
}

#[test]
fn test_task_with_dates() {
    let now = SystemTime::now();
    let due_date = now + Duration::from_secs(86400);
    let defer_date = now + Duration::from_secs(3600);

    let task = Task {
        id: "dated_task".to_string(),
        title: "Task with dates".to_string(),
        description: "Due and defer dates are set".to_string(),
        completed: true,
        created_at: now,
        due: Some(due_date),
        defer_until: Some(defer_date),
    };

    assert!(task.completed);
    assert_eq!(task.due, Some(due_date));
    assert_eq!(task.defer_until, Some(defer_date));
}

#[test]
fn test_task_clone() {
    let source = create_test_task("clone_test", "Clone Task");
    let cloned = source.clone();

    assert_eq!(source.id, cloned.id);
    assert_eq!(source.title, cloned.title);
    assert_eq!(source.description, cloned.description);
    assert_eq!(source.completed, cloned.completed);
    assert_eq!(source.created_at, cloned.created_at);
    assert_eq!(source.due, cloned.due);
    assert_eq!(source.defer_until, cloned.defer_until);
}

#[test]
fn test_event_handler_new() {
    let _handler = EventHandler::new();
}

#[test]
fn test_event_handler_default() {
    let _handler = EventHandler;
}

#[test]
fn test_help_panel_new() {
    let _panel = HelpPanel::new();
}

#[test]
fn test_help_panel_default() {
    let _panel = HelpPanel;
}

#[test]
fn input_bar_new() {
    let _bar = InputBar::new();
    let _other = InputBar::default();
}

#[test]
fn test_layout_manager_new() {
    let _manager = LayoutManager::new();
}

#[test]
fn test_layout_manager_default() {
    let _manager = LayoutManager;
}

#[test]
fn test_format_time_relative() {
    let now = SystemTime::now();
    let one_hour_ago = now - Duration::from_secs(60 * 60);
    let result = format_time_relative(one_hour_ago);
    assert_eq!(result, "1h ago");

    let future_time = now + Duration::from_secs(2 * 24 * 60 * 60);
    let result = format_time_relative(future_time);
    assert!(result.starts_with("in ") && result.contains("d"));
}

#[test]
fn relative_text_units() {
    assert_eq!(relative_text(0, true), "now");
    assert_eq!(relative_text(59, false), "now");
    assert_eq!(relative_text(60, true), "1m ago");
    assert_eq!(relative_text(3599, false), "in 59m");
    assert_eq!(relative_text(7200, true), "2h ago");
    assert_eq!(relative_text(86400 * 3 + 5000, false), "in 3d");
    assert_eq!(relative_text(86400 * 12, true), "12d ago");
}

#[test]
fn format_date_of_none_is_a_dash() {
    assert_eq!(format_date(None), "-");
    let soon = SystemTime::now() + Duration::from_secs(3 * 3600 + 600);
    assert_eq!(format_date(Some(soon)), "in 3h");
}
