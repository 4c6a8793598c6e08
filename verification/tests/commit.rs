use task_tracker::app::{App, TaskCreationMode};
use task_tracker::task::{Task, TaskStatus, SECONDS_PER_DAY};

fn make_task(title: &str, now: i64) -> Task {
    Task {
        title: title.to_string(),
        description: None,
        task_status: TaskStatus::InProgress,
        time_added: now,
        time_edited: now,
        due_time: now + SECONDS_PER_DAY,
    }
}

fn find_task<'a>(app: &'a App, title: &str) -> Option<&'a Task> {
    if let Some(t) = &app.current_task {
        if t.title == title {
            return Some(t);
        }
    }
    app.tasks.iter().find(|t| t.title == title)
}

#[test]
fn commit_with_empty_buffers_changes_nothing() {
    let mut app = App::new();
    app.tasks.push(make_task("A", 1));
    app.tasks.push(make_task("B", 2));
    app.choose_shown_task();
    let pool_before: Vec<Task> = app.tasks.clone();
    let current_before = app.current_task.clone();
    app.save_task_at(999);
    assert_eq!(app.tasks, pool_before);
    assert_eq!(app.current_task, current_before);
}

#[test]
fn commit_create_new_builds_the_documented_task() {
    let mut app = App::new();
    app.title_input = "Buy milk".to_string();
    app.save_task_at(1000);
    // the freshly created lone task is checked out by the selection round
    assert_eq!(app.tasks.len(), 0);
    let t = app.current_task.as_ref().expect("the new task is checked out");
    assert_eq!(t.title, "Buy milk");
    assert_eq!(t.description, None);
    assert_eq!(t.task_status, TaskStatus::InProgress);
    assert_eq!(t.time_added, 1000);
    assert_eq!(t.time_edited, 1000);
    assert_eq!(t.time_added, t.time_edited);
    assert_eq!(t.due_time, 1000 + SECONDS_PER_DAY);
}

#[test]
fn commit_create_new_with_description_keeps_it() {
    let mut app = App::new();
    app.title_input = "Call home".to_string();
    app.description_input = "before Friday".to_string();
    app.save_task_at(50);
    let t = find_task(&app, "Call home").expect("the new task exists");
    assert_eq!(t.description.as_deref(), Some("before Friday"));
}

#[test]
fn commit_active_updates_checked_out_task() {
    let mut app = App::new();
    let mut original = make_task("old title", 10);
    original.time_edited = 50;
    original.description = Some("old description".to_string());
    app.tasks.push(original);
    app.choose_shown_task();
    app.task_creation_mode = TaskCreationMode::Active;
    app.title_input = "new title".to_string();
    app.description_input = "new description".to_string();
    app.save_task_at(100);
    let t = find_task(&app, "new title").expect("the edited task exists");
    assert_eq!(t.description.as_deref(), Some("new description"));
    assert_eq!(t.time_added, 10);
    assert_eq!(t.time_edited, 100);
    assert!(t.time_edited >= 50);
    assert_eq!(t.task_status, TaskStatus::InProgress);
    assert_eq!(t.due_time, 10 + SECONDS_PER_DAY);
    assert!(find_task(&app, "old title").is_none());
    // nothing was created or lost: still exactly one task in all
    assert_eq!(app.tasks.len() + app.current_task.iter().count(), 1);
}

#[test]
fn commit_active_with_empty_description_clears_it() {
    let mut app = App::new();
    let mut original = make_task("t", 10);
    original.description = Some("stale".to_string());
    app.tasks.push(original);
    app.choose_shown_task();
    app.task_creation_mode = TaskCreationMode::Active;
    app.title_input = "t".to_string();
    app.save_task_at(20);
    let t = find_task(&app, "t").expect("the task exists");
    assert_eq!(t.description, None);
}

#[test]
fn commit_reenters_pool_through_selection() {
    let mut app = App::new();
    app.tasks.push(make_task("A", 1));
    app.tasks.push(make_task("B", 2));
    app.choose_shown_task();
    app.title_input = "C".to_string();
    app.save_task_at(30);
    // three tasks in all, one of them checked out
    assert!(app.current_task.is_some());
    assert_eq!(app.tasks.len(), 2);
    assert!(find_task(&app, "A").is_some());
    assert!(find_task(&app, "B").is_some());
    assert!(find_task(&app, "C").is_some());
}

#[test]
fn commit_at_system_time_creates_task() {
    let mut app = App::new();
    app.title_input = "now".to_string();
    app.save_task();
    let t = app.current_task.as_ref().expect("the new task is checked out");
    assert_eq!(t.title, "now");
    assert_eq!(t.time_added, t.time_edited);
    assert_eq!(t.due_time, t.time_added + SECONDS_PER_DAY);
}

#[test]
fn default_application_is_empty_main_screen() {
    let app = App::new();
    assert_eq!(app.title_input, "");
    assert_eq!(app.description_input, "");
    assert!(matches!(app.current_screen, task_tracker::app::CurrentScreen::Main));
    assert!(app.current_task.is_none());
    assert!(app.edit_mode.is_none());
    assert!(app.popup.is_none());
    assert!(matches!(app.task_creation_mode, TaskCreationMode::CreateNew));
    assert_eq!(app.tasks.len(), 0);
    assert!(app.wf_check());
}
