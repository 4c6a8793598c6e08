use task_tracker::app::App;
use task_tracker::task::{Task, TaskStatus, SECONDS_PER_DAY};

fn make_task(title: &str, now: i64) -> Task {
    Task {
        title: title.to_string(),
        description: None,
        task_status: TaskStatus::InProgress,
        time_added: now,
        time_edited: now,
        due_time: now + SECONDS_PER_DAY,
    }
}

fn all_titles_sorted(app: &App) -> Vec<String> {
    let mut titles: Vec<String> = app.tasks.iter().map(|t| t.title.clone()).collect();
    if let Some(t) = &app.current_task {
        titles.push(t.title.clone());
    }
    titles.sort();
    titles
}

#[test]
fn select_on_empty_pool_shows_nothing() {
    let mut app = App::new();
    app.choose_shown_task();
    assert!(app.current_task.is_none());
    assert_eq!(app.tasks.len(), 0);
}

#[test]
fn select_on_singleton_pool_is_certain() {
    let mut app = App::new();
    app.tasks.push(make_task("only", 100));
    app.choose_shown_task();
    assert_eq!(app.tasks.len(), 0);
    let current = app.current_task.expect("the lone task is checked out");
    assert_eq!(current.title, "only");
    assert_eq!(current.time_added, 100);
}

#[test]
fn select_on_two_task_pool_checks_one_out() {
    let mut app = App::new();
    app.tasks.push(make_task("A", 1));
    app.tasks.push(make_task("B", 2));
    app.choose_shown_task();
    let current = app.current_task.as_ref().expect("one task is checked out");
    assert_eq!(app.tasks.len(), 1);
    let shown = current.title.clone();
    let pooled = app.tasks[0].title.clone();
    assert!(shown == "A" || shown == "B");
    assert!(pooled == "A" || pooled == "B");
    assert_ne!(shown, pooled);
}

#[test]
fn select_never_creates_or_loses_tasks() {
    let mut app = App::new();
    app.tasks.push(make_task("A", 1));
    app.tasks.push(make_task("B", 2));
    app.tasks.push(make_task("C", 3));
    let before = all_titles_sorted(&app);
    for _ in 0..20 {
        app.choose_shown_task();
        assert_eq!(all_titles_sorted(&app), before);
    }
}

#[test]
fn select_keeps_slot_occupied_once_filled() {
    let mut app = App::new();
    app.tasks.push(make_task("A", 1));
    app.choose_shown_task();
    for _ in 0..5 {
        app.choose_shown_task();
        assert!(app.current_task.is_some());
        assert_eq!(app.tasks.len(), 0);
    }
}

#[test]
fn status_change_hits_checked_out_task_only() {
    let mut app = App::new();
    app.tasks.push(make_task("A", 1));
    app.choose_shown_task();
    app.change_task_status(TaskStatus::Finished);
    let current = app.current_task.as_ref().unwrap();
    assert_eq!(current.task_status, TaskStatus::Finished);
    // status changes are not edits: the edit timestamp stays put
    assert_eq!(current.time_edited, 1);
    app.change_task_status(TaskStatus::InProgress);
    assert_eq!(app.current_task.as_ref().unwrap().task_status, TaskStatus::InProgress);
}

#[test]
fn status_change_without_checked_out_task_is_noop() {
    let mut app = App::new();
    app.change_task_status(TaskStatus::Finished);
    assert!(app.current_task.is_none());
    assert_eq!(app.tasks.len(), 0);
}

#[test]
fn due_date_moves_by_whole_days() {
    let mut app = App::new();
    app.tasks.push(make_task("A", 0));
    app.choose_shown_task();
    app.change_active_task_due_date(3);
    assert_eq!(app.current_task.as_ref().unwrap().due_time, 4 * SECONDS_PER_DAY);
}

#[test]
fn due_date_round_trip_is_exact() {
    let mut app = App::new();
    app.tasks.push(make_task("A", 12345));
    app.choose_shown_task();
    let original = app.current_task.as_ref().unwrap().due_time;
    app.change_active_task_due_date(3);
    app.change_active_task_due_date(-3);
    assert_eq!(app.current_task.as_ref().unwrap().due_time, original);
}

#[test]
fn due_date_change_without_checked_out_task_is_noop() {
    let mut app = App::new();
    app.change_active_task_due_date(5);
    assert!(app.current_task.is_none());
}
