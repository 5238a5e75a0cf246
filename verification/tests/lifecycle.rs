use taskquest::task::{Task, TaskStatus, ToggleStep};

fn fresh(title: &str, difficulty: u8) -> Task {
    Task::new(1, String::from(title), difficulty, 10)
}

#[test]
fn new_task_is_pending() {
    let t = fresh("Write report", 7);
    assert_eq!(t.id, 1);
    assert_eq!(t.title, "Write report");
    assert_eq!(t.difficulty, 7);
    assert_eq!(t.status, TaskStatus::Pending);
    assert_eq!(t.created_at, 10);
    assert_eq!(t.started_at, None);
    assert_eq!(t.completed_at, None);
    assert_eq!(t.paused_at, None);
    assert_eq!(t.total_pause_duration, 0);
    assert_eq!(t.points_earned, 0);
}

#[test]
fn toggle_cycles_and_accumulates_pauses() {
    let mut t = fresh("Cycle", 5);

    let step = t.toggle(100);
    assert_eq!(step, ToggleStep::Started);
    assert_eq!(t.status, TaskStatus::InProgress);
    assert_eq!(t.started_at, Some(100));

    let step = t.toggle(150);
    assert_eq!(step, ToggleStep::Paused);
    assert_eq!(t.status, TaskStatus::Paused);
    assert_eq!(t.paused_at, Some(150));

    let step = t.toggle(170);
    assert_eq!(step, ToggleStep::Resumed);
    assert_eq!(t.status, TaskStatus::InProgress);
    assert_eq!(t.paused_at, None);
    assert_eq!(t.total_pause_duration, 20);

    // Starting again never resets the start time.
    assert_eq!(t.started_at, Some(100));
}

#[test]
fn complete_from_in_progress() {
    let mut t = fresh("Work", 5);
    t.toggle(100);
    let did = t.complete(200);
    assert!(did);
    assert_eq!(t.status, TaskStatus::Completed);
    assert_eq!(t.completed_at, Some(200));
    assert_eq!(t.total_pause_duration, 0);
}

#[test]
fn complete_from_paused_folds_open_pause() {
    let mut t = fresh("Pausy", 5);
    t.toggle(100); // start
    t.toggle(150); // pause
    let did = t.complete(180);
    assert!(did);
    assert_eq!(t.status, TaskStatus::Completed);
    assert_eq!(t.completed_at, Some(180));
    assert_eq!(t.paused_at, None);
    // The open pause interval 150..180 was folded in first.
    assert_eq!(t.total_pause_duration, 30);
}

#[test]
fn complete_without_starting() {
    let mut t = fresh("Quick", 7);
    let did = t.complete(50);
    assert!(did);
    assert_eq!(t.status, TaskStatus::Completed);
    assert_eq!(t.started_at, None);
    assert_eq!(t.completed_at, Some(50));
}

#[test]
fn completed_is_terminal() {
    let mut t = fresh("Done", 3);
    t.complete(50);
    let before = t.clone();

    let step = t.toggle(80);
    assert_eq!(step, ToggleStep::AlreadyCompleted);
    let did = t.complete(90);
    assert!(!did);

    assert_eq!(t.status, before.status);
    assert_eq!(t.completed_at, before.completed_at);
    assert_eq!(t.started_at, before.started_at);
    assert_eq!(t.total_pause_duration, before.total_pause_duration);
}

#[test]
fn edit_rewrites_title_and_difficulty_only() {
    let mut t = fresh("Old title", 2);
    t.toggle(100);
    t.edit(String::from("New title"), 9);
    assert_eq!(t.title, "New title");
    assert_eq!(t.difficulty, 9);
    assert_eq!(t.status, TaskStatus::InProgress);
    assert_eq!(t.started_at, Some(100));
    assert_eq!(t.created_at, 10);
}

#[test]
fn edit_twice_with_same_values_changes_nothing_more() {
    let mut a = fresh("Task", 4);
    let mut b = fresh("Task", 4);
    a.edit(String::from("Same"), 6);
    b.edit(String::from("Same"), 6);
    b.edit(String::from("Same"), 6);
    assert_eq!(a.title, b.title);
    assert_eq!(a.difficulty, b.difficulty);
    assert_eq!(a.status, b.status);
    assert_eq!(a.created_at, b.created_at);
    assert_eq!(a.started_at, b.started_at);
    assert_eq!(a.completed_at, b.completed_at);
    assert_eq!(a.paused_at, b.paused_at);
    assert_eq!(a.total_pause_duration, b.total_pause_duration);
    assert_eq!(a.points_earned, b.points_earned);
}

#[test]
fn status_labels() {
    assert_eq!(TaskStatus::Pending.as_str(), "Pending");
    assert_eq!(TaskStatus::InProgress.as_str(), "In Progress");
    assert_eq!(TaskStatus::Paused.as_str(), "Paused");
    assert_eq!(TaskStatus::Completed.as_str(), "Completed");
}

#[test]
fn status_codes_round_trip() {
    for s in [
        TaskStatus::Pending,
        TaskStatus::InProgress,
        TaskStatus::Paused,
        TaskStatus::Completed,
    ] {
        assert_eq!(TaskStatus::from_code(s.as_code()), s);
    }
    assert_eq!(TaskStatus::from_code("anything else"), TaskStatus::Pending);
}

#[test]
fn check_time_ok_guards_the_clock() {
    let mut t = fresh("Clock", 5);
    assert!(t.check_time_ok(0));
    t.toggle(100);
    assert!(!t.check_time_ok(99));
    assert!(t.check_time_ok(100));
    t.toggle(150); // paused at 150
    assert!(!t.check_time_ok(149));
    assert!(t.check_time_ok(150));
}
