use daily_todo::day::Weekday;
use daily_todo::merge::Snapshot;
use daily_todo::merge::build_store;
use daily_todo::merge::find_by_info;
use daily_todo::merge::merge_saved;
use daily_todo::task::Status;
use daily_todo::task::Task;

fn task(status: Status, info: &str) -> Task {
    Task { status, info: info.to_string() }
}

fn texts(ts: &[&str]) -> Vec<String> {
    ts.iter().map(|t| t.to_string()).collect()
}

#[test]
fn merge_correctness() {
    let template = texts(&["a", "b"]);
    let snapshot = Some(Snapshot {
        tasks: vec![task(Status::Done, "a"), task(Status::Todo, "c")],
        saved_weekday: Some(Weekday::Tue),
    });
    let store = build_store(&template, &snapshot, Weekday::Tue);
    assert_eq!(store.len(), 3);
    assert!(store[0].info == "a" && store[0].status == Status::Done);
    assert!(store[1].info == "b" && store[1].status == Status::Todo);
    assert!(store[2].info == "c" && store[2].status == Status::Todo);
}

#[test]
fn merge_idempotence() {
    let mut tasks = vec![
        task(Status::Done, "a"),
        task(Status::Todo, "b"),
        task(Status::Todo, "c"),
    ];
    let saved = vec![
        task(Status::Done, "a"),
        task(Status::Todo, "b"),
        task(Status::Todo, "c"),
    ];
    merge_saved(&mut tasks, &saved);
    assert_eq!(tasks.len(), 3);
    assert!(tasks[0].info == "a" && tasks[0].status == Status::Done);
    assert!(tasks[1].info == "b" && tasks[1].status == Status::Todo);
    assert!(tasks[2].info == "c" && tasks[2].status == Status::Todo);
}

#[test]
fn weekday_gating() {
    let template = texts(&["a", "b"]);
    let snapshot = Some(Snapshot {
        tasks: vec![task(Status::Done, "a"), task(Status::Done, "z")],
        saved_weekday: Some(Weekday::Tue),
    });
    let store = build_store(&template, &snapshot, Weekday::Wed);
    assert_eq!(store.len(), 2);
    assert!(store[0].info == "a" && store[0].status == Status::Todo);
    assert!(store[1].info == "b" && store[1].status == Status::Todo);
}

#[test]
fn snapshot_without_date_is_ignored() {
    let template = texts(&["a"]);
    let snapshot = Some(Snapshot {
        tasks: vec![task(Status::Done, "a")],
        saved_weekday: None,
    });
    let store = build_store(&template, &snapshot, Weekday::Mon);
    assert_eq!(store.len(), 1);
    assert!(store[0].status == Status::Todo);
}

#[test]
fn no_snapshot_gives_fresh_template() {
    let template = texts(&["a", "b"]);
    let store = build_store(&template, &None, Weekday::Sun);
    assert_eq!(store.len(), 2);
    assert!(store[0].info == "a" && store[0].status == Status::Todo);
    assert!(store[1].info == "b" && store[1].status == Status::Todo);
}

#[test]
fn snapshot_only_tasks_append_in_saved_order() {
    let template = texts(&[]);
    let snapshot = Some(Snapshot {
        tasks: vec![task(Status::Done, "x"), task(Status::Todo, "y")],
        saved_weekday: Some(Weekday::Fri),
    });
    let store = build_store(&template, &snapshot, Weekday::Fri);
    assert_eq!(store.len(), 2);
    assert!(store[0].info == "x" && store[0].status == Status::Done);
    assert!(store[1].info == "y" && store[1].status == Status::Todo);
}

#[test]
fn duplicate_texts_collide_on_first_match() {
    // Task identity is the text alone: with two tasks of one text, every
    // saved status lands on the first of them.
    let template = texts(&["a", "a"]);
    let snapshot = Some(Snapshot {
        tasks: vec![task(Status::Done, "a")],
        saved_weekday: Some(Weekday::Mon),
    });
    let store = build_store(&template, &snapshot, Weekday::Mon);
    assert_eq!(store.len(), 2);
    assert!(store[0].status == Status::Done);
    assert!(store[1].status == Status::Todo);
}

#[test]
fn empty_template_empty_snapshot() {
    let store = build_store(&texts(&[]), &None, Weekday::Sat);
    assert!(store.is_empty());
}

#[test]
fn find_by_info_returns_first_match() {
    let tasks = vec![
        task(Status::Todo, "a"),
        task(Status::Done, "b"),
        task(Status::Todo, "b"),
    ];
    assert_eq!(find_by_info(&tasks, &"b".to_string()), Some(1));
    assert_eq!(find_by_info(&tasks, &"z".to_string()), None);
}

#[test]
fn snapshot_default_is_empty() {
    let s = Snapshot::default();
    assert!(s.tasks.is_empty());
    assert!(s.saved_weekday.is_none());
}
