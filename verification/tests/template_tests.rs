use daily_todo::day::Weekday;
use daily_todo::merge::todays_store;
use daily_todo::task::Status;
use daily_todo::template::WeekdayTasks;

#[test]
fn default_template_has_monday_and_friday() {
    let t = WeekdayTasks::default();
    let mon = t.mon.as_ref().expect("monday entry");
    assert_eq!(mon.tasks.len(), 1);
    assert!(mon.tasks[0] == "check mail");
    assert!(mon.day_info == "business day");
    let fri = t.fri.as_ref().expect("friday entry");
    assert_eq!(fri.tasks.len(), 1);
    assert!(fri.tasks[0] == "cleanup mail");
    assert!(fri.day_info == "wrap up day");
    assert!(t.tue.is_none());
    assert!(t.wed.is_none());
    assert!(t.thu.is_none());
    assert!(t.sat.is_none());
    assert!(t.sun.is_none());
}

#[test]
fn day_lookup_matches_the_fields() {
    let t = WeekdayTasks::default();
    assert!(t.day(Weekday::Mon).is_some());
    assert!(t.day(Weekday::Tue).is_none());
    assert!(t.day(Weekday::Fri).is_some());
    assert!(t.day(Weekday::Sun).is_none());
}

#[test]
fn status_char_shows_the_box() {
    assert_eq!(daily_todo::task::get_status_char(&Status::Todo), "\u{2610}");
    assert_eq!(daily_todo::task::get_status_char(&Status::Done), "\u{2611}");
}

#[test]
fn todays_store_follows_the_template_of_the_day() {
    // the weekday comes from the clock; whatever it is, the store must
    // hold exactly the default template's tasks of that day, all todo
    let template = WeekdayTasks::default();
    let (tasks, today) = todays_store(&template, &None);
    match today {
        Weekday::Mon => {
            assert_eq!(tasks.len(), 1);
            assert!(tasks[0].info == "check mail");
            assert!(tasks[0].status == Status::Todo);
        }
        Weekday::Fri => {
            assert_eq!(tasks.len(), 1);
            assert!(tasks[0].info == "cleanup mail");
            assert!(tasks[0].status == Status::Todo);
        }
        _ => assert!(tasks.is_empty()),
    }
}
