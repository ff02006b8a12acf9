use daily_todo::events::Config;
use daily_todo::events::poll_timeout;
use daily_todo::events::tick_due;

#[test]
fn config_default_tick_rate() {
    assert_eq!(Config::default().tick_rate, 250);
}

#[test]
fn poll_timeout_is_the_remainder_of_the_period() {
    assert_eq!(poll_timeout(250, 0), 250);
    assert_eq!(poll_timeout(250, 100), 150);
    assert_eq!(poll_timeout(250, 249), 1);
    assert_eq!(poll_timeout(250, 250), 0);
    assert_eq!(poll_timeout(250, 300), 0);
}

#[test]
fn tick_due_exactly_at_the_period() {
    assert!(!tick_due(0, 250));
    assert!(!tick_due(249, 250));
    assert!(tick_due(250, 250));
    assert!(tick_due(300, 250));
}

#[test]
fn waiting_out_the_timeout_makes_a_tick_due() {
    for elapsed in [0u64, 1, 100, 249, 250, 1000] {
        let t = poll_timeout(250, elapsed);
        assert!(tick_due(elapsed + t, 250));
    }
}
