use h2_monitor::frame::Measurement;
use h2_monitor::tracker::StatusTracker;

fn m(h: i32) -> Measurement {
    Measurement { hundredths: h }
}

#[test]
fn fresh_tracker_wants_any_value() {
    let t = StatusTracker::new();
    assert_eq!(t.last(), None);
    assert!(t.should_update(m(0)));
    assert!(t.should_update(m(-20)));
}

#[test]
fn accept_then_same_value_is_suppressed() {
    let mut t = StatusTracker::new();
    t.accept(m(50));
    assert_eq!(t.last(), Some(m(50)));
    assert!(!t.should_update(m(50)));
    assert!(!t.should_update(m(50)));
}

#[test]
fn accept_then_distinct_value_updates() {
    let mut t = StatusTracker::new();
    t.accept(m(0));
    assert!(t.should_update(m(50)));
    assert!(t.should_update(m(-1)));
    t.accept(m(50));
    assert!(t.should_update(m(0)));
    assert!(!t.should_update(m(50)));
}
