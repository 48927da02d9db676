use dotter_watch::debounce::DebounceState;
use dotter_watch::debounce::Debouncer;
use dotter_watch::debounce::DEBOUNCE_WINDOW_MS;

#[test]
fn default_window_is_half_a_second() {
    assert_eq!(DEBOUNCE_WINDOW_MS, 500);
    let debouncer = Debouncer::new();
    assert_eq!(debouncer.state(), DebounceState { last_trigger: None, window: 500 });
}

#[test]
fn scenario_burst_then_next_window() {
    let mut debouncer = Debouncer::new();
    assert!(debouncer.try_admit(0));
    assert!(!debouncer.try_admit(200));
    assert!(debouncer.try_admit(600));
    assert_eq!(debouncer.state().last_trigger, Some(600));
}

#[test]
fn first_batch_is_admitted_at_any_time() {
    for now in [0u64, 1, 499, 500, 123_456_789, u64::MAX] {
        let mut debouncer = Debouncer::new();
        assert!(debouncer.try_admit(now));
        assert_eq!(debouncer.state().last_trigger, Some(now));
    }
}

#[test]
fn second_batch_inside_the_window_is_rejected() {
    for gap in [0u64, 1, 250, 498, 499] {
        let mut debouncer = Debouncer::new();
        assert!(debouncer.try_admit(10_000));
        assert!(!debouncer.try_admit(10_000 + gap));
        assert_eq!(debouncer.state().last_trigger, Some(10_000));
    }
}

#[test]
fn second_batch_at_or_after_the_window_is_admitted() {
    for gap in [500u64, 501, 600, 10_000] {
        let mut debouncer = Debouncer::new();
        assert!(debouncer.try_admit(10_000));
        assert!(debouncer.try_admit(10_000 + gap));
        assert_eq!(debouncer.state().last_trigger, Some(10_000 + gap));
    }
}

#[test]
fn rejected_batch_does_not_move_the_window() {
    let mut debouncer = Debouncer::new();
    assert!(debouncer.try_admit(0));
    assert!(!debouncer.try_admit(300));
    assert!(!debouncer.try_admit(499));
    assert!(debouncer.try_admit(500));
    assert!(!debouncer.try_admit(999));
    assert!(debouncer.try_admit(1000));
}

#[test]
fn rejected_batch_is_dropped_not_deferred() {
    let mut debouncer = Debouncer::new();
    assert!(debouncer.try_admit(0));
    assert!(!debouncer.try_admit(200));
    let before = debouncer.state();
    assert_eq!(before, DebounceState { last_trigger: Some(0), window: 500 });
    assert!(debouncer.try_admit(5_000));
    assert_eq!(debouncer.state().last_trigger, Some(5_000));
}

#[test]
fn clock_reading_before_the_last_trigger_is_rejected() {
    let mut debouncer = Debouncer::new();
    assert!(debouncer.try_admit(1_000));
    assert!(!debouncer.try_admit(900));
    assert!(!debouncer.try_admit(0));
    assert_eq!(debouncer.state().last_trigger, Some(1_000));
}

#[test]
fn custom_window() {
    let mut debouncer = Debouncer::with_window(50);
    assert_eq!(debouncer.state(), DebounceState { last_trigger: None, window: 50 });
    assert!(debouncer.try_admit(100));
    assert!(!debouncer.try_admit(149));
    assert!(debouncer.try_admit(150));
}

#[test]
fn zero_window_admits_everything() {
    let mut debouncer = Debouncer::with_window(0);
    assert!(debouncer.try_admit(7));
    assert!(debouncer.try_admit(7));
    assert!(debouncer.try_admit(3));
    assert_eq!(debouncer.state().last_trigger, Some(3));
}

#[test]
fn times_near_the_end_of_the_range() {
    let mut debouncer = Debouncer::new();
    assert!(debouncer.try_admit(u64::MAX - 500));
    assert!(!debouncer.try_admit(u64::MAX - 1));
    assert!(debouncer.try_admit(u64::MAX));
    let mut wide = Debouncer::with_window(u64::MAX);
    assert!(wide.try_admit(0));
    assert!(!wide.try_admit(u64::MAX - 1));
    assert!(wide.try_admit(u64::MAX));
}
