use multi_publisher::polling::PollBudget;

#[test]
fn poll_that_never_succeeds_stops_within_one_interval_of_deadline() {
    let b = PollBudget::from_secs(2, 200);
    assert_eq!(b.timeout_ms, 2000);
    let out = b.simulate(None);
    assert!(!out.found);
    assert_eq!(out.checks, 11);
    assert_eq!(out.elapsed_ms, 2200);
    assert!(out.elapsed_ms <= b.timeout_ms + b.interval_ms);
    assert_eq!(b.max_checks(), 11);
}

#[test]
fn poll_finds_condition_at_its_check() {
    let b = PollBudget { timeout_ms: 1000, interval_ms: 300 };
    let out = b.simulate(Some(2));
    assert!(out.found);
    assert_eq!(out.checks, 2);
    assert_eq!(out.elapsed_ms, 600);
    let late = b.simulate(Some(4));
    assert!(!late.found);
    assert_eq!(late.checks, 4);
    assert_eq!(late.elapsed_ms, 1200);
}

#[test]
fn deadline_is_inclusive() {
    let b = PollBudget { timeout_ms: 500, interval_ms: 100 };
    assert!(b.should_continue(500));
    assert!(!b.should_continue(501));
    assert_eq!(b.simulate(Some(5)).found, true);
}

#[test]
fn zero_timeout_checks_once() {
    let b = PollBudget { timeout_ms: 0, interval_ms: 250 };
    let out = b.simulate(None);
    assert_eq!(out.checks, 1);
    assert_eq!(out.elapsed_ms, 250);
}
