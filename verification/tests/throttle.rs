use rust_utils::concurrency::Throttle;
use rust_utils::time::Duration;

fn ms(n: u64) -> Duration {
    Duration::from_millis(n)
}

#[test]
fn first_call_runs_subsequent_calls_are_dropped() {
    let mut throttle = Throttle::new(ms(200));
    let mut counter = 0;
    for i in 0..5 {
        let _ = throttle.try_run(ms(i), || counter += 1);
    }
    assert_eq!(counter, 1);
}

#[test]
fn call_after_interval_is_admitted() {
    let mut throttle = Throttle::new(ms(50));
    assert!(throttle.try_run(ms(0), || {}).is_some());
    assert!(throttle.try_run(ms(70), || {}).is_some());
}

#[test]
fn reset_lets_the_next_call_through() {
    let mut throttle = Throttle::new(Duration::from_secs(60));
    assert!(throttle.try_run(ms(0), || {}).is_some());
    assert!(throttle.try_run(ms(0), || {}).is_none());
    throttle.reset();
    assert!(throttle.try_run(ms(0), || {}).is_some());
}

#[test]
fn try_run_returns_closure_output_when_admitted() {
    let mut throttle = Throttle::new(ms(10));
    let value = throttle.try_run(ms(0), || 42_u32);
    assert_eq!(value, Some(42));
}

#[test]
fn concurrent_callers_respect_the_interval() {
    let mut throttle = Throttle::new(ms(200));
    let mut counter = 0;
    for _ in 0..10 {
        if throttle.try_admit(ms(5)) {
            counter += 1;
        }
    }
    assert_eq!(counter, 1);
}

#[test]
fn interval_counts_from_the_last_run() {
    let mut throttle = Throttle::new(ms(100));
    assert_eq!(throttle.min_interval(), ms(100));
    assert!(throttle.try_admit(ms(1000)));
    assert!(!throttle.try_admit(ms(1099)));
    assert!(throttle.try_admit(ms(1100)));
    assert!(!throttle.try_admit(ms(1150)));
    assert!(throttle.try_admit(ms(1200)));
}

#[test]
fn clock_before_the_last_run_counts_as_no_time() {
    let mut throttle = Throttle::new(ms(10));
    assert!(throttle.try_admit(ms(500)));
    assert!(!throttle.try_admit(ms(100)));
    let mut open = Throttle::new(Duration::zero());
    assert!(open.try_admit(ms(500)));
    assert!(open.try_admit(ms(100)));
}

#[test]
fn discarded_call_does_not_invoke_the_closure() {
    let mut throttle = Throttle::new(ms(100));
    assert_eq!(throttle.try_run(ms(0), || 1), Some(1));
    let discarded: Option<u32> = throttle.try_run(ms(99), || panic!("must not be invoked"));
    assert_eq!(discarded, None);
    assert_eq!(throttle.try_run(ms(100), || 2), Some(2));
}
