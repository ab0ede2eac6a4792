use rust_utils::backoff::{
    compute_delay, compute_delay_from, full_jitter, full_jitter_from, plan_sleep, source_of_nanos,
    SleepPlan,
};
use rust_utils::time::Duration;

#[test]
fn saturates_at_cap_without_jitter() {
    let base = Duration::from_millis(100);
    let cap = Duration::from_secs(1);
    assert_eq!(compute_delay(base, cap, 1, false), Duration::from_millis(100));
    assert_eq!(compute_delay(base, cap, 2, false), Duration::from_millis(200));
    assert_eq!(compute_delay(base, cap, 3, false), Duration::from_millis(400));
    assert_eq!(compute_delay(base, cap, 4, false), Duration::from_millis(800));
    assert_eq!(compute_delay(base, cap, 5, false), cap);
    assert_eq!(compute_delay(base, cap, 1_000, false), cap);
}

#[test]
fn zero_attempt_is_treated_as_one() {
    let base = Duration::from_millis(50);
    let cap = Duration::from_secs(1);
    assert_eq!(compute_delay(base, cap, 0, false), base);
}

#[test]
fn jitter_stays_within_bounds() {
    let base = Duration::from_millis(100);
    let cap = Duration::from_secs(1);
    for attempt in 1..=8 {
        let d = compute_delay(base, cap, attempt, true);
        assert!(d <= cap, "jitter must not exceed cap: {d:?}");
    }
}

#[test]
fn unwatched_delay_is_slept_out() {
    assert_eq!(plan_sleep(false, Duration::from_millis(5)), SleepPlan::Sleep);
}

#[test]
fn empty_delay_has_elapsed_at_once() {
    assert_eq!(plan_sleep(true, Duration::zero()), SleepPlan::Elapsed);
    assert_eq!(plan_sleep(false, Duration::zero()), SleepPlan::Elapsed);
}

#[test]
fn watched_delay_may_be_cut_short() {
    assert_eq!(plan_sleep(true, Duration::from_secs(60)), SleepPlan::SleepOrCancel);
}

#[test]
fn jitter_draws_the_remainder_of_its_source() {
    let capped = Duration::from_nanos(1_000);
    assert_eq!(full_jitter_from(capped, 2_345), Duration::from_nanos(345));
    assert_eq!(full_jitter_from(capped, 1_000), Duration::zero());
    assert_eq!(full_jitter_from(Duration::zero(), 7), Duration::zero());
    let base = Duration::from_nanos(10);
    assert_eq!(compute_delay_from(base, capped, 3, true, 95), Duration::from_nanos(15));
}

#[test]
fn jitter_below_a_huge_cap_is_bounded_by_the_source() {
    let capped = Duration::from_secs(u64::MAX);
    assert_eq!(full_jitter_from(capped, u64::MAX - 1), Duration::from_nanos(u64::MAX - 1));
    assert_eq!(full_jitter_from(capped, u64::MAX), Duration::zero());
}

#[test]
fn jitter_from_the_clock_stays_below_its_cap() {
    let capped = Duration::from_millis(3);
    for _ in 0..100 {
        assert!(full_jitter(capped) < capped);
    }
}

#[test]
fn factor_saturates_from_the_thirty_third_attempt() {
    let base = Duration::from_nanos(1);
    let cap = Duration::from_secs(u64::MAX);
    assert_eq!(compute_delay(base, cap, 32, false), Duration::from_nanos(2_147_483_648));
    assert_eq!(compute_delay(base, cap, 33, false), Duration::from_nanos(4_294_967_295));
    assert_eq!(compute_delay(base, cap, u32::MAX, false), Duration::from_nanos(4_294_967_295));
}

#[test]
fn base_above_the_cap_is_capped_at_once() {
    let cap = Duration::from_secs(1);
    assert_eq!(compute_delay(Duration::from_secs(5), cap, 1, false), cap);
    assert_eq!(compute_delay(Duration::from_secs(u64::MAX), cap, 40, false), cap);
}

#[test]
fn source_is_the_low_bits_of_the_clock() {
    assert_eq!(source_of_nanos(Some(1_700_000_000_000_000_123)), 1_700_000_000_000_000_123);
    assert_eq!(source_of_nanos(Some(u128::from(u64::MAX) + 6)), 5);
    assert_eq!(source_of_nanos(None), 0);
}
