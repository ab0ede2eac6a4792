use rust_utils::concurrency::retry::RetryStep;
use rust_utils::concurrency::Retry;
use rust_utils::nonzero::NonZeroU32;
use rust_utils::time::Duration;
use rust_utils::{UtilsError, UtilsReport, UtilsResult};

fn fast_policy() -> Retry {
    Retry::new()
        .base_backoff(Duration::from_millis(1))
        .max_backoff(Duration::from_millis(5))
        .jitter(false)
}

fn attempts(n: u32) -> NonZeroU32 {
    NonZeroU32::new(n).unwrap()
}

fn failure(kind: UtilsError, detail: &str) -> UtilsReport {
    UtilsReport::new(kind).attach(detail.to_string())
}

/// Runs `op` to the end; the `i`-th delay is waited out where `waits(i)`.
/// Returns the result, the attempts made and the delays asked for.
fn run<T>(
    policy: &Retry,
    mut op: impl FnMut(u32) -> UtilsResult<T>,
    should_retry: impl Fn(&UtilsReport) -> bool,
    waits: impl Fn(usize) -> bool,
) -> (UtilsResult<T>, Vec<u32>, Vec<Duration>) {
    let mut calls = Vec::new();
    let mut delays = Vec::new();
    let mut step = policy.begin();
    loop {
        step = match step {
            RetryStep::Call(attempt) => {
                calls.push(attempt);
                let outcome = op(attempt);
                let retryable = match &outcome {
                    Ok(_) => false,
                    Err(report) => should_retry(report),
                };
                policy.after_attempt(attempt, outcome, retryable)
            }
            RetryStep::Backoff(pending) => {
                delays.push(pending.delay());
                let elapsed = waits(delays.len());
                policy.after_backoff(pending, elapsed)
            }
            RetryStep::Finished(result) => return (result, calls, delays),
        };
    }
}

#[test]
fn succeeds_on_first_attempt() {
    let policy = fast_policy().max_attempts(attempts(5));
    let (result, calls, _) = run(&policy, |_| Ok(7), |_| true, |_| true);
    assert_eq!(result.unwrap(), 7);
    assert_eq!(calls.len(), 1);
}

#[test]
fn retries_until_success() {
    let policy = fast_policy().max_attempts(attempts(5));
    let mut n = 0;
    let (result, calls, delays) = run(
        &policy,
        |attempt| {
            n += 1;
            assert_eq!(attempt, n, "attempt counter must be 1-based and contiguous");
            if n < 3 {
                Err(failure(UtilsError::Network, "transient"))
            } else {
                Ok(42)
            }
        },
        |_| true,
        |_| true,
    );
    assert_eq!(result.unwrap(), 42);
    assert_eq!(calls, vec![1, 2, 3]);
    assert_eq!(delays, vec![Duration::from_millis(1), Duration::from_millis(2)]);
}

#[test]
fn exhausts_budget_when_all_fail() {
    let policy = fast_policy().max_attempts(attempts(3));
    let (result, calls, _) = run(
        &policy,
        |_| Err::<u32, UtilsReport>(failure(UtilsError::Network, "always down")),
        |_| true,
        |_| true,
    );
    let err = result.expect_err("budget must be exhausted");
    assert!(matches!(err.current_context(), UtilsError::RetryExhausted));
    assert_eq!(calls.len(), 3);
    assert_eq!(
        err.attachments(),
        &vec!["retry [retry] exhausted budget after 3 attempts".to_string()]
    );
    let cause = err.cause().unwrap();
    assert_eq!(cause.current_context(), UtilsError::Network);
    assert_eq!(cause.attachments(), &vec!["always down".to_string()]);
}

#[test]
fn non_retryable_error_short_circuits() {
    let policy = fast_policy().max_attempts(attempts(5));
    let (result, calls, _) = run(
        &policy,
        |_| Err::<u32, UtilsReport>(failure(UtilsError::Config, "bad input")),
        |report| matches!(report.current_context(), UtilsError::Network),
        |_| true,
    );
    let err = result.expect_err("Config must surface immediately");
    assert!(matches!(err.current_context(), UtilsError::Config));
    assert!(err.cause().is_none());
    assert_eq!(calls.len(), 1);
}

#[test]
fn cancellation_during_backoff_aborts_with_exhausted() {
    let policy = Retry::new()
        .max_attempts(attempts(10))
        .base_backoff(Duration::from_secs(60))
        .max_backoff(Duration::from_secs(60))
        .jitter(false)
        .with_cancellation(tokio_util::sync::CancellationToken::new());
    let (result, calls, delays) = run(
        &policy,
        |_| Err::<u32, UtilsReport>(failure(UtilsError::Network, "transient")),
        |_| true,
        |_| false,
    );
    let err = result.expect_err("cancellation must surface as Err");
    assert!(matches!(err.current_context(), UtilsError::RetryExhausted));
    assert_eq!(calls.len(), 1);
    assert_eq!(delays, vec![Duration::from_secs(60)]);
    assert_eq!(
        err.attachments(),
        &vec!["retry [retry] cancelled during backoff after attempt 1".to_string()]
    );
    assert_eq!(err.cause().unwrap().current_context(), UtilsError::Network);
}

#[test]
fn pre_cancelled_token_skips_first_attempt() {
    let token = tokio_util::sync::CancellationToken::new();
    token.cancel();
    let policy =
        Retry::new().max_attempts(attempts(3)).with_cancellation(token).name("job");
    assert!(policy.cancelled());
    let (result, calls, _) = run(&policy, |_| Ok(0_u32), |_| true, |_| true);
    let err = result.expect_err("pre-cancelled token must short-circuit");
    assert!(matches!(err.current_context(), UtilsError::RetryExhausted));
    assert_eq!(calls.len(), 0);
    assert_eq!(
        err.attachments(),
        &vec!["retry [job] cancelled before first attempt".to_string()]
    );
}

#[test]
fn unfired_token_lets_the_first_attempt_through() {
    let policy = Retry::default().with_cancellation(tokio_util::sync::CancellationToken::new());
    assert!(!policy.cancelled());
    assert!(policy.cancellation().is_some());
    assert!(!Retry::new().cancelled());
    assert!(Retry::new().cancellation().is_none());
    assert!(matches!(policy.begin::<u32>(), RetryStep::Call(1)));
}

#[test]
fn defaults_allow_three_attempts() {
    let policy = Retry::default().jitter(false);
    let (result, calls, delays) = run(
        &policy,
        |_| Err::<u32, UtilsReport>(failure(UtilsError::Internal, "no")),
        |_| true,
        |_| true,
    );
    assert!(result.is_err());
    assert_eq!(calls, vec![1, 2, 3]);
    assert_eq!(delays, vec![Duration::from_millis(200), Duration::from_millis(400)]);
}

#[test]
fn single_attempt_budget_never_waits() {
    let policy = fast_policy().max_attempts(attempts(1)).name("once");
    let (result, calls, delays) = run(
        &policy,
        |_| Err::<u32, UtilsReport>(failure(UtilsError::Network, "down")),
        |_| true,
        |_| true,
    );
    assert_eq!(
        result.unwrap_err().attachments(),
        &vec!["retry [once] exhausted budget after 1 attempts".to_string()]
    );
    assert_eq!(calls, vec![1]);
    assert!(delays.is_empty());
}

#[test]
fn jittered_delay_is_drawn_from_the_source() {
    let policy = Retry::new().base_backoff(Duration::from_nanos(100));
    let outcome: UtilsResult<u32> = Err(failure(UtilsError::Network, "down"));
    match policy.after_attempt_from(2, outcome, true, 1_234) {
        RetryStep::Backoff(pending) => {
            assert_eq!(pending.attempt(), 2);
            assert_eq!(pending.delay(), Duration::from_nanos(34));
            assert_eq!(pending.last().current_context(), UtilsError::Network);
        }
        _ => panic!("a delay must follow"),
    }
}

#[test]
fn cloned_policy_shares_its_signal() {
    let token = tokio_util::sync::CancellationToken::new();
    let policy = Retry::new().name("job").max_attempts(attempts(2)).with_cancellation(token.clone());
    let copy = policy.clone();
    assert_eq!(copy.label(), "job");
    assert!(!copy.cancelled());
    token.cancel();
    assert!(copy.cancelled());
}

#[test]
fn rendered_retry_shows_its_settings() {
    assert_eq!(
        Retry::new().debug_text(),
        "Retry { max_attempts: 3, base_backoff: 200ms, max_backoff: 30s, jitter: true, \
         cancel: None, name: None }"
    );
    let token = tokio_util::sync::CancellationToken::new();
    let shown = format!("{token:?}");
    let policy = fast_policy().name("job").with_cancellation(token);
    assert_eq!(
        policy.debug_text(),
        format!(
            "Retry {{ max_attempts: 3, base_backoff: 1ms, max_backoff: 5ms, jitter: false, \
             cancel: Some({shown}), name: Some(\"job\") }}"
        )
    );
}
