use rust_utils::network::retry::{
    is_idempotent, parse_retry_after, HttpOutcome, HttpStep, Method,
};
use rust_utils::network::{RetryPolicy, RetryingClient};
use rust_utils::nonzero::NonZeroU32;
use rust_utils::time::Duration;
use rust_utils::UtilsError;

fn attempts(n: u32) -> NonZeroU32 {
    NonZeroU32::new(n).unwrap()
}

fn status(code: u16) -> HttpOutcome {
    HttpOutcome::Response { status: code, retry_after: None }
}

fn status_with_retry_after(code: u16, value: &str) -> HttpOutcome {
    HttpOutcome::Response { status: code, retry_after: Some(value.as_bytes().to_vec()) }
}

fn fast_policy() -> RetryPolicy {
    RetryPolicy::default()
        .base_backoff(Duration::from_millis(1))
        .max_backoff(Duration::from_millis(10))
        .jitter(false)
}

/// Sends a request whose attempts end as scripted. Returns the outcome that
/// is handed back, the number of attempts and the delays asked for.
fn execute(
    client: &RetryingClient<Vec<HttpOutcome>>,
    method: Method,
    replayable: bool,
    waited: bool,
) -> (HttpOutcome, u32, Vec<Duration>) {
    let mut calls = 0;
    let mut delays = Vec::new();
    let mut step = client.begin();
    loop {
        step = match step {
            HttpStep::Send(attempt) => {
                calls += 1;
                assert_eq!(attempt, calls);
                let outcome = client.inner()[attempt as usize - 1].clone();
                client.after_attempt(attempt, outcome.clone(), &outcome, method, replayable)
            }
            HttpStep::Backoff(pending) => {
                assert_eq!(pending.attempt(), calls);
                delays.push(pending.delay());
                client.after_backoff(pending, waited)
            }
            HttpStep::Finished(outcome) => return (outcome, calls, delays),
        };
    }
}

#[test]
fn retries_until_success_on_429() {
    let script = vec![status(429), status(429), status(200)];
    let client = RetryingClient::new(script, fast_policy().max_attempts(attempts(3)));
    let (outcome, calls, delays) = execute(&client, Method::Get, true, true);
    assert_eq!(outcome, status(200));
    assert_eq!(calls, 3);
    assert_eq!(delays, vec![Duration::from_millis(1), Duration::from_millis(2)]);
}

#[test]
fn returns_last_response_when_attempts_exhausted() {
    let script = vec![status(429), status(429)];
    let client = RetryingClient::new(script, fast_policy().max_attempts(attempts(2)));
    let (outcome, calls, _) = execute(&client, Method::Get, true, true);
    assert_eq!(outcome, status(429));
    assert_eq!(calls, 2);
}

#[test]
fn respects_retry_after_header() {
    let script = vec![status_with_retry_after(429, "1"), status(200)];
    let client = RetryingClient::new(
        script,
        RetryPolicy::default()
            .max_attempts(attempts(2))
            .base_backoff(Duration::from_millis(1))
            .max_backoff(Duration::from_secs(5))
            .jitter(false),
    );
    let (outcome, _, delays) = execute(&client, Method::Get, true, true);
    assert_eq!(outcome, status(200));
    assert_eq!(delays, vec![Duration::from_secs(1)]);
}

#[test]
fn does_not_retry_non_idempotent_by_default() {
    let script = vec![status(429)];
    let client = RetryingClient::new(script, fast_policy().max_attempts(attempts(3)));
    let (outcome, calls, _) = execute(&client, Method::Post, true, true);
    assert_eq!(outcome, status(429));
    assert_eq!(calls, 1);
}

#[test]
fn retries_non_idempotent_when_opted_in() {
    let script = vec![status(429), status(200)];
    let client = RetryingClient::new(
        script,
        fast_policy().max_attempts(attempts(3)).retry_non_idempotent(true),
    );
    let (outcome, calls, _) = execute(&client, Method::Post, true, true);
    assert_eq!(outcome, status(200));
    assert_eq!(calls, 2);
}

#[test]
fn ignores_statuses_outside_the_retry_set() {
    let script = vec![status(500)];
    let client = RetryingClient::new(script, fast_policy().max_attempts(attempts(3)));
    let (outcome, calls, _) = execute(&client, Method::Get, true, true);
    assert_eq!(outcome, status(500));
    assert_eq!(calls, 1);
}

#[test]
fn retries_on_network_error_context() {
    let script = vec![HttpOutcome::Failed(UtilsError::Network), status(200)];
    let client = RetryingClient::new(script, fast_policy().max_attempts(attempts(3)));
    let (outcome, calls, _) = execute(&client, Method::Get, true, true);
    assert_eq!(outcome, status(200));
    assert_eq!(calls, 2);
}

#[test]
fn idempotency_classification_matches_rfc_7231() {
    for m in [
        Method::Get,
        Method::Head,
        Method::Put,
        Method::Delete,
        Method::Options,
        Method::Trace,
    ] {
        assert!(is_idempotent(m), "expected {m:?} to be idempotent");
    }
    for m in [Method::Post, Method::Patch] {
        assert!(!is_idempotent(m), "expected {m:?} to be non-idempotent");
    }
    assert!(!is_idempotent(Method::Connect));
    assert!(!is_idempotent(Method::Extension));
}

#[test]
fn other_errors_are_surfaced_immediately() {
    let policy = RetryPolicy::default();
    for error in [UtilsError::Http, UtilsError::Config, UtilsError::Internal] {
        assert!(!policy.should_retry(&HttpOutcome::Failed(error), Method::Get));
    }
    assert!(policy.should_retry(&HttpOutcome::Failed(UtilsError::Network), Method::Get));
    let patient = policy.retry_network_errors(false);
    assert!(!patient.should_retry(&HttpOutcome::Failed(UtilsError::Network), Method::Get));
}

#[test]
fn retry_statuses_are_replaced() {
    let policy = RetryPolicy::default().retry_statuses(vec![502, 504]);
    assert!(policy.should_retry(&status(504), Method::Put));
    assert!(!policy.should_retry(&status(429), Method::Put));
    assert!(RetryPolicy::default().should_retry(&status(503), Method::Put));
}

#[test]
fn unreplayable_request_is_sent_once() {
    let client = RetryingClient::new(vec![status(503)], fast_policy());
    let (outcome, calls, delays) = execute(&client, Method::Put, false, true);
    assert_eq!(outcome, status(503));
    assert_eq!(calls, 1);
    assert!(delays.is_empty());
}

#[test]
fn cancelled_delay_returns_the_last_result() {
    let token = tokio_util::sync::CancellationToken::new();
    let client = RetryingClient::new(vec![status(503)], fast_policy()).with_cancellation(token);
    assert!(client.cancellation().is_some());
    let (outcome, calls, delays) = execute(&client, Method::Get, true, false);
    assert_eq!(outcome, status(503));
    assert_eq!(calls, 1);
    assert_eq!(delays.len(), 1);
}

#[test]
fn server_delay_is_capped_and_not_jittered() {
    let policy = RetryPolicy::default().max_backoff(Duration::from_secs(5));
    let outcome = status_with_retry_after(503, "3600");
    assert_eq!(policy.compute_delay(1, &outcome), Duration::from_secs(5));
    let outcome = status_with_retry_after(503, "4");
    assert_eq!(policy.compute_delay(9, &outcome), Duration::from_secs(4));
    let outcome = status_with_retry_after(503, "0");
    assert_eq!(policy.compute_delay(9, &outcome), Duration::zero());
}

#[test]
fn unreadable_server_delay_falls_back_to_backoff() {
    let policy = RetryPolicy::default().jitter(false);
    let outcome = status_with_retry_after(503, "Wed, 21 Oct 2015 07:28:00 GMT");
    assert_eq!(policy.compute_delay(2, &outcome), Duration::from_millis(400));
    assert_eq!(policy.compute_delay(100, &outcome), Duration::from_secs(30));
    assert_eq!(policy.compute_delay(1, &status(503)), Duration::from_millis(200));
}

#[test]
fn jittered_backoff_is_drawn_from_the_source() {
    let policy = RetryPolicy::default().base_backoff(Duration::from_nanos(100));
    assert_eq!(
        policy.compute_delay_from(2, &status(503), 1_234),
        Duration::from_nanos(34)
    );
}

#[test]
fn retry_after_is_a_number_of_seconds() {
    assert_eq!(parse_retry_after(b"120"), Some(Duration::from_secs(120)));
    assert_eq!(parse_retry_after(b" \t7 "), Some(Duration::from_secs(7)));
    assert_eq!(parse_retry_after(b"+5"), Some(Duration::from_secs(5)));
    assert_eq!(
        parse_retry_after(b"18446744073709551615"),
        Some(Duration::from_secs(u64::MAX))
    );
    for value in ["", " ", "-1", "1.5", "1 2", "18446744073709551616", "ten"] {
        assert_eq!(parse_retry_after(value.as_bytes()), None, "{value:?}");
    }
    assert_eq!(parse_retry_after(&[0x31, 0xff]), None);
    assert_eq!(parse_retry_after(&[0x31, 0x0a]), None);
}

#[test]
fn accessors_return_what_was_wrapped() {
    let client = RetryingClient::new(vec![status(200)], RetryPolicy::default());
    assert_eq!(client.inner().len(), 1);
    assert!(client.policy().should_retry(&status(429), Method::Get));
    assert!(client.cancellation().is_none());
}

#[test]
fn cloned_policy_retries_alike() {
    let policy = RetryPolicy::default().retry_statuses(vec![418]).clone();
    assert!(policy.should_retry(&status(418), Method::Get));
    assert!(!policy.should_retry(&status(429), Method::Get));
}

#[test]
fn cloned_client_keeps_policy_and_signal() {
    let token = tokio_util::sync::CancellationToken::new();
    let client = RetryingClient::new(vec![status(418)], fast_policy().retry_statuses(vec![418]))
        .with_cancellation(token.clone());
    let copy = client.clone();
    assert_eq!(copy.inner(), client.inner());
    assert!(copy.policy().should_retry(&status(418), Method::Get));
    token.cancel();
    assert!(copy.cancellation().unwrap().is_cancelled());
}

#[test]
fn rendered_policy_shows_its_settings() {
    assert_eq!(
        RetryPolicy::default().debug_text(),
        "RetryPolicy { max_attempts: 3, retry_statuses: [429, 503], retry_network_errors: true, \
         retry_non_idempotent: false, base_backoff: 200ms, max_backoff: 30s, jitter: true }"
    );
    assert!(fast_policy()
        .retry_statuses(vec![])
        .debug_text()
        .contains("retry_statuses: [], retry_network_errors: true"));
    assert!(fast_policy()
        .retry_statuses(vec![500])
        .debug_text()
        .contains("retry_statuses: [500], retry_network_errors: true"));
}
