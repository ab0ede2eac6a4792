use rust_utils::concurrency::supervisor::{
    compute_backoff, RunEnd, Supervision, SupervisorStep, TaskExit,
};
use rust_utils::concurrency::Supervisor;
use rust_utils::nonzero::NonZeroU32;
use rust_utils::time::Duration;
use rust_utils::{UtilsError, UtilsReport, UtilsResult};

fn ms(n: u64) -> Duration {
    Duration::from_millis(n)
}

fn cap(n: u32) -> NonZeroU32 {
    NonZeroU32::new(n).unwrap()
}

fn failed() -> TaskExit {
    TaskExit::Failed(
        UtilsReport::new(UtilsError::Internal).attach("synthetic failure".to_string()),
    )
}

/// Supervises runs that end as `exit(i)` says, each taking no time on a
/// clock that advances by `gap` between runs. Returns the result, the runs
/// started and the delays asked for.
fn supervise(
    policy: &Supervisor,
    gap: Duration,
    exit: impl Fn(u32) -> (TaskExit, bool),
) -> (UtilsResult<()>, u32, Vec<Duration>) {
    let mut state = Supervision::new();
    let mut runs = 0;
    let mut delays = Vec::new();
    let mut step = policy.before_run(false);
    loop {
        step = match step {
            SupervisorStep::Run => {
                runs += 1;
                let (exit, cancelled) = exit(runs);
                let now = gap.saturating_mul(runs);
                let end = RunEnd { exit, cancelled, ran_for: Duration::zero(), now };
                policy.after_run(&mut state, end)
            }
            SupervisorStep::Backoff(delay) => {
                delays.push(delay);
                policy.after_backoff(true, false)
            }
            SupervisorStep::Stop(result) => return (result, runs, delays),
        };
    }
}

#[test]
fn restart_budget_is_enforced() {
    let policy = Supervisor::new()
        .name("always-fails")
        .max_restarts(cap(3))
        .base_backoff(ms(1))
        .max_backoff(ms(5))
        .jitter(false);
    let (outcome, calls, delays) = supervise(&policy, ms(10), |_| (failed(), false));
    let err = outcome.expect_err("budget must be exhausted");
    assert!(matches!(err.current_context(), UtilsError::RetryExhausted));
    assert_eq!(calls, 4);
    assert_eq!(delays, vec![ms(1), ms(2), ms(4)]);
    assert_eq!(
        err.attachments(),
        &vec![
            "supervisor [always-fails] exhausted restart budget: 4 restarts exceeds cap 3"
                .to_string()
        ]
    );
    assert_eq!(err.cause().unwrap().current_context(), UtilsError::Internal);
}

#[test]
fn restart_on_ok_disabled_stops_after_one_run() {
    let policy = Supervisor::new().restart_on_ok(false);
    let (outcome, calls, _) = supervise(&policy, ms(1), |_| (TaskExit::Completed, false));
    outcome.expect("Ok exit must be treated as terminal");
    assert_eq!(calls, 1);
}

#[test]
fn cancellation_stops_the_loop() {
    let policy = Supervisor::new();
    let (outcome, calls, _) = supervise(&policy, ms(1), |_| (TaskExit::Completed, true));
    outcome.expect("cancellation must not surface as an error");
    assert_eq!(calls, 1);
}

#[test]
fn panic_restarts_by_default() {
    let policy = Supervisor::new()
        .max_restarts(cap(2))
        .base_backoff(ms(1))
        .max_backoff(ms(2))
        .jitter(false);
    let (outcome, calls, _) = supervise(&policy, ms(1), |_| {
        (TaskExit::Panicked("synthetic panic".to_string()), false)
    });
    let err = outcome.expect_err("budget must be exhausted");
    assert!(matches!(err.current_context(), UtilsError::RetryExhausted));
    assert_eq!(calls, 3);
    let cause = err.cause().unwrap();
    assert_eq!(cause.current_context(), UtilsError::Concurrency);
    assert_eq!(cause.attachments(), &vec!["panic: synthetic panic".to_string()]);
}

#[test]
fn panic_terminates_when_disabled() {
    let policy = Supervisor::new().restart_on_panic(false);
    let (outcome, _, _) = supervise(&policy, ms(1), |_| {
        (TaskExit::Panicked("synthetic panic".to_string()), false)
    });
    let err = outcome.expect_err("panic must terminate supervisor");
    assert!(matches!(err.current_context(), UtilsError::Concurrency));
    assert_eq!(
        err.attachments(),
        &vec![
            "supervised task [supervisor] panicked and restart_on_panic is disabled".to_string(),
            "panic: synthetic panic".to_string(),
        ]
    );
}

#[test]
fn backoff_saturates_at_cap_without_jitter() {
    let base = Duration::from_millis(100);
    let cap = Duration::from_secs(1);
    assert_eq!(compute_backoff(base, cap, 1, false), Duration::from_millis(100));
    assert_eq!(compute_backoff(base, cap, 2, false), Duration::from_millis(200));
    assert_eq!(compute_backoff(base, cap, 3, false), Duration::from_millis(400));
    assert_eq!(compute_backoff(base, cap, 4, false), Duration::from_millis(800));
    assert_eq!(compute_backoff(base, cap, 5, false), cap);
    assert_eq!(compute_backoff(base, cap, 1_000, false), cap);
}

#[test]
fn sporadic_failures_do_not_exhaust_a_windowed_budget() {
    let policy = Supervisor::default()
        .max_restarts(cap(2))
        .restart_window(ms(100))
        .base_backoff(ms(1))
        .max_backoff(ms(2))
        .jitter(false);
    let exit = |run| (failed(), run == 50);
    let (outcome, calls, _) = supervise(&policy, ms(60), exit);
    assert!(outcome.is_ok());
    assert_eq!(calls, 50);
    let (outcome, calls, _) = supervise(&policy, ms(30), exit);
    assert_eq!(calls, 3);
    assert_eq!(
        outcome.unwrap_err().attachments(),
        &vec![
            "supervisor [supervisor] exhausted restart budget: 3 restarts within 100ms exceeds cap 2"
                .to_string()
        ]
    );
}

#[test]
fn restart_at_the_edge_of_the_window_still_counts() {
    let policy = Supervisor::new().max_restarts(cap(1)).restart_window(ms(100)).jitter(false);
    let (outcome, calls, _) = supervise(&policy, ms(100), |run| (failed(), run == 9));
    assert!(outcome.is_err());
    assert_eq!(calls, 2);
}

#[test]
fn healthy_run_restarts_the_backoff() {
    let policy = Supervisor::new().base_backoff(ms(10)).max_backoff(ms(40)).jitter(false);
    let mut state = Supervision::new();
    let mut delays = Vec::new();
    for ran_for in [0, 0, 0, 40, 39] {
        let end = RunEnd {
            exit: TaskExit::Completed,
            cancelled: false,
            ran_for: ms(ran_for),
            now: Duration::zero(),
        };
        match policy.after_run_from(&mut state, end, 0) {
            SupervisorStep::Backoff(delay) => delays.push(delay),
            _ => panic!("the task must be restarted"),
        }
    }
    assert_eq!(delays, vec![ms(10), ms(20), ms(40), ms(10), ms(20)]);
}

#[test]
fn unjoinable_task_ends_the_supervision() {
    let policy = Supervisor::new().name("svc");
    let (outcome, calls, _) = supervise(&policy, ms(1), |_| {
        (TaskExit::JoinFailed("task was aborted".to_string()), false)
    });
    let err = outcome.unwrap_err();
    assert_eq!(calls, 1);
    assert_eq!(err.current_context(), UtilsError::Concurrency);
    assert_eq!(
        err.attachments(),
        &vec!["supervised task [svc] join failed".to_string(), "task was aborted".to_string()]
    );
}

#[test]
fn cancellation_outside_a_run_stops_cleanly() {
    let policy = Supervisor::new();
    assert!(matches!(policy.before_run(true), SupervisorStep::Stop(Ok(()))));
    assert!(matches!(policy.after_backoff(false, false), SupervisorStep::Stop(Ok(()))));
    assert!(matches!(policy.after_backoff(true, true), SupervisorStep::Stop(Ok(()))));
    assert!(matches!(policy.after_backoff(true, false), SupervisorStep::Run));
    let (outcome, _, _) = supervise(&policy.restart_on_panic(false), ms(1), |_| {
        (TaskExit::Panicked("late".to_string()), true)
    });
    assert!(outcome.is_ok());
}

#[test]
fn jittered_restart_delay_stays_below_the_cap() {
    let policy = Supervisor::new().max_restarts(cap(20)).base_backoff(ms(1)).max_backoff(ms(4));
    let (_, _, delays) = supervise(&policy, ms(1), |_| (failed(), false));
    assert_eq!(delays.len(), 20);
    assert!(delays.iter().all(|d| *d < ms(4)));
}

#[test]
fn cloned_policy_decides_alike() {
    let policy = Supervisor::new().name("a").max_restarts(cap(1)).base_backoff(ms(3)).jitter(false);
    let (first, runs, delays) = supervise(&policy, ms(1), |_| (failed(), false));
    let (second, runs_again, delays_again) = supervise(&policy.clone(), ms(1), |_| (failed(), false));
    assert_eq!(first.unwrap_err().attachments(), second.unwrap_err().attachments());
    assert_eq!(runs, runs_again);
    assert_eq!(delays, delays_again);
}

#[test]
fn rendered_supervisor_shows_its_settings() {
    assert_eq!(
        Supervisor::new().debug_text(),
        "Supervisor { name: None, max_restarts: None, restart_window: None, base_backoff: 200ms, \
         max_backoff: 30s, jitter: true, restart_on_ok: true, restart_on_panic: true }"
    );
    let policy = Supervisor::new()
        .name("svc")
        .max_restarts(cap(10))
        .restart_window(Duration::from_secs(60))
        .jitter(false);
    assert_eq!(
        policy.debug_text(),
        "Supervisor { name: Some(\"svc\"), max_restarts: Some(10), restart_window: Some(60s), \
         base_backoff: 200ms, max_backoff: 30s, jitter: false, restart_on_ok: true, \
         restart_on_panic: true }"
    );
}
