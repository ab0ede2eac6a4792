use rust_utils::concurrency::shutdown::{critical_exit_cancels, shutdown_outcome};
use rust_utils::concurrency::supervisor::TaskExit;
use rust_utils::time::Duration;
use rust_utils::{UtilsError, UtilsReport};

#[test]
fn shutdown_times_out_on_stuck_tasks() {
    let err = shutdown_outcome(false, Duration::from_millis(50), 1)
        .expect_err("timeout must fire on a stuck task");
    assert!(matches!(err.current_context(), UtilsError::Concurrency));
    assert_eq!(
        err.attachments(),
        &vec!["shutdown timed out after 50ms with 1 task(s) still running".to_string()]
    );
}

#[test]
fn drained_shutdown_succeeds() {
    shutdown_outcome(true, Duration::from_secs(1), 0)
        .expect("tasks must finish within the generous timeout");
}

#[test]
fn only_failures_of_critical_tasks_cancel() {
    assert!(!critical_exit_cancels(&TaskExit::Completed));
    let failed = TaskExit::Failed(UtilsReport::new(UtilsError::Internal));
    assert!(critical_exit_cancels(&failed));
    assert!(critical_exit_cancels(&TaskExit::Panicked("boom".to_string())));
    assert!(critical_exit_cancels(&TaskExit::JoinFailed("gone".to_string())));
}
