//! Decisions of a graceful shutdown: which task exits trigger it, and what
//! comes of waiting for the tasks to wind down.

use vstd::prelude::*;
use vstd::string::*;

use crate::concurrency::supervisor::{TaskExit, TaskExitView};
use crate::error::{ReportView, UtilsError, UtilsReport, UtilsResult};
use crate::text;
use crate::text::decimal_text;
use crate::time;
use crate::time::Duration;

verus! {

/// The text of a shutdown that ran out of time.
pub open spec fn timed_out_text(timeout: nat, remaining: nat) -> Seq<char> {
    "shutdown timed out after "@ + time::duration_text(timeout) + " with "@ + text::decimal(
        remaining,
    ) + " task(s) still running"@
}

/// What a shutdown comes to: it succeeds when every task ended in time.
/// Otherwise it is a [`UtilsError::Concurrency`] report that tells how many
/// tasks are left.
pub fn shutdown_outcome(drained: bool, timeout: Duration, remaining: usize) -> (r: UtilsResult<()>)
    ensures
        drained ==> r == Ok::<(), UtilsReport>(()),
        !drained ==> (r matches Err(report) && report@ == ReportView::fresh(
            UtilsError::Concurrency,
            seq![timed_out_text(timeout@, remaining as nat)],
        )),
{
    if drained {
        return Ok(());
    }
    let mut detail: String = "shutdown timed out after ".to_string();
    detail.append(timeout.debug_text().as_str());
    detail.append(" with ");
    detail.append(decimal_text(remaining as u64).as_str());
    detail.append(" task(s) still running");
    let report: UtilsReport = UtilsReport::new(UtilsError::Concurrency).attach(detail);
    assert(report@.attachments =~= seq![detail@]);
    Err(report)
}

/// Whether the end of a critical task shuts everything down: unless it
/// returned successfully, it does.
pub fn critical_exit_cancels(exit: &TaskExit) -> (r: bool)
    ensures
        r == (exit@ != TaskExitView::Completed),
{
    match exit {
        TaskExit::Completed => false,
        _ => true,
    }
}

/// A shutdown fails exactly where tasks are left when time is up, and then
/// tells for how long it waited and how many are left.
pub proof fn only_stuck_shutdowns_fail(
    drained: bool,
    timeout: Duration,
    remaining: usize,
    r: UtilsResult<()>,
)
    requires
        call_ensures(shutdown_outcome, (drained, timeout, remaining), r),
    ensures
        r is Ok <==> drained,
        r matches Err(report) ==> report@.context == UtilsError::Concurrency && report@.cause
            is None && report@.attachments =~= seq![
            "shutdown timed out after "@ + time::duration_text(timeout@) + " with "@
                + text::decimal(remaining as nat) + " task(s) still running"@,
        ],
{
}

/// A critical task shuts everything down by failing, panicking or getting
/// lost, and not by returning successfully.
pub proof fn failed_critical_tasks_cancel(exit: &TaskExit, r: bool)
    requires
        call_ensures(critical_exit_cancels, (exit,), r),
    ensures
        r <==> exit is Failed || exit is Panicked || exit is JoinFailed,
        exit is Completed ==> !r,
{
}

} // verus!
