//! Restart policy for a long-running task.
//!
//! A [`Supervisor`] decides, each time the supervised task ends, whether it
//! is started again and after which delay. A budget bounds the restarts,
//! optionally over a rolling window, and exponential backoff keeps a crash
//! loop from spinning. The caller runs the task, measures time on one
//! monotonic clock, and asks after every run; a cancellation signal ends the
//! supervision cleanly whatever the task did.

use std::collections::VecDeque;

use vstd::prelude::*;
use vstd::string::*;

use crate::backoff;
use crate::backoff::{clock_source, compute_delay, compute_delay_from};
use crate::error::{ReportView, UtilsError, UtilsReport, UtilsResult};
use crate::nonzero::NonZeroU32;
use crate::text;
use crate::text::{decimal_text, flag_text, optional_quoted_text, optional_text};
use crate::time;
use crate::time::Duration;

verus! {

/// Builder for a restart policy.
///
/// Defaults: unlimited restarts, 200 ms base backoff, 30 s cap, full jitter,
/// restart on everything.
#[derive(Debug)]
pub struct Supervisor {
    name: Option<String>,
    max_restarts: Option<NonZeroU32>,
    restart_window: Option<Duration>,
    base_backoff: Duration,
    max_backoff: Duration,
    jitter: bool,
    restart_on_ok: bool,
    restart_on_panic: bool,
}

/// What a [`Supervisor`] is set to; times in nanoseconds.
pub struct SupervisorView {
    pub name: Option<Seq<char>>,
    pub max_restarts: Option<nat>,
    pub restart_window: Option<nat>,
    pub base_backoff: nat,
    pub max_backoff: nat,
    pub jitter: bool,
    pub restart_on_ok: bool,
    pub restart_on_panic: bool,
}

impl View for Supervisor {
    type V = SupervisorView;

    closed spec fn view(&self) -> SupervisorView {
        SupervisorView {
            name: match self.name {
                None => None,
                Some(name) => Some(name@),
            },
            max_restarts: match self.max_restarts {
                None => None,
                Some(n) => Some(n@),
            },
            restart_window: match self.restart_window {
                None => None,
                Some(d) => Some(d@),
            },
            base_backoff: self.base_backoff@,
            max_backoff: self.max_backoff@,
            jitter: self.jitter,
            restart_on_ok: self.restart_on_ok,
            restart_on_panic: self.restart_on_panic,
        }
    }
}

/// How one run of the supervised task ended.
#[derive(Debug)]
pub enum TaskExit {
    /// The task returned successfully.
    Completed,
    /// The task returned an error.
    Failed(UtilsReport),
    /// The task panicked with this message.
    Panicked(String),
    /// The task could not be joined, for this reason.
    JoinFailed(String),
}

/// What a [`TaskExit`] tells.
pub enum TaskExitView {
    Completed,
    Failed(ReportView),
    Panicked(Seq<char>),
    JoinFailed(Seq<char>),
}

impl View for TaskExit {
    type V = TaskExitView;

    open spec fn view(&self) -> TaskExitView {
        match self {
            TaskExit::Completed => TaskExitView::Completed,
            TaskExit::Failed(report) => TaskExitView::Failed(report@),
            TaskExit::Panicked(message) => TaskExitView::Panicked(message@),
            TaskExit::JoinFailed(message) => TaskExitView::JoinFailed(message@),
        }
    }
}

/// The end of one run, as observed by the caller.
#[derive(Debug)]
pub struct RunEnd {
    /// How the task ended.
    pub exit: TaskExit,
    /// Whether the cancellation signal has fired by now.
    pub cancelled: bool,
    /// How long the run lasted.
    pub ran_for: Duration,
    /// The current time on the caller's monotonic clock.
    pub now: Duration,
}

/// What a [`RunEnd`] tells; times in nanoseconds.
pub struct RunEndView {
    pub exit: TaskExitView,
    pub cancelled: bool,
    pub ran_for: nat,
    pub now: nat,
}

impl View for RunEnd {
    type V = RunEndView;

    open spec fn view(&self) -> RunEndView {
        RunEndView {
            exit: self.exit@,
            cancelled: self.cancelled,
            ran_for: self.ran_for@,
            now: self.now@,
        }
    }
}

/// What the supervision remembers from run to run.
#[derive(Debug)]
pub struct Supervision {
    history: VecDeque<Duration>,
    consecutive: u32,
}

/// What a [`Supervision`] holds: the times of the restarts that still count,
/// oldest first, and how many restarts came in a row without a healthy run.
pub struct SupervisionView {
    pub history: Seq<nat>,
    pub consecutive: nat,
}

impl View for Supervision {
    type V = SupervisionView;

    closed spec fn view(&self) -> SupervisionView {
        SupervisionView {
            history: self.history@.map_values(|d: Duration| d@),
            consecutive: self.consecutive as nat,
        }
    }
}

/// What the caller does next.
#[derive(Debug)]
pub enum SupervisorStep {
    /// Start an instance of the task.
    Run,
    /// Wait, unless cancelled, and then start again.
    Backoff(Duration),
    /// Supervision is over.
    Stop(UtilsResult<()>),
}

/// What a [`SupervisorStep`] asks for.
pub enum SupervisorStepView {
    Run,
    Backoff(nat),
    Stop(Result<(), ReportView>),
}

impl View for SupervisorStep {
    type V = SupervisorStepView;

    open spec fn view(&self) -> SupervisorStepView {
        match self {
            SupervisorStep::Run => SupervisorStepView::Run,
            SupervisorStep::Backoff(d) => SupervisorStepView::Backoff(d@),
            SupervisorStep::Stop(Ok(())) => SupervisorStepView::Stop(Ok(())),
            SupervisorStep::Stop(Err(report)) => SupervisorStepView::Stop(Err(report@)),
        }
    }
}

impl SupervisorView {
    /// The name that messages carry.
    pub open spec fn label(self) -> Seq<char> {
        match self.name {
            Some(name) => name,
            None => "supervisor"@,
        }
    }

    /// The text of a spent restart budget.
    pub open spec fn exhausted_text(self, count: nat, cap: nat) -> Seq<char> {
        let window = match self.restart_window {
            Some(window) => " within "@ + time::duration_text(window),
            None => Seq::empty(),
        };
        "supervisor ["@ + self.label() + "] exhausted restart budget: "@ + text::decimal(count)
            + " restarts"@ + window + " exceeds cap "@ + text::decimal(cap)
    }

    /// How the policy is rendered for debugging.
    pub open spec fn debug_text(self) -> Seq<char> {
        let window = match self.restart_window {
            Some(window) => text::optional(Some(time::duration_text(window))),
            None => text::optional(None),
        };
        "Supervisor { name: "@ + text::optional_quoted(self.name) + ", max_restarts: "@
            + text::optional_decimal(self.max_restarts) + ", restart_window: "@ + window
            + ", base_backoff: "@ + time::duration_text(self.base_backoff) + ", max_backoff: "@
            + time::duration_text(self.max_backoff) + ", jitter: "@ + text::flag(self.jitter)
            + ", restart_on_ok: "@ + text::flag(self.restart_on_ok) + ", restart_on_panic: "@
            + text::flag(self.restart_on_panic) + " }"@
    }

    /// The report of a panic that ends the supervision.
    pub open spec fn panic_report(self, message: Seq<char>) -> ReportView {
        ReportView::fresh(
            UtilsError::Concurrency,
            seq![
                "supervised task ["@ + self.label()
                    + "] panicked and restart_on_panic is disabled"@,
                "panic: "@ + message,
            ],
        )
    }

    /// The report of a task that could not be joined.
    pub open spec fn join_report(self, message: Seq<char>) -> ReportView {
        ReportView::fresh(
            UtilsError::Concurrency,
            seq!["supervised task ["@ + self.label() + "] join failed"@, message],
        )
    }

    /// The report of a spent restart budget: what ended the last run is its
    /// cause.
    pub open spec fn exhausted_report(self, exit: TaskExitView, count: nat, cap: nat) -> ReportView {
        let details = seq![self.exhausted_text(count, cap)];
        match exit {
            TaskExitView::Failed(report) => report.rotated(UtilsError::RetryExhausted, details),
            TaskExitView::Panicked(message) => ReportView::fresh(
                UtilsError::Concurrency,
                seq!["panic: "@ + message],
            ).rotated(UtilsError::RetryExhausted, details),
            _ => ReportView::fresh(UtilsError::RetryExhausted, details),
        }
    }

    /// How the supervision ends with a run that ended like this, if the
    /// policy does not restart after it.
    pub open spec fn terminal(self, exit: TaskExitView) -> Option<Result<(), ReportView>> {
        match exit {
            TaskExitView::Completed => if self.restart_on_ok {
                None
            } else {
                Some(Ok(()))
            },
            TaskExitView::Failed(_) => None,
            TaskExitView::Panicked(message) => if self.restart_on_panic {
                None
            } else {
                Some(Err(self.panic_report(message)))
            },
            TaskExitView::JoinFailed(message) => Some(Err(self.join_report(message))),
        }
    }

    /// The restarts that still count at `now`.
    pub open spec fn counted(self, history: Seq<nat>, now: nat) -> Seq<nat> {
        match self.restart_window {
            None => history,
            Some(window) => prune(history, now, window),
        }
    }

    /// What follows a run, and what is remembered of it. `source` is the
    /// number that jitter draws from.
    pub open spec fn settle(self, state: SupervisionView, end: RunEndView, source: u64) -> (
        SupervisionView,
        SupervisorStepView,
    ) {
        let streak = if end.ran_for >= self.max_backoff {
            0
        } else {
            state.consecutive
        };
        let history = self.counted(state.history.push(end.now), end.now);
        let next = if streak < u32::MAX {
            streak + 1
        } else {
            u32::MAX as nat
        };
        if end.cancelled {
            (state, SupervisorStepView::Stop(Ok(())))
        } else if self.terminal(end.exit) is Some {
            (
                SupervisionView { consecutive: streak, ..state },
                SupervisorStepView::Stop(self.terminal(end.exit)->0),
            )
        } else if self.max_restarts is Some && history.len() > self.max_restarts->0 {
            (
                SupervisionView { history, consecutive: streak },
                SupervisorStepView::Stop(
                    Err(self.exhausted_report(end.exit, history.len(), self.max_restarts->0)),
                ),
            )
        } else {
            (
                SupervisionView { history, consecutive: next },
                SupervisorStepView::Backoff(
                    backoff::delay_nanos(self.base_backoff, self.max_backoff, next, self.jitter, source),
                ),
            )
        }
    }
}

/// How long before `now` a restart was; zero where the clock has not moved
/// past it.
pub open spec fn age(now: nat, at: nat) -> nat {
    if now >= at {
        (now - at) as nat
    } else {
        0
    }
}

/// `history` without the restarts at its front that are older than `window`.
pub open spec fn prune(history: Seq<nat>, now: nat, window: nat) -> Seq<nat>
    decreases history.len(),
{
    if history.len() > 0 && age(now, history[0]) > window {
        prune(history.skip(1), now, window)
    } else {
        history
    }
}

impl Supervision {
    /// Nothing has run yet.
    pub fn new() -> (r: Supervision)
        ensures
            r@ == (SupervisionView { history: Seq::empty(), consecutive: 0 }),
    {
        let r: Supervision = Supervision { history: VecDeque::new(), consecutive: 0 };
        assert(r@.history =~= Seq::empty());
        r
    }
}

/// Drop the restarts at the front of `history` that are older than `window`.
fn prune_history(history: &mut VecDeque<Duration>, now: Duration, window: Duration)
    ensures
        final(history)@.map_values(|d: Duration| d@) == prune(
            old(history)@.map_values(|d: Duration| d@),
            now@,
            window@,
        ),
{
    while history.len() > 0 && !window.at_least(now.saturating_sub(history[0]))
        invariant
            prune(history@.map_values(|d: Duration| d@), now@, window@) == prune(
                old(history)@.map_values(|d: Duration| d@),
                now@,
                window@,
            ),
        decreases history@.len(),
    {
        let ghost before = history@;
        let _ = history.pop_front();
        assert(history@.map_values(|d: Duration| d@) =~= before.map_values(|d: Duration| d@).skip(
            1,
        ));
    }
}

impl Supervisor {
    /// The default policy.
    pub fn new() -> (r: Supervisor)
        ensures
            r@ == (SupervisorView {
                name: None,
                max_restarts: None,
                restart_window: None,
                base_backoff: 200_000_000,
                max_backoff: 30_000_000_000,
                jitter: true,
                restart_on_ok: true,
                restart_on_panic: true,
            }),
    {
        Supervisor {
            name: None,
            max_restarts: None,
            restart_window: None,
            base_backoff: Duration::from_millis(200),
            max_backoff: Duration::from_secs(30),
            jitter: true,
            restart_on_ok: true,
            restart_on_panic: true,
        }
    }

    /// Label the messages of this supervisor.
    pub fn name(self, name: &str) -> (r: Supervisor)
        ensures
            r@ == (SupervisorView { name: Some(name@), ..self@ }),
    {
        Supervisor { name: Some(name.to_string()), ..self }
    }

    /// Give up after this many restarts; within the rolling window only,
    /// where one is set.
    pub fn max_restarts(self, n: NonZeroU32) -> (r: Supervisor)
        ensures
            r@ == (SupervisorView { max_restarts: Some(n@), ..self@ }),
    {
        Supervisor { max_restarts: Some(n), ..self }
    }

    /// Count only the restarts of a rolling window towards the cap.
    pub fn restart_window(self, d: Duration) -> (r: Supervisor)
        ensures
            r@ == (SupervisorView { restart_window: Some(d@), ..self@ }),
    {
        Supervisor { restart_window: Some(d), ..self }
    }

    /// The delay before the first of several restarts in a row.
    pub fn base_backoff(self, d: Duration) -> (r: Supervisor)
        ensures
            r@ == (SupervisorView { base_backoff: d@, ..self@ }),
    {
        Supervisor { base_backoff: d, ..self }
    }

    /// The longest delay before a restart. A run that lasts this long counts
    /// as healthy.
    pub fn max_backoff(self, d: Duration) -> (r: Supervisor)
        ensures
            r@ == (SupervisorView { max_backoff: d@, ..self@ }),
    {
        Supervisor { max_backoff: d, ..self }
    }

    /// Enable or disable full jitter on the delays.
    pub fn jitter(self, v: bool) -> (r: Supervisor)
        ensures
            r@ == (SupervisorView { jitter: v, ..self@ }),
    {
        Supervisor { jitter: v, ..self }
    }

    /// Whether a task that returned successfully is restarted.
    pub fn restart_on_ok(self, v: bool) -> (r: Supervisor)
        ensures
            r@ == (SupervisorView { restart_on_ok: v, ..self@ }),
    {
        Supervisor { restart_on_ok: v, ..self }
    }

    /// Whether a task that panicked is restarted.
    pub fn restart_on_panic(self, v: bool) -> (r: Supervisor)
        ensures
            r@ == (SupervisorView { restart_on_panic: v, ..self@ }),
    {
        Supervisor { restart_on_panic: v, ..self }
    }

    /// The policy as text for diagnostics.
    pub fn debug_text(&self) -> (r: String)
        ensures
            r@ == self@.debug_text(),
    {
        let mut text: String = "Supervisor { name: ".to_string();
        text.append(optional_quoted_text(&self.name).as_str());
        text.append(", max_restarts: ");
        text.append(
            optional_text(
                match self.max_restarts {
                    Some(n) => Some(decimal_text(n.get() as u64)),
                    None => None,
                },
            ).as_str(),
        );
        text.append(", restart_window: ");
        text.append(
            optional_text(
                match self.restart_window {
                    Some(d) => Some(d.debug_text()),
                    None => None,
                },
            ).as_str(),
        );
        text.append(", base_backoff: ");
        text.append(self.base_backoff.debug_text().as_str());
        text.append(", max_backoff: ");
        text.append(self.max_backoff.debug_text().as_str());
        text.append(", jitter: ");
        text.append(flag_text(self.jitter));
        text.append(", restart_on_ok: ");
        text.append(flag_text(self.restart_on_ok));
        text.append(", restart_on_panic: ");
        text.append(flag_text(self.restart_on_panic));
        text.append(" }");
        text
    }

    /// The name that messages carry.
    pub fn label(&self) -> (r: &str)
        ensures
            r@ == self@.label(),
    {
        match &self.name {
            Some(name) => name.as_str(),
            None => "supervisor",
        }
    }

    /// What to do before a run: nothing is started once cancelled.
    pub fn before_run(&self, cancelled: bool) -> (r: SupervisorStep)
        ensures
            r@ == (if cancelled {
                SupervisorStepView::Stop(Ok(()))
            } else {
                SupervisorStepView::Run
            }),
    {
        if cancelled {
            SupervisorStep::Stop(Ok(()))
        } else {
            SupervisorStep::Run
        }
    }

    /// What to do once a delay is over: `elapsed` tells whether it was waited
    /// out, or else cut short by a cancellation.
    pub fn after_backoff(&self, elapsed: bool, cancelled: bool) -> (r: SupervisorStep)
        ensures
            r@ == (if elapsed && !cancelled {
                SupervisorStepView::Run
            } else {
                SupervisorStepView::Stop(Ok(()))
            }),
    {
        if elapsed {
            self.before_run(cancelled)
        } else {
            SupervisorStep::Stop(Ok(()))
        }
    }

    fn bracketed(&self, before: &str, after: &str) -> (r: String)
        ensures
            r@ == before@ + self@.label() + after@,
    {
        let mut text: String = before.to_string();
        text.append(self.label());
        text.append(after);
        text
    }

    fn panic_text(message: &String) -> (r: String)
        ensures
            r@ == "panic: "@ + message@,
    {
        let mut text: String = "panic: ".to_string();
        text.append(message.as_str());
        text
    }

    fn exhausted_text(&self, count: usize, cap: u32) -> (r: String)
        ensures
            r@ == self@.exhausted_text(count as nat, cap as nat),
    {
        let mut text: String = self.bracketed("supervisor [", "] exhausted restart budget: ");
        text.append(decimal_text(count as u64).as_str());
        text.append(" restarts");
        match self.restart_window {
            Some(window) => {
                text.append(" within ");
                text.append(window.debug_text().as_str());
            },
            None => {},
        }
        text.append(" exceeds cap ");
        text.append(decimal_text(cap as u64).as_str());
        assert(text@ =~= self@.exhausted_text(count as nat, cap as nat));
        text
    }

    fn exhausted_report(&self, exit: TaskExit, count: usize, cap: u32) -> (r: UtilsReport)
        ensures
            r@ == self@.exhausted_report(exit@, count as nat, cap as nat),
    {
        let report: UtilsReport = match exit {
            TaskExit::Failed(report) => report.change_context(UtilsError::RetryExhausted),
            TaskExit::Panicked(message) => {
                let cause: UtilsReport = UtilsReport::new(UtilsError::Concurrency).attach(
                    Self::panic_text(&message),
                );
                assert(cause@.attachments =~= seq!["panic: "@ + message@]);
                cause.change_context(UtilsError::RetryExhausted)
            },
            _ => UtilsReport::new(UtilsError::RetryExhausted),
        };
        let text: String = self.exhausted_text(count, cap);
        assert(report@.attachments.push(text@) =~= seq![text@]);
        report.attach(text)
    }

    /// What to do after a run, with jitter drawn from `source`.
    ///
    /// A run of at least `max_backoff` resets the streak that the backoff
    /// grows with.
    pub fn after_run_from(&self, state: &mut Supervision, end: RunEnd, source: u64) -> (r:
        SupervisorStep)
        ensures
            (final(state)@, r@) == self@.settle(old(state)@, end@, source),
    {
        if end.cancelled {
            return SupervisorStep::Stop(Ok(()));
        }
        if end.ran_for.at_least(self.max_backoff) {
            state.consecutive = 0;
        }
        match &end.exit {
            TaskExit::Completed => {
                if !self.restart_on_ok {
                    return SupervisorStep::Stop(Ok(()));
                }
            },
            TaskExit::Failed(_) => {},
            TaskExit::Panicked(message) => {
                if !self.restart_on_panic {
                    let report: UtilsReport = UtilsReport::new(UtilsError::Concurrency).attach(
                        self.bracketed(
                            "supervised task [",
                            "] panicked and restart_on_panic is disabled",
                        ),
                    ).attach(Self::panic_text(message));
                    assert(report@.attachments =~= self@.panic_report(message@).attachments);
                    return SupervisorStep::Stop(Err(report));
                }
            },
            TaskExit::JoinFailed(message) => {
                let report: UtilsReport = UtilsReport::new(UtilsError::Concurrency).attach(
                    self.bracketed("supervised task [", "] join failed"),
                ).attach(message.clone());
                assert(report@.attachments =~= self@.join_report(message@).attachments);
                return SupervisorStep::Stop(Err(report));
            },
        }
        state.history.push_back(end.now);
        assert(state.history@.map_values(|d: Duration| d@) =~= old(state)@.history.push(end.now@));
        match self.restart_window {
            Some(window) => prune_history(&mut state.history, end.now, window),
            None => {},
        }
        match self.max_restarts {
            Some(cap) => {
                let count: usize = state.history.len();
                if count as u64 > cap.get() as u64 {
                    return SupervisorStep::Stop(
                        Err(self.exhausted_report(end.exit, count, cap.get())),
                    );
                }
            },
            None => {},
        }
        state.consecutive = state.consecutive.saturating_add(1);
        SupervisorStep::Backoff(
            compute_delay_from(
                self.base_backoff,
                self.max_backoff,
                state.consecutive,
                self.jitter,
                source,
            ),
        )
    }

    /// What to do after a run. With jitter, the delay is drawn from the wall
    /// clock.
    pub fn after_run(&self, state: &mut Supervision, end: RunEnd) -> (r: SupervisorStep)
        ensures
            exists|source: u64|
                (self@.jitter ==> backoff::is_clock_reading(source)) && (final(state)@, r@)
                    == #[trigger] self@.settle(old(state)@, end@, source),
    {
        let source: u64 = if self.jitter { clock_source() } else { 0 };
        self.after_run_from(state, end, source)
    }
}

impl Clone for Supervisor {
    fn clone(&self) -> (r: Supervisor)
        ensures
            r@ == self@,
    {
        Supervisor {
            name: match &self.name {
                Some(name) => Some(name.clone()),
                None => None,
            },
            max_restarts: self.max_restarts,
            restart_window: self.restart_window,
            base_backoff: self.base_backoff,
            max_backoff: self.max_backoff,
            jitter: self.jitter,
            restart_on_ok: self.restart_on_ok,
            restart_on_panic: self.restart_on_panic,
        }
    }
}

impl Default for Supervisor {
    fn default() -> (r: Supervisor)
        ensures
            r@ == (SupervisorView {
                name: None,
                max_restarts: None,
                restart_window: None,
                base_backoff: 200_000_000,
                max_backoff: 30_000_000_000,
                jitter: true,
                restart_on_ok: true,
                restart_on_panic: true,
            }),
    {
        Supervisor::new()
    }
}

/// The next backoff between restarts: `base * 2^(attempt - 1)`, capped at
/// `max`, and with `jitter` drawn from `[0, capped]`.
pub fn compute_backoff(base: Duration, max: Duration, attempt: u32, jitter: bool) -> (r: Duration)
    ensures
        r@ <= backoff::backoff_nanos(base@, max@, attempt as nat) <= max@,
        !jitter ==> r@ == backoff::backoff_nanos(base@, max@, attempt as nat),
        exists|source: u64|
            (jitter ==> backoff::is_clock_reading(source)) && r@ == #[trigger] backoff::delay_nanos(
                base@,
                max@,
                attempt as nat,
                jitter,
                source,
            ),
{
    compute_delay(base, max, attempt, jitter)
}

/// Where the supervision stands after the first `n` of these runs, with
/// jitter drawn from `sources`; it takes no further step once stopped.
pub open spec fn supervised(
    policy: SupervisorView,
    ends: Seq<RunEndView>,
    sources: Seq<u64>,
    n: nat,
) -> (SupervisionView, SupervisorStepView)
    decreases n,
{
    if n == 0 {
        (SupervisionView { history: Seq::empty(), consecutive: 0 }, SupervisorStepView::Run)
    } else {
        let before = supervised(policy, ends, sources, (n - 1) as nat);
        if before.1 is Stop {
            before
        } else {
            policy.settle(before.0, ends[n - 1], sources[n - 1])
        }
    }
}

/// Whether the policy restarts after such a run as long as its budget lasts.
pub open spec fn restartable(policy: SupervisorView, end: RunEndView) -> bool {
    !end.cancelled && policy.terminal(end.exit) is None
}

/// A cancellation ends the supervision cleanly, whatever the task did.
pub proof fn cancellation_stops_cleanly(
    policy: SupervisorView,
    state: SupervisionView,
    end: RunEndView,
    source: u64,
)
    requires
        end.cancelled,
    ensures
        policy.settle(state, end, source).1 == SupervisorStepView::Stop(Ok(())),
{
}

/// No delay between restarts exceeds the cap; after a healthy run the delays
/// start over from the base delay, and otherwise the streak goes on.
pub proof fn healthy_run_resets_the_backoff(
    policy: SupervisorView,
    state: SupervisionView,
    end: RunEndView,
    source: u64,
)
    requires
        policy.settle(state, end, source).1 is Backoff,
    ensures
        policy.settle(state, end, source).1->Backoff_0 <= policy.max_backoff,
        end.ran_for >= policy.max_backoff ==> policy.settle(state, end, source)
            .1->Backoff_0 == backoff::delay_nanos(
            policy.base_backoff,
            policy.max_backoff,
            1,
            policy.jitter,
            source,
        ),
        end.ran_for < policy.max_backoff && state.consecutive < u32::MAX ==> policy.settle(
            state,
            end,
            source,
        ).1->Backoff_0 == backoff::delay_nanos(
            policy.base_backoff,
            policy.max_backoff,
            state.consecutive + 1,
            policy.jitter,
            source,
        ),
{
    let next = policy.settle(state, end, source).0.consecutive;
    backoff::jitter_stays_below_cap(
        backoff::backoff_nanos(policy.base_backoff, policy.max_backoff, next),
        source,
    );
}

/// The `k`-th restart since the last healthy run, or since the start where
/// there was none, waits for the `k`-th delay of the backoff; the count
/// saturates at `u32::MAX`.
pub proof fn streak_sets_the_delay(
    policy: SupervisorView,
    ends: Seq<RunEndView>,
    sources: Seq<u64>,
    n: nat,
    k: nat,
)
    requires
        0 < k <= n <= ends.len(),
        k == n || ends[n - k].ran_for >= policy.max_backoff,
        forall|i: int| n - k < i < n ==> (#[trigger] ends[i]).ran_for < policy.max_backoff,
        supervised(policy, ends, sources, n).1 is Backoff,
    ensures
        ({
            let count = if k < u32::MAX {
                k
            } else {
                u32::MAX as nat
            };
            &&& supervised(policy, ends, sources, n).0.consecutive == count
            &&& supervised(policy, ends, sources, n).1 == SupervisorStepView::Backoff(
                backoff::delay_nanos(
                    policy.base_backoff,
                    policy.max_backoff,
                    count,
                    policy.jitter,
                    sources[n - 1],
                ),
            )
        }),
    decreases n,
{
    lemma_running(policy, ends, sources, n, (n - 1) as nat);
    if n > 1 && k > 1 {
        assert(ends[n - 1].ran_for < policy.max_backoff);
        streak_sets_the_delay(policy, ends, sources, (n - 1) as nat, (k - 1) as nat);
    }
}

/// Without a window, a policy with a cap of `cap` allows exactly that many
/// restarts: it goes on after each of the first `cap` runs and gives up with
/// the next.
pub proof fn budget_allows_exactly_the_cap(
    policy: SupervisorView,
    ends: Seq<RunEndView>,
    sources: Seq<u64>,
    cap: nat,
    n: nat,
)
    requires
        policy.restart_window is None,
        policy.max_restarts == Some(cap),
        n <= ends.len(),
        forall|i: int| 0 <= i < n ==> restartable(policy, #[trigger] ends[i]),
    ensures
        n <= cap ==> supervised(policy, ends, sources, n).1 !is Stop && supervised(
            policy,
            ends,
            sources,
            n,
        ).0.history.len() == n,
        n > cap ==> (supervised(policy, ends, sources, n).1 matches SupervisorStepView::Stop(
            Err(report),
        ) && report.context == UtilsError::RetryExhausted),
    decreases n,
{
    if n > 0 {
        budget_allows_exactly_the_cap(policy, ends, sources, cap, (n - 1) as nat);
        assert(restartable(policy, ends[n - 1]));
    }
}

/// Without a cap, only a cancellation or an exit that the policy does not
/// restart after ends the supervision.
pub proof fn no_cap_never_gives_up(
    policy: SupervisorView,
    ends: Seq<RunEndView>,
    sources: Seq<u64>,
    n: nat,
)
    requires
        policy.max_restarts is None,
        n <= ends.len(),
        forall|i: int| 0 <= i < n ==> restartable(policy, #[trigger] ends[i]),
    ensures
        supervised(policy, ends, sources, n).1 !is Stop,
    decreases n,
{
    if n > 0 {
        no_cap_never_gives_up(policy, ends, sources, (n - 1) as nat);
        assert(restartable(policy, ends[n - 1]));
    }
}

/// A spent budget is reported as such, and the error or panic of the last
/// run, where it ended with one, stays reachable as its cause.
pub proof fn exhausted_report_keeps_the_last_error(
    policy: SupervisorView,
    exit: TaskExitView,
    count: nat,
    cap: nat,
)
    ensures
        policy.exhausted_report(exit, count, cap).context == UtilsError::RetryExhausted,
        exit matches TaskExitView::Failed(report) ==> policy.exhausted_report(
            exit,
            count,
            cap,
        ).cause == Some(Box::new(report)),
        exit matches TaskExitView::Panicked(message) ==> (policy.exhausted_report(
            exit,
            count,
            cap,
        ).cause matches Some(cause) && cause.context == UtilsError::Concurrency
            && cause.attachments =~= seq!["panic: "@ + message]),
        exit is Completed ==> policy.exhausted_report(exit, count, cap).cause is None,
{
}

/// Whether a restart lies within `window` before `now`.
pub open spec fn within(now: nat, window: nat) -> spec_fn(nat) -> bool {
    |t: nat| age(now, t) <= window
}

/// A sequence all of whose items pass a filter is kept whole.
proof fn lemma_filter_keeps_all(s: Seq<nat>, pred: spec_fn(nat) -> bool)
    requires
        forall|i: int| 0 <= i < s.len() ==> pred(#[trigger] s[i]),
    ensures
        s.filter(pred) == s,
    decreases s.len(),
{
    reveal(Seq::filter);
    if s.len() > 0 {
        lemma_filter_keeps_all(s.drop_last(), pred);
        assert(s.drop_last().push(s.last()) =~= s);
    }
}

/// A first item that fails a filter can be left out before filtering.
proof fn lemma_filter_drops_first(s: Seq<nat>, pred: spec_fn(nat) -> bool)
    requires
        s.len() > 0,
        !pred(s[0]),
    ensures
        s.filter(pred) == s.skip(1).filter(pred),
    decreases s.len(),
{
    reveal(Seq::filter);
    if s.len() == 1 {
        assert(s.drop_last() =~= Seq::empty());
        assert(s.skip(1) =~= Seq::empty());
        assert(Seq::<nat>::empty().filter(pred) =~= Seq::empty());
    } else {
        lemma_filter_drops_first(s.drop_last(), pred);
        assert(s.drop_last().skip(1) =~= s.skip(1).drop_last());
        assert(s.skip(1).last() == s.last());
    }
}

/// A filter that is stricter than one applied before decides alone.
proof fn lemma_stricter_filter_wins(
    s: Seq<nat>,
    loose: spec_fn(nat) -> bool,
    strict: spec_fn(nat) -> bool,
)
    requires
        forall|i: int| 0 <= i < s.len() && strict(#[trigger] s[i]) ==> loose(s[i]),
    ensures
        s.filter(loose).filter(strict) == s.filter(strict),
    decreases s.len(),
{
    reveal(Seq::filter);
    if s.len() > 0 {
        let front = s.drop_last();
        assert forall|i: int| 0 <= i < front.len() && strict(#[trigger] front[i]) implies loose(
            front[i],
        ) by {
            assert(front[i] == s[i]);
        }
        lemma_stricter_filter_wins(front, loose, strict);
        assert(strict(s[s.len() - 1]) ==> loose(s[s.len() - 1]));
        let kept = front.filter(loose);
        assert(kept.push(s.last()).drop_last() =~= kept);
    }
}

/// On a clock that never runs backwards, the restarts that still count are
/// exactly those within the window, however old the others are.
pub proof fn pruning_keeps_the_window(history: Seq<nat>, now: nat, window: nat)
    requires
        forall|i: int, j: int| 0 <= i <= j < history.len() ==> history[i] <= history[j],
        forall|i: int| 0 <= i < history.len() ==> #[trigger] history[i] <= now,
    ensures
        prune(history, now, window) == history.filter(within(now, window)),
    decreases history.len(),
{
    let pred = within(now, window);
    if history.len() > 0 && age(now, history[0]) > window {
        let rest = history.skip(1);
        assert forall|i: int, j: int| 0 <= i <= j < rest.len() implies rest[i] <= rest[j] by {
            assert(rest[i] == history[i + 1] && rest[j] == history[j + 1]);
        }
        pruning_keeps_the_window(rest, now, window);
        lemma_filter_drops_first(history, pred);
    } else {
        assert forall|i: int| 0 <= i < history.len() implies pred(#[trigger] history[i]) by {
            assert(history[0] <= history[i]);
        }
        lemma_filter_keeps_all(history, pred);
    }
}

/// The times at which the first `n` runs ended.
pub open spec fn end_times(ends: Seq<RunEndView>, n: nat) -> Seq<nat> {
    Seq::new(n, |i: int| ends[i].now)
}

/// With a window, the budget counts exactly the restarts of the window
/// before the latest run: the policy gives up with the first run that has
/// more than `cap` of them, itself among them, and goes on after any other.
pub proof fn budget_counts_the_window(
    policy: SupervisorView,
    ends: Seq<RunEndView>,
    sources: Seq<u64>,
    cap: nat,
    window: nat,
    n: nat,
)
    requires
        policy.restart_window == Some(window),
        policy.max_restarts == Some(cap),
        0 < n <= ends.len(),
        forall|i: int| 0 <= i < n ==> restartable(policy, #[trigger] ends[i]),
        forall|i: int, j: int| 0 <= i <= j < n ==> ends[i].now <= ends[j].now,
        supervised(policy, ends, sources, (n - 1) as nat).1 !is Stop,
    ensures
        ({
            let recent = end_times(ends, n).filter(within(ends[n - 1].now, window));
            let after = supervised(policy, ends, sources, n);
            &&& after.0.history == recent
            &&& recent.len() <= cap ==> after.1 is Backoff
            &&& recent.len() > cap ==> (after.1 matches SupervisorStepView::Stop(Err(report))
                && report.context == UtilsError::RetryExhausted)
        }),
    decreases n,
{
    let now = ends[n - 1].now;
    let before = supervised(policy, ends, sources, (n - 1) as nat).0.history;
    let earlier = end_times(ends, (n - 1) as nat);
    assert(end_times(ends, n) =~= earlier.push(now));
    assert(restartable(policy, ends[n - 1]));
    if n == 1 {
        assert(before =~= Seq::empty());
        assert(earlier =~= Seq::empty());
        assert(before.push(now) =~= end_times(ends, n));
        pruning_keeps_the_window(before.push(now), now, window);
    } else {
        let previous = ends[n - 2].now;
        lemma_running(policy, ends, sources, (n - 1) as nat, (n - 2) as nat);
        budget_counts_the_window(policy, ends, sources, cap, window, (n - 1) as nat);
        let loose = within(previous, window);
        let strict = within(now, window);
        assert(before == earlier.filter(loose));
        lemma_filter_of_sorted(earlier, loose);
        assert forall|i: int| 0 <= i < before.push(now).len() implies #[trigger] before.push(now)[i]
            <= now by {
            if i < before.len() {
                assert(before[i] <= earlier.last());
            }
        }
        pruning_keeps_the_window(before.push(now), now, window);
        lemma_stricter_filter_wins(earlier, loose, strict);
        lemma_filter_push(before, strict, now);
        lemma_filter_push(earlier, strict, now);
    }
}

/// A supervision that has not stopped had not stopped before.
proof fn lemma_running(
    policy: SupervisorView,
    ends: Seq<RunEndView>,
    sources: Seq<u64>,
    n: nat,
    k: nat,
)
    requires
        k <= n,
        supervised(policy, ends, sources, n).1 !is Stop,
    ensures
        supervised(policy, ends, sources, k).1 !is Stop,
    decreases n,
{
    if k < n {
        lemma_running(policy, ends, sources, (n - 1) as nat, k);
    }
}

/// Filtering past one more item.
proof fn lemma_filter_push(s: Seq<nat>, pred: spec_fn(nat) -> bool, x: nat)
    ensures
        s.push(x).filter(pred) == (if pred(x) {
            s.filter(pred).push(x)
        } else {
            s.filter(pred)
        }),
{
    reveal(Seq::filter);
    assert(s.push(x).drop_last() =~= s);
}

/// Filtering keeps the order of a sorted sequence and its upper bound.
proof fn lemma_filter_of_sorted(s: Seq<nat>, pred: spec_fn(nat) -> bool)
    requires
        forall|i: int, j: int| 0 <= i <= j < s.len() ==> s[i] <= s[j],
    ensures
        forall|i: int, j: int|
            0 <= i <= j < s.filter(pred).len() ==> s.filter(pred)[i] <= s.filter(pred)[j],
        forall|i: int| 0 <= i < s.filter(pred).len() ==> #[trigger] s.filter(pred)[i] <= s.last(),
    decreases s.len(),
{
    reveal(Seq::filter);
    if s.len() > 0 {
        let front = s.drop_last();
        let kept = front.filter(pred);
        lemma_filter_of_sorted(front, pred);
        if front.len() == 0 {
            assert(kept =~= Seq::empty());
        } else {
            assert(front.last() <= s.last());
        }
        assert forall|i: int| 0 <= i < kept.len() implies #[trigger] kept[i] <= s.last() by {
            assert(front.filter(pred)[i] <= front.last());
        }
        assert(s.filter(pred) == (if pred(s.last()) {
            kept.push(s.last())
        } else {
            kept
        }));
    }
}

/// Pruning drops the restarts at the front that are more than the window ago,
/// up to the first that is not, and keeps the rest in order.
pub proof fn pruning_drops_an_outdated_front(history: Seq<nat>, now: nat, window: nat)
    ensures
        ({
            let dropped = history.len() - prune(history, now, window).len();
            &&& 0 <= dropped <= history.len()
            &&& prune(history, now, window) =~= history.skip(dropped)
            &&& forall|i: int| 0 <= i < dropped ==> now - #[trigger] history[i] > window
            &&& dropped < history.len() ==> now - history[dropped] <= window
        }),
    decreases history.len(),
{
    if history.len() > 0 && age(now, history[0]) > window {
        let rest = history.skip(1);
        pruning_drops_an_outdated_front(rest, now, window);
        let dropped = history.len() - prune(history, now, window).len();
        assert(rest.skip(dropped - 1) =~= history.skip(dropped));
        assert forall|i: int| 0 <= i < dropped implies now - #[trigger] history[i] > window by {
            if i > 0 {
                assert(rest[i - 1] == history[i]);
            }
        }
        if dropped < history.len() {
            assert(rest[dropped - 1] == history[dropped]);
        }
    } else {
        assert(history.skip(0) =~= history);
    }
}

/// Which exits end the supervision whatever the budget: a success that is not
/// restarted after, which ends it cleanly, and a panic that is not restarted
/// after or a task that cannot be joined, which end it with an error. After
/// any other exit, an error among them, the budget alone decides: without a
/// cap the task is restarted, and with a cap it is as long as the restarts
/// that count, this one among them, do not exceed it.
pub proof fn exits_and_budget_decide_on_the_restart(
    policy: SupervisorView,
    state: SupervisionView,
    end: RunEndView,
    source: u64,
)
    requires
        !end.cancelled,
    ensures
        ({
            let step = policy.settle(state, end, source).1;
            let done = end.exit is Completed && !policy.restart_on_ok;
            let broken = end.exit is Panicked && !policy.restart_on_panic || end.exit is JoinFailed;
            let times = state.history.push(end.now);
            &&& step == SupervisorStepView::Stop(Ok(())) <==> done
            &&& broken ==> (step matches SupervisorStepView::Stop(Err(report)) && report.context
                == UtilsError::Concurrency)
            &&& !done && !broken && policy.max_restarts is None ==> step is Backoff
            &&& !done && !broken && policy.restart_window is None ==> (policy.max_restarts
                matches Some(cap) ==> (step is Backoff <==> times.len() <= cap))
            &&& !done && !broken ==> (policy.restart_window matches Some(window) ==> (
            policy.max_restarts matches Some(cap) ==> (step is Backoff <==> prune(
                times,
                end.now,
                window,
            ).len() <= cap)))
            &&& !done && !broken && !(step is Backoff) ==> (step matches SupervisorStepView::Stop(
                Err(report),
            ) && report.context == UtilsError::RetryExhausted)
            &&& step !is Run
        }),
{
}

/// An error is restarted after whatever the policy says of successes and
/// panics, as long as the budget lasts.
pub proof fn errors_are_always_restartable(
    policy: SupervisorView,
    state: SupervisionView,
    end: RunEndView,
    source: u64,
)
    requires
        !end.cancelled,
        end.exit is Failed,
        policy.max_restarts matches Some(cap) ==> state.history.len() < cap,
    ensures
        policy.settle(state, end, source).1 is Backoff,
{
    if policy.restart_window is Some {
        pruning_drops_an_outdated_front(
            state.history.push(end.now),
            end.now,
            policy.restart_window->0,
        );
    }
}

/// What is remembered after a run that is followed by a restart: its time
/// joins the restarts that count, and the streak grows by one, starting over
/// after a run of at least the longest delay. Nothing is remembered of a
/// cancelled run, and no restart is counted after an exit that ends the
/// supervision by itself.
pub proof fn restarts_are_remembered(
    policy: SupervisorView,
    state: SupervisionView,
    end: RunEndView,
    source: u64,
)
    ensures
        ({
            let (after, step) = policy.settle(state, end, source);
            let streak = if end.ran_for >= policy.max_backoff {
                0
            } else {
                state.consecutive
            };
            &&& end.cancelled ==> after == state && step == SupervisorStepView::Stop(Ok(()))
            &&& step is Backoff ==> after.consecutive == vstd::math::min(
                streak + 1int,
                0xffff_ffff,
            )
            &&& step is Backoff && policy.restart_window is None ==> after.history
                == state.history.push(end.now)
            &&& step is Backoff ==> (policy.restart_window matches Some(window) ==> after.history
                == prune(state.history.push(end.now), end.now, window))
            &&& !end.cancelled && (step == SupervisorStepView::Stop(Ok(())) || end.exit
                is JoinFailed || end.exit is Panicked && !policy.restart_on_panic)
                ==> after.history == state.history
        }),
{
}

/// The delay before a restart is the base delay doubled once for every
/// restart of the streak before it, within the cap, and with jitter drawn
/// below that.
pub proof fn restart_delay_is_the_doubled_base(
    policy: SupervisorView,
    state: SupervisionView,
    end: RunEndView,
    source: u64,
)
    requires
        policy.settle(state, end, source).1 is Backoff,
    ensures
        ({
            let delay = policy.settle(state, end, source).1->Backoff_0;
            let doublings = if end.ran_for >= policy.max_backoff {
                0
            } else {
                state.consecutive
            };
            let factor = if doublings < 32 {
                vstd::arithmetic::power2::pow2(doublings)
            } else {
                0xffff_ffff
            };
            let amount = vstd::math::min(
                (policy.base_backoff * factor) as int,
                policy.max_backoff as int,
            );
            &&& !policy.jitter ==> delay == amount
            &&& policy.jitter && amount == 0 ==> delay == 0
            &&& policy.jitter && 0 < amount <= u64::MAX ==> delay < amount && delay <= source && (
            source - delay) % amount == 0
            &&& policy.jitter && amount > u64::MAX && source < u64::MAX ==> delay == source
        }),
{
    let next = policy.settle(state, end, source).0.consecutive;
    backoff::backoff_is_the_doubled_base(policy.base_backoff, policy.max_backoff, next);
    backoff::jitter_is_what_is_left_of_the_source(
        backoff::backoff_nanos(policy.base_backoff, policy.max_backoff, next),
        source,
    );
}

/// The reports that end a supervision say what happened to which task.
pub proof fn reports_name_the_task(
    policy: SupervisorView,
    message: Seq<char>,
    exit: TaskExitView,
    count: nat,
    cap: nat,
)
    ensures
        policy.name is None ==> policy.label() == "supervisor"@,
        policy.name matches Some(name) ==> policy.label() == name,
        policy.panic_report(message).attachments =~= seq![
            "supervised task ["@ + policy.label() + "] panicked and restart_on_panic is disabled"@,
            "panic: "@ + message,
        ],
        policy.join_report(message).attachments =~= seq![
            "supervised task ["@ + policy.label() + "] join failed"@,
            message,
        ],
        policy.restart_window is None ==> policy.exhausted_report(exit, count, cap).attachments
            =~= seq![
            "supervisor ["@ + policy.label() + "] exhausted restart budget: "@ + text::decimal(
                count,
            ) + " restarts"@ + " exceeds cap "@ + text::decimal(cap),
        ],
        policy.restart_window matches Some(window) ==> policy.exhausted_report(
            exit,
            count,
            cap,
        ).attachments =~= seq![
            "supervisor ["@ + policy.label() + "] exhausted restart budget: "@ + text::decimal(
                count,
            ) + " restarts"@ + (" within "@ + time::duration_text(window)) + " exceeds cap "@
                + text::decimal(cap),
        ],
{
    let plain = "supervisor ["@ + policy.label() + "] exhausted restart budget: "@ + text::decimal(
        count,
    ) + " restarts"@;
    assert(plain + Seq::<char>::empty() =~= plain);
}

/// An exit that ends the supervision by itself is reported with its message,
/// and a spent budget with how many restarts exceed which cap.
pub proof fn final_reports_tell_the_reason(
    policy: SupervisorView,
    state: SupervisionView,
    end: RunEndView,
    source: u64,
)
    requires
        !end.cancelled,
    ensures
        ({
            let step = policy.settle(state, end, source).1;
            &&& end.exit matches TaskExitView::JoinFailed(message) ==> step
                == SupervisorStepView::Stop(Err(policy.join_report(message)))
            &&& end.exit matches TaskExitView::Panicked(message) ==> !policy.restart_on_panic
                ==> step == SupervisorStepView::Stop(Err(policy.panic_report(message)))
            &&& step matches SupervisorStepView::Stop(Err(report)) ==> report.context
                == UtilsError::RetryExhausted ==> policy.max_restarts is Some && report
                == policy.exhausted_report(
                end.exit,
                policy.settle(state, end, source).0.history.len(),
                policy.max_restarts->0,
            )
        }),
{
}

/// Every run is settled as the policy says, from what was remembered before
/// it.
pub proof fn runs_are_settled_by_the_policy(
    policy: &Supervisor,
    state: &mut Supervision,
    end: RunEnd,
    source: u64,
    r: SupervisorStep,
)
    requires
        call_ensures(Supervisor::after_run_from, (policy, state, end, source), r),
    ensures
        r@ == policy@.settle(old(state)@, end@, source).1,
        final(state)@ == policy@.settle(old(state)@, end@, source).0,
        end.cancelled ==> r@ == SupervisorStepView::Stop(Ok(())),
        !end.cancelled && end.exit is Failed && policy@.max_restarts is None ==> r@ is Backoff,
        r@ is Stop && r@->Stop_0 is Ok ==> end.cancelled || (end.exit is Completed
            && !policy@.restart_on_ok),
{
}

/// Whatever the clock shows, a run is settled as the policy says.
pub proof fn clocked_runs_are_settled_by_the_policy(
    policy: &Supervisor,
    state: &mut Supervision,
    end: RunEnd,
    r: SupervisorStep,
)
    requires
        call_ensures(Supervisor::after_run, (policy, state, end), r),
    ensures
        final(state)@ == policy@.settle(old(state)@, end@, 0).0,
        policy@.settle(old(state)@, end@, 0).1 !is Backoff ==> r@ == policy@.settle(
            old(state)@,
            end@,
            0,
        ).1,
        !policy@.jitter ==> r@ == policy@.settle(old(state)@, end@, 0).1,
        policy@.settle(old(state)@, end@, 0).1 is Backoff ==> r@ is Backoff && r@->Backoff_0
            <= policy@.max_backoff,
        policy@.jitter ==> exists|source: u64| #[trigger]
            backoff::is_clock_reading(source) && r@ == policy@.settle(
                old(state)@,
                end@,
                source,
            ).1,
{
    let source = choose|source: u64|
        (policy@.jitter ==> backoff::is_clock_reading(source)) && (final(state)@, r@)
            == #[trigger] policy@.settle(old(state)@, end@, source);
    assert(policy@.jitter ==> backoff::is_clock_reading(source));
    if policy@.settle(old(state)@, end@, source).1 is Backoff {
        healthy_run_resets_the_backoff(policy@, old(state)@, end@, source);
    }
}

/// Nothing is started once cancelled, and a delay that was cut short is
/// followed by no run; otherwise a run follows.
pub proof fn runs_start_only_uncancelled(
    policy: &Supervisor,
    elapsed: bool,
    cancelled: bool,
    first: SupervisorStep,
    next: SupervisorStep,
    fresh: Supervision,
)
    requires
        call_ensures(Supervisor::before_run, (policy, cancelled), first),
        call_ensures(Supervisor::after_backoff, (policy, elapsed, cancelled), next),
        call_ensures(Supervision::new, (), fresh),
    ensures
        first@ is Run <==> !cancelled,
        cancelled ==> first@ == SupervisorStepView::Stop(Ok(())),
        next@ is Run <==> elapsed && !cancelled,
        !elapsed || cancelled ==> next@ == SupervisorStepView::Stop(Ok(())),
        fresh@.history.len() == 0 && fresh@.consecutive == 0,
{
}

/// Each setting changes itself alone. By default restarts are unlimited and
/// follow every exit, after 200 ms doubling up to 30 s with jitter.
pub proof fn supervisor_settings_are_independent(
    policy: Supervisor,
    text: &str,
    n: NonZeroU32,
    d: Duration,
    v: bool,
)
    ensures
        forall|r: Supervisor| #[trigger]
            call_ensures(Supervisor::name, (policy, text), r) ==> r@ == (SupervisorView {
                name: Some(text@),
                ..policy@
            }),
        forall|r: Supervisor| #[trigger]
            call_ensures(Supervisor::max_restarts, (policy, n), r) ==> r@ == (SupervisorView {
                max_restarts: Some(n@),
                ..policy@
            }),
        forall|r: Supervisor| #[trigger]
            call_ensures(Supervisor::restart_window, (policy, d), r) ==> r@ == (SupervisorView {
                restart_window: Some(d@),
                ..policy@
            }),
        forall|r: Supervisor| #[trigger]
            call_ensures(Supervisor::base_backoff, (policy, d), r) ==> r@ == (SupervisorView {
                base_backoff: d@,
                ..policy@
            }),
        forall|r: Supervisor| #[trigger]
            call_ensures(Supervisor::max_backoff, (policy, d), r) ==> r@ == (SupervisorView {
                max_backoff: d@,
                ..policy@
            }),
        forall|r: Supervisor| #[trigger]
            call_ensures(Supervisor::jitter, (policy, v), r) ==> r@ == (SupervisorView {
                jitter: v,
                ..policy@
            }),
        forall|r: Supervisor| #[trigger]
            call_ensures(Supervisor::restart_on_ok, (policy, v), r) ==> r@ == (SupervisorView {
                restart_on_ok: v,
                ..policy@
            }),
        forall|r: Supervisor| #[trigger]
            call_ensures(Supervisor::restart_on_panic, (policy, v), r) ==> r@ == (SupervisorView {
                restart_on_panic: v,
                ..policy@
            }),
        forall|r: Supervisor| #[trigger]
            call_ensures(<Supervisor as Clone>::clone, (&policy,), r) ==> r@ == policy@,
        forall|r: Supervisor| #[trigger]
            call_ensures(Supervisor::new, (), r) ==> r@.name is None && r@.max_restarts is None
                && r@.restart_window is None && r@.base_backoff == 200_000_000 && r@.max_backoff
                == 30_000_000_000 && r@.jitter && r@.restart_on_ok && r@.restart_on_panic,
        forall|r: Supervisor| #[trigger]
            call_ensures(<Supervisor as Default>::default, (), r) ==> r@.name is None
                && r@.max_restarts is None && r@.restart_window is None && r@.base_backoff
                == 200_000_000 && r@.max_backoff == 30_000_000_000 && r@.jitter && r@.restart_on_ok
                && r@.restart_on_panic,
        forall|r: &str| #[trigger]
            call_ensures(Supervisor::label, (&policy,), r) ==> r@ == (match policy@.name {
                Some(name) => name,
                None => "supervisor"@,
            }),
{
}

/// The restart backoff is the base delay doubled for every restart before it,
/// within the cap, and with jitter at most that.
pub proof fn restart_backoff_is_the_doubled_base(
    base: Duration,
    max: Duration,
    attempt: u32,
    jitter: bool,
    r: Duration,
)
    requires
        call_ensures(compute_backoff, (base, max, attempt, jitter), r),
    ensures
        ({
            let factor = if attempt <= 1 {
                1
            } else if attempt <= 32 {
                vstd::arithmetic::power2::pow2((attempt - 1) as nat)
            } else {
                0xffff_ffff
            };
            let amount = vstd::math::min((base@ * factor) as int, max@ as int);
            &&& !jitter ==> r@ == amount
            &&& jitter ==> r@ <= amount
            &&& jitter && 0 < amount <= u64::MAX ==> exists|source: u64| #[trigger]
                backoff::is_clock_reading(source) && r@ <= source && (source - r@) % amount == 0
        }),
{
    backoff::backoff_is_the_doubled_base(base@, max@, attempt as nat);
    let source = choose|source: u64|
        (jitter ==> backoff::is_clock_reading(source)) && r@ == #[trigger] backoff::delay_nanos(
            base@,
            max@,
            attempt as nat,
            jitter,
            source,
        );
    backoff::jitter_is_what_is_left_of_the_source(
        backoff::backoff_nanos(base@, max@, attempt as nat),
        source,
    );
    assert(jitter ==> backoff::is_clock_reading(source));
}

/// The text of a policy shows every setting in its plain form.
pub proof fn rendered_supervisors_show_every_setting(policy: &Supervisor, r: String)
    requires
        call_ensures(Supervisor::debug_text, (policy,), r),
    ensures
        ({
            let window = match policy@.restart_window {
                Some(window) => "Some("@ + time::duration_text(window) + ")"@,
                None => "None"@,
            };
            r@ == "Supervisor { name: "@ + text::optional_quoted(policy@.name)
                + ", max_restarts: "@ + text::optional_decimal(policy@.max_restarts)
                + ", restart_window: "@ + window + ", base_backoff: "@ + time::duration_text(
                policy@.base_backoff,
            ) + ", max_backoff: "@ + time::duration_text(policy@.max_backoff) + ", jitter: "@
                + text::flag(policy@.jitter) + ", restart_on_ok: "@ + text::flag(
                policy@.restart_on_ok,
            ) + ", restart_on_panic: "@ + text::flag(policy@.restart_on_panic) + " }"@
        }),
{
}

} // verus!
