//! Retry policy for fallible operations.
//!
//! A [`Retry`] bounds how often an operation is attempted and how long to
//! wait between two attempts, with exponential backoff and optional full
//! jitter. The caller makes the attempts and waits out the delays; after
//! each of them it asks what comes next.
//!
//! An error that is not worth retrying is handed back unchanged. Once the
//! budget is spent, or a cancellation cuts a delay short, the last error is
//! reclassified as [`UtilsError::RetryExhausted`] and stays reachable as the
//! cause.

use vstd::prelude::*;
use vstd::string::*;

use crate::backoff;
use crate::backoff::{clock_source, compute_delay_from};
use crate::error;
use crate::error::{ReportView, UtilsError, UtilsReport, UtilsResult};
use crate::nonzero::NonZeroU32;
use crate::text;
use crate::text::{decimal_text, flag_text, optional_quoted_text, optional_text};
use crate::time;
use crate::time::Duration;

verus! {

/// A cancellation signal of `tokio-util`.
#[verifier::external_type_specification]
#[verifier::external_body]
pub struct ExCancellationToken(tokio_util::sync::CancellationToken);

/// `CancellationToken::is_cancelled`: whether the signal has fired. Another
/// task may fire it at any time, so nothing is claimed of the answer.
pub assume_specification[ tokio_util::sync::CancellationToken::is_cancelled ](
    token: &tokio_util::sync::CancellationToken,
) -> bool;

/// `CancellationToken::clone`: another handle of the same signal. Nothing is
/// claimed of it: when it fires is up to whoever holds one.
pub assume_specification[ <tokio_util::sync::CancellationToken as Clone>::clone ](
    token: &tokio_util::sync::CancellationToken,
) -> tokio_util::sync::CancellationToken;

/// Calls the `Debug` rendering of `CancellationToken`. Nothing is claimed of
/// the text: it shows whether the signal has fired.
#[verifier::external_body]
fn token_text(token: &tokio_util::sync::CancellationToken) -> String {
    format!("{:?}", token)
}

/// Whether `text` is a rendering of this signal for debugging.
pub closed spec fn is_token_text(
    token: tokio_util::sync::CancellationToken,
    text: String,
) -> bool {
    call_ensures(token_text, (&token,), text)
}

/// Builder for a retry policy.
///
/// Defaults: three attempts, 200 ms base backoff, 30 s cap, full jitter, no
/// cancellation signal, no name.
#[derive(Debug)]
pub struct Retry {
    max_attempts: NonZeroU32,
    base_backoff: Duration,
    max_backoff: Duration,
    jitter: bool,
    cancel: Option<tokio_util::sync::CancellationToken>,
    name: Option<String>,
}

/// What a [`Retry`] is set to; times in nanoseconds.
pub struct RetryView {
    pub max_attempts: nat,
    pub base_backoff: nat,
    pub max_backoff: nat,
    pub jitter: bool,
    pub cancel: Option<tokio_util::sync::CancellationToken>,
    pub name: Option<Seq<char>>,
}

impl View for Retry {
    type V = RetryView;

    closed spec fn view(&self) -> RetryView {
        RetryView {
            max_attempts: self.max_attempts@,
            base_backoff: self.base_backoff@,
            max_backoff: self.max_backoff@,
            jitter: self.jitter,
            cancel: self.cancel,
            name: match self.name {
                None => None,
                Some(name) => Some(name@),
            },
        }
    }
}

/// A failed attempt that is followed by another one after a delay.
#[derive(Debug)]
pub struct PendingRetry {
    attempt: u32,
    delay: Duration,
    last: UtilsReport,
}

/// What a [`PendingRetry`] holds; the delay in nanoseconds.
pub struct PendingView {
    pub attempt: nat,
    pub delay: nat,
    pub last: ReportView,
}

impl View for PendingRetry {
    type V = PendingView;

    closed spec fn view(&self) -> PendingView {
        PendingView { attempt: self.attempt as nat, delay: self.delay@, last: self.last@ }
    }
}

impl PendingRetry {
    #[verifier::type_invariant]
    spec fn has_successor(self) -> bool {
        self.attempt < u32::MAX
    }

    /// The attempt that failed.
    pub fn attempt(&self) -> (r: u32)
        ensures
            r == self@.attempt,
    {
        self.attempt
    }

    /// How long to wait before the next attempt.
    pub fn delay(&self) -> (r: Duration)
        ensures
            r@ == self@.delay,
    {
        self.delay
    }

    /// The error of the failed attempt.
    pub fn last(&self) -> (r: &UtilsReport)
        ensures
            r@ == self@.last,
    {
        &self.last
    }
}

/// What the caller does next.
#[derive(Debug)]
pub enum RetryStep<T> {
    /// Make the attempt with this 1-based number.
    Call(u32),
    /// Wait, unless cancelled.
    Backoff(PendingRetry),
    /// Return this result.
    Finished(UtilsResult<T>),
}

/// What a [`RetryStep`] asks for.
pub enum RetryStepView<T> {
    Call(nat),
    Backoff(PendingView),
    Finished(Result<T, ReportView>),
}

impl<T> View for RetryStep<T> {
    type V = RetryStepView<T>;

    open spec fn view(&self) -> RetryStepView<T> {
        match self {
            RetryStep::Call(attempt) => RetryStepView::Call(*attempt as nat),
            RetryStep::Backoff(pending) => RetryStepView::Backoff(pending@),
            RetryStep::Finished(result) => RetryStepView::Finished(error::result_view(*result)),
        }
    }
}

impl RetryView {
    /// The default policy.
    pub open spec fn standard() -> RetryView {
        RetryView {
            max_attempts: 3,
            base_backoff: 200_000_000,
            max_backoff: 30_000_000_000,
            jitter: true,
            cancel: None,
            name: None,
        }
    }

    /// The name that messages carry.
    pub open spec fn label(self) -> Seq<char> {
        match self.name {
            Some(name) => name,
            None => "retry"@,
        }
    }

    /// How the policy is rendered for debugging, given how its signal is.
    pub open spec fn debug_text(self, token: Option<Seq<char>>) -> Seq<char> {
        "Retry { max_attempts: "@ + text::decimal(self.max_attempts) + ", base_backoff: "@
            + time::duration_text(self.base_backoff) + ", max_backoff: "@ + time::duration_text(
            self.max_backoff,
        ) + ", jitter: "@ + text::flag(self.jitter) + ", cancel: "@ + text::optional(token)
            + ", name: "@ + text::optional_quoted(self.name) + " }"@
    }

    /// What comes first, given whether the cancellation signal has fired.
    pub open spec fn start<T>(self, cancelled: bool) -> RetryStepView<T> {
        if cancelled {
            RetryStepView::Finished(
                Err(
                    ReportView::fresh(
                        UtilsError::RetryExhausted,
                        seq!["retry ["@ + self.label() + "] cancelled before first attempt"@],
                    ),
                ),
            )
        } else {
            RetryStepView::Call(1)
        }
    }

    /// What follows an attempt. `retryable` tells whether its error is worth
    /// retrying, and jitter is drawn from `source`.
    pub open spec fn settle<T>(
        self,
        attempt: nat,
        outcome: Result<T, ReportView>,
        retryable: bool,
        source: u64,
    ) -> RetryStepView<T> {
        match outcome {
            Ok(value) => RetryStepView::Finished(Ok(value)),
            Err(report) => if !retryable {
                RetryStepView::Finished(Err(report))
            } else if attempt < self.max_attempts {
                RetryStepView::Backoff(
                    PendingView {
                        attempt,
                        delay: backoff::delay_nanos(
                            self.base_backoff,
                            self.max_backoff,
                            attempt,
                            self.jitter,
                            source,
                        ),
                        last: report,
                    },
                )
            } else {
                RetryStepView::Finished(
                    Err(
                        report.rotated(
                            UtilsError::RetryExhausted,
                            seq![
                                "retry ["@ + self.label() + "] exhausted budget after "@
                                    + text::decimal(self.max_attempts) + " attempts"@,
                            ],
                        ),
                    ),
                )
            },
        }
    }

    /// What follows a delay. `elapsed` tells whether it was waited out, or
    /// else cut short by a cancellation.
    pub open spec fn resume<T>(self, pending: PendingView, elapsed: bool) -> RetryStepView<T> {
        if elapsed {
            RetryStepView::Call(pending.attempt + 1)
        } else {
            RetryStepView::Finished(
                Err(
                    pending.last.rotated(
                        UtilsError::RetryExhausted,
                        seq![
                            "retry ["@ + self.label() + "] cancelled during backoff after attempt "@
                                + text::decimal(pending.attempt),
                        ],
                    ),
                ),
            )
        }
    }
}

impl Retry {
    /// The default policy.
    pub fn new() -> (r: Retry)
        ensures
            r@ == RetryView::standard(),
    {
        let max_attempts: NonZeroU32 = match NonZeroU32::new(3) {
            Some(n) => n,
            None => vstd::pervasive::unreached(),
        };
        Retry {
            max_attempts,
            base_backoff: Duration::from_millis(200),
            max_backoff: Duration::from_secs(30),
            jitter: true,
            cancel: None,
            name: None,
        }
    }

    /// How many attempts are made at most, the first one among them.
    pub fn max_attempts(self, n: NonZeroU32) -> (r: Retry)
        ensures
            r@ == (RetryView { max_attempts: n@, ..self@ }),
    {
        Retry { max_attempts: n, ..self }
    }

    /// The delay after the first attempt; it doubles from there.
    pub fn base_backoff(self, d: Duration) -> (r: Retry)
        ensures
            r@ == (RetryView { base_backoff: d@, ..self@ }),
    {
        Retry { base_backoff: d, ..self }
    }

    /// The longest delay between two attempts.
    pub fn max_backoff(self, d: Duration) -> (r: Retry)
        ensures
            r@ == (RetryView { max_backoff: d@, ..self@ }),
    {
        Retry { max_backoff: d, ..self }
    }

    /// Enable or disable full jitter on the delays.
    pub fn jitter(self, v: bool) -> (r: Retry)
        ensures
            r@ == (RetryView { jitter: v, ..self@ }),
    {
        Retry { jitter: v, ..self }
    }

    /// Attach a cancellation signal: it is asked before the first attempt, and
    /// cuts a delay short when it fires.
    pub fn with_cancellation(self, token: tokio_util::sync::CancellationToken) -> (r: Retry)
        ensures
            r@ == (RetryView { cancel: Some(token), ..self@ }),
    {
        Retry { cancel: Some(token), ..self }
    }

    /// Label the messages of this policy.
    pub fn name(self, name: &str) -> (r: Retry)
        ensures
            r@ == (RetryView { name: Some(name@), ..self@ }),
    {
        Retry { name: Some(name.to_string()), ..self }
    }

    /// The attached cancellation signal.
    pub fn cancellation(&self) -> (r: Option<&tokio_util::sync::CancellationToken>)
        ensures
            r is Some <==> self@.cancel is Some,
            r matches Some(token) ==> self@.cancel == Some(*token),
    {
        match &self.cancel {
            Some(token) => Some(token),
            None => None,
        }
    }

    /// Whether the attached cancellation signal has fired, as the signal itself
    /// answers; never without one.
    pub fn cancelled(&self) -> (r: bool)
        ensures
            self@.cancel is None ==> !r,
            self@.cancel matches Some(token) ==> call_ensures(
                tokio_util::sync::CancellationToken::is_cancelled,
                (&token,),
                r,
            ),
    {
        match &self.cancel {
            Some(token) => token.is_cancelled(),
            None => false,
        }
    }

    /// The policy as text for diagnostics.
    pub fn debug_text(&self) -> (r: String)
        ensures
            self@.cancel is None ==> r@ == self@.debug_text(None),
            self@.cancel matches Some(token) ==> exists|text: String|
                #[trigger] is_token_text(token, text) && r@ == self@.debug_text(Some(text@)),
    {
        let shown: Option<String> = match &self.cancel {
            Some(token) => {
                let shown: String = token_text(token);
                assert(is_token_text(*token, shown));
                Some(shown)
            },
            None => None,
        };
        let mut text: String = "Retry { max_attempts: ".to_string();
        text.append(decimal_text(self.max_attempts.get() as u64).as_str());
        text.append(", base_backoff: ");
        text.append(self.base_backoff.debug_text().as_str());
        text.append(", max_backoff: ");
        text.append(self.max_backoff.debug_text().as_str());
        text.append(", jitter: ");
        text.append(flag_text(self.jitter));
        text.append(", cancel: ");
        text.append(optional_text(shown).as_str());
        text.append(", name: ");
        text.append(optional_quoted_text(&self.name).as_str());
        text.append(" }");
        text
    }

    /// The name that messages carry.
    pub fn label(&self) -> (r: &str)
        ensures
            r@ == self@.label(),
    {
        match &self.name {
            Some(name) => name.as_str(),
            None => "retry",
        }
    }

    fn labelled(&self, after: &str) -> (r: String)
        ensures
            r@ == "retry ["@ + self@.label() + after@,
    {
        let mut text: String = "retry [".to_string();
        text.append(self.label());
        text.append(after);
        text
    }

    /// What comes first, given whether the cancellation signal has fired: not
    /// even one attempt is made once it has.
    pub fn begin_given<T>(&self, cancelled: bool) -> (r: RetryStep<T>)
        ensures
            r@ == self@.start::<T>(cancelled),
            self@.max_attempts > 0,
    {
        proof {
            use_type_invariant(&self.max_attempts);
        }
        if cancelled {
            let detail: String = self.labelled("] cancelled before first attempt");
            let report: UtilsReport = UtilsReport::new(UtilsError::RetryExhausted).attach(detail);
            assert(report@.attachments =~= seq![detail@]);
            RetryStep::Finished(Err(report))
        } else {
            RetryStep::Call(1)
        }
    }

    /// What comes first: the first attempt, unless the attached cancellation
    /// signal has fired already.
    pub fn begin<T>(&self) -> (r: RetryStep<T>)
        ensures
            self@.cancel is None ==> r@ == self@.start::<T>(false),
            self@.cancel matches Some(token) ==> exists|c: bool|
                #[trigger] call_ensures(
                    tokio_util::sync::CancellationToken::is_cancelled,
                    (&token,),
                    c,
                ) && r@ == self@.start::<T>(c),
    {
        self.begin_given(self.cancelled())
    }

    /// What follows an attempt, with jitter drawn from `source`.
    pub fn after_attempt_from<T>(
        &self,
        attempt: u32,
        outcome: UtilsResult<T>,
        retryable: bool,
        source: u64,
    ) -> (r: RetryStep<T>)
        ensures
            r@ == self@.settle(attempt as nat, error::result_view(outcome), retryable, source),
    {
        let max: u32 = self.max_attempts.get();
        match outcome {
            Ok(value) => RetryStep::Finished(Ok(value)),
            Err(report) => {
                if !retryable {
                    RetryStep::Finished(Err(report))
                } else if attempt < max {
                    let delay: Duration = compute_delay_from(
                        self.base_backoff,
                        self.max_backoff,
                        attempt,
                        self.jitter,
                        source,
                    );
                    RetryStep::Backoff(PendingRetry { attempt, delay, last: report })
                } else {
                    let mut detail: String = self.labelled("] exhausted budget after ");
                    detail.append(decimal_text(max as u64).as_str());
                    detail.append(" attempts");
                    let spent: UtilsReport = report.change_context(
                        UtilsError::RetryExhausted,
                    ).attach(detail);
                    assert(spent@.attachments =~= seq![detail@]);
                    RetryStep::Finished(Err(spent))
                }
            },
        }
    }

    /// What follows an attempt. `retryable` tells whether its error is worth
    /// retrying; it is not looked at after a success. With jitter, the delay
    /// is drawn from the wall clock.
    pub fn after_attempt<T>(&self, attempt: u32, outcome: UtilsResult<T>, retryable: bool) -> (r:
        RetryStep<T>)
        ensures
            exists|source: u64|
                (self@.jitter ==> backoff::is_clock_reading(source)) && r@
                    == #[trigger] self@.settle(
                    attempt as nat,
                    error::result_view(outcome),
                    retryable,
                    source,
                ),
    {
        let source: u64 = if self.jitter { clock_source() } else { 0 };
        self.after_attempt_from(attempt, outcome, retryable, source)
    }

    /// What follows a delay. `elapsed` tells whether it was waited out, or
    /// else cut short by a cancellation.
    pub fn after_backoff<T>(&self, pending: PendingRetry, elapsed: bool) -> (r: RetryStep<T>)
        ensures
            r@ == self@.resume::<T>(pending@, elapsed),
    {
        proof {
            use_type_invariant(&pending);
        }
        if elapsed {
            RetryStep::Call(pending.attempt + 1)
        } else {
            let mut detail: String = self.labelled("] cancelled during backoff after attempt ");
            detail.append(decimal_text(pending.attempt as u64).as_str());
            let report: UtilsReport = pending.last.change_context(
                UtilsError::RetryExhausted,
            ).attach(detail);
            assert(report@.attachments =~= seq![detail@]);
            RetryStep::Finished(Err(report))
        }
    }
}

impl Clone for Retry {
    fn clone(&self) -> (r: Retry)
        ensures
            r@ == (RetryView { cancel: r@.cancel, ..self@ }),
            r@.cancel is Some <==> self@.cancel is Some,
            self@.cancel matches Some(token) ==> cloned(token, r@.cancel->0),
    {
        Retry {
            max_attempts: self.max_attempts,
            base_backoff: self.base_backoff,
            max_backoff: self.max_backoff,
            jitter: self.jitter,
            cancel: match &self.cancel {
                Some(token) => Some(token.clone()),
                None => None,
            },
            name: match &self.name {
                Some(name) => Some(name.clone()),
                None => None,
            },
        }
    }
}

impl Default for Retry {
    fn default() -> (r: Retry)
        ensures
            r@ == RetryView::standard(),
    {
        Retry::new()
    }
}

/// One attempt and what surrounds it: its result, whether an error is worth
/// retrying, the number that jitter draws from, and whether the delay after
/// it is waited out.
pub struct AttemptView<T> {
    pub outcome: Result<T, ReportView>,
    pub retryable: bool,
    pub source: u64,
    pub elapsed: bool,
}

/// The step after a delay, where there is one.
pub open spec fn waited<T>(policy: RetryView, step: RetryStepView<T>, elapsed: bool) -> RetryStepView<
    T,
> {
    match step {
        RetryStepView::Backoff(pending) => policy.resume(pending, elapsed),
        _ => step,
    }
}

/// Where a retried operation stands once up to `n` of these attempts were
/// made and waited for.
pub open spec fn retried<T>(
    policy: RetryView,
    cancelled: bool,
    attempts: Seq<AttemptView<T>>,
    n: nat,
) -> RetryStepView<T>
    decreases n,
{
    if n == 0 {
        policy.start(cancelled)
    } else {
        let before = retried(policy, cancelled, attempts, (n - 1) as nat);
        match before {
            RetryStepView::Call(attempt) => {
                let a = attempts[n - 1];
                waited(policy, policy.settle(attempt, a.outcome, a.retryable, a.source), a.elapsed)
            },
            _ => before,
        }
    }
}

/// Attempts are numbered from one without gaps, and no more than the budget
/// are ever made.
pub proof fn attempts_stay_within_the_budget<T>(
    policy: RetryView,
    cancelled: bool,
    attempts: Seq<AttemptView<T>>,
    n: nat,
)
    requires
        policy.max_attempts > 0,
    ensures
        retried(policy, cancelled, attempts, n) matches RetryStepView::Call(next) ==> next == n + 1
            <= policy.max_attempts,
        retried(policy, cancelled, attempts, n) !is Backoff,
        n >= policy.max_attempts ==> retried(policy, cancelled, attempts, n) is Finished,
    decreases n,
{
    if n > 0 {
        attempts_stay_within_the_budget(policy, cancelled, attempts, (n - 1) as nat);
    }
}

/// As long as every attempt fails with an error worth retrying and every
/// delay is waited out, the operation is attempted again; the attempt that
/// spends the budget is reported as such, with its error as the cause.
pub proof fn budget_is_spent_by_failures<T>(
    policy: RetryView,
    attempts: Seq<AttemptView<T>>,
    n: nat,
)
    requires
        0 < policy.max_attempts,
        n <= policy.max_attempts,
        n <= attempts.len(),
        forall|i: int|
            0 <= i < n ==> (#[trigger] attempts[i]).outcome is Err && attempts[i].retryable
                && attempts[i].elapsed,
    ensures
        n < policy.max_attempts ==> retried(policy, false, attempts, n) == RetryStepView::<T>::Call(
            n + 1,
        ),
        n == policy.max_attempts ==> (retried(policy, false, attempts, n)
            matches RetryStepView::Finished(Err(report)) && report.context
            == UtilsError::RetryExhausted && report.cause == Some(
            Box::new(attempts[n - 1].outcome->Err_0),
        )),
    decreases n,
{
    if n > 0 {
        budget_is_spent_by_failures(policy, attempts, (n - 1) as nat);
        assert(attempts[n - 1].outcome is Err);
    }
}

/// Whatever ends the retries is handed on: a success or an error not worth
/// retrying unchanged, and otherwise the error as the cause of a
/// [`UtilsError::RetryExhausted`] report.
pub proof fn last_outcome_is_handed_on<T>(
    policy: RetryView,
    attempt: nat,
    a: AttemptView<T>,
)
    requires
        waited(
            policy,
            policy.settle(attempt, a.outcome, a.retryable, a.source),
            a.elapsed,
        ) is Finished,
    ensures
        ({
            let result = waited(
                policy,
                policy.settle(attempt, a.outcome, a.retryable, a.source),
                a.elapsed,
            )->Finished_0;
            match a.outcome {
                Ok(value) => result == Ok::<T, ReportView>(value),
                Err(report) => if a.retryable {
                    result matches Err(last) && last.context == UtilsError::RetryExhausted
                        && last.cause == Some(Box::new(report))
                } else {
                    result == Err::<T, ReportView>(report)
                },
            }
        }),
{
}

/// A signal that has fired before the first attempt keeps every attempt from
/// being made.
pub proof fn early_cancellation_makes_no_attempt<T>(
    policy: RetryView,
    attempts: Seq<AttemptView<T>>,
    n: nat,
)
    ensures
        retried(policy, true, attempts, n) == policy.start::<T>(true),
        policy.start::<T>(true) matches RetryStepView::Finished(Err(report)) && report.context
            == UtilsError::RetryExhausted,
    decreases n,
{
    if n > 0 {
        early_cancellation_makes_no_attempt(policy, attempts, (n - 1) as nat);
    }
}

/// No delay between two attempts exceeds the cap.
pub proof fn delays_stay_below_the_cap<T>(
    policy: RetryView,
    attempt: nat,
    outcome: Result<T, ReportView>,
    retryable: bool,
    source: u64,
)
    requires
        policy.settle(attempt, outcome, retryable, source) is Backoff,
    ensures
        policy.settle(attempt, outcome, retryable, source)->Backoff_0.delay <= policy.max_backoff,
{
    backoff::jitter_stays_below_cap(
        backoff::backoff_nanos(policy.base_backoff, policy.max_backoff, attempt),
        source,
    );
}

/// What follows an attempt, case by case. A success is returned. An error
/// that is not worth retrying is returned unchanged. One that is leads to
/// another attempt after a delay as long as attempts are left, and else is the
/// cause of a report that the budget is spent.
pub proof fn attempts_are_settled_case_by_case<T>(
    policy: &Retry,
    attempt: u32,
    outcome: UtilsResult<T>,
    retryable: bool,
    source: u64,
    r: RetryStep<T>,
)
    requires
        call_ensures(
            Retry::after_attempt_from::<T>,
            (policy, attempt, outcome, retryable, source),
            r,
        ),
    ensures
        outcome matches Ok(value) ==> r@ == RetryStepView::<T>::Finished(Ok(value)),
        outcome matches Err(report) ==> !retryable ==> r@ == RetryStepView::<T>::Finished(
            Err(report@),
        ),
        outcome matches Err(report) ==> retryable && attempt < policy@.max_attempts ==> (r@
            matches RetryStepView::Backoff(pending) && pending.attempt == attempt && pending.last
            == report@),
        outcome matches Err(report) ==> retryable && attempt >= policy@.max_attempts ==> (r@
            matches RetryStepView::Finished(Err(spent)) && spent.context
            == UtilsError::RetryExhausted && spent.cause == Some(Box::new(report@))
            && spent.attachments =~= seq![
            "retry ["@ + policy@.label() + "] exhausted budget after "@ + text::decimal(
                policy@.max_attempts,
            ) + " attempts"@,
        ]),
        policy@.name is None ==> policy@.label() == "retry"@,
        policy@.name matches Some(name) ==> policy@.label() == name,
{
}

/// The delay after attempt `k` is the base delay doubled `k - 1` times, at
/// most the longest delay; with jitter it is drawn below that from the
/// source.
pub proof fn retry_delay_is_the_doubled_base<T>(
    policy: &Retry,
    attempt: u32,
    outcome: UtilsResult<T>,
    retryable: bool,
    source: u64,
    r: RetryStep<T>,
)
    requires
        call_ensures(
            Retry::after_attempt_from::<T>,
            (policy, attempt, outcome, retryable, source),
            r,
        ),
        r@ is Backoff,
    ensures
        ({
            let delay = r@->Backoff_0.delay;
            let factor = if attempt <= 1 {
                1
            } else if attempt <= 32 {
                vstd::arithmetic::power2::pow2((attempt - 1) as nat)
            } else {
                0xffff_ffff
            };
            let amount = vstd::math::min(
                (policy@.base_backoff * factor) as int,
                policy@.max_backoff as int,
            );
            &&& !policy@.jitter ==> delay == amount
            &&& policy@.jitter && amount == 0 ==> delay == 0
            &&& policy@.jitter && 0 < amount <= u64::MAX ==> delay < amount && delay <= source && (
            source - delay) % amount == 0
            &&& policy@.jitter && amount > u64::MAX && source < u64::MAX ==> delay == source
        }),
{
    backoff::backoff_is_the_doubled_base(
        policy@.base_backoff,
        policy@.max_backoff,
        attempt as nat,
    );
    backoff::jitter_is_what_is_left_of_the_source(
        backoff::backoff_nanos(policy@.base_backoff, policy@.max_backoff, attempt as nat),
        source,
    );
}

/// Without jitter, no delay is shorter than one after an earlier attempt.
pub proof fn retry_delays_never_shrink<T>(
    policy: &Retry,
    earlier: u32,
    later: u32,
    first: UtilsResult<T>,
    second: UtilsResult<T>,
    source: u64,
    other: u64,
    before: RetryStep<T>,
    after: RetryStep<T>,
)
    requires
        !policy@.jitter,
        earlier <= later,
        call_ensures(Retry::after_attempt_from::<T>, (policy, earlier, first, true, source), before),
        call_ensures(Retry::after_attempt_from::<T>, (policy, later, second, true, other), after),
        before@ is Backoff,
        after@ is Backoff,
    ensures
        before@->Backoff_0.delay <= after@->Backoff_0.delay <= policy@.max_backoff,
{
    backoff::backoff_never_shrinks(
        policy@.base_backoff,
        policy@.max_backoff,
        earlier as nat,
        later as nat,
    );
}

/// Whatever the clock shows, an attempt is settled alike but for the delay,
/// which stays within its cap and is exact without jitter.
pub proof fn clocked_attempts_are_settled_alike<T>(
    policy: &Retry,
    attempt: u32,
    outcome: UtilsResult<T>,
    retryable: bool,
    r: RetryStep<T>,
)
    requires
        call_ensures(Retry::after_attempt::<T>, (policy, attempt, outcome, retryable), r),
    ensures
        outcome matches Ok(value) ==> r@ == RetryStepView::<T>::Finished(Ok(value)),
        outcome matches Err(report) ==> !retryable ==> r@ == RetryStepView::<T>::Finished(
            Err(report@),
        ),
        outcome matches Err(report) ==> retryable && attempt < policy@.max_attempts ==> (r@
            matches RetryStepView::Backoff(pending) && pending.attempt == attempt && pending.last
            == report@ && pending.delay <= backoff::backoff_nanos(
            policy@.base_backoff,
            policy@.max_backoff,
            attempt as nat,
        ) && (!policy@.jitter ==> pending.delay == backoff::backoff_nanos(
            policy@.base_backoff,
            policy@.max_backoff,
            attempt as nat,
        ))),
        outcome matches Err(report) ==> retryable && attempt >= policy@.max_attempts ==> (r@
            matches RetryStepView::Finished(Err(spent)) && spent.context
            == UtilsError::RetryExhausted && spent.cause == Some(Box::new(report@))),
        policy@.jitter ==> exists|source: u64| #[trigger]
            backoff::is_clock_reading(source) && r@ == policy@.settle(
                attempt as nat,
                error::result_view(outcome),
                retryable,
                source,
            ),
{
    let source = choose|source: u64|
        (policy@.jitter ==> backoff::is_clock_reading(source)) && r@ == #[trigger] policy@.settle(
            attempt as nat,
            error::result_view(outcome),
            retryable,
            source,
        );
    assert(policy@.jitter ==> backoff::is_clock_reading(source));
    backoff::jitter_stays_below_cap(
        backoff::backoff_nanos(policy@.base_backoff, policy@.max_backoff, attempt as nat),
        source,
    );
}

/// A delay that is waited out is followed by the next attempt, and one that
/// is cut short by a report that keeps the last error as its cause.
pub proof fn delays_lead_to_the_next_attempt<T>(
    policy: &Retry,
    pending: PendingRetry,
    elapsed: bool,
    r: RetryStep<T>,
)
    requires
        call_ensures(Retry::after_backoff::<T>, (policy, pending, elapsed), r),
    ensures
        elapsed ==> r@ == RetryStepView::<T>::Call(pending@.attempt + 1),
        !elapsed ==> (r@ matches RetryStepView::Finished(Err(report)) && report.context
            == UtilsError::RetryExhausted && report.cause == Some(Box::new(pending@.last))
            && report.attachments =~= seq![
            "retry ["@ + policy@.label() + "] cancelled during backoff after attempt "@
                + text::decimal(pending@.attempt),
        ]),
{
}

/// The first attempt is made unless the signal has fired, and then none is.
pub proof fn first_attempt_needs_an_unfired_signal<T>(
    policy: &Retry,
    cancelled: bool,
    given: RetryStep<T>,
    asked: RetryStep<T>,
)
    requires
        call_ensures(Retry::begin_given::<T>, (policy, cancelled), given),
        call_ensures(Retry::begin::<T>, (policy,), asked),
    ensures
        !cancelled ==> given@ == RetryStepView::<T>::Call(1),
        cancelled ==> (given@ matches RetryStepView::Finished(Err(report)) && report.context
            == UtilsError::RetryExhausted && report.cause is None && report.attachments =~= seq![
            "retry ["@ + policy@.label() + "] cancelled before first attempt"@,
        ]),
        policy@.cancel is None ==> asked@ == RetryStepView::<T>::Call(1),
        policy@.cancel matches Some(token) ==> asked@ == RetryStepView::<T>::Call(1)
            && call_ensures(
            tokio_util::sync::CancellationToken::is_cancelled,
            (&token,),
            false,
        ) || asked@ is Finished && call_ensures(
            tokio_util::sync::CancellationToken::is_cancelled,
            (&token,),
            true,
        ),
{
}

/// Each setting changes itself alone, and the defaults are three attempts,
/// 200 ms doubling up to 30 s, with jitter.
pub proof fn retry_settings_are_independent(
    policy: Retry,
    text: &str,
    n: NonZeroU32,
    d: Duration,
    v: bool,
    token: tokio_util::sync::CancellationToken,
)
    ensures
        forall|r: Retry| #[trigger]
            call_ensures(Retry::max_attempts, (policy, n), r) ==> r@ == (RetryView {
                max_attempts: n@,
                ..policy@
            }),
        forall|r: Retry| #[trigger]
            call_ensures(Retry::base_backoff, (policy, d), r) ==> r@ == (RetryView {
                base_backoff: d@,
                ..policy@
            }),
        forall|r: Retry| #[trigger]
            call_ensures(Retry::max_backoff, (policy, d), r) ==> r@ == (RetryView {
                max_backoff: d@,
                ..policy@
            }),
        forall|r: Retry| #[trigger]
            call_ensures(Retry::jitter, (policy, v), r) ==> r@ == (RetryView { jitter: v, ..policy@
            }),
        forall|r: Retry| #[trigger]
            call_ensures(Retry::with_cancellation, (policy, token), r) ==> r@ == (RetryView {
                cancel: Some(token),
                ..policy@
            }),
        forall|r: Retry| #[trigger]
            call_ensures(Retry::name, (policy, text), r) ==> r@ == (RetryView {
                name: Some(text@),
                ..policy@
            }),
        forall|r: Retry| #[trigger]
            call_ensures(<Retry as Clone>::clone, (&policy,), r) ==> r@.max_attempts
                == policy@.max_attempts && r@.base_backoff == policy@.base_backoff && r@.max_backoff
                == policy@.max_backoff && r@.jitter == policy@.jitter && r@.name == policy@.name
                && (r@.cancel is Some <==> policy@.cancel is Some),
        forall|r: Retry| #[trigger]
            call_ensures(Retry::new, (), r) ==> r@.max_attempts == 3 && r@.base_backoff
                == 200_000_000 && r@.max_backoff == 30_000_000_000 && r@.jitter && r@.cancel is None
                && r@.name is None,
        forall|r: Retry| #[trigger]
            call_ensures(<Retry as Default>::default, (), r) ==> r@.max_attempts == 3
                && r@.base_backoff == 200_000_000 && r@.max_backoff == 30_000_000_000 && r@.jitter
                && r@.cancel is None && r@.name is None,
        forall|r: &str| #[trigger]
            call_ensures(Retry::label, (&policy,), r) ==> r@ == (match policy@.name {
                Some(name) => name,
                None => "retry"@,
            }),
        forall|r: Option<&tokio_util::sync::CancellationToken>| #[trigger]
            call_ensures(Retry::cancellation, (&policy,), r) ==> (match policy@.cancel {
                Some(token) => r matches Some(attached) && *attached == token,
                None => r is None,
            }),
        forall|r: bool| #[trigger]
            call_ensures(Retry::cancelled, (&policy,), r) ==> (match policy@.cancel {
                Some(token) => call_ensures(
                    tokio_util::sync::CancellationToken::is_cancelled,
                    (&token,),
                    r,
                ),
                None => !r,
            }),
{
}

/// What is read of a pending attempt is what it holds.
pub proof fn pending_attempts_are_read_as_they_are(
    pending: &PendingRetry,
    attempt: u32,
    delay: Duration,
    last: &UtilsReport,
)
    requires
        call_ensures(PendingRetry::attempt, (pending,), attempt),
        call_ensures(PendingRetry::delay, (pending,), delay),
        call_ensures(PendingRetry::last, (pending,), last),
    ensures
        attempt == pending@.attempt,
        delay@ == pending@.delay,
        last@ == pending@.last,
{
}

/// The text of a policy shows every setting in its plain form, and its signal
/// as the signal renders.
pub proof fn rendered_retries_show_every_setting(policy: &Retry, r: String)
    requires
        call_ensures(Retry::debug_text, (policy,), r),
    ensures
        policy@.cancel is None ==> r@ == "Retry { max_attempts: "@ + text::decimal(
            policy@.max_attempts,
        ) + ", base_backoff: "@ + time::duration_text(policy@.base_backoff) + ", max_backoff: "@
            + time::duration_text(policy@.max_backoff) + ", jitter: "@ + text::flag(policy@.jitter)
            + ", cancel: "@ + "None"@ + ", name: "@ + text::optional_quoted(policy@.name) + " }"@,
        policy@.cancel matches Some(token) ==> exists|shown: String| #[trigger]
            is_token_text(token, shown) && r@ == "Retry { max_attempts: "@ + text::decimal(
                policy@.max_attempts,
            ) + ", base_backoff: "@ + time::duration_text(policy@.base_backoff)
                + ", max_backoff: "@ + time::duration_text(policy@.max_backoff) + ", jitter: "@
                + text::flag(policy@.jitter) + ", cancel: "@ + ("Some("@ + shown@ + ")"@)
                + ", name: "@ + text::optional_quoted(policy@.name) + " }"@,
{
}

} // verus!
