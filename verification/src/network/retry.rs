//! Retry policy for HTTP requests.
//!
//! A [`RetryPolicy`] says which outcomes of a request are worth another
//! attempt and how long to wait in between; a [`RetryingClient`] applies it.
//! The caller sends the requests and waits out the delays; after each of
//! them it asks what comes next. Whatever was observed last is returned: a
//! retryable status that is left when the attempts run out is a response like
//! any other.

use vstd::prelude::*;
use vstd::string::*;

use crate::backoff;
use crate::backoff::{clock_source, compute_delay_from};
use crate::error::UtilsError;
use crate::nonzero::NonZeroU32;
use crate::text;
use crate::text::{decimal_text, flag_text, parse_unsigned_text};
use crate::time;
use crate::time::{Duration, NANOS_PER_SEC};

verus! {

/// Method of an HTTP request.
#[derive(Debug, Clone, Copy, PartialEq, Eq, Structural)]
#[non_exhaustive]
pub enum Method {
    Get,
    Head,
    Put,
    Delete,
    Options,
    Trace,
    Post,
    Patch,
    Connect,
    /// Any method without a variant of its own.
    Extension,
}

impl Method {
    /// Whether a request with this method may be repeated without further
    /// effect on the server (RFC 7231, section 4.2.2).
    pub open spec fn idempotent(self) -> bool {
        self == Method::Get || self == Method::Head || self == Method::Put || self
            == Method::Delete || self == Method::Options || self == Method::Trace
    }
}

/// Whether a request with this method may be repeated without further effect
/// on the server.
pub fn is_idempotent(method: Method) -> (r: bool)
    ensures
        r == method.idempotent(),
{
    match method {
        Method::Get
        | Method::Head
        | Method::Put
        | Method::Delete
        | Method::Options
        | Method::Trace => true,
        _ => false,
    }
}

/// What is looked at of the outcome of a request.
#[derive(Debug, Clone, PartialEq, Eq)]
pub enum HttpOutcome {
    /// A response came back.
    Response {
        /// Its status code.
        status: u16,
        /// The value of its `Retry-After` header, where it has one.
        retry_after: Option<Vec<u8>>,
    },
    /// The request failed with an error of this kind.
    Failed(UtilsError),
}

/// What an [`HttpOutcome`] tells.
pub enum HttpOutcomeView {
    Response { status: u16, retry_after: Option<Seq<u8>> },
    Failed(UtilsError),
}

impl View for HttpOutcome {
    type V = HttpOutcomeView;

    open spec fn view(&self) -> HttpOutcomeView {
        match self {
            HttpOutcome::Response { status, retry_after } => HttpOutcomeView::Response {
                status: *status,
                retry_after: match retry_after {
                    Some(value) => Some(value@),
                    None => None,
                },
            },
            HttpOutcome::Failed(error) => HttpOutcomeView::Failed(*error),
        }
    }
}

/// The space character.
pub const SPACE: u8 = 32;

/// The horizontal tab.
pub const TAB: u8 = 9;

/// The last visible ASCII character.
pub const TILDE: u8 = 126;

/// Whether a byte of a header value is plain text: visible ASCII, a space or
/// a tab.
pub open spec fn is_header_text(b: u8) -> bool {
    SPACE <= b <= TILDE || b == TAB
}

/// Whether `c` is a space or a tab.
pub open spec fn is_blank(c: char) -> bool {
    c == ' ' || c == '\t'
}

/// `s` without the blanks it starts with.
pub open spec fn without_leading_blanks(s: Seq<char>) -> Seq<char>
    decreases s.len(),
{
    if s.len() > 0 && is_blank(s[0]) {
        without_leading_blanks(s.skip(1))
    } else {
        s
    }
}

/// `s` without the blanks it ends with.
pub open spec fn without_trailing_blanks(s: Seq<char>) -> Seq<char>
    decreases s.len(),
{
    if s.len() > 0 && is_blank(s.last()) {
        without_trailing_blanks(s.drop_last())
    } else {
        s
    }
}

/// The characters of a plain text header value.
pub open spec fn header_chars(value: Seq<u8>) -> Seq<char> {
    value.map_values(|b: u8| b as char)
}

/// The whole seconds that a `Retry-After` value asks for: plain text that is
/// an unsigned number once surrounding blanks are cut off.
pub open spec fn retry_after_secs(value: Seq<u8>) -> Option<nat> {
    if forall|i: int| 0 <= i < value.len() ==> is_header_text(#[trigger] value[i]) {
        text::parse_unsigned(
            without_trailing_blanks(without_leading_blanks(header_chars(value))),
            u64::MAX as nat,
        )
    } else {
        None
    }
}

/// Read the value of a `Retry-After` header as a number of seconds. The
/// HTTP-date form is not supported.
pub fn parse_retry_after(value: &[u8]) -> (r: Option<Duration>)
    ensures
        r is Some <==> retry_after_secs(value@) is Some,
        r matches Some(delay) ==> delay@ == retry_after_secs(value@)->0 * NANOS_PER_SEC,
{
    let mut chars: Vec<char> = Vec::new();
    let mut i: usize = 0;
    while i < value.len()
        invariant
            0 <= i <= value@.len(),
            chars@ == header_chars(value@.take(i as int)),
            forall|j: int| 0 <= j < i ==> is_header_text(#[trigger] value@[j]),
        decreases value@.len() - i,
    {
        let b: u8 = value[i];
        if (b < SPACE || b > TILDE) && b != TAB {
            assert(!is_header_text(value@[i as int]));
            return None;
        }
        chars.push(b as char);
        i += 1;
        assert(chars@ =~= header_chars(value@.take(i as int)));
    }
    assert(value@.take(i as int) =~= value@);
    let ghost all = header_chars(value@);
    let mut end: usize = chars.len();
    let mut start: usize = 0;
    assert(all.skip(0) =~= all);
    while start < end && (chars[start] == ' ' || chars[start] == '\t')
        invariant
            start <= end == chars@.len(),
            chars@ == all,
            without_leading_blanks(all) == without_leading_blanks(all.skip(start as int)),
        decreases end - start,
    {
        assert(all.skip(start as int).skip(1) =~= all.skip(start + 1));
        start += 1;
    }
    let ghost rest = all.skip(start as int);
    assert(without_leading_blanks(all) == rest);
    assert(chars@.subrange(start as int, end as int) =~= rest);
    while start < end && (chars[end - 1] == ' ' || chars[end - 1] == '\t')
        invariant
            start <= end <= chars@.len(),
            chars@ == all,
            without_trailing_blanks(rest) == without_trailing_blanks(
                chars@.subrange(start as int, end as int),
            ),
        decreases end,
    {
        let ghost cut = chars@.subrange(start as int, end as int);
        assert(cut.drop_last() =~= chars@.subrange(start as int, end - 1));
        assert(cut.last() == chars@[end - 1]);
        end -= 1;
    }
    assert(without_trailing_blanks(rest) == chars@.subrange(start as int, end as int));
    match parse_unsigned_text(&chars, start, end, u64::MAX) {
        Some(secs) => Some(Duration::from_secs(secs)),
        None => None,
    }
}

/// Which outcomes are retried, how often, and after which delay.
///
/// Defaults: three attempts, statuses 429 and 503, network errors, idempotent
/// methods only, 200 ms base backoff, 30 s cap, full jitter.
#[derive(Debug)]
pub struct RetryPolicy {
    max_attempts: NonZeroU32,
    retry_statuses: Vec<u16>,
    retry_network_errors: bool,
    retry_non_idempotent: bool,
    base_backoff: Duration,
    max_backoff: Duration,
    jitter: bool,
}

/// What a [`RetryPolicy`] is set to; times in nanoseconds.
pub struct RetryPolicyView {
    pub max_attempts: nat,
    pub retry_statuses: Seq<u16>,
    pub retry_network_errors: bool,
    pub retry_non_idempotent: bool,
    pub base_backoff: nat,
    pub max_backoff: nat,
    pub jitter: bool,
}

impl View for RetryPolicy {
    type V = RetryPolicyView;

    closed spec fn view(&self) -> RetryPolicyView {
        RetryPolicyView {
            max_attempts: self.max_attempts@,
            retry_statuses: self.retry_statuses@,
            retry_network_errors: self.retry_network_errors,
            retry_non_idempotent: self.retry_non_idempotent,
            base_backoff: self.base_backoff@,
            max_backoff: self.max_backoff@,
            jitter: self.jitter,
        }
    }
}

impl RetryPolicyView {
    /// The default policy.
    pub open spec fn standard() -> RetryPolicyView {
        RetryPolicyView {
            max_attempts: 3,
            retry_statuses: seq![429, 503],
            retry_network_errors: true,
            retry_non_idempotent: false,
            base_backoff: 200_000_000,
            max_backoff: 30_000_000_000,
            jitter: true,
        }
    }

    /// How the policy is rendered for debugging.
    pub open spec fn debug_text(self) -> Seq<char> {
        "RetryPolicy { max_attempts: "@ + text::decimal(self.max_attempts) + ", retry_statuses: ["@
            + status_list(self.retry_statuses) + "], retry_network_errors: "@ + text::flag(
            self.retry_network_errors,
        ) + ", retry_non_idempotent: "@ + text::flag(self.retry_non_idempotent)
            + ", base_backoff: "@ + time::duration_text(self.base_backoff) + ", max_backoff: "@
            + time::duration_text(self.max_backoff) + ", jitter: "@ + text::flag(self.jitter)
            + " }"@
    }

    /// Whether such an outcome of such a request is worth another attempt.
    pub open spec fn retries(self, outcome: HttpOutcomeView, method: Method) -> bool {
        (self.retry_non_idempotent || method.idempotent()) && match outcome {
            HttpOutcomeView::Response { status, .. } => self.retry_statuses.contains(status),
            HttpOutcomeView::Failed(error) => self.retry_network_errors && error
                == UtilsError::Network,
        }
    }

    /// How long to wait after an attempt, in nanoseconds: what the server
    /// asks for, at most the cap; otherwise the backoff, with jitter drawn
    /// from `source`.
    pub open spec fn delay(self, attempt: nat, outcome: HttpOutcomeView, source: u64) -> nat {
        match server_delay(outcome) {
            Some(nanos) => if nanos <= self.max_backoff {
                nanos
            } else {
                self.max_backoff
            },
            None => backoff::delay_nanos(
                self.base_backoff,
                self.max_backoff,
                attempt,
                self.jitter,
                source,
            ),
        }
    }

    /// What follows an attempt that gave `result`. `replayable` tells whether
    /// the request can be sent once more.
    pub open spec fn settle<R>(
        self,
        attempt: nat,
        result: R,
        outcome: HttpOutcomeView,
        method: Method,
        replayable: bool,
        source: u64,
    ) -> HttpStepView<R> {
        if attempt < self.max_attempts && self.retries(outcome, method) && replayable {
            HttpStepView::Backoff(
                PendingRequestView { attempt, delay: self.delay(attempt, outcome, source), result },
            )
        } else {
            HttpStepView::Finished(result)
        }
    }
}

/// Status codes as a list separated by commas.
pub open spec fn status_list(statuses: Seq<u16>) -> Seq<char>
    decreases statuses.len(),
{
    if statuses.len() == 0 {
        Seq::empty()
    } else if statuses.len() == 1 {
        text::decimal(statuses[0] as nat)
    } else {
        status_list(statuses.drop_last()) + ", "@ + text::decimal(statuses.last() as nat)
    }
}

/// The delay that the server asks for, in nanoseconds.
pub open spec fn server_delay(outcome: HttpOutcomeView) -> Option<nat> {
    match outcome {
        HttpOutcomeView::Response { retry_after: Some(value), .. } => match retry_after_secs(
            value,
        ) {
            Some(secs) => Some(secs * NANOS_PER_SEC as nat),
            None => None,
        },
        _ => None,
    }
}

impl Clone for RetryPolicy {
    fn clone(&self) -> (r: RetryPolicy)
        ensures
            r@ == self@,
    {
        let r: RetryPolicy = RetryPolicy {
            max_attempts: self.max_attempts,
            retry_statuses: self.retry_statuses.clone(),
            retry_network_errors: self.retry_network_errors,
            retry_non_idempotent: self.retry_non_idempotent,
            base_backoff: self.base_backoff,
            max_backoff: self.max_backoff,
            jitter: self.jitter,
        };
        assert(r@.retry_statuses =~= self@.retry_statuses);
        r
    }
}

impl Default for RetryPolicy {
    fn default() -> (r: RetryPolicy)
        ensures
            r@ == RetryPolicyView::standard(),
    {
        let max_attempts: NonZeroU32 = match NonZeroU32::new(3) {
            Some(n) => n,
            None => vstd::pervasive::unreached(),
        };
        let r: RetryPolicy = RetryPolicy {
            max_attempts,
            retry_statuses: vec![429, 503],
            retry_network_errors: true,
            retry_non_idempotent: false,
            base_backoff: Duration::from_millis(200),
            max_backoff: Duration::from_secs(30),
            jitter: true,
        };
        assert(r@.retry_statuses =~= seq![429, 503]);
        r
    }
}

impl RetryPolicy {
    /// How many attempts are made at most, the first one among them.
    pub fn max_attempts(self, n: NonZeroU32) -> (r: RetryPolicy)
        ensures
            r@ == (RetryPolicyView { max_attempts: n@, ..self@ }),
    {
        RetryPolicy { max_attempts: n, ..self }
    }

    /// Replace the response statuses that are retried.
    pub fn retry_statuses(self, statuses: Vec<u16>) -> (r: RetryPolicy)
        ensures
            r@ == (RetryPolicyView { retry_statuses: statuses@, ..self@ }),
    {
        RetryPolicy { retry_statuses: statuses, ..self }
    }

    /// Whether network errors are retried.
    pub fn retry_network_errors(self, v: bool) -> (r: RetryPolicy)
        ensures
            r@ == (RetryPolicyView { retry_network_errors: v, ..self@ }),
    {
        RetryPolicy { retry_network_errors: v, ..self }
    }

    /// Whether methods that are not idempotent are retried. A repeated
    /// request may then take effect twice.
    pub fn retry_non_idempotent(self, v: bool) -> (r: RetryPolicy)
        ensures
            r@ == (RetryPolicyView { retry_non_idempotent: v, ..self@ }),
    {
        RetryPolicy { retry_non_idempotent: v, ..self }
    }

    /// The delay after the first attempt; it doubles from there.
    pub fn base_backoff(self, d: Duration) -> (r: RetryPolicy)
        ensures
            r@ == (RetryPolicyView { base_backoff: d@, ..self@ }),
    {
        RetryPolicy { base_backoff: d, ..self }
    }

    /// The longest delay between two attempts, whoever asks for it.
    pub fn max_backoff(self, d: Duration) -> (r: RetryPolicy)
        ensures
            r@ == (RetryPolicyView { max_backoff: d@, ..self@ }),
    {
        RetryPolicy { max_backoff: d, ..self }
    }

    /// Enable or disable full jitter on the backoff. What a server asks for
    /// is never jittered.
    pub fn jitter(self, v: bool) -> (r: RetryPolicy)
        ensures
            r@ == (RetryPolicyView { jitter: v, ..self@ }),
    {
        RetryPolicy { jitter: v, ..self }
    }

    fn status_list_text(&self) -> (r: String)
        ensures
            r@ == status_list(self@.retry_statuses),
    {
        let mut text: String = "".to_string();
        let mut i: usize = 0;
        proof {
            reveal_strlit("");
            assert(text@ =~= status_list(self.retry_statuses@.take(0)));
        }
        while i < self.retry_statuses.len()
            invariant
                0 <= i <= self.retry_statuses@.len(),
                text@ == status_list(self.retry_statuses@.take(i as int)),
            decreases self.retry_statuses@.len() - i,
        {
            let ghost before = self.retry_statuses@.take(i as int);
            let ghost after = self.retry_statuses@.take(i + 1);
            assert(after.drop_last() =~= before);
            if i > 0 {
                text.append(", ");
            }
            text.append(decimal_text(self.retry_statuses[i] as u64).as_str());
            assert(text@ =~= status_list(after));
            i += 1;
        }
        assert(self.retry_statuses@.take(i as int) =~= self.retry_statuses@);
        text
    }

    /// The policy as text for diagnostics.
    pub fn debug_text(&self) -> (r: String)
        ensures
            r@ == self@.debug_text(),
    {
        let mut text: String = "RetryPolicy { max_attempts: ".to_string();
        text.append(decimal_text(self.max_attempts.get() as u64).as_str());
        text.append(", retry_statuses: [");
        text.append(self.status_list_text().as_str());
        text.append("], retry_network_errors: ");
        text.append(flag_text(self.retry_network_errors));
        text.append(", retry_non_idempotent: ");
        text.append(flag_text(self.retry_non_idempotent));
        text.append(", base_backoff: ");
        text.append(self.base_backoff.debug_text().as_str());
        text.append(", max_backoff: ");
        text.append(self.max_backoff.debug_text().as_str());
        text.append(", jitter: ");
        text.append(flag_text(self.jitter));
        text.append(" }");
        text
    }

    fn retries_status(&self, status: u16) -> (r: bool)
        ensures
            r == self@.retry_statuses.contains(status),
    {
        let mut i: usize = 0;
        while i < self.retry_statuses.len()
            invariant
                0 <= i <= self.retry_statuses@.len(),
                forall|j: int| 0 <= j < i ==> self.retry_statuses@[j] != status,
            decreases self.retry_statuses@.len() - i,
        {
            if self.retry_statuses[i] == status {
                assert(self.retry_statuses@[i as int] == status);
                return true;
            }
            i += 1;
        }
        false
    }

    /// Whether such an outcome of such a request is worth another attempt.
    pub fn should_retry(&self, outcome: &HttpOutcome, method: Method) -> (r: bool)
        ensures
            r == self@.retries(outcome@, method),
    {
        if !self.retry_non_idempotent && !is_idempotent(method) {
            return false;
        }
        match outcome {
            HttpOutcome::Response { status, .. } => self.retries_status(*status),
            HttpOutcome::Failed(error) => {
                self.retry_network_errors && *error == UtilsError::Network
            },
        }
    }

    /// How long to wait after an attempt, with jitter drawn from `source`.
    pub fn compute_delay_from(&self, attempt: u32, outcome: &HttpOutcome, source: u64) -> (r:
        Duration)
        ensures
            r@ == self@.delay(attempt as nat, outcome@, source),
    {
        match outcome {
            HttpOutcome::Response { retry_after: Some(value), .. } => {
                match parse_retry_after(value.as_slice()) {
                    Some(delay) => {
                        return delay.min(self.max_backoff);
                    },
                    None => {},
                }
            },
            _ => {},
        }
        compute_delay_from(self.base_backoff, self.max_backoff, attempt, self.jitter, source)
    }

    /// How long to wait after an attempt. With jitter, the backoff is drawn
    /// from the wall clock.
    pub fn compute_delay(&self, attempt: u32, outcome: &HttpOutcome) -> (r: Duration)
        ensures
            r@ <= self@.max_backoff,
            exists|source: u64|
                (self@.jitter ==> backoff::is_clock_reading(source)) && r@ == #[trigger] self@.delay(
                    attempt as nat,
                    outcome@,
                    source,
                ),
    {
        let source: u64 = if self.jitter { clock_source() } else { 0 };
        proof {
            no_delay_exceeds_the_cap(self@, attempt as nat, outcome@, source);
        }
        self.compute_delay_from(attempt, outcome, source)
    }
}

/// A request that is sent again after a delay, and the result so far.
#[derive(Debug)]
pub struct PendingRequest<R> {
    attempt: u32,
    delay: Duration,
    result: R,
}

/// What a [`PendingRequest`] holds; the delay in nanoseconds.
pub struct PendingRequestView<R> {
    pub attempt: nat,
    pub delay: nat,
    pub result: R,
}

impl<R> View for PendingRequest<R> {
    type V = PendingRequestView<R>;

    closed spec fn view(&self) -> PendingRequestView<R> {
        PendingRequestView { attempt: self.attempt as nat, delay: self.delay@, result: self.result }
    }
}

impl<R> PendingRequest<R> {
    #[verifier::type_invariant]
    spec fn has_successor(self) -> bool {
        self.attempt < u32::MAX
    }

    /// The attempt that was made last.
    pub fn attempt(&self) -> (r: u32)
        ensures
            r == self@.attempt,
    {
        self.attempt
    }

    /// How long to wait before the next attempt.
    pub fn delay(&self) -> (r: Duration)
        ensures
            r@ == self@.delay,
    {
        self.delay
    }
}

/// What the caller does next.
#[derive(Debug)]
pub enum HttpStep<R> {
    /// Send the request for the attempt with this 1-based number.
    Send(u32),
    /// Wait, unless cancelled.
    Backoff(PendingRequest<R>),
    /// Return this result.
    Finished(R),
}

/// What an [`HttpStep`] asks for.
pub enum HttpStepView<R> {
    Send(nat),
    Backoff(PendingRequestView<R>),
    Finished(R),
}

impl<R> View for HttpStep<R> {
    type V = HttpStepView<R>;

    open spec fn view(&self) -> HttpStepView<R> {
        match self {
            HttpStep::Send(attempt) => HttpStepView::Send(*attempt as nat),
            HttpStep::Backoff(pending) => HttpStepView::Backoff(pending@),
            HttpStep::Finished(result) => HttpStepView::Finished(*result),
        }
    }
}

/// What follows a delay. `elapsed` tells whether it was waited out, or else
/// cut short by a cancellation.
pub open spec fn resume<R>(pending: PendingRequestView<R>, elapsed: bool) -> HttpStepView<R> {
    if elapsed {
        HttpStepView::Send(pending.attempt + 1)
    } else {
        HttpStepView::Finished(pending.result)
    }
}

/// Wrapper around something that executes requests, which retries them
/// according to a [`RetryPolicy`].
#[derive(Debug)]
pub struct RetryingClient<E> {
    inner: E,
    policy: RetryPolicy,
    cancel: Option<tokio_util::sync::CancellationToken>,
}

/// What a [`RetryingClient`] holds.
pub struct RetryingClientView<E> {
    pub inner: E,
    pub policy: RetryPolicyView,
    pub cancel: Option<tokio_util::sync::CancellationToken>,
}

impl<E> View for RetryingClient<E> {
    type V = RetryingClientView<E>;

    closed spec fn view(&self) -> RetryingClientView<E> {
        RetryingClientView { inner: self.inner, policy: self.policy@, cancel: self.cancel }
    }
}

impl<E> RetryingClient<E> {
    /// Wrap `inner` with the given policy.
    pub fn new(inner: E, policy: RetryPolicy) -> (r: RetryingClient<E>)
        ensures
            r@ == (RetryingClientView { inner, policy: policy@, cancel: None }),
    {
        RetryingClient { inner, policy, cancel: None }
    }

    /// Attach a cancellation signal that cuts delays short.
    pub fn with_cancellation(self, token: tokio_util::sync::CancellationToken) -> (r:
        RetryingClient<E>)
        ensures
            r@ == (RetryingClientView { cancel: Some(token), ..self@ }),
    {
        RetryingClient { inner: self.inner, policy: self.policy, cancel: Some(token) }
    }

    /// What executes the requests.
    pub fn inner(&self) -> (r: &E)
        ensures
            *r == self@.inner,
    {
        &self.inner
    }

    /// The policy in force.
    pub fn policy(&self) -> (r: &RetryPolicy)
        ensures
            r@ == self@.policy,
    {
        &self.policy
    }

    /// The attached cancellation signal.
    pub fn cancellation(&self) -> (r: Option<&tokio_util::sync::CancellationToken>)
        ensures
            r is Some <==> self@.cancel is Some,
            r matches Some(token) ==> self@.cancel == Some(*token),
    {
        match &self.cancel {
            Some(token) => Some(token),
            None => None,
        }
    }

    /// What comes first: the first attempt.
    pub fn begin<R>(&self) -> (r: HttpStep<R>)
        ensures
            r@ == HttpStepView::<R>::Send(1),
            self@.policy.max_attempts > 0,
    {
        proof {
            use_type_invariant(&self.policy.max_attempts);
        }
        HttpStep::Send(1)
    }

    /// What follows an attempt that gave `result`, with jitter drawn from
    /// `source`. `outcome` is what is looked at of the result, and
    /// `replayable` tells whether the request can be sent once more.
    pub fn after_attempt_from<R>(
        &self,
        attempt: u32,
        result: R,
        outcome: &HttpOutcome,
        method: Method,
        replayable: bool,
        source: u64,
    ) -> (r: HttpStep<R>)
        ensures
            r@ == self@.policy.settle(
                attempt as nat,
                result,
                outcome@,
                method,
                replayable,
                source,
            ),
    {
        if attempt < self.policy.max_attempts.get() && self.policy.should_retry(outcome, method)
            && replayable {
            let delay: Duration = self.policy.compute_delay_from(attempt, outcome, source);
            HttpStep::Backoff(PendingRequest { attempt, delay, result })
        } else {
            HttpStep::Finished(result)
        }
    }

    /// What follows an attempt that gave `result`. With jitter, the delay is
    /// drawn from the wall clock.
    pub fn after_attempt<R>(
        &self,
        attempt: u32,
        result: R,
        outcome: &HttpOutcome,
        method: Method,
        replayable: bool,
    ) -> (r: HttpStep<R>)
        ensures
            exists|source: u64|
                (self@.policy.jitter ==> backoff::is_clock_reading(source)) && r@
                    == #[trigger] self@.policy.settle(
                    attempt as nat,
                    result,
                    outcome@,
                    method,
                    replayable,
                    source,
                ),
    {
        let source: u64 = if self.policy.jitter { clock_source() } else { 0 };
        self.after_attempt_from(attempt, result, outcome, method, replayable, source)
    }

    /// What follows a delay. `elapsed` tells whether it was waited out, or
    /// else cut short by a cancellation.
    pub fn after_backoff<R>(&self, pending: PendingRequest<R>, elapsed: bool) -> (r: HttpStep<R>)
        ensures
            r@ == resume(pending@, elapsed),
    {
        proof {
            use_type_invariant(&pending);
        }
        if elapsed {
            HttpStep::Send(pending.attempt + 1)
        } else {
            HttpStep::Finished(pending.result)
        }
    }
}

impl<E: Clone> Clone for RetryingClient<E> {
    fn clone(&self) -> (r: RetryingClient<E>)
        ensures
            cloned(self@.inner, r@.inner),
            r@.policy == self@.policy,
            r@.cancel is Some <==> self@.cancel is Some,
            self@.cancel matches Some(token) ==> cloned(token, r@.cancel->0),
    {
        RetryingClient {
            inner: self.inner.clone(),
            policy: self.policy.clone(),
            cancel: match &self.cancel {
                Some(token) => Some(token.clone()),
                None => None,
            },
        }
    }
}

/// One attempt and what surrounds it: its result, what is looked at of it,
/// whether the request can be sent once more, the number that jitter draws
/// from, and whether the delay after it is waited out.
pub struct SentView<R> {
    pub result: R,
    pub outcome: HttpOutcomeView,
    pub replayable: bool,
    pub source: u64,
    pub elapsed: bool,
}

/// The step after the delay, where there is one.
pub open spec fn waited<R>(step: HttpStepView<R>, elapsed: bool) -> HttpStepView<R> {
    match step {
        HttpStepView::Backoff(pending) => resume(pending, elapsed),
        _ => step,
    }
}

/// What follows such an attempt and the delay after it.
pub open spec fn after_sent<R>(
    policy: RetryPolicyView,
    method: Method,
    attempt: nat,
    sent: SentView<R>,
) -> HttpStepView<R> {
    waited(
        policy.settle(
            attempt,
            sent.result,
            sent.outcome,
            method,
            sent.replayable,
            sent.source,
        ),
        sent.elapsed,
    )
}

/// Where a retried request stands once up to `n` of these attempts were made
/// and waited for.
pub open spec fn executed<R>(
    policy: RetryPolicyView,
    method: Method,
    sent: Seq<SentView<R>>,
    n: nat,
) -> HttpStepView<R>
    decreases n,
{
    if n == 0 {
        HttpStepView::Send(1)
    } else {
        let before = executed(policy, method, sent, (n - 1) as nat);
        match before {
            HttpStepView::Send(attempt) => after_sent(policy, method, attempt, sent[n - 1]),
            _ => before,
        }
    }
}

/// Attempts are numbered from one without gaps, and no more than the budget
/// are ever made.
pub proof fn requests_stay_within_the_budget<R>(
    policy: RetryPolicyView,
    method: Method,
    sent: Seq<SentView<R>>,
    n: nat,
)
    requires
        policy.max_attempts > 0,
    ensures
        executed(policy, method, sent, n) matches HttpStepView::Send(next) ==> next == n + 1
            <= policy.max_attempts,
        executed(policy, method, sent, n) !is Backoff,
        n >= policy.max_attempts ==> executed(policy, method, sent, n) is Finished,
    decreases n,
{
    if n > 0 {
        requests_stay_within_the_budget(policy, method, sent, (n - 1) as nat);
    }
}

/// The result is that of the last attempt made, whatever ended the retries:
/// the first attempt that is not followed by another one decides.
pub proof fn last_result_is_returned<R>(
    policy: RetryPolicyView,
    method: Method,
    sent: Seq<SentView<R>>,
    n: nat,
)
    requires
        policy.max_attempts > 0,
        executed(policy, method, sent, n) is Finished,
    ensures
        exists|k: nat|
            #![trigger sent[k as int]]
            k < n && executed(policy, method, sent, k) == HttpStepView::<R>::Send(k + 1)
                && executed(policy, method, sent, n) == HttpStepView::Finished(
                sent[k as int].result,
            ),
    decreases n,
{
    if n > 0 {
        let before = executed(policy, method, sent, (n - 1) as nat);
        requests_stay_within_the_budget(policy, method, sent, (n - 1) as nat);
        if before is Finished {
            last_result_is_returned(policy, method, sent, (n - 1) as nat);
        } else {
            let k = (n - 1) as nat;
            assert(executed(policy, method, sent, n) == HttpStepView::Finished(
                sent[k as int].result,
            ));
        }
    }
}

/// As long as every outcome is retryable, every request replayable and every
/// delay waited out, all the attempts of the budget are made.
pub proof fn retryable_outcomes_use_the_budget<R>(
    policy: RetryPolicyView,
    method: Method,
    sent: Seq<SentView<R>>,
    n: nat,
)
    requires
        n < policy.max_attempts,
        n <= sent.len(),
        forall|i: int|
            0 <= i < n ==> policy.retries((#[trigger] sent[i]).outcome, method)
                && sent[i].replayable && sent[i].elapsed,
    ensures
        executed(policy, method, sent, n) == HttpStepView::<R>::Send(n + 1),
    decreases n,
{
    if n > 0 {
        retryable_outcomes_use_the_budget(policy, method, sent, (n - 1) as nat);
        assert(sent[n - 1].elapsed);
    }
}

/// Unless opted in, a request whose method is not idempotent is sent exactly
/// once.
pub proof fn non_idempotent_requests_are_sent_once<R>(
    policy: RetryPolicyView,
    method: Method,
    attempt: nat,
    sent: SentView<R>,
)
    requires
        !policy.retry_non_idempotent,
        !method.idempotent(),
    ensures
        after_sent(policy, method, attempt, sent) == HttpStepView::Finished(sent.result),
{
}

/// A request that cannot be replayed is sent exactly once.
pub proof fn unreplayable_requests_are_sent_once<R>(
    policy: RetryPolicyView,
    method: Method,
    attempt: nat,
    sent: SentView<R>,
)
    requires
        !sent.replayable,
    ensures
        after_sent(policy, method, attempt, sent) == HttpStepView::Finished(sent.result),
{
}

/// Of the failures, only network errors are ever retried.
pub proof fn only_network_errors_are_retried(
    policy: RetryPolicyView,
    method: Method,
    error: UtilsError,
)
    requires
        policy.retries(HttpOutcomeView::Failed(error), method),
    ensures
        error == UtilsError::Network,
        policy.retry_network_errors,
{
}

/// No delay exceeds the cap, whoever asks for it.
pub proof fn no_delay_exceeds_the_cap(
    policy: RetryPolicyView,
    attempt: nat,
    outcome: HttpOutcomeView,
    source: u64,
)
    ensures
        policy.delay(attempt, outcome, source) <= policy.max_backoff,
{
    backoff::jitter_stays_below_cap(
        backoff::backoff_nanos(policy.base_backoff, policy.max_backoff, attempt),
        source,
    );
}

/// A delay that the server asks for takes precedence over the backoff: up to
/// the cap it is kept to exactly, whatever the attempt and without jitter.
pub proof fn server_delay_takes_precedence(
    policy: RetryPolicyView,
    attempt: nat,
    outcome: HttpOutcomeView,
    source: u64,
)
    requires
        server_delay(outcome) is Some,
        server_delay(outcome)->0 <= policy.max_backoff,
    ensures
        policy.delay(attempt, outcome, source) == server_delay(outcome)->0,
{
}

/// A number of seconds in decimal, with or without surrounding blanks, is
/// read back as that number.
pub proof fn seconds_read_back(value: Seq<u8>, before: Seq<char>, after: Seq<char>, secs: nat)
    requires
        secs <= u64::MAX,
        header_chars(value) == before + text::decimal(secs) + after,
        forall|i: int| 0 <= i < before.len() ==> is_blank(#[trigger] before[i]),
        forall|i: int| 0 <= i < after.len() ==> is_blank(#[trigger] after[i]),
    ensures
        retry_after_secs(value) == Some(secs),
{
    text::decimal_reads_back(secs);
    let digits = text::decimal(secs);
    let chars = header_chars(value);
    assert forall|i: int| 0 <= i < value.len() implies is_header_text(#[trigger] value[i]) by {
        assert(chars[i] == value[i] as char);
        if i < before.len() {
            assert(is_blank(before[i]));
        } else if i < before.len() + digits.len() {
            assert(text::is_digit(digits[i - before.len()]));
        } else {
            assert(is_blank(after[i - before.len() - digits.len()]));
        }
    }
    assert(chars =~= before + (digits + after));
    assert(text::is_digit((digits + after)[0])) by {
        assert(text::is_digit(digits[0]));
    }
    lemma_leading_blanks_are_cut(before, digits + after);
    assert(text::is_digit(digits[digits.len() - 1]));
    lemma_trailing_blanks_are_cut(digits, after);
}

proof fn lemma_leading_blanks_are_cut(blanks: Seq<char>, rest: Seq<char>)
    requires
        forall|i: int| 0 <= i < blanks.len() ==> is_blank(#[trigger] blanks[i]),
        rest.len() > 0,
        !is_blank(rest[0]),
    ensures
        without_leading_blanks(blanks + rest) == rest,
    decreases blanks.len(),
{
    if blanks.len() == 0 {
        assert(blanks + rest =~= rest);
    } else {
        assert(is_blank(blanks[0]));
        assert((blanks + rest).skip(1) =~= blanks.skip(1) + rest);
        lemma_leading_blanks_are_cut(blanks.skip(1), rest);
    }
}

proof fn lemma_trailing_blanks_are_cut(rest: Seq<char>, blanks: Seq<char>)
    requires
        forall|i: int| 0 <= i < blanks.len() ==> is_blank(#[trigger] blanks[i]),
        rest.len() > 0,
        !is_blank(rest.last()),
    ensures
        without_trailing_blanks(rest + blanks) == rest,
    decreases blanks.len(),
{
    if blanks.len() == 0 {
        assert(rest + blanks =~= rest);
    } else {
        assert(is_blank(blanks[blanks.len() - 1]));
        assert((rest + blanks).drop_last() =~= rest + blanks.drop_last());
        lemma_trailing_blanks_are_cut(rest, blanks.drop_last());
    }
}

/// The methods that may be repeated are exactly these six.
pub proof fn idempotent_methods_are_these(method: Method, r: bool)
    requires
        call_ensures(is_idempotent, (method,), r),
    ensures
        r == method.idempotent(),
        method is Get || method is Head || method is Put || method is Delete || method is Options
            || method is Trace ==> r,
        method is Post || method is Patch || method is Connect || method is Extension ==> !r,
{
}

/// Where network errors are retried, they are for every idempotent method,
/// and for every method at all once the others are opted in; so is every
/// status of the retry set. Nothing else is retried.
pub proof fn retried_outcomes_are_these(
    policy: &RetryPolicy,
    outcome: &HttpOutcome,
    method: Method,
    r: bool,
)
    requires
        call_ensures(RetryPolicy::should_retry, (policy, outcome, method), r),
    ensures
        ({
            let allowed = policy@.retry_non_idempotent || method is Get || method is Head || method
                is Put || method is Delete || method is Options || method is Trace;
            &&& r == policy@.retries(outcome@, method)
            &&& !allowed ==> !r
            &&& outcome@ matches HttpOutcomeView::Failed(error) ==> (r <==> allowed
                && policy@.retry_network_errors && error == UtilsError::Network)
            &&& outcome@ matches HttpOutcomeView::Response { status, .. } ==> (r <==> allowed
                && exists|i: int|
                0 <= i < policy@.retry_statuses.len() && #[trigger] policy@.retry_statuses[i]
                    == status)
        }),
{
}

/// A request is sent again after a delay exactly where attempts are left, its
/// outcome is retried and it can be replayed; else its result is returned.
/// The result of an attempt is kept over the delay.
pub proof fn requests_are_settled_case_by_case<E, R>(
    client: &RetryingClient<E>,
    attempt: u32,
    result: R,
    outcome: &HttpOutcome,
    method: Method,
    replayable: bool,
    source: u64,
    r: HttpStep<R>,
)
    requires
        call_ensures(
            RetryingClient::<E>::after_attempt_from::<R>,
            (client, attempt, result, outcome, method, replayable, source),
            r,
        ),
    ensures
        ({
            let again = attempt < client@.policy.max_attempts && client@.policy.retries(
                outcome@,
                method,
            ) && replayable;
            &&& !again ==> r@ == HttpStepView::Finished(result)
            &&& again ==> (r@ matches HttpStepView::Backoff(pending) && pending.attempt == attempt
                && pending.result == result && pending.delay == client@.policy.delay(
                attempt as nat,
                outcome@,
                source,
            ))
        }),
{
}

/// After a first attempt that failed with a network error or gave a status of
/// the retry set, a replayable request of an idempotent method backs off, as
/// long as the budget is more than one attempt.
pub proof fn first_retryable_outcome_backs_off<E, R>(
    client: &RetryingClient<E>,
    result: R,
    outcome: &HttpOutcome,
    method: Method,
    r: HttpStep<R>,
)
    requires
        call_ensures(
            RetryingClient::<E>::after_attempt::<R>,
            (client, 1u32, result, outcome, method, true),
            r,
        ),
        client@.policy.max_attempts >= 2,
        client@.policy.retry_non_idempotent || method is Get || method is Head || method is Put
            || method is Delete || method is Options || method is Trace,
        match outcome@ {
            HttpOutcomeView::Failed(error) => error == UtilsError::Network
                && client@.policy.retry_network_errors,
            HttpOutcomeView::Response { status, .. } => client@.policy.retry_statuses.contains(
                status,
            ),
        },
    ensures
        r@ matches HttpStepView::Backoff(pending) && pending.attempt == 1 && pending.result
            == result && pending.delay <= client@.policy.max_backoff,
{
    let source = choose|source: u64|
        (client@.policy.jitter ==> backoff::is_clock_reading(source)) && r@
            == #[trigger] client@.policy.settle(1nat, result, outcome@, method, true, source);
    no_delay_exceeds_the_cap(client@.policy, 1, outcome@, source);
}

/// Whatever the clock shows, an attempt that is not retried returns its
/// result, and one that is keeps it over a delay within the cap.
pub proof fn clocked_requests_are_settled_alike<E, R>(
    client: &RetryingClient<E>,
    attempt: u32,
    result: R,
    outcome: &HttpOutcome,
    method: Method,
    replayable: bool,
    r: HttpStep<R>,
)
    requires
        call_ensures(
            RetryingClient::<E>::after_attempt::<R>,
            (client, attempt, result, outcome, method, replayable),
            r,
        ),
    ensures
        ({
            let again = attempt < client@.policy.max_attempts && client@.policy.retries(
                outcome@,
                method,
            ) && replayable;
            &&& !again ==> r@ == HttpStepView::Finished(result)
            &&& again ==> (r@ matches HttpStepView::Backoff(pending) && pending.attempt == attempt
                && pending.result == result && pending.delay <= client@.policy.max_backoff && (
            !client@.policy.jitter ==> pending.delay == client@.policy.delay(
                attempt as nat,
                outcome@,
                0,
            )))
        }),
        client@.policy.jitter ==> exists|source: u64| #[trigger]
            backoff::is_clock_reading(source) && r@ == client@.policy.settle(
                attempt as nat,
                result,
                outcome@,
                method,
                replayable,
                source,
            ),
{
    let source = choose|source: u64|
        (client@.policy.jitter ==> backoff::is_clock_reading(source)) && r@
            == #[trigger] client@.policy.settle(
            attempt as nat,
            result,
            outcome@,
            method,
            replayable,
            source,
        );
    assert(client@.policy.jitter ==> backoff::is_clock_reading(source));
    no_delay_exceeds_the_cap(client@.policy, attempt as nat, outcome@, source);
}

/// The delay after an attempt is what the server asks for, at most the cap;
/// where it asks for nothing that can be read, it is the base delay doubled
/// for every attempt before, at most the cap, or with jitter drawn below that
/// from the source.
pub proof fn request_delay_is_asked_for_or_doubled(
    policy: &RetryPolicy,
    attempt: u32,
    outcome: &HttpOutcome,
    source: u64,
    r: Duration,
)
    requires
        call_ensures(RetryPolicy::compute_delay_from, (policy, attempt, outcome, source), r),
    ensures
        r@ == policy@.delay(attempt as nat, outcome@, source),
        ({
            let asked = match outcome@ {
                HttpOutcomeView::Response { retry_after: Some(value), .. } => retry_after_secs(
                    value,
                ),
                _ => None,
            };
            let factor = if attempt <= 1 {
                1
            } else if attempt <= 32 {
                vstd::arithmetic::power2::pow2((attempt - 1) as nat)
            } else {
                0xffff_ffff
            };
            let amount = vstd::math::min(
                (policy@.base_backoff * factor) as int,
                policy@.max_backoff as int,
            );
            &&& asked matches Some(secs) ==> r@ == vstd::math::min(
                secs * 1_000_000_000int,
                policy@.max_backoff as int,
            )
            &&& asked is None && !policy@.jitter ==> r@ == amount
            &&& asked is None && policy@.jitter && amount == 0 ==> r@ == 0
            &&& asked is None && policy@.jitter && 0 < amount <= u64::MAX ==> r@ < amount && r@
                <= source && (source - r@) % amount == 0
            &&& asked is None && policy@.jitter && amount > u64::MAX && source < u64::MAX ==> r@
                == source
        }),
{
    backoff::backoff_is_the_doubled_base(
        policy@.base_backoff,
        policy@.max_backoff,
        attempt as nat,
    );
    backoff::jitter_is_what_is_left_of_the_source(
        backoff::backoff_nanos(policy@.base_backoff, policy@.max_backoff, attempt as nat),
        source,
    );
}

/// A delay that is waited out is followed by the next attempt, and one that
/// is cut short by the result so far; the first step is the first attempt.
pub proof fn delays_lead_to_the_next_request<E, R>(
    client: &RetryingClient<E>,
    pending: PendingRequest<R>,
    elapsed: bool,
    r: HttpStep<R>,
    first: HttpStep<R>,
)
    requires
        call_ensures(RetryingClient::<E>::after_backoff::<R>, (client, pending, elapsed), r),
        call_ensures(RetryingClient::<E>::begin::<R>, (client,), first),
    ensures
        elapsed ==> r@ == HttpStepView::<R>::Send(pending@.attempt + 1),
        !elapsed ==> r@ == HttpStepView::Finished(pending@.result),
        first@ == HttpStepView::<R>::Send(1),
{
}

/// Cutting off blanks leaves a text that neither starts nor ends with one,
/// and cuts off nothing else.
proof fn lemma_trimmed(s: Seq<char>) -> (cut: (int, int))
    ensures
        0 <= cut.0 <= cut.1 <= s.len(),
        without_trailing_blanks(without_leading_blanks(s)) == s.subrange(cut.0, cut.1),
        forall|i: int| 0 <= i < cut.0 ==> is_blank(#[trigger] s[i]),
        forall|i: int| cut.1 <= i < s.len() ==> is_blank(#[trigger] s[i]),
{
    let start = lemma_leading_cut(s);
    let rest = s.skip(start);
    let len = lemma_trailing_cut(rest);
    assert(rest.take(len) =~= s.subrange(start, start + len));
    assert forall|i: int| start + len <= i < s.len() implies is_blank(#[trigger] s[i]) by {
        assert(rest[i - start] == s[i]);
    }
    (start, start + len)
}

proof fn lemma_leading_cut(s: Seq<char>) -> (start: int)
    ensures
        0 <= start <= s.len(),
        without_leading_blanks(s) == s.skip(start),
        forall|i: int| 0 <= i < start ==> is_blank(#[trigger] s[i]),
    decreases s.len(),
{
    if s.len() > 0 && is_blank(s[0]) {
        let inner = lemma_leading_cut(s.skip(1));
        assert(s.skip(1).skip(inner) =~= s.skip(inner + 1));
        assert forall|i: int| 0 <= i < inner + 1 implies is_blank(#[trigger] s[i]) by {
            if i > 0 {
                assert(s.skip(1)[i - 1] == s[i]);
            }
        }
        inner + 1
    } else {
        assert(s.skip(0) =~= s);
        0
    }
}

proof fn lemma_trailing_cut(s: Seq<char>) -> (len: int)
    ensures
        0 <= len <= s.len(),
        without_trailing_blanks(s) == s.take(len),
        forall|i: int| len <= i < s.len() ==> is_blank(#[trigger] s[i]),
    decreases s.len(),
{
    if s.len() > 0 && is_blank(s.last()) {
        let len = lemma_trailing_cut(s.drop_last());
        assert(s.drop_last().take(len) =~= s.take(len));
        assert forall|i: int| len <= i < s.len() implies is_blank(#[trigger] s[i]) by {
            if i < s.len() - 1 {
                assert(s.drop_last()[i] == s[i]);
            }
        }
        len
    } else {
        assert(s.take(s.len() as int) =~= s);
        s.len() as int
    }
}

/// A `Retry-After` value is read only where, between blanks, it is a run of
/// ASCII digits after an optional plus sign; it then asks for as many seconds
/// as those digits are worth.
pub proof fn only_whole_seconds_are_read(value: &[u8], r: Option<Duration>) -> (cut: (int, int))
    requires
        call_ensures(parse_retry_after, (value,), r),
    ensures
        r is Some <==> retry_after_secs(value@) is Some,
        r is Some ==> ({
            let digits = header_chars(value@).subrange(cut.0, cut.1);
            &&& 0 <= cut.0 < cut.1 <= value@.len()
            &&& forall|i: int| 0 <= i < cut.0 ==> (#[trigger] value@[i] == 32 || value@[i] == 9)
            &&& forall|i: int|
                cut.1 <= i < value@.len() ==> (#[trigger] value@[i] == 32 || value@[i] == 9)
            &&& forall|i: int|
                cut.0 < i < cut.1 ==> 0x30 <= #[trigger] value@[i] <= 0x39
            &&& 0x30 <= value@[cut.0] <= 0x39 || value@[cut.0] == 0x2b && cut.0 + 1 < cut.1
            &&& r->0@ == 1_000_000_000 * text::digits_value(
                if value@[cut.0] == 0x2b {
                    digits.skip(1)
                } else {
                    digits
                },
            )
        }),
{
    let chars = header_chars(value@);
    let cut = lemma_trimmed(chars);
    if r is Some {
        let core = chars.subrange(cut.0, cut.1);
        let digits = text::without_plus(core);
        assert(text::parse_unsigned(core, u64::MAX as nat) is Some);
        assert forall|i: int| 0 <= i < value@.len() implies chars[i] == #[trigger] value@[i] as char
            && is_header_text(value@[i]) by {
        }
        assert forall|i: int| 0 <= i < cut.0 implies (#[trigger] value@[i] == 32 || value@[i]
            == 9) by {
            assert(is_blank(chars[i]));
        }
        assert forall|i: int| cut.1 <= i < value@.len() implies (#[trigger] value@[i] == 32
            || value@[i] == 9) by {
            assert(is_blank(chars[i]));
        }
        assert(core.len() > 0);
        assert(core[0] == value@[cut.0] as char);
        if core[0] == '+' {
            assert(digits =~= core.skip(1));
        }
        assert forall|i: int| cut.0 < i < cut.1 implies 0x30 <= #[trigger] value@[i] <= 0x39 by {
            let j = if core[0] == '+' {
                i - cut.0 - 1
            } else {
                i - cut.0
            };
            assert(digits[j] == core[i - cut.0]);
            assert(core[i - cut.0] == value@[i] as char);
            assert(text::is_digit(digits[j]));
        }
        if core[0] != '+' {
            assert(text::is_digit(digits[0]));
        }
    }
    cut
}

/// Each setting changes itself alone, and the defaults are three attempts, the
/// statuses 429 and 503, network errors, idempotent methods only, and 200 ms
/// doubling up to 30 s with jitter.
pub proof fn policy_settings_are_independent(
    policy: RetryPolicy,
    n: NonZeroU32,
    statuses: Vec<u16>,
    d: Duration,
    v: bool,
)
    ensures
        forall|r: RetryPolicy| #[trigger]
            call_ensures(RetryPolicy::max_attempts, (policy, n), r) ==> r@ == (RetryPolicyView {
                max_attempts: n@,
                ..policy@
            }),
        forall|r: RetryPolicy| #[trigger]
            call_ensures(RetryPolicy::retry_statuses, (policy, statuses), r) ==> r@ == (
            RetryPolicyView { retry_statuses: statuses@, ..policy@ }),
        forall|r: RetryPolicy| #[trigger]
            call_ensures(RetryPolicy::retry_network_errors, (policy, v), r) ==> r@ == (
            RetryPolicyView { retry_network_errors: v, ..policy@ }),
        forall|r: RetryPolicy| #[trigger]
            call_ensures(RetryPolicy::retry_non_idempotent, (policy, v), r) ==> r@ == (
            RetryPolicyView { retry_non_idempotent: v, ..policy@ }),
        forall|r: RetryPolicy| #[trigger]
            call_ensures(RetryPolicy::base_backoff, (policy, d), r) ==> r@ == (RetryPolicyView {
                base_backoff: d@,
                ..policy@
            }),
        forall|r: RetryPolicy| #[trigger]
            call_ensures(RetryPolicy::max_backoff, (policy, d), r) ==> r@ == (RetryPolicyView {
                max_backoff: d@,
                ..policy@
            }),
        forall|r: RetryPolicy| #[trigger]
            call_ensures(RetryPolicy::jitter, (policy, v), r) ==> r@ == (RetryPolicyView {
                jitter: v,
                ..policy@
            }),
        forall|r: RetryPolicy| #[trigger]
            call_ensures(<RetryPolicy as Clone>::clone, (&policy,), r) ==> r@ == policy@,
        forall|r: RetryPolicy| #[trigger]
            call_ensures(<RetryPolicy as Default>::default, (), r) ==> r@.max_attempts == 3
                && r@.retry_statuses =~= seq![429u16, 503u16] && r@.retry_network_errors
                && !r@.retry_non_idempotent && r@.base_backoff == 200_000_000 && r@.max_backoff
                == 30_000_000_000 && r@.jitter,
{
}

/// A run of ASCII digits, with or without a plus sign before it and blanks
/// around it, is read as the seconds it is worth, unless that exceeds
/// `u64::MAX`.
pub proof fn padded_digits_are_read(
    value: Seq<u8>,
    before: Seq<char>,
    plus: bool,
    digits: Seq<char>,
    after: Seq<char>,
)
    requires
        digits.len() > 0,
        forall|i: int| 0 <= i < digits.len() ==> 0x30 <= (#[trigger] digits[i]) as u32 <= 0x39,
        forall|i: int|
            0 <= i < before.len() ==> (#[trigger] before[i]) == ' ' || before[i] == '\t',
        forall|i: int| 0 <= i < after.len() ==> (#[trigger] after[i]) == ' ' || after[i] == '\t',
        value.len() == before.len() + (if plus {
            1int
        } else {
            0
        }) + digits.len() + after.len(),
        header_chars(value) == before + (if plus {
            seq!['+'] + digits
        } else {
            digits
        }) + after,
    ensures
        retry_after_secs(value) == (if text::digits_value(digits) <= u64::MAX {
            Some(text::digits_value(digits))
        } else {
            None
        }),
{
    let core = if plus {
        seq!['+'] + digits
    } else {
        digits
    };
    let chars = header_chars(value);
    assert forall|i: int| 0 <= i < value.len() implies is_header_text(#[trigger] value[i]) by {
        assert(chars[i] == value[i] as char);
        if i < before.len() {
            assert(chars[i] == before[i]);
        } else if i < before.len() + core.len() {
            let j = i - before.len();
            assert(chars[i] == core[j]);
            if plus && j > 0 {
                assert(core[j] == digits[j - 1]);
            }
        } else {
            assert(chars[i] == after[i - before.len() - core.len()]);
        }
    }
    assert(chars =~= before + (core + after));
    assert(!is_blank((core + after)[0])) by {
        assert(0x30 <= digits[0] as u32);
    }
    assert(!is_blank(core.last())) by {
        assert(0x30 <= digits[digits.len() - 1] as u32);
        assert(core.last() == digits[digits.len() - 1]);
    }
    lemma_leading_blanks_are_cut(before, core + after);
    lemma_trailing_blanks_are_cut(core, after);
    text::digits_are_read_up_to_the_bound(digits, u64::MAX as nat);
}

/// A value with a byte outside plain text is not read.
pub proof fn other_bytes_are_not_read(value: Seq<u8>, i: int)
    requires
        0 <= i < value.len(),
        !(32 <= value[i] <= 126 || value[i] == 9),
    ensures
        retry_after_secs(value) is None,
{
    assert(!is_header_text(value[i]));
}

/// What is read of a client or of a pending request is what it holds, and
/// attaching a signal changes nothing else.
pub proof fn clients_are_read_as_they_are<E, R>(
    inner: E,
    policy: RetryPolicy,
    client: RetryingClient<E>,
    token: tokio_util::sync::CancellationToken,
    pending: &PendingRequest<R>,
)
    ensures
        forall|r: RetryingClient<E>| #[trigger]
            call_ensures(RetryingClient::<E>::new, (inner, policy), r) ==> r@.inner == inner
                && r@.policy == policy@ && r@.cancel is None,
        forall|r: RetryingClient<E>| #[trigger]
            call_ensures(RetryingClient::<E>::with_cancellation, (client, token), r) ==> r@.inner
                == client@.inner && r@.policy == client@.policy && r@.cancel == Some(token),
        forall|r: &E| #[trigger]
            call_ensures(RetryingClient::<E>::inner, (&client,), r) ==> *r == client@.inner,
        forall|r: &RetryPolicy| #[trigger]
            call_ensures(RetryingClient::<E>::policy, (&client,), r) ==> r@ == client@.policy,
        forall|r: Option<&tokio_util::sync::CancellationToken>| #[trigger]
            call_ensures(RetryingClient::<E>::cancellation, (&client,), r) ==> (
            match client@.cancel {
                Some(attached) => r matches Some(t) && *t == attached,
                None => r is None,
            }),
        forall|r: u32| #[trigger]
            call_ensures(PendingRequest::<R>::attempt, (pending,), r) ==> r == pending@.attempt,
        forall|r: Duration| #[trigger]
            call_ensures(PendingRequest::<R>::delay, (pending,), r) ==> r@ == pending@.delay,
{
}

/// A copy of a client has the same policy, and copies of what it wraps and of
/// its signal.
pub proof fn copied_clients_keep_their_policy<E: Clone>(
    client: &RetryingClient<E>,
    r: RetryingClient<E>,
)
    requires
        call_ensures(<RetryingClient<E> as Clone>::clone, (client,), r),
    ensures
        r@.policy == client@.policy,
        cloned(client@.inner, r@.inner),
        r@.cancel is Some <==> client@.cancel is Some,
{
}

/// Status codes are listed in order, separated by commas.
pub proof fn statuses_are_listed_in_order(statuses: Seq<u16>, status: u16)
    ensures
        status_list(Seq::empty()) =~= Seq::<char>::empty(),
        status_list(seq![status]) == text::decimal(status as nat),
        statuses.len() > 0 ==> status_list(statuses.push(status)) == status_list(statuses) + ", "@
            + text::decimal(status as nat),
{
    assert(statuses.push(status).drop_last() =~= statuses);
}

/// The text of a policy shows every setting in its plain form.
pub proof fn rendered_policies_show_every_setting(policy: &RetryPolicy, r: String)
    requires
        call_ensures(RetryPolicy::debug_text, (policy,), r),
    ensures
        r@ == "RetryPolicy { max_attempts: "@ + text::decimal(policy@.max_attempts)
            + ", retry_statuses: ["@ + status_list(policy@.retry_statuses)
            + "], retry_network_errors: "@ + text::flag(policy@.retry_network_errors)
            + ", retry_non_idempotent: "@ + text::flag(policy@.retry_non_idempotent)
            + ", base_backoff: "@ + time::duration_text(policy@.base_backoff) + ", max_backoff: "@
            + time::duration_text(policy@.max_backoff) + ", jitter: "@ + text::flag(policy@.jitter)
            + " }"@,
{
}

/// Whatever the clock shows, the delay after an attempt stays within its cap,
/// and is exact where the server asks for one or nothing is drawn.
pub proof fn clocked_request_delay_is_bounded(
    policy: &RetryPolicy,
    attempt: u32,
    outcome: &HttpOutcome,
    r: Duration,
)
    requires
        call_ensures(RetryPolicy::compute_delay, (policy, attempt, outcome), r),
    ensures
        r@ <= policy@.max_backoff,
        server_delay(outcome@) matches Some(nanos) ==> r@ == vstd::math::min(
            nanos as int,
            policy@.max_backoff as int,
        ),
        server_delay(outcome@) is None ==> r@ <= backoff::backoff_nanos(
            policy@.base_backoff,
            policy@.max_backoff,
            attempt as nat,
        ),
        server_delay(outcome@) is None && !policy@.jitter ==> r@ == backoff::backoff_nanos(
            policy@.base_backoff,
            policy@.max_backoff,
            attempt as nat,
        ),
        policy@.jitter ==> exists|source: u64| #[trigger]
            backoff::is_clock_reading(source) && r@ == policy@.delay(
                attempt as nat,
                outcome@,
                source,
            ),
{
    let source = choose|source: u64|
        (policy@.jitter ==> backoff::is_clock_reading(source)) && r@ == #[trigger] policy@.delay(
            attempt as nat,
            outcome@,
            source,
        );
    assert(policy@.jitter ==> backoff::is_clock_reading(source));
    backoff::jitter_stays_below_cap(
        backoff::backoff_nanos(policy@.base_backoff, policy@.max_backoff, attempt as nat),
        source,
    );
}

} // verus!
