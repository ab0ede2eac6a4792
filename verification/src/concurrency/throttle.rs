//! Leading-edge throttle that discards calls during a cooldown window.
//!
//! [`Throttle`] enforces "at most one invocation per interval": the first
//! call runs, and any further call that arrives before the interval has
//! elapsed since the last run is discarded, never queued. Times are read by
//! the caller on one monotonic clock.

use vstd::prelude::*;

use crate::time::Duration;

verus! {

/// Leading-edge throttle.
#[derive(Debug)]
pub struct Throttle {
    min_interval: Duration,
    last_run: Option<Duration>,
}

/// What a [`Throttle`] holds, in nanoseconds.
pub struct ThrottleView {
    pub min_interval: nat,
    pub last_run: Option<nat>,
}

impl View for Throttle {
    type V = ThrottleView;

    closed spec fn view(&self) -> ThrottleView {
        ThrottleView {
            min_interval: self.min_interval@,
            last_run: match self.last_run {
                Some(at) => Some(at@),
                None => None,
            },
        }
    }
}

impl ThrottleView {
    /// Whether a call at `now` runs: nothing has run yet, or the last run is
    /// at least the interval ago. A clock reading before the last run counts
    /// as no time passed.
    pub open spec fn admits(self, now: nat) -> bool {
        match self.last_run {
            None => true,
            Some(previous) => (if now >= previous {
                now - previous
            } else {
                0
            }) >= self.min_interval,
        }
    }

    /// The throttle after a call at `now`.
    pub open spec fn after_call(self, now: nat) -> ThrottleView {
        if self.admits(now) {
            ThrottleView { last_run: Some(now), ..self }
        } else {
            self
        }
    }
}

impl Throttle {
    /// Admit at most one invocation per `min_interval`.
    pub fn new(min_interval: Duration) -> (r: Throttle)
        ensures
            r@ == (ThrottleView { min_interval: min_interval@, last_run: None }),
    {
        Throttle { min_interval, last_run: None }
    }

    /// Minimum interval between runs.
    pub fn min_interval(&self) -> (r: Duration)
        ensures
            r@ == self@.min_interval,
    {
        self.min_interval
    }

    /// Decide on a call at `now`. A call that is admitted counts as a run
    /// from this moment on, however long it takes.
    pub fn try_admit(&mut self, now: Duration) -> (r: bool)
        ensures
            r == old(self)@.admits(now@),
            final(self)@ == old(self)@.after_call(now@),
    {
        match self.last_run {
            Some(previous) => {
                if !now.saturating_sub(previous).at_least(self.min_interval) {
                    return false;
                }
            },
            None => {},
        }
        self.last_run = Some(now);
        true
    }

    /// Run `f` if a call at `now` is admitted; otherwise return `None`
    /// without invoking it.
    pub fn try_run<F: FnOnce() -> R, R>(&mut self, now: Duration, f: F) -> (r: Option<R>)
        requires
            old(self)@.admits(now@) ==> f.requires(()),
        ensures
            final(self)@ == old(self)@.after_call(now@),
            r is Some <==> old(self)@.admits(now@),
            r matches Some(output) ==> f.ensures((), output),
    {
        if self.try_admit(now) {
            Some(f())
        } else {
            None
        }
    }

    /// Forget the last run; the next call runs immediately.
    pub fn reset(&mut self)
        ensures
            final(self)@ == (ThrottleView { last_run: None, ..old(self)@ }),
    {
        self.last_run = None;
    }
}

/// The throttle after calls at the first `n` of these times.
pub open spec fn after_calls(throttle: ThrottleView, times: Seq<nat>, n: nat) -> ThrottleView
    decreases n,
{
    if n == 0 {
        throttle
    } else {
        after_calls(throttle, times, (n - 1) as nat).after_call(times[n - 1])
    }
}

/// Whether the call at the `i`-th of these times runs.
pub open spec fn call_runs(throttle: ThrottleView, times: Seq<nat>, i: int) -> bool {
    after_calls(throttle, times, i as nat).admits(times[i])
}

/// A fresh throttle, or one that was reset, admits the next call at any
/// time.
pub proof fn reset_admits_the_next_call(throttle: ThrottleView, now: nat)
    ensures
        (ThrottleView { last_run: None, ..throttle }).admits(now),
{
}

/// An admitted call blocks every call before the interval is over, and none
/// after.
pub proof fn admitted_call_starts_the_cooldown(throttle: ThrottleView, now: nat, later: nat)
    requires
        throttle.admits(now),
        now <= later,
    ensures
        throttle.after_call(now).admits(later) <==> later - now >= throttle.min_interval,
{
}

/// A discarded call changes nothing: it neither runs nor prolongs the
/// cooldown.
pub proof fn discarded_call_changes_nothing(throttle: ThrottleView, now: nat)
    requires
        !throttle.admits(now),
    ensures
        throttle.after_call(now) == throttle,
{
}

/// The last run is at or after any earlier run, and the interval never
/// changes.
proof fn lemma_last_run_since(throttle: ThrottleView, times: Seq<nat>, i: int, n: nat)
    requires
        0 <= i < n <= times.len(),
        forall|a: int, b: int| 0 <= a <= b < times.len() ==> times[a] <= times[b],
        call_runs(throttle, times, i),
    ensures
        after_calls(throttle, times, n).min_interval == throttle.min_interval,
        after_calls(throttle, times, n).last_run is Some,
        times[i] <= after_calls(throttle, times, n).last_run->0 <= times[n - 1],
    decreases n,
{
    lemma_interval_is_kept(throttle, times, n);
    if i < n - 1 {
        lemma_last_run_since(throttle, times, i, (n - 1) as nat);
        assert(times[n - 2] <= times[n - 1]);
        assert(times[i] <= times[n - 1]);
    }
}

proof fn lemma_interval_is_kept(throttle: ThrottleView, times: Seq<nat>, n: nat)
    ensures
        after_calls(throttle, times, n).min_interval == throttle.min_interval,
    decreases n,
{
    if n > 0 {
        lemma_interval_is_kept(throttle, times, (n - 1) as nat);
    }
}

/// On a clock that never runs backwards, any two calls that run are at least
/// the interval apart.
pub proof fn runs_are_an_interval_apart(throttle: ThrottleView, times: Seq<nat>, i: int, j: int)
    requires
        0 <= i < j < times.len(),
        forall|a: int, b: int| 0 <= a <= b < times.len() ==> times[a] <= times[b],
        call_runs(throttle, times, i),
        call_runs(throttle, times, j),
    ensures
        times[j] - times[i] >= throttle.min_interval,
{
    lemma_last_run_since(throttle, times, i, j as nat);
    assert(times[j - 1] <= times[j]);
}

/// A call is admitted before any run, and else exactly where the last run is
/// at least the interval ago; time never counts as negative, so on a clock
/// that ran backwards only an empty interval admits.
pub proof fn calls_are_admitted_after_the_interval(throttle: ThrottleView, now: nat)
    ensures
        throttle.last_run is None ==> throttle.admits(now),
        throttle.last_run matches Some(last) ==> (throttle.admits(now) <==> now - last
            >= throttle.min_interval || throttle.min_interval == 0),
        throttle.admits(now) ==> throttle.after_call(now).last_run == Some(now),
        throttle.after_call(now).min_interval == throttle.min_interval,
{
}

/// A call is answered by whether it is admitted, and only an admitted one
/// counts as a run.
pub proof fn admission_is_answered_and_remembered(throttle: &mut Throttle, now: Duration, r: bool)
    requires
        call_ensures(Throttle::try_admit, (throttle, now), r),
    ensures
        old(throttle)@.last_run is None ==> r,
        old(throttle)@.last_run matches Some(last) ==> (r <==> now@ - last >= old(
            throttle,
        )@.min_interval || old(throttle)@.min_interval == 0),
        r ==> final(throttle)@.last_run == Some(now@),
        !r ==> final(throttle)@ == old(throttle)@,
        final(throttle)@.min_interval == old(throttle)@.min_interval,
{
}

/// A new throttle has not run, a reset one has forgotten its run, and neither
/// changes the interval.
pub proof fn throttles_start_and_reset_without_a_run(
    interval: Duration,
    fresh: Throttle,
    read: Duration,
    throttle: &mut Throttle,
)
    requires
        call_ensures(Throttle::new, (interval,), fresh),
        call_ensures(Throttle::min_interval, (&fresh,), read),
        call_ensures(Throttle::reset, (throttle,), ()),
    ensures
        fresh@.last_run is None,
        fresh@.min_interval == interval@,
        read@ == interval@,
        final(throttle)@.last_run is None,
        final(throttle)@.min_interval == old(throttle)@.min_interval,
{
}

/// A closure is run exactly where its call is admitted, and its output handed
/// on; of a call that is not admitted nothing is asked of the closure.
pub proof fn closures_run_exactly_when_admitted<F: FnOnce() -> R, R>(
    throttle: &mut Throttle,
    now: Duration,
    f: F,
    r: Option<R>,
)
    requires
        call_ensures(Throttle::try_run::<F, R>, (throttle, now, f), r),
    ensures
        r is Some <==> old(throttle)@.admits(now@),
        r matches Some(output) ==> f.ensures((), output) && final(throttle)@.last_run == Some(now@),
        r is None ==> final(throttle)@ == old(throttle)@,
        !old(throttle)@.admits(now@) ==> call_requires(
            Throttle::try_run::<F, R>,
            (throttle, now, f),
        ),
{
}

} // verus!
