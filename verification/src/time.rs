//! Spans of time, counted in whole nanoseconds.

use vstd::prelude::*;

verus! {

/// Nanoseconds in one second.
pub const NANOS_PER_SEC: u128 = 1_000_000_000;

/// Nanoseconds in one millisecond.
pub const NANOS_PER_MILLI: u128 = 1_000_000;

/// The longest span: `u64::MAX` seconds and 999 999 999 nanoseconds.
pub const MAX_NANOS: u128 = 18_446_744_073_709_551_615_999_999_999;

/// A non-negative span of time; its view is the number of nanoseconds.
#[derive(Debug, Clone, Copy, PartialEq, Eq, Structural, PartialOrd, Ord)]
pub struct Duration {
    nanos: u128,
}

impl View for Duration {
    type V = nat;

    closed spec fn view(&self) -> nat {
        self.nanos as nat
    }
}

/// How a span of `secs` seconds and `nanos` nanoseconds is rendered for
/// debugging, e.g. `1.5s` or `50ms`.
pub uninterp spec fn span_debug(secs: u64, nanos: u32) -> Seq<char>;

/// Calls the `Debug` rendering of `std::time::Duration`. The contract only
/// claims that the text is determined by the two numbers.
#[verifier::external_body]
fn std_span_debug(secs: u64, nanos: u32) -> (r: String)
    requires
        nanos < 1_000_000_000,
    ensures
        r@ == span_debug(secs, nanos),
{
    format!("{:?}", std::time::Duration::new(secs, nanos))
}

/// The debug rendering of a span of `nanos` nanoseconds.
pub open spec fn duration_text(nanos: nat) -> Seq<char> {
    span_debug((nanos / NANOS_PER_SEC as nat) as u64, (nanos % NANOS_PER_SEC as nat) as u32)
}

impl Duration {
    #[verifier::type_invariant]
    spec fn is_representable(self) -> bool {
        self.nanos <= MAX_NANOS
    }

    /// The empty span.
    pub fn zero() -> (r: Duration)
        ensures
            r@ == 0,
    {
        Duration { nanos: 0 }
    }

    /// A span of whole seconds.
    pub fn from_secs(secs: u64) -> (r: Duration)
        ensures
            r@ == secs * NANOS_PER_SEC,
    {
        Duration { nanos: secs as u128 * NANOS_PER_SEC }
    }

    /// A span of whole milliseconds.
    pub fn from_millis(millis: u64) -> (r: Duration)
        ensures
            r@ == millis * NANOS_PER_MILLI,
    {
        Duration { nanos: millis as u128 * NANOS_PER_MILLI }
    }

    /// A span of whole nanoseconds.
    pub fn from_nanos(nanos: u64) -> (r: Duration)
        ensures
            r@ == nanos,
    {
        Duration { nanos: nanos as u128 }
    }

    /// A span of `secs` seconds plus `subsec_nanos` nanoseconds.
    pub fn from_parts(secs: u64, subsec_nanos: u32) -> (r: Duration)
        requires
            subsec_nanos < 1_000_000_000,
        ensures
            r@ == secs * NANOS_PER_SEC + subsec_nanos,
    {
        Duration { nanos: secs as u128 * NANOS_PER_SEC + subsec_nanos as u128 }
    }

    /// All the nanoseconds of the span.
    pub fn as_nanos(self) -> (r: u128)
        ensures
            r == self@,
            r <= MAX_NANOS,
    {
        proof {
            use_type_invariant(&self);
        }
        self.nanos
    }

    /// The whole seconds of the span.
    pub fn as_secs(self) -> (r: u64)
        ensures
            r == self@ / NANOS_PER_SEC as nat,
    {
        proof {
            use_type_invariant(&self);
        }
        (self.nanos / NANOS_PER_SEC) as u64
    }

    /// The nanoseconds past the last whole second.
    pub fn subsec_nanos(self) -> (r: u32)
        ensures
            r == self@ % NANOS_PER_SEC as nat,
            r < 1_000_000_000,
    {
        (self.nanos % NANOS_PER_SEC) as u32
    }

    /// Whether the span is empty.
    pub fn is_zero(self) -> (r: bool)
        ensures
            r == (self@ == 0),
    {
        self.nanos == 0
    }

    /// Whether the span lasts as long as `other` or longer.
    pub fn at_least(self, other: Duration) -> (r: bool)
        ensures
            r == (self@ >= other@),
    {
        self.nanos >= other.nanos
    }

    /// The shorter of two spans.
    pub fn min(self, other: Duration) -> (r: Duration)
        ensures
            r@ == (if self@ <= other@ { self@ } else { other@ }),
    {
        if self.nanos <= other.nanos {
            self
        } else {
            other
        }
    }

    /// `factor` times the span, or the longest span where that is longer.
    pub fn saturating_mul(self, factor: u32) -> (r: Duration)
        ensures
            r@ == (if self@ * factor <= MAX_NANOS { self@ * factor } else { MAX_NANOS as int }),
    {
        proof {
            use_type_invariant(&self);
            assert(self.nanos * factor <= MAX_NANOS * u32::MAX) by (nonlinear_arith)
                requires
                    self.nanos <= MAX_NANOS,
                    factor <= u32::MAX,
            ;
            assert(self.nanos * factor >= 0) by (nonlinear_arith);
        }
        let product: u128 = self.nanos * factor as u128;
        if product <= MAX_NANOS {
            Duration { nanos: product }
        } else {
            Duration { nanos: MAX_NANOS }
        }
    }

    /// How much longer the span lasts than `earlier`; empty where it does
    /// not.
    pub fn saturating_sub(self, earlier: Duration) -> (r: Duration)
        ensures
            r@ == (if self@ >= earlier@ { self@ - earlier@ } else { 0 }),
    {
        proof {
            use_type_invariant(&self);
        }
        if self.nanos >= earlier.nanos {
            Duration { nanos: self.nanos - earlier.nanos }
        } else {
            Duration { nanos: 0 }
        }
    }

    /// The span as text for diagnostics.
    pub fn debug_text(self) -> (r: String)
        ensures
            r@ == duration_text(self@),
    {
        std_span_debug(self.as_secs(), self.subsec_nanos())
    }
}

/// Two spans of as many nanoseconds are the same span.
pub proof fn same_length_same_span(a: Duration, b: Duration)
    requires
        a@ == b@,
    ensures
        a == b,
{
}

/// The text of a span is that of its whole seconds and the nanoseconds past
/// them.
pub proof fn text_shows_seconds_and_nanoseconds(secs: u64, nanos: u32)
    requires
        nanos < 1_000_000_000,
    ensures
        duration_text((secs * 1_000_000_000 + nanos) as nat) == span_debug(secs, nanos),
{
}

/// A span taken apart and put together again is the same span.
pub proof fn parts_make_up_the_span(d: Duration, secs: u64, nanos: u32, r: Duration)
    requires
        call_ensures(Duration::as_secs, (d,), secs),
        call_ensures(Duration::subsec_nanos, (d,), nanos),
        call_ensures(Duration::from_parts, (secs, nanos), r),
    ensures
        r@ == d@,
        d@ == secs * 1_000_000_000 + nanos,
        nanos < 1_000_000_000,
        forall|text: String| #[trigger]
            call_ensures(Duration::debug_text, (d,), text) ==> text@ == span_debug(secs, nanos),
{
    assert forall|text: String| #[trigger] call_ensures(
        Duration::debug_text,
        (d,),
        text,
    ) implies text@ == span_debug(secs, nanos) by {
        assert(text@ == duration_text(d@));
    }
}

/// A second is a thousand milliseconds, and a millisecond a million
/// nanoseconds.
pub proof fn units_agree(n: u64, secs: Duration, millis: Duration, nanos: Duration, empty: Duration)
    requires
        call_ensures(Duration::from_secs, (n,), secs),
        call_ensures(Duration::from_millis, (n,), millis),
        call_ensures(Duration::from_nanos, (n,), nanos),
        call_ensures(Duration::zero, (), empty),
    ensures
        nanos@ == n,
        millis@ == 1_000_000 * n,
        secs@ == 1_000 * millis@,
        empty@ == 0,
{
}

/// Comparing, cutting and scaling go by the number of nanoseconds.
pub proof fn spans_compare_by_length(
    a: Duration,
    b: Duration,
    longer: bool,
    shorter: Duration,
    left: Duration,
    empty: bool,
    nanos: u128,
)
    requires
        call_ensures(Duration::at_least, (a, b), longer),
        call_ensures(Duration::min, (a, b), shorter),
        call_ensures(Duration::saturating_sub, (a, b), left),
        call_ensures(Duration::is_zero, (a,), empty),
        call_ensures(Duration::as_nanos, (a,), nanos),
    ensures
        longer <==> a@ >= b@,
        shorter@ == vstd::math::min(a@ as int, b@ as int),
        longer ==> left@ + b@ == a@,
        !longer ==> left@ == 0,
        empty <==> a@ == 0,
        nanos == a@,
{
}

/// Scaling multiplies the length, at most up to the longest span.
pub proof fn scaling_multiplies_the_length(d: Duration, factor: u32, r: Duration)
    requires
        call_ensures(Duration::saturating_mul, (d, factor), r),
    ensures
        r@ == vstd::math::min(d@ * factor, 18_446_744_073_709_551_615_999_999_999),
{
}

} // verus!
