//! Timing shared by every retry and restart policy: exponential backoff with
//! optional full jitter, and how to wait out a delay.

use vstd::arithmetic::div_mod::*;
use vstd::arithmetic::power2::*;
use vstd::prelude::*;

use crate::time::{Duration, MAX_NANOS};

verus! {

/// The exponent of the backoff for a 1-based attempt count; zero counts as
/// one.
pub open spec fn backoff_exponent(attempt: nat) -> nat {
    if attempt == 0 {
        0
    } else {
        (attempt - 1) as nat
    }
}

/// How many base delays the backoff amounts to: `2^(attempt - 1)`, saturated
/// at `u32::MAX`.
pub open spec fn backoff_factor(attempt: nat) -> nat {
    if backoff_exponent(attempt) >= 32 {
        u32::MAX as nat
    } else {
        pow2(backoff_exponent(attempt))
    }
}

/// The backoff in nanoseconds: the base delay times the factor, at most
/// `max`.
pub open spec fn backoff_nanos(base: nat, max: nat, attempt: nat) -> nat {
    if base * backoff_factor(attempt) <= max {
        base * backoff_factor(attempt)
    } else {
        max
    }
}

/// The delay that full jitter draws for a cap of `capped` nanoseconds from
/// an arbitrary number.
pub open spec fn jitter_nanos(capped: nat, source: u64) -> nat {
    let bound = if capped <= u64::MAX {
        capped
    } else {
        u64::MAX as nat
    };
    if bound == 0 {
        0
    } else {
        source as nat % bound
    }
}

/// The delay in nanoseconds: the backoff, or what full jitter draws from it.
pub open spec fn delay_nanos(base: nat, max: nat, attempt: nat, jitter: bool, source: u64) -> nat {
    let capped = backoff_nanos(base, max, attempt);
    if jitter {
        jitter_nanos(capped, source)
    } else {
        capped
    }
}

fn factor_of(attempt: u32) -> (r: u32)
    ensures
        r == backoff_factor(attempt as nat),
{
    let exponent: u32 = if attempt == 0 { 0 } else { attempt - 1 };
    proof {
        lemma2_to64();
    }
    if exponent >= 32 {
        return u32::MAX;
    }
    let mut factor: u32 = 1;
    let mut i: u32 = 0;
    while i < exponent
        invariant
            0 <= i <= exponent < 32,
            factor == pow2(i as nat),
        decreases exponent - i,
    {
        proof {
            lemma2_to64();
            lemma_pow2_unfold((i + 1) as nat);
            if i + 1 < 31 {
                lemma_pow2_strictly_increases((i + 1) as nat, 31);
            }
        }
        factor = factor * 2;
        i += 1;
    }
    factor
}

/// One step of exponential backoff, with full jitter drawn from `source`
/// when enabled.
pub fn compute_delay_from(
    base: Duration,
    max: Duration,
    attempt: u32,
    jitter: bool,
    source: u64,
) -> (r: Duration)
    ensures
        r@ == delay_nanos(base@, max@, attempt as nat, jitter, source),
{
    let uncapped: Duration = base.saturating_mul(factor_of(attempt));
    let capped: Duration = uncapped.min(max);
    let limit: u128 = max.as_nanos();
    assert(limit <= MAX_NANOS);
    if jitter {
        full_jitter_from(capped, source)
    } else {
        capped
    }
}

/// Full jitter on `capped`, drawn from `source`.
pub fn full_jitter_from(capped: Duration, source: u64) -> (r: Duration)
    ensures
        r@ == jitter_nanos(capped@, source),
{
    let nanos: u128 = capped.as_nanos();
    let bound: u64 = if nanos <= u64::MAX as u128 { nanos as u64 } else { u64::MAX };
    if bound == 0 {
        return Duration::zero();
    }
    Duration::from_nanos(source % bound)
}

/// A point of the wall clock.
#[verifier::external_type_specification]
#[verifier::external_body]
pub struct ExSystemTime(std::time::SystemTime);

/// `std::time::SystemTime::now`: reads the wall clock. Nothing is claimed of
/// what it shows.
pub assume_specification[ std::time::SystemTime::now ]() -> std::time::SystemTime;

/// Calls `std::time::SystemTime::duration_since` for the Unix epoch and
/// counts the nanoseconds, `None` before the epoch. Nothing is claimed of
/// the count.
#[verifier::external_body]
fn nanos_since_epoch(now: std::time::SystemTime) -> Option<u128> {
    now.duration_since(std::time::SystemTime::UNIX_EPOCH).ok().map(|d| d.as_nanos())
}

/// The number that a count of nanoseconds since the epoch stands for: its
/// low 64 bits, zero before the epoch.
pub open spec fn low_bits(nanos: Option<u128>) -> u64 {
    match nanos {
        Some(nanos) => (nanos % 0x1_0000_0000_0000_0000) as u64,
        None => 0,
    }
}

/// The low 64 bits of a count of nanoseconds since the epoch, zero before
/// the epoch.
pub fn source_of_nanos(nanos: Option<u128>) -> (r: u64)
    ensures
        r == low_bits(nanos),
{
    match nanos {
        Some(nanos) => {
            assert(nanos as u64 == (nanos % 0x1_0000_0000_0000_0000) as u64) by (bit_vector);
            #[verifier::truncate]
            (nanos as u64)
        },
        None => 0,
    }
}

/// Whether `source` is what some reading of the wall clock stands for.
pub closed spec fn is_clock_reading(source: u64) -> bool {
    exists|now: std::time::SystemTime, nanos: Option<u128>|
        call_ensures(std::time::SystemTime::now, (), now) && #[trigger] call_ensures(
            nanos_since_epoch,
            (now,),
            nanos,
        ) && source == low_bits(nanos)
}

/// A number read from the wall clock. Not cryptographically random.
pub(crate) fn clock_source() -> (r: u64)
    ensures
        is_clock_reading(r),
{
    let now: std::time::SystemTime = std::time::SystemTime::now();
    let nanos: Option<u128> = nanos_since_epoch(now);
    source_of_nanos(nanos)
}

/// Draw a delay from `[0, capped]`, using the wall clock as a cheap source
/// of entropy. Which one comes out is up to the clock.
pub fn full_jitter(capped: Duration) -> (r: Duration)
    ensures
        r@ <= capped@,
        exists|source: u64|
            is_clock_reading(source) && r@ == #[trigger] jitter_nanos(capped@, source),
{
    let source: u64 = clock_source();
    proof {
        jitter_stays_below_cap(capped@, source);
    }
    full_jitter_from(capped, source)
}

/// One step of exponential backoff: `base * 2^(attempt - 1)`, capped at
/// `max`, and with `jitter` drawn from `[0, capped]`.
pub fn compute_delay(base: Duration, max: Duration, attempt: u32, jitter: bool) -> (r: Duration)
    ensures
        r@ <= backoff_nanos(base@, max@, attempt as nat) <= max@,
        !jitter ==> r@ == backoff_nanos(base@, max@, attempt as nat),
        exists|source: u64|
            (jitter ==> is_clock_reading(source)) && r@ == #[trigger] delay_nanos(
                base@,
                max@,
                attempt as nat,
                jitter,
                source,
            ),
{
    let source: u64 = if jitter { clock_source() } else { 0 };
    proof {
        jitter_stays_below_cap(backoff_nanos(base@, max@, attempt as nat), source);
    }
    compute_delay_from(base, max, attempt, jitter, source)
}

/// How a delay is waited out.
#[derive(Debug, Clone, Copy, PartialEq, Eq, Structural)]
pub enum SleepPlan {
    /// There is nothing to wait for: the delay has elapsed.
    Elapsed,
    /// Sleep for the whole delay.
    Sleep,
    /// Sleep, but give up as soon as the cancellation signal fires.
    SleepOrCancel,
}

/// Decide how to wait for `delay`, given whether a cancellation signal is
/// watched. An empty delay never yields, whatever the signal.
pub fn plan_sleep(watched: bool, delay: Duration) -> (r: SleepPlan)
    ensures
        r == (if delay@ == 0 {
            SleepPlan::Elapsed
        } else if watched {
            SleepPlan::SleepOrCancel
        } else {
            SleepPlan::Sleep
        }),
{
    if delay.is_zero() {
        SleepPlan::Elapsed
    } else if watched {
        SleepPlan::SleepOrCancel
    } else {
        SleepPlan::Sleep
    }
}

/// Full jitter never exceeds its cap, and reaches it only where it is empty.
pub proof fn jitter_stays_below_cap(capped: nat, source: u64)
    ensures
        jitter_nanos(capped, source) <= capped,
        capped > 0 ==> jitter_nanos(capped, source) < capped,
{
}

/// Full jitter can draw any delay below a cap of at most `u64::MAX`
/// nanoseconds.
pub proof fn jitter_reaches_every_delay(capped: nat, delay: nat)
    requires
        delay < capped <= u64::MAX,
    ensures
        exists|source: u64| #[trigger] jitter_nanos(capped, source) == delay,
{
    assert(delay % capped == delay) by (nonlinear_arith)
        requires
            delay < capped,
    ;
    assert(jitter_nanos(capped, delay as u64) == delay);
}

/// The factor is at least one and never shrinks from one attempt to a later
/// one.
proof fn lemma_factor_grows(earlier: nat, later: nat)
    requires
        earlier <= later,
    ensures
        1 <= backoff_factor(earlier) <= backoff_factor(later),
{
    lemma2_to64();
    let e = backoff_exponent(earlier);
    let f = backoff_exponent(later);
    if e > 0 && e < 32 {
        lemma_pow2_strictly_increases(0, e);
    }
    if f < 32 {
        if e < f {
            lemma_pow2_strictly_increases(e, f);
        }
    } else if e < 32 {
        lemma_pow2_strictly_increases(e, 32);
    }
}

/// Later attempts never wait less, and no attempt waits longer than the cap.
pub proof fn backoff_never_shrinks(base: nat, max: nat, earlier: nat, later: nat)
    requires
        earlier <= later,
    ensures
        backoff_nanos(base, max, earlier) <= backoff_nanos(base, max, later) <= max,
{
    lemma_factor_grows(earlier, later);
    let f = backoff_factor(earlier);
    let g = backoff_factor(later);
    assert(base * f <= base * g) by (nonlinear_arith)
        requires
            f <= g,
    ;
}

/// The first attempt waits for the base delay, or the cap where that is
/// shorter; a count of zero is treated as one.
pub proof fn backoff_starts_at_base(base: nat, max: nat)
    ensures
        backoff_nanos(base, max, 1) == (if base <= max { base } else { max }),
        backoff_nanos(base, max, 0) == backoff_nanos(base, max, 1),
{
    lemma2_to64();
    let f = backoff_factor(1);
    assert(base * f == base) by (nonlinear_arith)
        requires
            f == 1,
    ;
}

/// Each attempt doubles the uncapped wait of the one before, as long as the
/// doubling fits the factor.
pub proof fn backoff_doubles(base: nat, max: nat, attempt: nat)
    requires
        1 <= attempt < 32,
    ensures
        backoff_factor(attempt + 1) == 2 * backoff_factor(attempt),
        backoff_nanos(base, max, attempt) < max ==> backoff_nanos(base, max, attempt + 1) == (
        if 2 * backoff_nanos(base, max, attempt) <= max {
            2 * backoff_nanos(base, max, attempt)
        } else {
            max
        }),
{
    lemma_pow2_unfold(attempt);
    let f = backoff_factor(attempt);
    assert(base * (2 * f) == 2 * (base * f)) by (nonlinear_arith);
}

/// Once the cap is reached it is kept.
pub proof fn backoff_stays_at_cap(base: nat, max: nat, attempt: nat, later: nat)
    requires
        attempt <= later,
        backoff_nanos(base, max, attempt) == max,
    ensures
        backoff_nanos(base, max, later) == max,
{
    backoff_never_shrinks(base, max, attempt, later);
}

/// The backoff after attempt `k` is the base delay doubled `k - 1` times, at
/// most the cap. The doubling is that of a `u32`, so from the 33rd attempt on
/// the factor is `u32::MAX`.
pub proof fn backoff_is_the_doubled_base(base: nat, max: nat, attempt: nat)
    ensures
        attempt <= 1 ==> backoff_nanos(base, max, attempt) == vstd::math::min(
            base as int,
            max as int,
        ),
        1 <= attempt <= 32 ==> backoff_nanos(base, max, attempt) == vstd::math::min(
            (base * pow2((attempt - 1) as nat)) as int,
            max as int,
        ),
        attempt > 32 ==> backoff_nanos(base, max, attempt) == vstd::math::min(
            (base * 0xffff_ffff) as int,
            max as int,
        ),
{
    lemma2_to64();
    if attempt <= 1 {
        backoff_starts_at_base(base, max);
    }
}

/// What jitter draws leaves a whole number of caps of its source, and is less
/// than one cap; a cap above `u64::MAX` counts as that.
pub proof fn jitter_is_what_is_left_of_the_source(capped: nat, source: u64)
    ensures
        capped == 0 ==> jitter_nanos(capped, source) == 0,
        0 < capped <= u64::MAX ==> jitter_nanos(capped, source) < capped && jitter_nanos(
            capped,
            source,
        ) <= source && (source - jitter_nanos(capped, source)) % (capped as int) == 0,
        0 < capped && source < capped && source < u64::MAX ==> jitter_nanos(capped, source)
            == source,
        capped > u64::MAX && source == u64::MAX ==> jitter_nanos(capped, source) == 0,
{
    if 0 < capped && capped <= u64::MAX {
        let quotient = source as int / capped as int;
        lemma_fundamental_div_mod(source as int, capped as int);
        lemma_mod_multiples_basic(quotient, capped as int);
        assert(capped * quotient == quotient * capped) by (nonlinear_arith);
    }
    if capped > 0 && source < capped && source < u64::MAX {
        let bound = if capped <= u64::MAX {
            capped
        } else {
            u64::MAX as nat
        };
        lemma_small_mod(source as nat, bound);
    }
}

/// Without jitter a delay is the backoff whatever the source; with jitter it
/// is what is drawn from the backoff.
pub proof fn delay_is_the_backoff_or_drawn_from_it(
    base: nat,
    max: nat,
    attempt: nat,
    source: u64,
)
    ensures
        delay_nanos(base, max, attempt, false, source) == backoff_nanos(base, max, attempt),
        delay_nanos(base, max, attempt, true, source) == jitter_nanos(
            backoff_nanos(base, max, attempt),
            source,
        ),
{
}

/// Every delay that is computed is the doubled base within the cap, or drawn
/// below it from the given source.
pub proof fn computed_delay_is_the_doubled_base(
    base: Duration,
    max: Duration,
    attempt: u32,
    jitter: bool,
    source: u64,
    r: Duration,
)
    requires
        call_ensures(compute_delay_from, (base, max, attempt, jitter, source), r),
    ensures
        ({
            let factor = if attempt <= 1 {
                1
            } else if attempt <= 32 {
                pow2((attempt - 1) as nat)
            } else {
                0xffff_ffff
            };
            let amount = vstd::math::min((base@ * factor) as int, max@ as int);
            &&& !jitter ==> r@ == amount
            &&& jitter && amount == 0 ==> r@ == 0
            &&& jitter && 0 < amount <= u64::MAX ==> r@ < amount && r@ <= source && (source - r@)
                % amount == 0
            &&& jitter && amount > u64::MAX && source < u64::MAX ==> r@ == source
        }),
{
    backoff_is_the_doubled_base(base@, max@, attempt as nat);
    jitter_is_what_is_left_of_the_source(backoff_nanos(base@, max@, attempt as nat), source);
}

/// Whatever the clock shows, a computed delay is at most the doubled base
/// within the cap, and exactly that without jitter.
pub proof fn clocked_delay_is_bounded_by_the_doubled_base(
    base: Duration,
    max: Duration,
    attempt: u32,
    jitter: bool,
    r: Duration,
)
    requires
        call_ensures(compute_delay, (base, max, attempt, jitter), r),
    ensures
        ({
            let factor = if attempt <= 1 {
                1
            } else if attempt <= 32 {
                pow2((attempt - 1) as nat)
            } else {
                0xffff_ffff
            };
            let amount = vstd::math::min((base@ * factor) as int, max@ as int);
            &&& !jitter ==> r@ == amount
            &&& jitter ==> r@ <= amount && (amount > 0 ==> r@ < amount)
            &&& jitter && 0 < amount <= u64::MAX ==> exists|source: u64| #[trigger]
                is_clock_reading(source) && r@ <= source && (source - r@) % amount == 0
        }),
{
    backoff_is_the_doubled_base(base@, max@, attempt as nat);
    let source = choose|source: u64|
        (jitter ==> is_clock_reading(source)) && r@ == #[trigger] delay_nanos(
            base@,
            max@,
            attempt as nat,
            jitter,
            source,
        );
    jitter_stays_below_cap(backoff_nanos(base@, max@, attempt as nat), source);
    jitter_is_what_is_left_of_the_source(backoff_nanos(base@, max@, attempt as nat), source);
    assert(jitter ==> is_clock_reading(source));
}

/// What full jitter draws from a source is what is left of it over the cap.
pub proof fn drawn_delay_is_what_is_left_of_the_source(capped: Duration, source: u64, r: Duration)
    requires
        call_ensures(full_jitter_from, (capped, source), r),
    ensures
        capped@ == 0 ==> r@ == 0,
        0 < capped@ <= u64::MAX ==> r@ < capped@ && r@ <= source && (source - r@) % (capped@ as int)
            == 0,
{
    jitter_is_what_is_left_of_the_source(capped@, source);
}

/// The number that the clock stands for differs from the nanoseconds since
/// the epoch by a whole multiple of two to the 64th.
pub proof fn source_keeps_the_low_bits(nanos: Option<u128>, r: u64)
    requires
        call_ensures(source_of_nanos, (nanos,), r),
    ensures
        nanos matches Some(n) ==> r <= n && (n - r) % 0x1_0000_0000_0000_0000 == 0,
        nanos is None ==> r == 0,
{
}

/// A delay is waited for exactly where it is not empty, and can be cut short
/// exactly where a signal is watched.
pub proof fn only_empty_delays_are_skipped(watched: bool, delay: Duration, r: SleepPlan)
    requires
        call_ensures(plan_sleep, (watched, delay), r),
    ensures
        r == SleepPlan::Elapsed <==> delay@ == 0,
        r == SleepPlan::SleepOrCancel <==> delay@ > 0 && watched,
        r == SleepPlan::Sleep <==> delay@ > 0 && !watched,
{
}

/// Full jitter draws what is left over the cap of a number that the clock
/// stands for.
pub proof fn clocked_jitter_is_left_of_a_reading(capped: Duration, r: Duration)
    requires
        call_ensures(full_jitter, (capped,), r),
    ensures
        capped@ == 0 ==> r@ == 0,
        capped@ > 0 ==> r@ < capped@,
        0 < capped@ <= u64::MAX ==> exists|source: u64| #[trigger]
            is_clock_reading(source) && r@ <= source && (source - r@) % (capped@ as int) == 0,
{
    let source = choose|source: u64|
        is_clock_reading(source) && r@ == #[trigger] jitter_nanos(capped@, source);
    jitter_is_what_is_left_of_the_source(capped@, source);
    jitter_stays_below_cap(capped@, source);
    assert(is_clock_reading(source));
}

} // verus!
