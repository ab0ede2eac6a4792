//! Rate-limit windows and the quotas they amount to.

use vstd::prelude::*;
use vstd::string::*;

use crate::error::{ReportView, UtilsError, UtilsReport, UtilsResult};
use crate::nonzero::NonZeroU32;
use crate::text;
use crate::text::{chars_of, decimal_text, parse_unsigned_text};
use crate::time;
use crate::time::{Duration, NANOS_PER_SEC};

verus! {

/// Time window used to express a rate limit.
#[derive(Debug, Clone, Copy, PartialEq, Eq, Structural)]
#[non_exhaustive]
pub enum RateLimitWindow {
    /// Replenish this many cells every second.
    PerSecond(NonZeroU32),
    /// Replenish this many cells every minute.
    PerMinute(NonZeroU32),
    /// Replenish one cell every `period`, which must not be empty.
    Custom {
        /// The time between two cells.
        period: Duration,
    },
}

/// What a [`RateLimitWindow`] stands for; the period in nanoseconds.
pub enum WindowView {
    PerSecond(nat),
    PerMinute(nat),
    Custom(nat),
}

impl View for RateLimitWindow {
    type V = WindowView;

    open spec fn view(&self) -> WindowView {
        match self {
            RateLimitWindow::PerSecond(n) => WindowView::PerSecond(n@),
            RateLimitWindow::PerMinute(n) => WindowView::PerMinute(n@),
            RateLimitWindow::Custom { period } => WindowView::Custom(period@),
        }
    }
}

impl WindowView {
    /// How the window is rendered for debugging.
    pub open spec fn debug_text(self) -> Seq<char> {
        match self {
            WindowView::PerSecond(n) => "PerSecond("@ + text::decimal(n) + ")"@,
            WindowView::PerMinute(n) => "PerMinute("@ + text::decimal(n) + ")"@,
            WindowView::Custom(period) => "Custom { period: "@ + time::duration_text(period)
                + " }"@,
        }
    }
}

/// The window of `n` units: seconds and minutes set a rate, hours and days a
/// period.
pub open spec fn window_of_unit(n: nat, unit: char) -> Option<WindowView> {
    if unit == 's' {
        Some(WindowView::PerSecond(n))
    } else if unit == 'm' {
        Some(WindowView::PerMinute(n))
    } else if unit == 'h' {
        Some(WindowView::Custom(n * 3600 * NANOS_PER_SEC as nat))
    } else if unit == 'd' {
        Some(WindowView::Custom(n * 86400 * NANOS_PER_SEC as nat))
    } else {
        None
    }
}

/// The window that a shorthand stands for: a positive number of at most
/// `u32::MAX` and a unit.
pub open spec fn window_of_text(s: Seq<char>) -> Option<WindowView> {
    if s.len() == 0 {
        None
    } else {
        match text::parse_unsigned(s.drop_last(), u32::MAX as nat) {
            Some(n) => if n > 0 {
                window_of_unit(n, s.last())
            } else {
                None
            },
            None => None,
        }
    }
}

impl RateLimitWindow {
    /// The window as text for diagnostics.
    pub fn debug_text(&self) -> (r: String)
        ensures
            r@ == self@.debug_text(),
    {
        match self {
            RateLimitWindow::PerSecond(n) => {
                let mut text: String = "PerSecond(".to_string();
                text.append(decimal_text(n.get() as u64).as_str());
                text.append(")");
                text
            },
            RateLimitWindow::PerMinute(n) => {
                let mut text: String = "PerMinute(".to_string();
                text.append(decimal_text(n.get() as u64).as_str());
                text.append(")");
                text
            },
            RateLimitWindow::Custom { period } => {
                let mut text: String = "Custom { period: ".to_string();
                text.append(period.debug_text().as_str());
                text.append(" }");
                text
            },
        }
    }

    /// Read a shorthand form:
    ///
    /// - `<n>s`: `n` cells per second
    /// - `<n>m`: `n` cells per minute
    /// - `<n>h`: one cell every `n` hours
    /// - `<n>d`: one cell every `n` days
    ///
    /// `None` for an empty string, an unknown unit or a number that is not
    /// positive.
    pub fn from_string(s: &str) -> (r: Option<RateLimitWindow>)
        ensures
            r is Some <==> window_of_text(s@) is Some,
            r matches Some(window) ==> window_of_text(s@) == Some(window@),
    {
        let chars: Vec<char> = chars_of(s);
        let len: usize = chars.len();
        if len == 0 {
            return None;
        }
        assert(chars@.subrange(0, len - 1) =~= s@.drop_last());
        let number: u64 = match parse_unsigned_text(&chars, 0, len - 1, u32::MAX as u64) {
            Some(n) => n,
            None => return None,
        };
        let nonzero: NonZeroU32 = match NonZeroU32::new(number as u32) {
            Some(n) => n,
            None => return None,
        };
        let unit: char = chars[len - 1];
        if unit == 's' {
            Some(RateLimitWindow::PerSecond(nonzero))
        } else if unit == 'm' {
            Some(RateLimitWindow::PerMinute(nonzero))
        } else if unit == 'h' {
            Some(RateLimitWindow::Custom { period: Duration::from_secs(number * 3600) })
        } else if unit == 'd' {
            Some(RateLimitWindow::Custom { period: Duration::from_secs(number * 86400) })
        } else {
            None
        }
    }
}

/// A positive number and a known unit always make a window.
pub proof fn shorthand_reads_back(n: nat, unit: char)
    requires
        0 < n <= u32::MAX,
    ensures
        window_of_text(text::decimal(n).push(unit)) == window_of_unit(n, unit),
{
    text::decimal_reads_back(n);
    assert(text::decimal(n).push(unit).drop_last() =~= text::decimal(n));
}

/// A quota as `governor` holds it.
#[verifier::external_type_specification]
#[verifier::external_body]
pub struct ExQuota(governor::Quota);

/// How many cells may pass in one burst, and how long one cell takes to
/// replenish.
#[derive(Debug, Clone, Copy)]
pub struct RateQuota {
    inner: governor::Quota,
    burst: u32,
    replenish_nanos: u128,
}

/// What a [`RateQuota`] allows, with the interval in nanoseconds, and the
/// quota that `governor` enforces for it.
pub struct QuotaView {
    pub burst: nat,
    pub replenish: nat,
    pub inner: governor::Quota,
}

impl QuotaView {
    /// The quota with this burst and this interval.
    pub open spec fn of(burst: nat, replenish: nat) -> QuotaView {
        QuotaView { burst, replenish, inner: governor_quota(burst, replenish) }
    }
}

impl View for RateQuota {
    type V = QuotaView;

    closed spec fn view(&self) -> QuotaView {
        QuotaView {
            burst: self.burst as nat,
            replenish: self.replenish_nanos as nat,
            inner: self.inner,
        }
    }
}

/// The quota of `governor` with this burst size and this interval, in
/// nanoseconds, between two cells. A `governor::Quota` is these two values
/// and nothing else, so they determine it.
pub uninterp spec fn governor_quota(burst: nat, replenish: nat) -> governor::Quota;

/// Calls `governor::Quota::per_second`. The contract claims that the burst
/// is the number of cells and the interval a second divided by it, in whole
/// nanoseconds.
#[verifier::external_body]
fn quota_per_second(cells: u32) -> (r: RateQuota)
    requires
        cells > 0,
    ensures
        r@ == (QuotaView {
            burst: cells as nat,
            replenish: 1_000_000_000nat / cells as nat,
            inner: governor_quota(cells as nat, 1_000_000_000nat / cells as nat),
        }),
{
    let inner = governor::Quota::per_second(std::num::NonZeroU32::new(cells).unwrap());
    RateQuota {
        inner,
        burst: inner.burst_size().get(),
        replenish_nanos: inner.replenish_interval().as_nanos(),
    }
}

/// Calls `governor::Quota::per_minute`. The contract claims that the burst
/// is the number of cells and the interval a minute divided by it, in whole
/// nanoseconds.
#[verifier::external_body]
fn quota_per_minute(cells: u32) -> (r: RateQuota)
    requires
        cells > 0,
    ensures
        r@ == (QuotaView {
            burst: cells as nat,
            replenish: 60_000_000_000nat / cells as nat,
            inner: governor_quota(cells as nat, 60_000_000_000nat / cells as nat),
        }),
{
    let inner = governor::Quota::per_minute(std::num::NonZeroU32::new(cells).unwrap());
    RateQuota {
        inner,
        burst: inner.burst_size().get(),
        replenish_nanos: inner.replenish_interval().as_nanos(),
    }
}

/// Calls `governor::Quota::with_period` for a period of `secs` seconds and
/// `nanos` nanoseconds. The contract claims that it fails exactly for the
/// empty period, and otherwise gives one cell per period in bursts of one.
#[verifier::external_body]
fn quota_with_period(secs: u64, nanos: u32) -> (r: Option<RateQuota>)
    requires
        nanos < 1_000_000_000,
    ensures
        r is Some <==> secs != 0 || nanos != 0,
        r matches Some(quota) ==> quota@ == (QuotaView {
            burst: 1,
            replenish: (secs * NANOS_PER_SEC + nanos) as nat,
            inner: governor_quota(1, (secs * NANOS_PER_SEC + nanos) as nat),
        }),
{
    governor::Quota::with_period(std::time::Duration::new(secs, nanos)).map(
        |inner| RateQuota {
            inner,
            burst: inner.burst_size().get(),
            replenish_nanos: inner.replenish_interval().as_nanos(),
        },
    )
}

/// Calls `governor::Quota::allow_burst`. The contract claims that it changes
/// the burst and nothing else.
#[verifier::external_body]
fn quota_allow_burst(quota: RateQuota, burst: u32) -> (r: RateQuota)
    requires
        burst > 0,
        quota@.inner == governor_quota(quota@.burst, quota@.replenish),
    ensures
        r@ == (QuotaView {
            burst: burst as nat,
            replenish: quota@.replenish,
            inner: governor_quota(burst as nat, quota@.replenish),
        }),
{
    let inner = quota.inner.allow_burst(std::num::NonZeroU32::new(burst).unwrap());
    RateQuota {
        inner,
        burst: inner.burst_size().get(),
        replenish_nanos: inner.replenish_interval().as_nanos(),
    }
}

impl RateQuota {
    /// The quota for `governor` to enforce.
    pub fn into_inner(self) -> (r: governor::Quota)
        ensures
            r == self@.inner,
    {
        self.inner
    }

    /// How many cells may pass in one burst.
    pub fn burst(&self) -> (r: u32)
        ensures
            r == self@.burst,
    {
        self.burst
    }

    /// How many nanoseconds one cell takes to replenish.
    pub fn replenish_nanos(&self) -> (r: u128)
        ensures
            r == self@.replenish,
    {
        self.replenish_nanos
    }
}

/// The quota that a window amounts to; `None` for an empty custom period.
pub open spec fn quota_of_window(window: WindowView, burst: Option<nat>) -> Option<QuotaView> {
    let base = match window {
        WindowView::PerSecond(n) => Some(QuotaView::of(n, 1_000_000_000nat / n)),
        WindowView::PerMinute(n) => Some(QuotaView::of(n, 60_000_000_000nat / n)),
        WindowView::Custom(period) => if period == 0 {
            None
        } else {
            Some(QuotaView::of(1, period))
        },
    };
    match (base, burst) {
        (Some(quota), Some(b)) => Some(QuotaView::of(b, quota.replenish)),
        _ => base,
    }
}

/// Turn a window into a quota. `burst` overrides the burst that the window
/// implies.
///
/// A custom window with an empty period is a [`UtilsError::Config`] report.
pub fn quota_from_window(window: RateLimitWindow, burst: Option<NonZeroU32>) -> (r: UtilsResult<
    RateQuota,
>)
    ensures
        ({
            let b = match burst {
                Some(n) => Some(n@),
                None => None,
            };
            match quota_of_window(window@, b) {
                Some(quota) => r matches Ok(q) && q@ == quota,
                None => r matches Err(report) && report@ == ReportView::fresh(
                    UtilsError::Config,
                    seq!["rate limit period must be non-zero"@],
                ),
            }
        }),
{
    let quota: RateQuota = match window {
        RateLimitWindow::PerSecond(allowed) => quota_per_second(allowed.get()),
        RateLimitWindow::PerMinute(allowed) => quota_per_minute(allowed.get()),
        RateLimitWindow::Custom { period } => {
            match quota_with_period(period.as_secs(), period.subsec_nanos()) {
                Some(quota) => quota,
                None => {
                    let detail: String = "rate limit period must be non-zero".to_string();
                    let report: UtilsReport = UtilsReport::new(UtilsError::Config).attach(detail);
                    assert(report@.attachments =~= seq![detail@]);
                    return Err(report);
                },
            }
        },
    };
    match burst {
        Some(b) => Ok(quota_allow_burst(quota, b.get())),
        None => Ok(quota),
    }
}

/// A window is refused exactly where its custom period is empty, whatever
/// the burst.
pub proof fn only_empty_periods_are_refused(window: WindowView, burst: Option<nat>)
    ensures
        quota_of_window(window, burst) is None <==> window == WindowView::Custom(0),
{
}

/// An explicit burst replaces the implied one and leaves the pace alone.
pub proof fn burst_leaves_the_pace(window: WindowView, burst: nat)
    requires
        quota_of_window(window, None) is Some,
    ensures
        quota_of_window(window, Some(burst)) == Some(
            QuotaView::of(burst, quota_of_window(window, None)->0.replenish),
        ),
{
}

/// The shorthands never make a window that is refused.
pub proof fn shorthand_windows_are_accepted(s: Seq<char>, burst: Option<nat>)
    requires
        window_of_text(s) is Some,
    ensures
        quota_of_window(window_of_text(s)->0, burst) is Some,
{
}

/// A positive number of at most `u32::MAX`, followed by a unit, is read as
/// that many cells per second or per minute, or one cell every so many hours
/// or days; any other unit is refused.
pub proof fn shorthand_means_what_it_says(n: nat, unit: char)
    requires
        0 < n <= u32::MAX,
    ensures
        ({
            let window = window_of_text(text::decimal(n).push(unit));
            &&& unit == 's' ==> window == Some(WindowView::PerSecond(n))
            &&& unit == 'm' ==> window == Some(WindowView::PerMinute(n))
            &&& unit == 'h' ==> window == Some(WindowView::Custom(n * 3_600_000_000_000))
            &&& unit == 'd' ==> window == Some(WindowView::Custom(n * 86_400_000_000_000))
            &&& unit != 's' && unit != 'm' && unit != 'h' && unit != 'd' ==> window is None
        }),
{
    shorthand_reads_back(n, unit);
}

/// Different numbers with the same unit never mean the same window.
pub proof fn different_numbers_are_different_windows(n: nat, m: nat, unit: char)
    requires
        0 < n <= u32::MAX,
        0 < m <= u32::MAX,
        n != m,
        window_of_text(text::decimal(n).push(unit)) is Some,
    ensures
        window_of_text(text::decimal(n).push(unit)) != window_of_text(text::decimal(m).push(unit)),
{
    shorthand_means_what_it_says(n, unit);
    shorthand_means_what_it_says(m, unit);
}

/// Whatever is read consists of a unit and, before it, digits worth a
/// positive number of at most `u32::MAX`, perhaps after a plus sign; the
/// window is that of the number and the unit.
pub proof fn read_windows_have_a_number_and_a_unit(s: &str, r: Option<RateLimitWindow>)
    requires
        call_ensures(RateLimitWindow::from_string, (s,), r),
    ensures
        r is Some <==> window_of_text(s@) is Some,
        r matches Some(window) ==> ({
            let front = s@.drop_last();
            let digits = if front[0] == '+' {
                front.skip(1)
            } else {
                front
            };
            let n = text::digits_value(digits);
            let unit = s@.last();
            &&& s@.len() >= 2
            &&& digits.len() > 0
            &&& forall|i: int|
                0 <= i < digits.len() ==> 0x30 <= (#[trigger] digits[i]) as u32 <= 0x39
            &&& 0 < n <= u32::MAX
            &&& unit == 's' && window@ == WindowView::PerSecond(n) || unit == 'm' && window@
                == WindowView::PerMinute(n) || unit == 'h' && window@ == WindowView::Custom(
                n * 3_600_000_000_000,
            ) || unit == 'd' && window@ == WindowView::Custom(n * 86_400_000_000_000)
        }),
{
    if r is Some {
        let front = s@.drop_last();
        let digits = text::without_plus(front);
        assert(text::parse_unsigned(front, u32::MAX as nat) is Some);
        assert forall|i: int| 0 <= i < digits.len() implies 0x30 <= (#[trigger] digits[i]) as u32
            <= 0x39 by {
            assert(text::is_digit(digits[i]));
        }
    }
}

/// Digits before a unit are read as the number they are worth, with or
/// without a plus sign: zero and anything above `u32::MAX` are refused.
pub proof fn digits_before_a_unit_are_read(digits: Seq<char>, unit: char)
    requires
        digits.len() > 0,
        forall|i: int| 0 <= i < digits.len() ==> 0x30 <= (#[trigger] digits[i]) as u32 <= 0x39,
    ensures
        ({
            let n = text::digits_value(digits);
            let window = window_of_text(digits.push(unit));
            &&& window_of_text((seq!['+'] + digits).push(unit)) == window
            &&& n == 0 || n > u32::MAX ==> window is None
            &&& 0 < n <= u32::MAX && unit == 's' ==> window == Some(WindowView::PerSecond(n))
            &&& 0 < n <= u32::MAX && unit == 'm' ==> window == Some(WindowView::PerMinute(n))
            &&& 0 < n <= u32::MAX && unit == 'h' ==> window == Some(
                WindowView::Custom(n * 3_600_000_000_000),
            )
            &&& 0 < n <= u32::MAX && unit == 'd' ==> window == Some(
                WindowView::Custom(n * 86_400_000_000_000),
            )
        }),
{
    text::digits_are_read_up_to_the_bound(digits, u32::MAX as nat);
    assert(digits.push(unit).drop_last() =~= digits);
    assert((seq!['+'] + digits).push(unit).drop_last() =~= seq!['+'] + digits);
}

/// A rate of `n` cells allows bursts of `n` and replenishes a cell after the
/// longest whole number of nanoseconds of which `n` fit into its second or
/// minute; a period replenishes one cell each time, in bursts of one. An
/// explicit burst replaces the implied one. Only an empty period is refused.
pub proof fn quotas_pace_their_windows(
    window: RateLimitWindow,
    burst: Option<NonZeroU32>,
    r: UtilsResult<RateQuota>,
)
    requires
        call_ensures(quota_from_window, (window, burst), r),
        window@ matches WindowView::PerSecond(n) ==> n > 0,
        window@ matches WindowView::PerMinute(n) ==> n > 0,
    ensures
        r is Err <==> window@ == WindowView::Custom(0),
        r matches Err(report) ==> report@.context == UtilsError::Config && report@.attachments
            =~= seq!["rate limit period must be non-zero"@],
        r matches Ok(quota) ==> quota@.inner == governor_quota(quota@.burst, quota@.replenish),
        r matches Ok(quota) ==> (burst matches Some(b) ==> quota@.burst == b@),
        r matches Ok(quota) ==> (window@ matches WindowView::PerSecond(n) ==> quota@.replenish * n
            <= 1_000_000_000 < (quota@.replenish + 1) * n && (burst is None ==> quota@.burst == n)),
        r matches Ok(quota) ==> (window@ matches WindowView::PerMinute(n) ==> quota@.replenish * n
            <= 60_000_000_000 < (quota@.replenish + 1) * n && (burst is None ==> quota@.burst
            == n)),
        r matches Ok(quota) ==> (window@ matches WindowView::Custom(period) ==> quota@.replenish
            == period && (burst is None ==> quota@.burst == 1)),
{
    match window@ {
        WindowView::PerSecond(n) => lemma_largest_share(1_000_000_000, n),
        WindowView::PerMinute(n) => lemma_largest_share(60_000_000_000, n),
        WindowView::Custom(_) => {},
    }
}

proof fn lemma_largest_share(whole: nat, n: nat)
    requires
        n > 0,
    ensures
        (whole / n) * n <= whole < (whole / n + 1) * n,
{
    vstd::arithmetic::div_mod::lemma_fundamental_div_mod(whole as int, n as int);
    let q = whole / n;
    assert(n * q == q * n) by (nonlinear_arith);
    assert((q + 1) * n == q * n + n) by (nonlinear_arith);
}

/// A quota is read and handed on as it is.
pub proof fn quota_accessors_read_the_quota(
    quota: RateQuota,
    burst: u32,
    interval: u128,
    inner: governor::Quota,
)
    requires
        call_ensures(RateQuota::burst, (&quota,), burst),
        call_ensures(RateQuota::replenish_nanos, (&quota,), interval),
        call_ensures(RateQuota::into_inner, (quota,), inner),
    ensures
        burst == quota@.burst,
        interval == quota@.replenish,
        inner == quota@.inner,
{
}

/// The text of a window shows its number or period.
pub proof fn rendered_windows_show_their_setting(window: &RateLimitWindow, r: String)
    requires
        call_ensures(RateLimitWindow::debug_text, (window,), r),
    ensures
        window@ matches WindowView::PerSecond(n) ==> r@ == "PerSecond("@ + text::decimal(n) + ")"@,
        window@ matches WindowView::PerMinute(n) ==> r@ == "PerMinute("@ + text::decimal(n) + ")"@,
        window@ matches WindowView::Custom(period) ==> r@ == "Custom { period: "@
            + time::duration_text(period) + " }"@,
{
}

} // verus!
