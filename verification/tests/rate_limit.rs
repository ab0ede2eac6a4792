use rust_utils::network::rate_limit::quota_from_window;
use rust_utils::network::RateLimitWindow;
use rust_utils::nonzero::NonZeroU32;
use rust_utils::time::Duration;
use rust_utils::UtilsError;

fn nonzero(n: u32) -> NonZeroU32 {
    NonZeroU32::new(n).unwrap()
}

#[test]
fn custom_zero_period_is_rejected() {
    let report = quota_from_window(RateLimitWindow::Custom { period: Duration::zero() }, None)
        .expect_err("zero-length period must be rejected");
    assert!(matches!(report.current_context(), UtilsError::Config));
    assert_eq!(report.attachments(), &vec!["rate limit period must be non-zero".to_string()]);
}

#[test]
fn zero_period_is_rejected() {
    let report =
        quota_from_window(RateLimitWindow::Custom { period: Duration::zero() }, Some(nonzero(3)))
            .expect_err("zero-length period must be rejected");
    assert!(matches!(report.current_context(), UtilsError::Config));
}

#[test]
fn rates_set_burst_and_interval() {
    let quota = quota_from_window(RateLimitWindow::PerSecond(nonzero(2)), None).unwrap();
    assert_eq!(quota.burst(), 2);
    assert_eq!(quota.replenish_nanos(), 500_000_000);
    let quota = quota_from_window(RateLimitWindow::PerMinute(nonzero(7)), None).unwrap();
    assert_eq!(quota.burst(), 7);
    assert_eq!(quota.replenish_nanos(), 8_571_428_571);
}

#[test]
fn custom_period_is_the_interval() {
    let period = Duration::from_parts(5, 7);
    let quota = quota_from_window(RateLimitWindow::Custom { period }, None).unwrap();
    assert_eq!(quota.burst(), 1);
    assert_eq!(quota.replenish_nanos(), 5_000_000_007);
}

#[test]
fn explicit_burst_replaces_the_implied_one() {
    let quota =
        quota_from_window(RateLimitWindow::PerSecond(nonzero(4)), Some(nonzero(9))).unwrap();
    assert_eq!(quota.burst(), 9);
    assert_eq!(quota.replenish_nanos(), 250_000_000);
    let inner = quota.into_inner();
    assert_eq!(inner.burst_size().get(), 9);
    assert_eq!(inner.replenish_interval().as_nanos(), 250_000_000);
}

#[test]
fn shorthand_forms_are_read() {
    assert_eq!(
        RateLimitWindow::from_string("10s"),
        Some(RateLimitWindow::PerSecond(nonzero(10)))
    );
    assert_eq!(RateLimitWindow::from_string("1m"), Some(RateLimitWindow::PerMinute(nonzero(1))));
    assert_eq!(
        RateLimitWindow::from_string("2h"),
        Some(RateLimitWindow::Custom { period: Duration::from_secs(7200) })
    );
    assert_eq!(
        RateLimitWindow::from_string("1d"),
        Some(RateLimitWindow::Custom { period: Duration::from_secs(86400) })
    );
    assert_eq!(
        RateLimitWindow::from_string("4294967295d"),
        Some(RateLimitWindow::Custom { period: Duration::from_secs(4294967295 * 86400) })
    );
    assert_eq!(RateLimitWindow::from_string("+3s"), Some(RateLimitWindow::PerSecond(nonzero(3))));
}

#[test]
fn malformed_shorthand_is_refused() {
    for s in ["", "s", "10", "10x", "0s", "0h", "-1s", "1.5s", "4294967296s", "10 s", "10S", "5\u{e9}"] {
        assert_eq!(RateLimitWindow::from_string(s), None, "{s:?}");
    }
}

#[test]
fn shorthands_make_quotas() {
    for s in ["1s", "1m", "1h", "1d"] {
        let window = RateLimitWindow::from_string(s).unwrap();
        assert!(quota_from_window(window, None).is_ok());
    }
}

#[test]
fn rendered_window_shows_its_setting() {
    assert_eq!(RateLimitWindow::PerSecond(nonzero(10)).debug_text(), "PerSecond(10)");
    assert_eq!(RateLimitWindow::PerMinute(nonzero(1)).debug_text(), "PerMinute(1)");
    let period = Duration::from_millis(1500);
    assert_eq!(RateLimitWindow::Custom { period }.debug_text(), "Custom { period: 1.5s }");
}
