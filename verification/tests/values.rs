use rust_utils::nonzero::{NonZeroU32, NonZeroUsize};
use rust_utils::text::{chars_of, decimal_text, parse_unsigned_text};
use rust_utils::time::Duration;

#[test]
fn zero_is_not_a_nonzero_count() {
    assert!(NonZeroU32::new(0).is_none());
    assert_eq!(NonZeroU32::new(7).unwrap().get(), 7);
    assert!(NonZeroUsize::new(0).is_none());
    assert_eq!(NonZeroUsize::new(9).unwrap().get(), 9);
}

#[test]
fn spans_are_rendered_in_their_natural_unit() {
    assert_eq!(Duration::from_millis(50).debug_text(), "50ms");
    assert_eq!(Duration::from_millis(1500).debug_text(), "1.5s");
    assert_eq!(Duration::from_nanos(7).debug_text(), "7ns");
    assert_eq!(Duration::zero().debug_text(), "0ns");
}

#[test]
fn spans_saturate() {
    let longest = Duration::from_parts(u64::MAX, 999_999_999);
    assert_eq!(longest.saturating_mul(2), longest);
    assert_eq!(Duration::from_secs(2).saturating_mul(3), Duration::from_secs(6));
    assert_eq!(Duration::from_secs(2).saturating_sub(Duration::from_secs(3)), Duration::zero());
    assert_eq!(longest.as_secs(), u64::MAX);
    assert_eq!(longest.subsec_nanos(), 999_999_999);
    assert_eq!(Duration::from_millis(3).as_nanos(), 3_000_000);
}

#[test]
fn decimal_text_reads_back() {
    for n in [0, 9, 10, 12_345, u64::MAX] {
        let text = decimal_text(n);
        assert_eq!(text, n.to_string());
        let chars = chars_of(&text);
        assert_eq!(parse_unsigned_text(&chars, 0, chars.len(), u64::MAX), Some(n));
    }
}

#[test]
fn numbers_above_the_bound_are_refused() {
    let chars = chars_of("256");
    assert_eq!(parse_unsigned_text(&chars, 0, 3, 255), None);
    assert_eq!(parse_unsigned_text(&chars, 0, 3, 256), Some(256));
    assert_eq!(parse_unsigned_text(&chars, 0, 2, 255), Some(25));
    assert_eq!(parse_unsigned_text(&chars, 1, 1, 255), None);
}
