use rust_utils::secret::{constant_time_eq, Secret};

#[test]
fn debug_does_not_reveal_inner_value() {
    let s = Secret::new(String::from("super-secret-token"));
    let rendered = s.debug_text();
    assert!(!rendered.contains("super-secret-token"));
    assert!(rendered.contains("REDACTED"));
    assert_eq!(rendered, "Secret([REDACTED])");
}

#[test]
fn display_shows_redacted_placeholder() {
    let s = Secret::new(String::from("super-secret-token"));
    assert_eq!(s.display_text(), "[REDACTED]");
}

#[test]
fn expose_returns_inner_reference() {
    let s = Secret::new(42_u32);
    assert_eq!(*s.expose(), 42);
}

#[test]
fn into_inner_yields_ownership() {
    let s = Secret::new(String::from("value"));
    assert_eq!(s.into_inner(), "value");
}

#[test]
fn clone_preserves_inner_value() {
    let s = Secret::new(String::from("x"));
    let c = s.clone();
    assert_eq!(c.expose(), "x");
}

#[test]
fn from_value_constructs_secret() {
    let s: Secret<&str> = "hi".into();
    assert_eq!(*s.expose(), "hi");
}

#[test]
fn ct_eq_matches_equal_secrets() {
    let a: Secret<Vec<u8>> = Secret::new(b"hello".to_vec());
    let b: Secret<Vec<u8>> = Secret::new(b"hello".to_vec());
    assert!(a.ct_eq(&b));
}

#[test]
fn ct_eq_rejects_differing_content() {
    let a: Secret<Vec<u8>> = Secret::new(b"hello".to_vec());
    let b: Secret<Vec<u8>> = Secret::new(b"world".to_vec());
    assert!(!a.ct_eq(&b));
}

#[test]
fn ct_eq_rejects_differing_lengths() {
    let a: Secret<Vec<u8>> = Secret::new(b"hello".to_vec());
    let b: Secret<Vec<u8>> = Secret::new(b"hello!".to_vec());
    assert!(!a.ct_eq(&b));
}

#[test]
fn ct_eq_compares_text_by_its_bytes() {
    let a = Secret::new(String::from("p\u{e4}ss"));
    let b = Secret::new(String::from("p\u{e4}ss"));
    let c = Secret::new(String::from("pass"));
    assert!(a.ct_eq(&b));
    assert!(!a.ct_eq(&c));
    let d: Secret<&str> = Secret::new("k");
    let e: Secret<&str> = Secret::new("k");
    assert!(d.ct_eq(&e));
    let f: Secret<&[u8]> = Secret::new(&[1, 2]);
    let g: Secret<&[u8]> = Secret::new(&[1, 3]);
    assert!(!f.ct_eq(&g));
}

#[test]
fn empty_byte_strings_are_equal() {
    assert!(constant_time_eq(&[], &[]));
    assert!(!constant_time_eq(&[], &[0]));
    assert!(!constant_time_eq(&[1, 0], &[0, 1]));
}

#[test]
fn ct_eq_compares_byte_arrays() {
    let a = Secret::new([1_u8, 2, 3]);
    assert!(a.ct_eq(&Secret::new([1, 2, 3])));
    assert!(!a.ct_eq(&Secret::new([1, 2, 4])));
    let empty: Secret<[u8; 0]> = Secret::new([]);
    assert!(empty.ct_eq(&Secret::new([])));
}
