use rust_utils::network::validate_and_parse_json;
use rust_utils::network::validation::{calculate_json_depth, check_json_limits, deserialized};
use rust_utils::{UtilsError, UtilsReport};

fn rejection(data: &[u8], max_size: usize, max_depth: usize) -> UtilsReport {
    let report = validate_and_parse_json(data, max_size, max_depth).unwrap_err();
    assert_eq!(report.current_context(), UtilsError::Internal);
    report
}

#[test]
fn parses_valid_payload_within_limits() {
    let data = br#"{"a": 1, "b": [2, 3]}"#;
    let v = validate_and_parse_json(data, 1024, 8).unwrap();
    assert_eq!(v["a"], 1);
    let expected = serde_json::Value::Array(vec![
        serde_json::Value::from(2),
        serde_json::Value::from(3),
    ]);
    assert_eq!(v["b"], expected);
}

#[test]
fn rejects_oversized_payload_before_parsing() {
    let err = rejection(br#"{}"#, 1, 8);
    assert!(format!("{err:?}").contains("too large"));
}

#[test]
fn rejects_depth_over_limit() {
    let err = rejection(br#"[[[[[]]]]]"#, 1024, 3);
    assert!(format!("{err:?}").contains("depth limit exceeded"));
}

#[test]
fn allows_depth_exactly_at_the_limit() {
    let v = validate_and_parse_json(br#"[[[1]]]"#, 1024, 3).unwrap();
    assert_eq!(v[0][0][0], 1);
}

#[test]
fn rejects_unmatched_closing_bracket() {
    let err = rejection(br#"{}}"#, 1024, 8);
    assert!(format!("{err:?}").contains("unmatched closing bracket"));
}

#[test]
fn rejects_unmatched_opening_brackets() {
    let err = rejection(br#"{"k": [1, 2"#, 1024, 8);
    let rendered = format!("{err:?}");
    assert!(rendered.contains("unmatched opening bracket"), "unexpected report: {rendered}");
}

#[test]
fn rejects_unterminated_string() {
    let err = rejection(br#"{"k": "oops"#, 1024, 8);
    assert!(format!("{err:?}").contains("unterminated"));
}

#[test]
fn escaped_quote_does_not_end_the_string() {
    let data = br#"{"k": "a\"b", "nested": 1}"#;
    assert!(validate_and_parse_json(data, 1024, 1).is_ok());
}

#[test]
fn escaped_backslash_lets_next_quote_close_the_string() {
    let data = br#"{"k": "ab\\"}"#;
    assert!(validate_and_parse_json(data, 1024, 1).is_ok());
}

#[test]
fn brackets_inside_strings_do_not_count_toward_depth() {
    let data = br#"{"k": "[[[[[[[[[[[[[[[[[[[[[[[[[[]"}"#;
    assert!(validate_and_parse_json(data, 1024, 1).is_ok());
}

#[test]
fn propagates_serde_json_parse_error() {
    let err = rejection(br#"{"k": truu}"#, 1024, 8);
    assert!(format!("{err:?}").contains("JSON deserialization failed"));
    assert_eq!(err.origin().unwrap(), "expected ident at line 1 column 10");
}

#[test]
fn depth_is_the_deepest_nesting() {
    assert_eq!(calculate_json_depth(b"17", 0).unwrap(), 0);
    assert_eq!(calculate_json_depth(b"[]", 8).unwrap(), 1);
    assert_eq!(calculate_json_depth(br#"[{"a": []}, [], {}]"#, 8).unwrap(), 3);
    assert_eq!(calculate_json_depth(br#""[\"[\\""#, 0).unwrap(), 0);
    assert_eq!(calculate_json_depth(b"", 0).unwrap(), 0);
}

#[test]
fn limits_are_checked_before_the_document() {
    assert_eq!(check_json_limits(b"[[x]]", 5, 2).unwrap(), 2);
    assert!(check_json_limits(b"[[x]]", 4, 2).is_err());
    assert!(check_json_limits(b"[[x]]", 5, 1).is_err());
    let report = rejection(b"[[x]]", 5, 2);
    assert_eq!(report.attachments(), &vec!["JSON deserialization failed".to_string()]);
}

#[test]
fn typed_values_are_passed_through() {
    assert_eq!(deserialized(Ok(5_u8)).unwrap(), 5);
    let report = deserialized::<u8>(Err("not a number".to_string())).unwrap_err();
    assert_eq!(report.attachments(), &vec!["JSON deserialization failed".to_string()]);
    assert_eq!(report.origin().unwrap(), "not a number");
    assert_eq!(report.current_context(), UtilsError::Internal);
}

#[test]
fn rejection_does_not_wait_for_the_rest() {
    let deep = calculate_json_depth(b"[[[", 2).unwrap_err();
    let longer = calculate_json_depth(b"[[[ ]]] \"open", 2).unwrap_err();
    assert_eq!(deep.attachments(), longer.attachments());
    assert_eq!(
        deep.attachments(),
        &vec!["JSON depth limit exceeded at position 3: depth 3, max 2".to_string()]
    );
    assert!(deep.origin().is_none());
}
