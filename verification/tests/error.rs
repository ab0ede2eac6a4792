use rust_utils::{UtilsError, UtilsReport, UtilsResult};

#[test]
fn every_kind_has_its_text() {
    assert_eq!(UtilsError::Network.describe(), "Network error");
    assert_eq!(UtilsError::Http.describe(), "HTTP error");
    assert_eq!(UtilsError::Config.describe(), "Configuration error");
    assert_eq!(UtilsError::RetryExhausted.describe(), "Retry exhausted");
    assert_eq!(UtilsError::Concurrency.describe(), "Concurrency error");
    assert_eq!(UtilsError::Internal.describe(), "Internal error");
}

#[test]
fn reclassified_report_keeps_its_cause() {
    let report = UtilsReport::new(UtilsError::Network)
        .attach("first".to_string())
        .attach("second".to_string())
        .change_context(UtilsError::RetryExhausted);
    assert_eq!(report.current_context(), UtilsError::RetryExhausted);
    assert!(report.attachments().is_empty());
    let cause = report.cause().unwrap();
    assert_eq!(cause.current_context(), UtilsError::Network);
    assert_eq!(cause.attachments(), &vec!["first".to_string(), "second".to_string()]);
    assert!(cause.cause().is_none());
}

#[test]
fn report_of_an_outside_error_keeps_its_text() {
    let report = UtilsReport::from_error(UtilsError::Http, "broken pipe".to_string())
        .attach("detail".to_string());
    assert_eq!(report.current_context(), UtilsError::Http);
    assert_eq!(report.origin().unwrap(), "broken pipe");
    let rotated = report.change_context(UtilsError::RetryExhausted);
    assert!(rotated.origin().is_none());
    let cause = rotated.cause().unwrap();
    assert_eq!(cause.origin().unwrap(), "broken pipe");
    assert_eq!(cause.attachments(), &vec!["detail".to_string()]);
    assert!(UtilsReport::new(UtilsError::Http).origin().is_none());
}

#[test]
fn result_shorthand_fails_with_a_report() {
    let r: UtilsResult<u8> = Err(UtilsReport::new(UtilsError::Config));
    assert!(matches!(r.unwrap_err().current_context(), UtilsError::Config));
}
