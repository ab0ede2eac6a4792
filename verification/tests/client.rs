use rust_utils::network::client::{classify_transport, into_network_or_http};
use rust_utils::UtilsError;

#[test]
fn connect_and_timeout_failures_are_network_errors() {
    assert_eq!(classify_transport(true, false), UtilsError::Network);
    assert_eq!(classify_transport(false, true), UtilsError::Network);
    assert_eq!(classify_transport(true, true), UtilsError::Network);
    assert_eq!(classify_transport(false, false), UtilsError::Http);
}

#[test]
fn unbuildable_request_is_an_http_error() {
    let error = reqwest::Client::new().get("not a url").build().unwrap_err();
    let report = into_network_or_http(&error);
    assert_eq!(report.current_context(), UtilsError::Http);
    assert_eq!(report.origin().unwrap(), &error.to_string());
    assert!(report.attachments().is_empty());
}

#[test]
fn unreachable_endpoint_is_a_network_error() {
    let runtime = tokio::runtime::Builder::new_current_thread().enable_all().build().unwrap();
    let client = reqwest::Client::builder()
        .no_proxy()
        .timeout(std::time::Duration::from_secs(5))
        .build()
        .unwrap();
    let sent = async { client.get("http://127.0.0.1:1/").send().await };
    let error = runtime.block_on(sent).unwrap_err();
    assert!(error.is_connect() || error.is_timeout());
    let report = into_network_or_http(&error);
    assert_eq!(report.current_context(), UtilsError::Network);
    assert_eq!(report.origin().unwrap(), &error.to_string());
}
