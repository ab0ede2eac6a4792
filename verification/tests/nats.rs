use rust_utils::network::nats::client::{
    connected, decode_json_reply, publish_payload, published, receive, reply_decoded,
    reply_published, reply_received, request_payload, subscribed, IncomingMessage, MessageEnd,
    OutgoingMessage,
};
use rust_utils::network::nats::config::SubscribeMode;
use rust_utils::network::nats::{NatsConnectOptions, NatsCredentials, SubscriptionConfig};
use rust_utils::nonzero::NonZeroUsize;
use rust_utils::secret::Secret;
use rust_utils::time::Duration;
use rust_utils::{UtilsError, UtilsReport, UtilsResult};

fn assert_report(report: UtilsReport, kind: UtilsError, detail: &str, origin: &str) {
    assert_eq!(report.current_context(), kind);
    assert_eq!(report.attachments(), &vec![detail.to_string()]);
    assert_eq!(report.origin().unwrap(), origin);
}

fn failed<T>(error: &str) -> Result<T, String> {
    Err(error.to_string())
}

fn message<'a>(payload: &'a str, reply: Option<&str>) -> IncomingMessage<'a> {
    IncomingMessage { payload: payload.as_bytes(), reply: reply.map(|s| s.to_string()) }
}

/// Takes a message through all stages with a handler and an encoder, and
/// returns the reply or how the message ended.
fn serve(
    message: IncomingMessage<'_>,
    max_payload_bytes: usize,
    handler: impl Fn(serde_json::Value) -> UtilsResult<u64>,
    encode: impl Fn(u64) -> Result<Vec<u8>, String>,
) -> Result<OutgoingMessage, MessageEnd> {
    let sized = receive(message, max_payload_bytes)?;
    let (request, address) = sized.decode_json()?;
    let (response, subject) = address.handled(handler(request))?;
    subject.encoded(encode(response))
}

fn double(request: serde_json::Value) -> UtilsResult<u64> {
    match request.as_u64() {
        Some(n) => Ok(2 * n),
        None => Err(UtilsReport::new(UtilsError::Config)),
    }
}

fn digits(response: u64) -> Result<Vec<u8>, String> {
    Ok(response.to_string().into_bytes())
}

#[test]
fn handled_request_is_answered_on_its_reply_subject() {
    let outgoing = serve(message("21", Some("inbox.1")), 16, double, digits).unwrap();
    assert_eq!(
        outgoing,
        OutgoingMessage { subject: "inbox.1".to_string(), payload: b"42".to_vec() }
    );
    assert!(matches!(reply_published(Ok(())), MessageEnd::Replied));
    assert!(matches!(reply_published(failed("down")), MessageEnd::PublishFailed(e) if e == "down"));
}

#[test]
fn oversized_message_is_dropped() {
    let never = |_| panic!("the handler must not run");
    let end = serve(message("123", Some("inbox")), 2, never, digits).unwrap_err();
    assert!(matches!(end, MessageEnd::Oversized));
    assert!(serve(message("123", Some("inbox")), 3, double, digits).is_ok());
}

#[test]
fn undecodable_message_is_dropped() {
    let never = |_| panic!("the handler must not run");
    let end = serve(message("{", Some("inbox")), 16, never, digits).unwrap_err();
    assert!(matches!(end, MessageEnd::Undecodable(e) if e.starts_with("EOF")));
}

#[test]
fn failed_handler_is_not_answered() {
    let end = serve(message("\"x\"", Some("inbox")), 16, double, digits).unwrap_err();
    match end {
        MessageEnd::HandlerFailed(report) => {
            assert_eq!(report.current_context(), UtilsError::Config)
        }
        _ => panic!("the handler's report must be kept"),
    }
}

#[test]
fn message_without_reply_subject_is_fire_and_forget() {
    let never = |_| panic!("nothing must be encoded");
    let end = serve(message("21", None), 16, double, never).unwrap_err();
    assert!(matches!(end, MessageEnd::NoReplyWanted));
}

#[test]
fn unencodable_response_is_dropped() {
    let end = serve(message("21", Some("inbox")), 16, double, |_| failed("no")).unwrap_err();
    assert!(matches!(end, MessageEnd::Unencodable(e) if e == "no"));
}

#[test]
fn typed_request_goes_on_with_its_value() {
    let sized = receive(message("21", Some("inbox")), 16).unwrap();
    assert_eq!(sized.payload(), b"21");
    let (request, _) = sized.decoded(Ok(21_u8)).unwrap();
    assert_eq!(request, 21);
    let sized = receive(message("21", Some("inbox")), 16).unwrap();
    let end = sized.decoded::<u8>(failed("bad")).unwrap_err();
    assert!(matches!(end, MessageEnd::Undecodable(e) if e == "bad"));
}

#[test]
fn failed_connection_names_the_server() {
    assert_eq!(connected("nats://a:4222", Ok(1)).unwrap(), 1);
    let report = connected::<u8>("nats://a:4222", failed("refused")).unwrap_err();
    assert_report(report, UtilsError::Network, "nats url: nats://a:4222", "refused");
}

#[test]
fn failed_publish_is_reported() {
    assert_eq!(publish_payload(Ok(vec![1])).unwrap(), vec![1]);
    let report = publish_payload(failed("key")).unwrap_err();
    assert_report(
        report,
        UtilsError::Internal,
        "failed to serialize outbound NATS payload",
        "key",
    );
    assert!(published("svc.echo", Ok(())).is_ok());
    let report = published("svc.echo", failed("closed")).unwrap_err();
    assert_report(report, UtilsError::Network, "nats subject: svc.echo", "closed");
}

#[test]
fn failed_request_is_reported() {
    assert_eq!(request_payload(Ok(vec![2])).unwrap(), vec![2]);
    let report = request_payload(failed("key")).unwrap_err();
    assert_report(report, UtilsError::Internal, "failed to serialize NATS request", "key");
    assert_eq!(reply_received("svc.echo", Ok(3)).unwrap(), 3);
    let report = reply_received::<u8>("svc.echo", failed("no responders")).unwrap_err();
    assert_report(report, UtilsError::Network, "nats subject: svc.echo", "no responders");
    assert_eq!(reply_decoded("svc.echo", b"123456789", Ok(4)).unwrap(), 4);
    let report = reply_decoded::<u8>("svc.echo", b"123456789", failed("eof")).unwrap_err();
    assert_report(
        report,
        UtilsError::Internal,
        "failed to deserialize NATS reply on subject svc.echo (9 bytes)",
        "eof",
    );
}

#[test]
fn json_reply_is_decoded() {
    let reply = decode_json_reply("svc.echo", b"{\"ping\": true}").unwrap();
    assert_eq!(reply["ping"], true);
    let report = decode_json_reply("svc.echo", b"oops").unwrap_err();
    assert_report(
        report,
        UtilsError::Internal,
        "failed to deserialize NATS reply on subject svc.echo (4 bytes)",
        "expected value at line 1 column 1",
    );
}

#[test]
fn failed_subscribe_names_the_queue_group() {
    assert_eq!(subscribed("jobs", None, Ok(5)).unwrap(), 5);
    let report = subscribed::<u8>("jobs", None, failed("full")).unwrap_err();
    assert_report(report, UtilsError::Network, "nats subject: jobs", "full");
    let report = subscribed::<u8>("jobs", Some("workers"), failed("full")).unwrap_err();
    assert_report(report, UtilsError::Network, "nats subject: jobs (queue group: workers)", "full");
}

#[test]
fn connect_options_become_a_plan() {
    let plan = NatsConnectOptions::new("nats://localhost:4222").plan();
    assert_eq!(plan.url, "nats://localhost:4222");
    assert_eq!(plan.request_timeout, Duration::from_secs(30));
    assert!(plan.user_and_password.is_none());
    assert!(plan.tls.is_none());

    let plan = NatsConnectOptions::new("tls://h")
        .credentials(NatsCredentials {
            user: "svc".to_string(),
            password: Secret::new("secret".to_string()),
        })
        .tls_root_certs(std::path::PathBuf::from("/etc/ssl/certs/ca.pem"))
        .protocol_request_timeout(Duration::from_secs(10))
        .plan();
    assert_eq!(plan.request_timeout, Duration::from_secs(10));
    assert_eq!(plan.user_and_password, Some(("svc".to_string(), "secret".to_string())));
    let tls = plan.tls.unwrap();
    assert_eq!(tls.root_certs, std::path::PathBuf::from("/etc/ssl/certs/ca.pem"));
    assert!(tls.require_tls);
    assert!(tls.install_crypto_provider);
}

#[test]
fn subscription_defaults_are_bounded() {
    let plan = SubscriptionConfig::default().plan();
    assert_eq!(plan.concurrency, Some(16));
    assert_eq!(plan.max_payload_bytes, 1024 * 1024);
    assert!(matches!(plan.mode, SubscribeMode::Plain));
}

#[test]
fn subscription_settings_become_a_plan() {
    let plan = SubscriptionConfig::new(None, 10).plan();
    assert_eq!(plan.concurrency, None);
    assert_eq!(plan.max_payload_bytes, 10);
    let plan = SubscriptionConfig::default()
        .max_concurrency(NonZeroUsize::new(2))
        .max_payload_bytes(64)
        .queue_group("workers")
        .plan();
    assert_eq!(plan.concurrency, Some(2));
    assert_eq!(plan.max_payload_bytes, 64);
    match plan.mode {
        SubscribeMode::Queue(group) => assert_eq!(group, "workers"),
        SubscribeMode::Plain => panic!("the queue group must be joined"),
    }
}

#[test]
fn cloned_subscription_keeps_its_settings() {
    let plan = SubscriptionConfig::new(NonZeroUsize::new(3), 7).queue_group("g").clone().plan();
    assert_eq!(plan.concurrency, Some(3));
    assert_eq!(plan.max_payload_bytes, 7);
    assert!(matches!(plan.mode, SubscribeMode::Queue(group) if group == "g"));
}

#[test]
fn rendered_options_hide_the_password() {
    let credentials = NatsCredentials {
        user: "s\"vc".to_string(),
        password: Secret::new("hunter2".to_string()),
    };
    assert_eq!(
        credentials.debug_text(),
        "NatsCredentials { user: \"s\\\"vc\", password: Secret([REDACTED]) }"
    );
    let plain = NatsConnectOptions::new("nats://h");
    assert_eq!(
        plain.debug_text(),
        "NatsConnectOptions { url: \"nats://h\", credentials: None, tls_root_certs: None, \
         protocol_request_timeout: 30s }"
    );
    let options = plain
        .credentials(credentials)
        .tls_root_certs(std::path::PathBuf::from("/ca.pem"))
        .clone();
    let text = options.debug_text();
    assert!(!text.contains("hunter2"));
    assert_eq!(
        text,
        "NatsConnectOptions { url: \"nats://h\", credentials: Some(NatsCredentials { user: \
         \"s\\\"vc\", password: Secret([REDACTED]) }), tls_root_certs: Some(\"/ca.pem\"), \
         protocol_request_timeout: 30s }"
    );
    let plan = options.plan();
    assert_eq!(plan.user_and_password.unwrap().1, "hunter2");
    assert_eq!(plan.tls.unwrap().root_certs, std::path::PathBuf::from("/ca.pem"));
}

/// Takes a request through its stages and counts what was sent.
fn request(
    encoded: Result<Vec<u8>, String>,
    reply: Result<Vec<u8>, String>,
    sent: &mut u32,
) -> UtilsResult<serde_json::Value> {
    let _payload = request_payload(encoded)?;
    *sent += 1;
    let reply = reply_received("svc", reply)?;
    decode_json_reply("svc", &reply)
}

#[test]
fn request_reports_its_first_failure() {
    let mut sent = 0;
    let report = request(failed("key"), failed("down"), &mut sent).unwrap_err();
    assert_report(report, UtilsError::Internal, "failed to serialize NATS request", "key");
    assert_eq!(sent, 0);
    let report = request(Ok(vec![49]), failed("down"), &mut sent).unwrap_err();
    assert_report(report, UtilsError::Network, "nats subject: svc", "down");
    let report = request(Ok(vec![49]), Ok(b"[1".to_vec()), &mut sent).unwrap_err();
    assert_eq!(report.current_context(), UtilsError::Internal);
    assert_eq!(
        report.attachments(),
        &vec!["failed to deserialize NATS reply on subject svc (2 bytes)".to_string()]
    );
    assert_eq!(request(Ok(vec![49]), Ok(b"7".to_vec()), &mut sent).unwrap(), 7);
    assert_eq!(sent, 3);
}

#[test]
fn rendered_subscription_shows_its_settings() {
    assert_eq!(
        SubscriptionConfig::default().debug_text(),
        "SubscriptionConfig { max_concurrency: Some(16), max_payload_bytes: 1048576, \
         queue_group: None }"
    );
    assert_eq!(
        SubscriptionConfig::new(None, 0).queue_group("w").debug_text(),
        "SubscriptionConfig { max_concurrency: None, max_payload_bytes: 0, \
         queue_group: Some(\"w\") }"
    );
}
