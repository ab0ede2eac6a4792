//! Settings of a NATS connection and of a subscription.

use vstd::prelude::*;
use vstd::string::*;

use crate::nonzero::NonZeroUsize;
use crate::secret::Secret;
use crate::text;
use crate::text::{decimal_text, optional_quoted_text, optional_text, quoted_text};
use crate::time;
use crate::time::Duration;

verus! {

/// A path of the file system.
#[verifier::external_type_specification]
#[verifier::external_body]
pub struct ExPathBuf(std::path::PathBuf);

/// `std::path::PathBuf::clone`. Nothing is claimed of the copy: what a path
/// holds is hidden.
pub assume_specification[ <std::path::PathBuf as Clone>::clone ](
    path: &std::path::PathBuf,
) -> std::path::PathBuf;

/// Calls the `Debug` rendering of `std::path::PathBuf`. Nothing is claimed of
/// the text: what a path holds is hidden.
#[verifier::external_body]
fn path_text(path: &std::path::PathBuf) -> String {
    format!("{:?}", path)
}

/// Whether `text` is a rendering of this path for debugging.
pub closed spec fn is_path_text(path: std::path::PathBuf, text: String) -> bool {
    call_ensures(path_text, (&path,), text)
}

/// User and password for NATS authentication. The password is redacted
/// wherever it is rendered.
pub struct NatsCredentials {
    /// The user.
    pub user: String,
    /// The password.
    pub password: Secret<String>,
}

/// What [`NatsCredentials`] hold.
pub struct CredentialsView {
    pub user: Seq<char>,
    pub password: Seq<char>,
}

impl View for NatsCredentials {
    type V = CredentialsView;

    open spec fn view(&self) -> CredentialsView {
        CredentialsView { user: self.user@, password: self.password@@ }
    }
}

/// How credentials are rendered for debugging: the user shows, the password
/// does not.
pub open spec fn credentials_text(user: Seq<char>) -> Seq<char> {
    "NatsCredentials { user: "@ + text::quoted(user) + ", password: "@ + "Secret([REDACTED])"@
        + " }"@
}

impl NatsCredentials {
    /// The credentials as text for diagnostics, with the password redacted.
    pub fn debug_text(&self) -> (r: String)
        ensures
            r@ == credentials_text(self@.user),
    {
        let mut text: String = "NatsCredentials { user: ".to_string();
        text.append(quoted_text(self.user.as_str()).as_str());
        text.append(", password: ");
        text.append(self.password.debug_text().as_str());
        text.append(" }");
        text
    }
}

impl Clone for NatsCredentials {
    fn clone(&self) -> (r: NatsCredentials)
        ensures
            r@ == self@,
    {
        NatsCredentials { user: self.user.clone(), password: self.password.clone() }
    }
}

/// Options of a connection.
///
/// Defaults: no credentials, no TLS, 30 s for protocol requests.
pub struct NatsConnectOptions {
    url: String,
    credentials: Option<NatsCredentials>,
    tls_root_certs: Option<std::path::PathBuf>,
    protocol_request_timeout: Duration,
}

/// What [`NatsConnectOptions`] are set to; the timeout in nanoseconds.
pub struct ConnectOptionsView {
    pub url: Seq<char>,
    pub credentials: Option<CredentialsView>,
    pub tls_root_certs: Option<std::path::PathBuf>,
    pub protocol_request_timeout: nat,
}

impl View for NatsConnectOptions {
    type V = ConnectOptionsView;

    closed spec fn view(&self) -> ConnectOptionsView {
        ConnectOptionsView {
            url: self.url@,
            credentials: match self.credentials {
                Some(c) => Some(c@),
                None => None,
            },
            tls_root_certs: self.tls_root_certs,
            protocol_request_timeout: self.protocol_request_timeout@,
        }
    }
}

/// How options are rendered for debugging: `path` is the rendering of the
/// path to the root certificates, where there is one.
pub open spec fn options_text(options: ConnectOptionsView, path: Option<Seq<char>>) -> Seq<char> {
    let credentials = match options.credentials {
        Some(c) => Some(credentials_text(c.user)),
        None => None,
    };
    "NatsConnectOptions { url: "@ + text::quoted(options.url) + ", credentials: "@
        + text::optional(credentials) + ", tls_root_certs: "@ + text::optional(path)
        + ", protocol_request_timeout: "@ + time::duration_text(
        options.protocol_request_timeout,
    ) + " }"@
}

/// What is rendered does not depend on the password.
pub proof fn rendering_hides_the_password(
    options: ConnectOptionsView,
    other: ConnectOptionsView,
    path: Option<Seq<char>>,
)
    requires
        options.credentials is Some,
        other == (ConnectOptionsView { credentials: other.credentials, ..options }),
        other.credentials is Some,
        other.credentials->0.user == options.credentials->0.user,
    ensures
        options_text(other, path) == options_text(options, path),
{
}

impl Clone for NatsConnectOptions {
    fn clone(&self) -> (r: NatsConnectOptions)
        ensures
            r@ == (ConnectOptionsView { tls_root_certs: r@.tls_root_certs, ..self@ }),
            r@.tls_root_certs is Some <==> self@.tls_root_certs is Some,
            self@.tls_root_certs matches Some(path) ==> cloned(path, r@.tls_root_certs->0),
    {
        NatsConnectOptions {
            url: self.url.clone(),
            credentials: match &self.credentials {
                Some(c) => Some(c.clone()),
                None => None,
            },
            tls_root_certs: match &self.tls_root_certs {
                Some(path) => Some(path.clone()),
                None => None,
            },
            protocol_request_timeout: self.protocol_request_timeout,
        }
    }
}

/// How to secure a connection with TLS.
pub struct TlsPlan {
    /// The PEM file with the root certificates to trust.
    pub root_certs: std::path::PathBuf,
    /// Whether a default crypto provider has to be there first.
    pub install_crypto_provider: bool,
    /// Whether a connection without TLS is refused.
    pub require_tls: bool,
}

/// What to ask of the NATS library to open a connection.
pub struct ConnectPlan {
    /// The server or servers.
    pub url: String,
    /// The timeout of protocol requests.
    pub request_timeout: Duration,
    /// User and password in the clear, where they are used.
    pub user_and_password: Option<(String, String)>,
    /// TLS, where it is used.
    pub tls: Option<TlsPlan>,
}

impl NatsConnectOptions {
    /// Options for the server at `url`; several may be given separated by
    /// commas.
    pub fn new(url: &str) -> (r: NatsConnectOptions)
        ensures
            r@ == (ConnectOptionsView {
                url: url@,
                credentials: None,
                tls_root_certs: None,
                protocol_request_timeout: 30_000_000_000,
            }),
    {
        NatsConnectOptions {
            url: url.to_string(),
            credentials: None,
            tls_root_certs: None,
            protocol_request_timeout: Duration::from_secs(30),
        }
    }

    /// Authenticate with user and password.
    pub fn credentials(self, c: NatsCredentials) -> (r: NatsConnectOptions)
        ensures
            r@ == (ConnectOptionsView { credentials: Some(c@), ..self@ }),
    {
        NatsConnectOptions { credentials: Some(c), ..self }
    }

    /// Use TLS, and trust the root certificates of this PEM file.
    pub fn tls_root_certs(self, path: std::path::PathBuf) -> (r: NatsConnectOptions)
        ensures
            r@ == (ConnectOptionsView { tls_root_certs: Some(path), ..self@ }),
    {
        NatsConnectOptions { tls_root_certs: Some(path), ..self }
    }

    /// The timeout of the requests that set up and maintain the connection.
    pub fn protocol_request_timeout(self, d: Duration) -> (r: NatsConnectOptions)
        ensures
            r@ == (ConnectOptionsView { protocol_request_timeout: d@, ..self@ }),
    {
        NatsConnectOptions { protocol_request_timeout: d, ..self }
    }

    /// The options as text for diagnostics, with the password redacted.
    pub fn debug_text(&self) -> (r: String)
        ensures
            self@.tls_root_certs is None ==> r@ == options_text(self@, None),
            self@.tls_root_certs matches Some(path) ==> exists|text: String|
                #[trigger] is_path_text(path, text) && r@ == options_text(self@, Some(text@)),
    {
        let shown: Option<String> = match &self.tls_root_certs {
            Some(path) => {
                let shown: String = path_text(path);
                assert(is_path_text(*path, shown));
                Some(shown)
            },
            None => None,
        };
        let mut text: String = "NatsConnectOptions { url: ".to_string();
        text.append(quoted_text(self.url.as_str()).as_str());
        text.append(", credentials: ");
        text.append(
            optional_text(
                match &self.credentials {
                    Some(c) => Some(c.debug_text()),
                    None => None,
                },
            ).as_str(),
        );
        text.append(", tls_root_certs: ");
        text.append(optional_text(shown).as_str());
        text.append(", protocol_request_timeout: ");
        text.append(self.protocol_request_timeout.debug_text().as_str());
        text.append(" }");
        text
    }

    /// What to ask of the NATS library. TLS is required, and a crypto
    /// provider installed, exactly where root certificates are set.
    pub fn plan(self) -> (r: ConnectPlan)
        ensures
            r.url@ == self@.url,
            r.request_timeout@ == self@.protocol_request_timeout,
            r.user_and_password is Some <==> self@.credentials is Some,
            r.user_and_password matches Some((user, password)) ==> user@
                == self@.credentials->0.user && password@ == self@.credentials->0.password,
            r.tls is Some <==> self@.tls_root_certs is Some,
            r.tls matches Some(tls) ==> tls.root_certs == self@.tls_root_certs->0
                && tls.install_crypto_provider && tls.require_tls,
    {
        let user_and_password: Option<(String, String)> = match self.credentials {
            Some(c) => Some((c.user, c.password.into_inner())),
            None => None,
        };
        let tls: Option<TlsPlan> = match self.tls_root_certs {
            Some(root_certs) => Some(
                TlsPlan { root_certs, install_crypto_provider: true, require_tls: true },
            ),
            None => None,
        };
        ConnectPlan {
            url: self.url,
            request_timeout: self.protocol_request_timeout,
            user_and_password,
            tls,
        }
    }
}

/// Settings of one subscription.
///
/// Defaults: 16 messages at a time, at most 1 MiB each, no queue group.
///
/// The subscribers that share a queue group have the messages balanced among
/// them by the server; a subscriber outside of it gets its own copy of each.
#[derive(Debug)]
pub struct SubscriptionConfig {
    max_concurrency: Option<NonZeroUsize>,
    max_payload_bytes: usize,
    queue_group: Option<String>,
}

/// What a [`SubscriptionConfig`] is set to.
pub struct SubscriptionView {
    pub max_concurrency: Option<nat>,
    pub max_payload_bytes: nat,
    pub queue_group: Option<Seq<char>>,
}

/// A count that may be absent.
pub open spec fn optional_count(n: Option<NonZeroUsize>) -> Option<nat> {
    match n {
        Some(n) => Some(n@),
        None => None,
    }
}

impl View for SubscriptionConfig {
    type V = SubscriptionView;

    closed spec fn view(&self) -> SubscriptionView {
        SubscriptionView {
            max_concurrency: optional_count(self.max_concurrency),
            max_payload_bytes: self.max_payload_bytes as nat,
            queue_group: match self.queue_group {
                Some(name) => Some(name@),
                None => None,
            },
        }
    }
}

impl SubscriptionView {
    /// How the settings are rendered for debugging.
    pub open spec fn debug_text(self) -> Seq<char> {
        "SubscriptionConfig { max_concurrency: "@ + text::optional_decimal(self.max_concurrency)
            + ", max_payload_bytes: "@ + text::decimal(self.max_payload_bytes) + ", queue_group: "@
            + text::optional_quoted(self.queue_group) + " }"@
    }
}

/// How to subscribe to a subject.
#[derive(Debug, Clone)]
pub enum SubscribeMode {
    /// Every message is delivered.
    Plain,
    /// The messages are shared with the other members of this queue group.
    Queue(String),
}

/// What to ask of the NATS library to serve a subscription.
#[derive(Debug, Clone)]
pub struct ServePlan {
    /// How to subscribe.
    pub mode: SubscribeMode,
    /// How many messages are handled at a time; `None` for no bound.
    pub concurrency: Option<usize>,
    /// The largest payload that is handled.
    pub max_payload_bytes: usize,
}

impl SubscriptionConfig {
    /// Handle up to `max_concurrency` messages at a time, any number for
    /// `None`, of at most `max_payload_bytes` each.
    pub fn new(max_concurrency: Option<NonZeroUsize>, max_payload_bytes: usize) -> (r:
        SubscriptionConfig)
        ensures
            r@ == (SubscriptionView {
                max_concurrency: optional_count(max_concurrency),
                max_payload_bytes: max_payload_bytes as nat,
                queue_group: None,
            }),
    {
        SubscriptionConfig { max_concurrency, max_payload_bytes, queue_group: None }
    }

    /// How many messages are handled at a time; `None` for no bound.
    pub fn max_concurrency(self, cap: Option<NonZeroUsize>) -> (r: SubscriptionConfig)
        ensures
            r@ == (SubscriptionView { max_concurrency: optional_count(cap), ..self@ }),
    {
        SubscriptionConfig { max_concurrency: cap, ..self }
    }

    /// The largest payload that is handled; larger messages are dropped.
    pub fn max_payload_bytes(self, bytes: usize) -> (r: SubscriptionConfig)
        ensures
            r@ == (SubscriptionView { max_payload_bytes: bytes as nat, ..self@ }),
    {
        SubscriptionConfig { max_payload_bytes: bytes, ..self }
    }

    /// Join a queue group.
    pub fn queue_group(self, name: &str) -> (r: SubscriptionConfig)
        ensures
            r@ == (SubscriptionView { queue_group: Some(name@), ..self@ }),
    {
        SubscriptionConfig { queue_group: Some(name.to_string()), ..self }
    }

    /// The settings as text for diagnostics.
    pub fn debug_text(&self) -> (r: String)
        ensures
            r@ == self@.debug_text(),
    {
        let mut text: String = "SubscriptionConfig { max_concurrency: ".to_string();
        text.append(
            optional_text(
                match self.max_concurrency {
                    Some(n) => Some(decimal_text(n.get() as u64)),
                    None => None,
                },
            ).as_str(),
        );
        text.append(", max_payload_bytes: ");
        text.append(decimal_text(self.max_payload_bytes as u64).as_str());
        text.append(", queue_group: ");
        text.append(optional_quoted_text(&self.queue_group).as_str());
        text.append(" }");
        text
    }

    /// What to ask of the NATS library.
    pub fn plan(self) -> (r: ServePlan)
        ensures
            match r.mode {
                SubscribeMode::Plain => self@.queue_group is None,
                SubscribeMode::Queue(group) => self@.queue_group == Some(group@),
            },
            r.concurrency is Some <==> self@.max_concurrency is Some,
            r.concurrency matches Some(n) ==> self@.max_concurrency == Some(n as nat) && n > 0,
            r.max_payload_bytes == self@.max_payload_bytes,
    {
        let concurrency: Option<usize> = match self.max_concurrency {
            Some(n) => Some(n.get()),
            None => None,
        };
        let mode: SubscribeMode = match self.queue_group {
            Some(group) => SubscribeMode::Queue(group),
            None => SubscribeMode::Plain,
        };
        ServePlan { mode, concurrency, max_payload_bytes: self.max_payload_bytes }
    }
}

impl Clone for SubscriptionConfig {
    fn clone(&self) -> (r: SubscriptionConfig)
        ensures
            r@ == self@,
    {
        SubscriptionConfig {
            max_concurrency: self.max_concurrency,
            max_payload_bytes: self.max_payload_bytes,
            queue_group: match &self.queue_group {
                Some(name) => Some(name.clone()),
                None => None,
            },
        }
    }
}

impl Default for SubscriptionConfig {
    fn default() -> (r: SubscriptionConfig)
        ensures
            r@ == (SubscriptionView {
                max_concurrency: Some(16),
                max_payload_bytes: 1_048_576,
                queue_group: None,
            }),
    {
        SubscriptionConfig::new(NonZeroUsize::new(16), 1_048_576)
    }
}

/// What is asked of the NATS library is what was set: the server, the
/// timeout, user and password in the clear, and TLS, required and with a
/// crypto provider, exactly where root certificates are given.
pub proof fn connections_are_planned_as_set(options: NatsConnectOptions, r: ConnectPlan)
    requires
        call_ensures(NatsConnectOptions::plan, (options,), r),
    ensures
        r.url@ == options@.url,
        r.request_timeout@ == options@.protocol_request_timeout,
        options@.credentials is None ==> r.user_and_password is None,
        options@.credentials matches Some(c) ==> (r.user_and_password matches Some((user, password))
            && user@ == c.user && password@ == c.password),
        options@.tls_root_certs is None ==> r.tls is None,
        options@.tls_root_certs matches Some(path) ==> (r.tls matches Some(tls) && tls.root_certs
            == path && tls.require_tls && tls.install_crypto_provider),
{
}

/// Each option changes itself alone; at first there are neither credentials
/// nor TLS, and requests time out after 30 s.
pub proof fn connect_options_are_independent(
    options: NatsConnectOptions,
    url: &str,
    c: NatsCredentials,
    path: std::path::PathBuf,
    d: Duration,
)
    ensures
        forall|r: NatsConnectOptions| #[trigger]
            call_ensures(NatsConnectOptions::new, (url,), r) ==> r@.url == url@ && r@.credentials
                is None && r@.tls_root_certs is None && r@.protocol_request_timeout
                == 30_000_000_000,
        forall|r: NatsConnectOptions| #[trigger]
            call_ensures(NatsConnectOptions::credentials, (options, c), r) ==> r@ == (
            ConnectOptionsView { credentials: Some(c@), ..options@ }),
        forall|r: NatsConnectOptions| #[trigger]
            call_ensures(NatsConnectOptions::tls_root_certs, (options, path), r) ==> r@ == (
            ConnectOptionsView { tls_root_certs: Some(path), ..options@ }),
        forall|r: NatsConnectOptions| #[trigger]
            call_ensures(NatsConnectOptions::protocol_request_timeout, (options, d), r) ==> r@ == (
            ConnectOptionsView { protocol_request_timeout: d@, ..options@ }),
        forall|r: NatsCredentials| #[trigger]
            call_ensures(<NatsCredentials as Clone>::clone, (&c,), r) ==> r@ == c@,
        forall|r: String| #[trigger]
            call_ensures(NatsCredentials::debug_text, (&c,), r) ==> r@
                == "NatsCredentials { user: "@ + text::quoted(c@.user) + ", password: "@
                + "Secret([REDACTED])"@ + " }"@,
{
}

/// A subscription is served as set: in its queue group where it has one, with
/// its bound on messages at a time where it has one, and its size limit.
pub proof fn subscriptions_are_planned_as_set(config: SubscriptionConfig, r: ServePlan)
    requires
        call_ensures(SubscriptionConfig::plan, (config,), r),
    ensures
        config@.queue_group is None ==> r.mode is Plain,
        config@.queue_group matches Some(name) ==> (r.mode matches SubscribeMode::Queue(group)
            && group@ == name),
        config@.max_concurrency is None ==> r.concurrency is None,
        config@.max_concurrency matches Some(n) ==> (r.concurrency matches Some(m) && m == n),
        r.max_payload_bytes == config@.max_payload_bytes,
{
}

/// Each setting changes itself alone; by default 16 messages are handled at a
/// time, of at most 1 MiB each, outside of any queue group.
pub proof fn subscription_settings_are_independent(
    config: SubscriptionConfig,
    cap: Option<NonZeroUsize>,
    bytes: usize,
    name: &str,
)
    ensures
        forall|r: SubscriptionConfig| #[trigger]
            call_ensures(SubscriptionConfig::new, (cap, bytes), r) ==> r@.max_concurrency == (
            match cap {
                Some(n) => Some(n@),
                None => None,
            }) && r@.max_payload_bytes == bytes && r@.queue_group is None,
        forall|r: SubscriptionConfig| #[trigger]
            call_ensures(SubscriptionConfig::max_concurrency, (config, cap), r) ==> r@ == (
            SubscriptionView {
                max_concurrency: match cap {
                    Some(n) => Some(n@),
                    None => None,
                },
                ..config@
            }),
        forall|r: SubscriptionConfig| #[trigger]
            call_ensures(SubscriptionConfig::max_payload_bytes, (config, bytes), r) ==> r@ == (
            SubscriptionView { max_payload_bytes: bytes as nat, ..config@ }),
        forall|r: SubscriptionConfig| #[trigger]
            call_ensures(SubscriptionConfig::queue_group, (config, name), r) ==> r@ == (
            SubscriptionView { queue_group: Some(name@), ..config@ }),
        forall|r: SubscriptionConfig| #[trigger]
            call_ensures(<SubscriptionConfig as Clone>::clone, (&config,), r) ==> r@ == config@,
        forall|r: SubscriptionConfig| #[trigger]
            call_ensures(<SubscriptionConfig as Default>::default, (), r) ==> r@.max_concurrency
                == Some(16nat) && r@.max_payload_bytes == 1024 * 1024 && r@.queue_group is None,
{
}

/// The text of connection options shows every option in its plain form, and
/// of the credentials the user alone.
pub proof fn rendered_options_show_all_but_the_password(options: &NatsConnectOptions, r: String)
    requires
        call_ensures(NatsConnectOptions::debug_text, (options,), r),
    ensures
        ({
            let credentials = match options@.credentials {
                Some(c) => "Some("@ + ("NatsCredentials { user: "@ + text::quoted(c.user)
                    + ", password: "@ + "Secret([REDACTED])"@ + " }"@) + ")"@,
                None => "None"@,
            };
            let front = "NatsConnectOptions { url: "@ + text::quoted(options@.url)
                + ", credentials: "@ + credentials + ", tls_root_certs: "@;
            let timeout = time::duration_text(options@.protocol_request_timeout);
            &&& options@.tls_root_certs is None ==> r@ == front + "None"@
                + ", protocol_request_timeout: "@ + timeout + " }"@
            &&& options@.tls_root_certs matches Some(path) ==> exists|shown: String| #[trigger]
                is_path_text(path, shown) && r@ == front + ("Some("@ + shown@ + ")"@)
                    + ", protocol_request_timeout: "@ + timeout + " }"@
        }),
{
}

/// The text of subscription settings shows each of them in its plain form.
pub proof fn rendered_subscriptions_show_every_setting(config: &SubscriptionConfig, r: String)
    requires
        call_ensures(SubscriptionConfig::debug_text, (config,), r),
    ensures
        r@ == "SubscriptionConfig { max_concurrency: "@ + text::optional_decimal(
            config@.max_concurrency,
        ) + ", max_payload_bytes: "@ + text::decimal(config@.max_payload_bytes)
            + ", queue_group: "@ + text::optional_quoted(config@.queue_group) + " }"@,
{
}

/// A copy of connection options has the same settings, and a copy of the path.
pub proof fn copied_options_keep_their_settings(
    options: &NatsConnectOptions,
    r: NatsConnectOptions,
)
    requires
        call_ensures(<NatsConnectOptions as Clone>::clone, (options,), r),
    ensures
        r@.url == options@.url,
        r@.credentials == options@.credentials,
        r@.protocol_request_timeout == options@.protocol_request_timeout,
        r@.tls_root_certs is Some <==> options@.tls_root_certs is Some,
        options@.tls_root_certs matches Some(path) ==> cloned(path, r@.tls_root_certs->0),
{
}

} // verus!
