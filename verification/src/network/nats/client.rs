//! What is decided between the calls of the NATS library: how failures are
//! reported, and what becomes of an incoming message.
//!
//! An incoming message passes through four stages: size check, decoding,
//! handler, reply. Each stage takes the outcome of the work that the caller
//! did and either hands on what the next stage needs or says how the message
//! ended. A message that ends early is dropped; it never stops the
//! subscription.

use vstd::prelude::*;
use vstd::string::*;

use crate::error;
use crate::error::{ReportView, UtilsError, UtilsReport, UtilsResult};
use crate::network::validation;
use crate::network::validation::parse_document;
use crate::text;
use crate::text::decimal_text;

verus! {

fn reported(context: UtilsError, error: String, detail: String) -> (r: UtilsReport)
    ensures
        r@ == ReportView::from_error(context, error@, seq![detail@]),
{
    let r: UtilsReport = UtilsReport::from_error(context, error).attach(detail);
    assert(r@.attachments =~= seq![detail@]);
    r
}

/// The report of a call on a subject that failed with this error on its way.
pub open spec fn subject_report(subject: Seq<char>, error: Seq<char>) -> ReportView {
    ReportView::from_error(UtilsError::Network, error, seq!["nats subject: "@ + subject])
}

fn subject_failed(subject: &str, error: String) -> (r: UtilsReport)
    ensures
        r@ == subject_report(subject@, error@),
{
    let mut detail: String = "nats subject: ".to_string();
    detail.append(subject);
    reported(UtilsError::Network, error, detail)
}

/// Settle an attempt to connect: an error becomes a [`UtilsError::Network`]
/// report that names the server.
pub fn connected<C>(url: &str, connection: Result<C, String>) -> (r: UtilsResult<C>)
    ensures
        match connection {
            Ok(c) => r == Ok::<C, UtilsReport>(c),
            Err(error) => r matches Err(report) && report@ == ReportView::from_error(
                UtilsError::Network,
                error@,
                seq!["nats url: "@ + url@],
            ),
        },
{
    match connection {
        Ok(c) => Ok(c),
        Err(error) => {
            let mut detail: String = "nats url: ".to_string();
            detail.append(url);
            Err(reported(UtilsError::Network, error, detail))
        },
    }
}

/// The encoding of a message to publish: what is sent next.
pub open spec fn publish_encoded<P>(encoded: Result<P, Seq<char>>) -> Result<P, ReportView> {
    match encoded {
        Ok(payload) => Ok(payload),
        Err(error) => Err(
            ReportView::from_error(
                UtilsError::Internal,
                error,
                seq!["failed to serialize outbound NATS payload"@],
            ),
        ),
    }
}

/// A call on a subject: what came of it.
pub open spec fn subject_called<M>(subject: Seq<char>, called: Result<M, Seq<char>>) -> Result<
    M,
    ReportView,
> {
    match called {
        Ok(value) => Ok(value),
        Err(error) => Err(subject_report(subject, error)),
    }
}

/// Settle the encoding of a message to publish: an error becomes a
/// [`UtilsError::Internal`] report, and nothing is sent.
pub fn publish_payload(encoded: Result<Vec<u8>, String>) -> (r: UtilsResult<Vec<u8>>)
    ensures
        error::result_view(r) == publish_encoded(outcome_view(encoded)),
{
    match encoded {
        Ok(payload) => Ok(payload),
        Err(error) => Err(
            reported(
                UtilsError::Internal,
                error,
                "failed to serialize outbound NATS payload".to_string(),
            ),
        ),
    }
}

/// Settle a publish: an error becomes a [`UtilsError::Network`] report that
/// names the subject.
pub fn published(subject: &str, sent: Result<(), String>) -> (r: UtilsResult<()>)
    ensures
        error::result_view(r) == subject_called(subject@, outcome_view(sent)),
{
    match sent {
        Ok(_) => Ok(()),
        Err(error) => Err(subject_failed(subject, error)),
    }
}

/// The encoding of a request: what is sent next.
pub open spec fn request_encoded<P>(encoded: Result<P, Seq<char>>) -> Result<P, ReportView> {
    match encoded {
        Ok(payload) => Ok(payload),
        Err(error) => Err(
            ReportView::from_error(
                UtilsError::Internal,
                error,
                seq!["failed to serialize NATS request"@],
            ),
        ),
    }
}

/// Settle the encoding of a request: an error becomes a
/// [`UtilsError::Internal`] report, and nothing is sent.
pub fn request_payload(encoded: Result<Vec<u8>, String>) -> (r: UtilsResult<Vec<u8>>)
    ensures
        error::result_view(r) == request_encoded(outcome_view(encoded)),
{
    match encoded {
        Ok(payload) => Ok(payload),
        Err(error) => Err(
            reported(UtilsError::Internal, error, "failed to serialize NATS request".to_string()),
        ),
    }
}

/// Settle the transport of a request: an error becomes a
/// [`UtilsError::Network`] report that names the subject.
pub fn reply_received<M>(subject: &str, reply: Result<M, String>) -> (r: UtilsResult<M>)
    ensures
        error::result_view(r) == subject_called(subject@, outcome_view(reply)),
{
    match reply {
        Ok(message) => Ok(message),
        Err(error) => Err(subject_failed(subject, error)),
    }
}

/// The report of a reply of `len` bytes that could not be decoded.
pub open spec fn undecodable_reply(subject: Seq<char>, len: nat, error: Seq<char>) -> ReportView {
    ReportView::from_error(
        UtilsError::Internal,
        error,
        seq![
            "failed to deserialize NATS reply on subject "@ + subject + " ("@ + text::decimal(len)
                + " bytes)"@,
        ],
    )
}

/// The decoding of a reply: what the request returns.
pub open spec fn reply_read<T>(
    subject: Seq<char>,
    payload: Seq<u8>,
    read: Result<T, Seq<char>>,
) -> Result<T, ReportView> {
    match read {
        Ok(value) => Ok(value),
        Err(error) => Err(undecodable_reply(subject, payload.len(), error)),
    }
}

/// Settle the decoding of a reply with this payload: an error becomes a
/// [`UtilsError::Internal`] report that names the subject and the size.
pub fn reply_decoded<T>(subject: &str, payload: &[u8], read: Result<T, String>) -> (r: UtilsResult<
    T,
>)
    ensures
        error::result_view(r) == reply_read(subject@, payload@, outcome_view(read)),
{
    match read {
        Ok(value) => Ok(value),
        Err(error) => {
            let mut detail: String = "failed to deserialize NATS reply on subject ".to_string();
            detail.append(subject);
            detail.append(" (");
            detail.append(decimal_text(payload.len() as u64).as_str());
            detail.append(" bytes)");
            Err(reported(UtilsError::Internal, error, detail))
        },
    }
}

/// Decode a reply as a JSON document of any shape.
pub fn decode_json_reply(subject: &str, payload: &[u8]) -> (r: UtilsResult<serde_json::Value>)
    ensures
        error::result_view(r) == reply_read(
            subject@,
            payload@,
            validation::json_document(payload@),
        ),
{
    reply_decoded(subject, payload, parse_document(payload))
}

/// What a publish returns, all stages together: `encoded` is what the message
/// is encoded to and `sent` what came of sending it.
pub open spec fn publish_to(
    subject: Seq<char>,
    encoded: Result<Seq<u8>, Seq<char>>,
    sent: Result<(), Seq<char>>,
) -> Result<(), ReportView> {
    match publish_encoded(encoded) {
        Err(report) => Err(report),
        Ok(_) => subject_called(subject, sent),
    }
}

/// What a request returns, all stages together: `encoded` is what the request
/// is encoded to, `reply` the payload that came back for it and `read` what
/// that is decoded to.
pub open spec fn request_on<T>(
    subject: Seq<char>,
    encoded: Result<Seq<u8>, Seq<char>>,
    reply: Result<Seq<u8>, Seq<char>>,
    read: Result<T, Seq<char>>,
) -> Result<T, ReportView> {
    match request_encoded(encoded) {
        Err(report) => Err(report),
        Ok(_) => match subject_called(subject, reply) {
            Err(report) => Err(report),
            Ok(payload) => reply_read(subject, payload, read),
        },
    }
}

/// A publish fails with [`UtilsError::Internal`] where the message does not
/// encode, whatever sending would have come to; else with
/// [`UtilsError::Network`], naming the subject, where sending fails; and
/// succeeds otherwise.
pub proof fn publish_reports_the_first_failure(
    subject: Seq<char>,
    encoded: Result<Seq<u8>, Seq<char>>,
    sent: Result<(), Seq<char>>,
)
    ensures
        encoded matches Err(error) ==> (publish_to(subject, encoded, sent) matches Err(report)
            && report.context == UtilsError::Internal && report.origin == Some(error)),
        encoded is Ok ==> (sent matches Err(error) ==> publish_to(subject, encoded, sent) == Err::<
            (),
            ReportView,
        >(subject_report(subject, error))),
        publish_to(subject, encoded, sent) is Ok <==> encoded is Ok && sent is Ok,
{
}

/// A request fails with [`UtilsError::Internal`] where it does not encode,
/// whatever any reply would have been; else with [`UtilsError::Network`],
/// naming the subject, where no reply comes; else with
/// [`UtilsError::Internal`], naming the subject and the length of that reply,
/// where it does not decode; and otherwise returns what it decodes to.
pub proof fn request_reports_the_first_failure<T>(
    subject: Seq<char>,
    encoded: Result<Seq<u8>, Seq<char>>,
    reply: Result<Seq<u8>, Seq<char>>,
    read: Result<T, Seq<char>>,
)
    ensures
        encoded matches Err(error) ==> (request_on(subject, encoded, reply, read) matches Err(
            report,
        ) && report.context == UtilsError::Internal && report.origin == Some(error)),
        encoded is Ok ==> (reply matches Err(error) ==> request_on(subject, encoded, reply, read)
            == Err::<T, ReportView>(subject_report(subject, error))),
        encoded is Ok ==> (reply matches Ok(payload) ==> (read matches Err(error) ==> request_on(
            subject,
            encoded,
            reply,
            read,
        ) == Err::<T, ReportView>(undecodable_reply(subject, payload.len(), error)))),
        encoded is Ok && reply is Ok ==> (read matches Ok(value) ==> request_on(
            subject,
            encoded,
            reply,
            read,
        ) == Ok::<T, ReportView>(value)),
{
}

/// Settle a subscribe: an error becomes a [`UtilsError::Network`] report that
/// names the subject, and the queue group where there is one.
pub fn subscribed<S>(
    subject: &str,
    queue_group: Option<&str>,
    subscriber: Result<S, String>,
) -> (r: UtilsResult<S>)
    ensures
        match subscriber {
            Ok(s) => r == Ok::<S, UtilsReport>(s),
            Err(error) => r matches Err(report) && report@ == (match queue_group {
                None => subject_report(subject@, error@),
                Some(group) => ReportView::from_error(
                    UtilsError::Network,
                    error@,
                    seq!["nats subject: "@ + subject@ + " (queue group: "@ + group@ + ")"@],
                ),
            }),
        },
{
    match subscriber {
        Ok(s) => Ok(s),
        Err(error) => match queue_group {
            None => Err(subject_failed(subject, error)),
            Some(group) => {
                let mut detail: String = "nats subject: ".to_string();
                detail.append(subject);
                detail.append(" (queue group: ");
                detail.append(group);
                detail.append(")");
                Err(reported(UtilsError::Network, error, detail))
            },
        },
    }
}

/// A message as it comes in.
#[derive(Debug, Clone, PartialEq, Eq)]
pub struct IncomingMessage<'a> {
    /// What it carries.
    pub payload: &'a [u8],
    /// The subject to reply to, where a reply is wanted.
    pub reply: Option<String>,
}

/// What an [`IncomingMessage`] holds.
pub struct MessageView {
    pub payload: Seq<u8>,
    pub reply: Option<Seq<char>>,
}

impl<'a> View for IncomingMessage<'a> {
    type V = MessageView;

    open spec fn view(&self) -> MessageView {
        MessageView {
            payload: self.payload@,
            reply: match self.reply {
                Some(subject) => Some(subject@),
                None => None,
            },
        }
    }
}

/// A reply on its way.
#[derive(Debug, Clone, PartialEq, Eq)]
pub struct OutgoingMessage {
    /// The subject to publish to.
    pub subject: String,
    /// What it carries.
    pub payload: Vec<u8>,
}

/// What an [`OutgoingMessage`] holds.
pub struct OutgoingView {
    pub subject: Seq<char>,
    pub payload: Seq<u8>,
}

impl View for OutgoingMessage {
    type V = OutgoingView;

    open spec fn view(&self) -> OutgoingView {
        OutgoingView { subject: self.subject@, payload: self.payload@ }
    }
}

/// How the handling of a message ended.
#[derive(Debug)]
pub enum MessageEnd {
    /// The payload was larger than allowed.
    Oversized,
    /// The payload was not a request; decoding it failed with this error.
    Undecodable(String),
    /// The handler failed with this report.
    HandlerFailed(UtilsReport),
    /// The handler is done and no reply was wanted.
    NoReplyWanted,
    /// Encoding the response failed with this error.
    Unencodable(String),
    /// Publishing the reply failed with this error.
    PublishFailed(String),
    /// The reply was published.
    Replied,
}

/// What a [`MessageEnd`] tells.
pub enum MessageEndView {
    Oversized,
    Undecodable(Seq<char>),
    HandlerFailed(ReportView),
    NoReplyWanted,
    Unencodable(Seq<char>),
    PublishFailed(Seq<char>),
    Replied,
}

impl View for MessageEnd {
    type V = MessageEndView;

    open spec fn view(&self) -> MessageEndView {
        match self {
            MessageEnd::Oversized => MessageEndView::Oversized,
            MessageEnd::Undecodable(error) => MessageEndView::Undecodable(error@),
            MessageEnd::HandlerFailed(report) => MessageEndView::HandlerFailed(report@),
            MessageEnd::NoReplyWanted => MessageEndView::NoReplyWanted,
            MessageEnd::Unencodable(error) => MessageEndView::Unencodable(error@),
            MessageEnd::PublishFailed(error) => MessageEndView::PublishFailed(error@),
            MessageEnd::Replied => MessageEndView::Replied,
        }
    }
}

/// The size check: what is decoded next.
pub open spec fn size_checked(message: MessageView, max_payload_bytes: nat) -> Result<
    MessageView,
    MessageEndView,
> {
    if message.payload.len() > max_payload_bytes {
        Err(MessageEndView::Oversized)
    } else {
        Ok(message)
    }
}

/// The decoding: what is handled next, and where a reply goes.
pub open spec fn decoded<Req>(message: MessageView, request: Result<Req, Seq<char>>) -> Result<
    (Req, Option<Seq<char>>),
    MessageEndView,
> {
    match request {
        Ok(request) => Ok((request, message.reply)),
        Err(error) => Err(MessageEndView::Undecodable(error)),
    }
}

/// An outcome with the text of its error as a view.
pub open spec fn outcome_view<T>(outcome: Result<T, String>) -> Result<T, Seq<char>> {
    match outcome {
        Ok(value) => Ok(value),
        Err(error) => Err(error@),
    }
}

/// The handler: what is encoded next, and where it goes.
pub open spec fn handled<Resp>(
    reply: Option<Seq<char>>,
    outcome: Result<Resp, ReportView>,
) -> Result<(Resp, Seq<char>), MessageEndView> {
    match outcome {
        Err(report) => Err(MessageEndView::HandlerFailed(report)),
        Ok(response) => match reply {
            None => Err(MessageEndView::NoReplyWanted),
            Some(subject) => Ok((response, subject)),
        },
    }
}

/// The encoding: what is published next.
pub open spec fn encoded(subject: Seq<char>, payload: Result<Seq<u8>, Seq<char>>) -> Result<
    OutgoingView,
    MessageEndView,
> {
    match payload {
        Ok(payload) => Ok(OutgoingView { subject, payload }),
        Err(error) => Err(MessageEndView::Unencodable(error)),
    }
}

/// A message that passed the size check.
#[derive(Debug)]
pub struct SizedMessage<'a> {
    message: IncomingMessage<'a>,
}

impl<'a> View for SizedMessage<'a> {
    type V = MessageView;

    closed spec fn view(&self) -> MessageView {
        self.message@
    }
}

/// Where the reply to a request goes, if one is wanted.
#[derive(Debug)]
pub struct ReplyAddress {
    subject: Option<String>,
}

impl View for ReplyAddress {
    type V = Option<Seq<char>>;

    closed spec fn view(&self) -> Option<Seq<char>> {
        match self.subject {
            Some(subject) => Some(subject@),
            None => None,
        }
    }
}

/// The subject that the reply to a handled request goes to.
#[derive(Debug)]
pub struct ReplySubject {
    subject: String,
}

impl View for ReplySubject {
    type V = Seq<char>;

    closed spec fn view(&self) -> Seq<char> {
        self.subject@
    }
}

/// Check the size of a message that came in. One with a payload of exactly
/// the limit passes.
pub fn receive<'a>(message: IncomingMessage<'a>, max_payload_bytes: usize) -> (r: Result<
    SizedMessage<'a>,
    MessageEnd,
>)
    ensures
        match size_checked(message@, max_payload_bytes as nat) {
            Ok(view) => r matches Ok(sized) && sized@ == view,
            Err(end) => r matches Err(e) && e@ == end,
        },
{
    if message.payload.len() > max_payload_bytes {
        Err(MessageEnd::Oversized)
    } else {
        Ok(SizedMessage { message })
    }
}

impl<'a> SizedMessage<'a> {
    /// The payload to decode.
    pub fn payload(&self) -> (r: &'a [u8])
        ensures
            r@ == self@.payload,
    {
        self.message.payload
    }

    /// Go on with what the payload was decoded to.
    pub fn decoded<Req>(self, request: Result<Req, String>) -> (r: Result<
        (Req, ReplyAddress),
        MessageEnd,
    >)
        ensures
            match decoded(self@, outcome_view(request)) {
                Ok((request, reply)) => r matches Ok((req, address)) && req == request && address@
                    == reply,
                Err(end) => r matches Err(e) && e@ == end,
            },
    {
        match request {
            Ok(request) => Ok((request, ReplyAddress { subject: self.message.reply })),
            Err(error) => Err(MessageEnd::Undecodable(error)),
        }
    }

    /// Decode the payload as a JSON document of any shape, and go on with it.
    pub fn decode_json(self) -> (r: Result<(serde_json::Value, ReplyAddress), MessageEnd>)
        ensures
            match decoded(self@, validation::json_document(self@.payload)) {
                Ok((document, reply)) => r matches Ok((doc, address)) && doc == document && address@
                    == reply,
                Err(end) => r matches Err(e) && e@ == end,
            },
    {
        let document: Result<serde_json::Value, String> = parse_document(self.payload());
        self.decoded(document)
    }
}

impl ReplyAddress {
    /// Go on with what the handler returned.
    pub fn handled<Resp>(self, outcome: UtilsResult<Resp>) -> (r: Result<
        (Resp, ReplySubject),
        MessageEnd,
    >)
        ensures
            match handled(
                self@,
                match outcome {
                    Ok(response) => Ok(response),
                    Err(report) => Err(report@),
                },
            ) {
                Ok((response, subject)) => r matches Ok((resp, s)) && resp == response && s@
                    == subject,
                Err(end) => r matches Err(e) && e@ == end,
            },
    {
        match outcome {
            Ok(response) => match self.subject {
                Some(subject) => Ok((response, ReplySubject { subject })),
                None => Err(MessageEnd::NoReplyWanted),
            },
            Err(report) => Err(MessageEnd::HandlerFailed(report)),
        }
    }
}

/// An encoded payload, or the text of the error in its place.
pub open spec fn payload_view(payload: Result<Vec<u8>, String>) -> Result<Seq<u8>, Seq<char>> {
    match payload {
        Ok(bytes) => Ok(bytes@),
        Err(error) => Err(error@),
    }
}

impl ReplySubject {
    /// Go on with what the response was encoded to.
    pub fn encoded(self, payload: Result<Vec<u8>, String>) -> (r: Result<
        OutgoingMessage,
        MessageEnd,
    >)
        ensures
            match encoded(self@, payload_view(payload)) {
                Ok(view) => r matches Ok(outgoing) && outgoing@ == view,
                Err(end) => r matches Err(e) && e@ == end,
            },
    {
        match payload {
            Ok(payload) => Ok(OutgoingMessage { subject: self.subject, payload }),
            Err(error) => Err(MessageEnd::Unencodable(error)),
        }
    }
}

/// How a message ended whose reply was handed to the NATS library.
pub fn reply_published(sent: Result<(), String>) -> (r: MessageEnd)
    ensures
        r@ == (match sent {
            Ok(_) => MessageEndView::Replied,
            Err(error) => MessageEndView::PublishFailed(error@),
        }),
{
    match sent {
        Ok(_) => MessageEnd::Replied,
        Err(error) => MessageEnd::PublishFailed(error),
    }
}

/// The reply to a message, or how it ended without one, all stages together:
/// `request` is what the payload decodes to, `outcome` what the handler
/// returns for it and `payload` what the response is encoded to.
pub open spec fn reply_to<Req, Resp>(
    message: MessageView,
    max_payload_bytes: nat,
    request: Result<Req, Seq<char>>,
    outcome: Result<Resp, ReportView>,
    payload: Result<Seq<u8>, Seq<char>>,
) -> Result<OutgoingView, MessageEndView> {
    match size_checked(message, max_payload_bytes) {
        Err(end) => Err(end),
        Ok(sized) => match decoded(sized, request) {
            Err(end) => Err(end),
            Ok((_, reply)) => match handled(reply, outcome) {
                Err(end) => Err(end),
                Ok((_, subject)) => encoded(subject, payload),
            },
        },
    }
}

/// A reply is published exactly where the message is small enough, decodes,
/// is handled successfully, asks for a reply, and the response encodes; it
/// then carries the encoded response to the subject that was asked for.
pub proof fn replies_answer_handled_requests<Req, Resp>(
    message: MessageView,
    max_payload_bytes: nat,
    request: Result<Req, Seq<char>>,
    outcome: Result<Resp, ReportView>,
    payload: Result<Seq<u8>, Seq<char>>,
)
    ensures
        reply_to(message, max_payload_bytes, request, outcome, payload) is Ok <==> {
            &&& message.payload.len() <= max_payload_bytes
            &&& request is Ok
            &&& outcome is Ok
            &&& message.reply is Some
            &&& payload is Ok
        },
        reply_to(message, max_payload_bytes, request, outcome, payload) matches Ok(outgoing)
            ==> message.reply == Some(outgoing.subject) && payload == Ok::<Seq<u8>, Seq<char>>(
            outgoing.payload,
        ),
{
}

/// An oversized message is dropped whatever it holds: nothing of it is
/// decoded.
pub proof fn oversized_messages_are_dropped(message: MessageView, max_payload_bytes: nat)
    ensures
        size_checked(message, max_payload_bytes) == Err::<MessageView, MessageEndView>(
            MessageEndView::Oversized,
        ) <==> message.payload.len() > max_payload_bytes,
{
}

/// A handler that fails is answered by no reply, and its report is kept.
pub proof fn failed_handlers_do_not_reply<Req, Resp>(
    message: MessageView,
    max_payload_bytes: nat,
    request: Req,
    report: ReportView,
    payload: Result<Seq<u8>, Seq<char>>,
)
    requires
        message.payload.len() <= max_payload_bytes,
    ensures
        reply_to(
            message,
            max_payload_bytes,
            Ok::<Req, Seq<char>>(request),
            Err::<Resp, ReportView>(report),
            payload,
        ) == Err::<OutgoingView, MessageEndView>(MessageEndView::HandlerFailed(report)),
{
}

/// Work that succeeded is handed on, and work that failed is reported with
/// its error: failing to encode or decode is an internal error, and failing to
/// reach the server a network error that names what was to be reached.
pub proof fn failures_are_classified<C>(
    url: &str,
    subject: &str,
    group: &str,
    connection: Result<C, String>,
    encoding: Result<Vec<u8>, String>,
    sent: Result<(), String>,
)
    ensures
        forall|r: UtilsResult<C>| #[trigger]
            call_ensures(connected::<C>, (url, connection), r) ==> (match connection {
                Ok(c) => r == Ok::<C, UtilsReport>(c),
                Err(e) => r matches Err(report) && report@.context == UtilsError::Network
                    && report@.origin == Some(e@) && report@.cause is None && report@.attachments
                    =~= seq!["nats url: "@ + url@],
            }),
        forall|r: UtilsResult<Vec<u8>>| #[trigger]
            call_ensures(publish_payload, (encoding,), r) ==> (match encoding {
                Ok(payload) => r == Ok::<Vec<u8>, UtilsReport>(payload),
                Err(e) => r matches Err(report) && report@.context == UtilsError::Internal
                    && report@.origin == Some(e@) && report@.cause is None && report@.attachments
                    =~= seq!["failed to serialize outbound NATS payload"@],
            }),
        forall|r: UtilsResult<()>| #[trigger]
            call_ensures(published, (subject, sent), r) ==> (match sent {
                Ok(_) => r is Ok,
                Err(e) => r matches Err(report) && report@.context == UtilsError::Network
                    && report@.origin == Some(e@) && report@.cause is None && report@.attachments
                    =~= seq!["nats subject: "@ + subject@],
            }),
        forall|r: UtilsResult<Vec<u8>>| #[trigger]
            call_ensures(request_payload, (encoding,), r) ==> (match encoding {
                Ok(payload) => r == Ok::<Vec<u8>, UtilsReport>(payload),
                Err(e) => r matches Err(report) && report@.context == UtilsError::Internal
                    && report@.origin == Some(e@) && report@.cause is None && report@.attachments
                    =~= seq!["failed to serialize NATS request"@],
            }),
        forall|r: UtilsResult<C>| #[trigger]
            call_ensures(reply_received::<C>, (subject, connection), r) ==> (match connection {
                Ok(c) => r == Ok::<C, UtilsReport>(c),
                Err(e) => r matches Err(report) && report@.context == UtilsError::Network
                    && report@.origin == Some(e@) && report@.cause is None && report@.attachments
                    =~= seq!["nats subject: "@ + subject@],
            }),
        forall|r: UtilsResult<C>| #[trigger]
            call_ensures(subscribed::<C>, (subject, None::<&str>, connection), r) ==> (
            match connection {
                Ok(c) => r == Ok::<C, UtilsReport>(c),
                Err(e) => r matches Err(report) && report@.context == UtilsError::Network
                    && report@.origin == Some(e@) && report@.cause is None && report@.attachments
                    =~= seq!["nats subject: "@ + subject@],
            }),
        forall|r: UtilsResult<C>| #[trigger]
            call_ensures(subscribed::<C>, (subject, Some(group), connection), r) ==> (
            match connection {
                Ok(c) => r == Ok::<C, UtilsReport>(c),
                Err(e) => r matches Err(report) && report@.context == UtilsError::Network
                    && report@.origin == Some(e@) && report@.cause is None && report@.attachments
                    =~= seq!["nats subject: "@ + subject@ + " (queue group: "@ + group@ + ")"@],
            }),
{
}

/// A reply that decodes is returned, and one that does not is reported with
/// the subject and its own length.
pub proof fn replies_are_decoded_or_measured<T>(
    subject: &str,
    payload: &[u8],
    read: Result<T, String>,
    r: UtilsResult<T>,
    json: UtilsResult<serde_json::Value>,
)
    requires
        call_ensures(reply_decoded::<T>, (subject, payload, read), r),
        call_ensures(decode_json_reply, (subject, payload), json),
    ensures
        ({
            let detail = "failed to deserialize NATS reply on subject "@ + subject@ + " ("@
                + text::decimal(payload@.len()) + " bytes)"@;
            &&& read matches Ok(value) ==> r == Ok::<T, UtilsReport>(value)
            &&& read matches Err(e) ==> (r matches Err(report) && report@.context
                == UtilsError::Internal && report@.origin == Some(e@) && report@.cause is None
                && report@.attachments =~= seq![detail])
            &&& validation::json_document(payload@) matches Ok(document) ==> json == Ok::<
                serde_json::Value,
                UtilsReport,
            >(document)
            &&& validation::json_document(payload@) matches Err(e) ==> (json matches Err(report)
                && report@.context == UtilsError::Internal && report@.origin == Some(e)
                && report@.cause is None && report@.attachments =~= seq![detail])
        }),
{
}

/// A message is dropped for its size exactly where it is larger than allowed,
/// and else goes on unchanged.
pub proof fn messages_are_held_to_the_size<'a>(
    message: IncomingMessage<'a>,
    max_payload_bytes: usize,
    r: Result<SizedMessage<'a>, MessageEnd>,
)
    requires
        call_ensures(receive, (message, max_payload_bytes), r),
    ensures
        r is Ok <==> message@.payload.len() <= max_payload_bytes,
        r matches Ok(sized) ==> sized@ == message@,
        r matches Err(end) ==> end@ == MessageEndView::Oversized,
{
}

/// A message goes on with its request and its reply address where it decodes,
/// and else ends with the error.
pub proof fn messages_go_on_where_they_decode<'a, Req>(
    sized: SizedMessage<'a>,
    request: Result<Req, String>,
    r: Result<(Req, ReplyAddress), MessageEnd>,
    json: Result<(serde_json::Value, ReplyAddress), MessageEnd>,
)
    requires
        call_ensures(SizedMessage::<'a>::decoded::<Req>, (sized, request), r),
        call_ensures(SizedMessage::<'a>::decode_json, (sized,), json),
    ensures
        request matches Ok(req) ==> (r matches Ok((kept, address)) && kept == req && address@
            == sized@.reply),
        request matches Err(e) ==> (r matches Err(end) && end@ == MessageEndView::Undecodable(e@)),
        validation::json_document(sized@.payload) matches Ok(document) ==> (json matches Ok(
            (kept, address),
        ) && kept == document && address@ == sized@.reply),
        validation::json_document(sized@.payload) matches Err(e) ==> (json matches Err(end) && end@
            == MessageEndView::Undecodable(e)),
{
}

/// A handled request is answered exactly where it succeeded and an answer is
/// wanted: a failure ends it with its report, and without an address it ends
/// quietly.
pub proof fn handled_requests_are_answered_if_wanted<Resp>(
    address: ReplyAddress,
    outcome: UtilsResult<Resp>,
    r: Result<(Resp, ReplySubject), MessageEnd>,
)
    requires
        call_ensures(ReplyAddress::handled::<Resp>, (address, outcome), r),
    ensures
        outcome matches Err(report) ==> (r matches Err(end) && end@
            == MessageEndView::HandlerFailed(report@)),
        outcome is Ok && address@ is None ==> (r matches Err(end) && end@
            == MessageEndView::NoReplyWanted),
        outcome matches Ok(response) ==> (address@ matches Some(subject) ==> (r matches Ok(
            (kept, to),
        ) && kept == response && to@ == subject)),
{
}

/// A reply carries the encoded response to the subject that was asked for, and
/// ends as replied exactly where it was sent.
pub proof fn replies_carry_the_response(
    subject: ReplySubject,
    payload: Result<Vec<u8>, String>,
    r: Result<OutgoingMessage, MessageEnd>,
    sent: Result<(), String>,
    end: MessageEnd,
)
    requires
        call_ensures(ReplySubject::encoded, (subject, payload), r),
        call_ensures(reply_published, (sent,), end),
    ensures
        payload matches Ok(bytes) ==> (r matches Ok(outgoing) && outgoing@.subject == subject@
            && outgoing@.payload == bytes@),
        payload matches Err(e) ==> (r matches Err(ended) && ended@ == MessageEndView::Unencodable(
            e@,
        )),
        sent is Ok ==> end@ == MessageEndView::Replied,
        sent matches Err(e) ==> end@ == MessageEndView::PublishFailed(e@),
{
}

} // verus!
