//! Classification of failed HTTP requests.

use vstd::prelude::*;

use crate::error::{ReportView, UtilsError, UtilsReport};

verus! {

/// An error of `reqwest`.
#[verifier::external_type_specification]
#[verifier::external_body]
pub struct ExReqwestError(reqwest::Error);

/// `reqwest::Error::is_connect`: whether the request failed to connect.
/// Nothing is claimed of the answer: what an error holds is hidden.
pub assume_specification[ reqwest::Error::is_connect ](e: &reqwest::Error) -> bool;

/// `reqwest::Error::is_timeout`: whether the request timed out. Nothing is
/// claimed of the answer: what an error holds is hidden.
pub assume_specification[ reqwest::Error::is_timeout ](e: &reqwest::Error) -> bool;

/// The kind of a failed request: not reaching the endpoint, or not in time,
/// is a network error; everything else that goes wrong on the way is an HTTP
/// error.
pub open spec fn transport_kind(is_connect: bool, is_timeout: bool) -> UtilsError {
    if is_connect || is_timeout {
        UtilsError::Network
    } else {
        UtilsError::Http
    }
}

/// Classify a failed request.
pub fn classify_transport(is_connect: bool, is_timeout: bool) -> (r: UtilsError)
    ensures
        r == transport_kind(is_connect, is_timeout),
{
    if is_connect || is_timeout {
        UtilsError::Network
    } else {
        UtilsError::Http
    }
}

/// Calls `reqwest::Error::to_string`. Nothing is claimed of the text: what an
/// error holds is hidden.
#[verifier::external_body]
fn rendered(e: &reqwest::Error) -> String {
    e.to_string()
}

/// Whether `text` is a rendering of this error.
pub closed spec fn is_rendering(e: &reqwest::Error, text: String) -> bool {
    call_ensures(rendered, (e,), text)
}

/// Report a failed request: what `reqwest` says of connecting and timing out
/// decides on the kind, and its error is the origin.
pub fn into_network_or_http(e: &reqwest::Error) -> (r: UtilsReport)
    ensures
        exists|is_connect: bool, is_timeout: bool, text: String|
            call_ensures(reqwest::Error::is_connect, (e,), is_connect) && call_ensures(
                reqwest::Error::is_timeout,
                (e,),
                is_timeout,
            ) && #[trigger] is_rendering(e, text) && r@ == ReportView::from_error(
                #[trigger] transport_kind(is_connect, is_timeout),
                text@,
                seq![],
            ),
{
    let is_connect: bool = e.is_connect();
    let is_timeout: bool = e.is_timeout();
    let text: String = rendered(e);
    assert(is_rendering(e, text));
    UtilsReport::from_error(classify_transport(is_connect, is_timeout), text)
}

/// A failed request is a network error exactly where it did not connect or
/// ran out of time, and an HTTP error otherwise.
pub proof fn only_transport_failures_are_network_errors(
    is_connect: bool,
    is_timeout: bool,
    r: UtilsError,
)
    requires
        call_ensures(classify_transport, (is_connect, is_timeout), r),
    ensures
        r == UtilsError::Network <==> is_connect || is_timeout,
        r == UtilsError::Http <==> !is_connect && !is_timeout,
        transport_kind(is_connect, is_timeout) == r,
{
}

/// The report of a failed request goes by what `reqwest` answers of
/// connecting and timing out, and keeps its error.
pub proof fn request_reports_go_by_the_error(e: &reqwest::Error, r: UtilsReport)
    requires
        call_ensures(into_network_or_http, (e,), r),
    ensures
        r@.context == UtilsError::Network ==> call_ensures(reqwest::Error::is_connect, (e,), true)
            || call_ensures(reqwest::Error::is_timeout, (e,), true),
        r@.context != UtilsError::Network ==> r@.context == UtilsError::Http && call_ensures(
            reqwest::Error::is_connect,
            (e,),
            false,
        ) && call_ensures(reqwest::Error::is_timeout, (e,), false),
        r@.origin is Some,
        r@.cause is None,
        r@.attachments.len() == 0,
{
}

} // verus!
