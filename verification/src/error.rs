//! Error taxonomy shared by the whole crate.
//!
//! [`UtilsError`] is a small, coarse classification of what kind of failure
//! occurred. The details ride along as text attached to a [`UtilsReport`],
//! and a report that is reclassified keeps what it reported before as its
//! cause. A report of a failed call into another crate keeps the text of that
//! crate's error as its origin.

use vstd::prelude::*;

verus! {

/// Coarse classification of every error surfaced by this crate.
#[derive(Debug, Clone, Copy, PartialEq, Eq, Structural)]
#[non_exhaustive]
pub enum UtilsError {
    /// Transport-level failure reaching a remote endpoint.
    Network,
    /// The HTTP round-trip completed but its result is not usable.
    Http,
    /// A constructor received an invalid combination of arguments.
    Config,
    /// A retry policy exhausted its budget without producing a success.
    RetryExhausted,
    /// A concurrency primitive failed.
    Concurrency,
    /// Any failure that fits none of the categories above.
    Internal,
}

impl UtilsError {
    /// The text that names each kind of failure.
    pub open spec fn text(self) -> Seq<char> {
        match self {
            UtilsError::Network => "Network error"@,
            UtilsError::Http => "HTTP error"@,
            UtilsError::Config => "Configuration error"@,
            UtilsError::RetryExhausted => "Retry exhausted"@,
            UtilsError::Concurrency => "Concurrency error"@,
            UtilsError::Internal => "Internal error"@,
        }
    }

    /// Name this kind of failure.
    pub fn describe(self) -> (r: &'static str)
        ensures
            r@ == self.text(),
    {
        match self {
            UtilsError::Network => "Network error",
            UtilsError::Http => "HTTP error",
            UtilsError::Config => "Configuration error",
            UtilsError::RetryExhausted => "Retry exhausted",
            UtilsError::Concurrency => "Concurrency error",
            UtilsError::Internal => "Internal error",
        }
    }
}

/// A failure: its current classification, the details attached to it in the
/// order of attachment, what it was reported as before, and the text of the
/// outside error that it goes back to.
#[derive(Debug)]
pub struct UtilsReport {
    context: UtilsError,
    attachments: Vec<String>,
    cause: Option<Box<UtilsReport>>,
    origin: Option<String>,
}

/// Shorthand for a result that fails with a [`UtilsReport`].
pub type UtilsResult<T> = Result<T, UtilsReport>;

/// A result with its report as a view.
pub open spec fn result_view<T>(result: UtilsResult<T>) -> Result<T, ReportView> {
    match result {
        Ok(value) => Ok(value),
        Err(report) => Err(report@),
    }
}

/// What a [`UtilsReport`] holds.
pub struct ReportView {
    pub context: UtilsError,
    pub attachments: Seq<Seq<char>>,
    pub cause: Option<Box<ReportView>>,
    pub origin: Option<Seq<char>>,
}

impl ReportView {
    /// A report that nothing caused.
    pub open spec fn fresh(context: UtilsError, attachments: Seq<Seq<char>>) -> ReportView {
        ReportView { context, attachments, cause: None, origin: None }
    }

    /// A report that an outside error with this text caused.
    pub open spec fn from_error(
        context: UtilsError,
        error: Seq<char>,
        attachments: Seq<Seq<char>>,
    ) -> ReportView {
        ReportView { context, attachments, cause: None, origin: Some(error) }
    }

    /// This report, reclassified, with its details kept in the cause.
    pub open spec fn rotated(self, context: UtilsError, attachments: Seq<Seq<char>>) -> ReportView {
        ReportView { context, attachments, cause: Some(Box::new(self)), origin: None }
    }

    /// The classifications of this report, from the current one down to the
    /// first.
    pub open spec fn contexts(self) -> Seq<UtilsError>
        decreases self,
    {
        match self.cause {
            None => seq![self.context],
            Some(cause) => seq![self.context] + cause.contexts(),
        }
    }
}

impl View for UtilsReport {
    type V = ReportView;

    closed spec fn view(&self) -> ReportView {
        self.model()
    }
}

impl UtilsReport {
    spec fn model(&self) -> ReportView
        decreases self,
    {
        ReportView {
            context: self.context,
            attachments: self.attachments@.map_values(|s: String| s@),
            cause: match self.cause {
                None => None,
                Some(cause) => Some(Box::new(cause.model())),
            },
            origin: match self.origin {
                None => None,
                Some(error) => Some(error@),
            },
        }
    }

    /// A report with no details yet.
    pub fn new(context: UtilsError) -> (r: UtilsReport)
        ensures
            r@ == ReportView::fresh(context, seq![]),
    {
        let r: UtilsReport = UtilsReport {
            context,
            attachments: Vec::new(),
            cause: None,
            origin: None,
        };
        assert(r@.attachments =~= seq![]);
        r
    }

    /// A report, with no details yet, of an outside error with this text.
    pub fn from_error(context: UtilsError, error: String) -> (r: UtilsReport)
        ensures
            r@ == ReportView::from_error(context, error@, seq![]),
    {
        let r: UtilsReport = UtilsReport {
            context,
            attachments: Vec::new(),
            cause: None,
            origin: Some(error),
        };
        assert(r@.attachments =~= seq![]);
        r
    }

    /// Attach one more detail.
    pub fn attach(self, detail: String) -> (r: UtilsReport)
        ensures
            r@ == (ReportView { attachments: self@.attachments.push(detail@), ..self@ }),
    {
        let mut attachments: Vec<String> = self.attachments;
        attachments.push(detail);
        let r: UtilsReport = UtilsReport {
            context: self.context,
            attachments,
            cause: self.cause,
            origin: self.origin,
        };
        assert(r@.attachments =~= self@.attachments.push(detail@));
        r
    }

    /// Reclassify the failure. What was reported so far becomes the cause.
    pub fn change_context(self, context: UtilsError) -> (r: UtilsReport)
        ensures
            r@ == self@.rotated(context, seq![]),
    {
        let r: UtilsReport = UtilsReport {
            context,
            attachments: Vec::new(),
            cause: Some(Box::new(self)),
            origin: None,
        };
        assert(r@.attachments =~= seq![]);
        r
    }

    /// The current classification.
    pub fn current_context(&self) -> (r: UtilsError)
        ensures
            r == self@.context,
    {
        self.context
    }

    /// The details attached since the last reclassification.
    pub fn attachments(&self) -> (r: &Vec<String>)
        ensures
            r@.map_values(|s: String| s@) == self@.attachments,
    {
        &self.attachments
    }

    /// What the failure was reported as before it was reclassified.
    pub fn cause(&self) -> (r: Option<&UtilsReport>)
        ensures
            r is Some <==> self@.cause is Some,
            r matches Some(cause) ==> self@.cause == Some(Box::new(cause@)),
    {
        match &self.cause {
            None => None,
            Some(cause) => Some(&**cause),
        }
    }

    /// The text of the outside error that this report was made of.
    pub fn origin(&self) -> (r: Option<&String>)
        ensures
            r is Some <==> self@.origin is Some,
            r matches Some(error) ==> self@.origin == Some(error@),
    {
        match &self.origin {
            None => None,
            Some(error) => Some(error),
        }
    }
}

/// Reclassifying a failure loses none of its earlier classifications, nor
/// anything else of what was reported.
pub proof fn rotation_keeps_contexts(report: ReportView, context: UtilsError, details: Seq<Seq<char>>)
    ensures
        report.rotated(context, details).contexts() == seq![context] + report.contexts(),
        report.rotated(context, details).cause == Some(Box::new(report)),
{
}

/// Every kind of failure has its own text.
pub proof fn kinds_have_their_texts(error: UtilsError, r: &'static str)
    requires
        call_ensures(UtilsError::describe, (error,), r),
    ensures
        r@ == (match error {
            UtilsError::Network => "Network error"@,
            UtilsError::Http => "HTTP error"@,
            UtilsError::Config => "Configuration error"@,
            UtilsError::RetryExhausted => "Retry exhausted"@,
            UtilsError::Concurrency => "Concurrency error"@,
            UtilsError::Internal => "Internal error"@,
        }),
{
}

/// A fresh report is of its kind and has only the details it is given; one of
/// an outside error also keeps that error's text, and a reclassified one the
/// whole report before.
pub proof fn reports_hold_what_they_are_given(
    report: ReportView,
    context: UtilsError,
    error: Seq<char>,
    details: Seq<Seq<char>>,
)
    ensures
        ({
            let fresh = ReportView::fresh(context, details);
            &&& fresh.context == context
            &&& fresh.attachments == details
            &&& fresh.cause is None
            &&& fresh.origin is None
            &&& fresh.contexts() =~= seq![context]
        }),
        ({
            let outside = ReportView::from_error(context, error, details);
            &&& outside.context == context
            &&& outside.attachments == details
            &&& outside.cause is None
            &&& outside.origin == Some(error)
        }),
        ({
            let rotated = report.rotated(context, details);
            &&& rotated.context == context
            &&& rotated.attachments == details
            &&& rotated.cause == Some(Box::new(report))
            &&& rotated.origin is None
        }),
{
}

/// Making, extending and reclassifying reports keeps every detail in the
/// order of attachment and loses nothing that was reported before.
pub proof fn report_operations_lose_nothing(
    context: UtilsError,
    error: String,
    detail: String,
    report: UtilsReport,
    made: UtilsReport,
    outside: UtilsReport,
    attached: UtilsReport,
    rotated: UtilsReport,
)
    requires
        call_ensures(UtilsReport::new, (context,), made),
        call_ensures(UtilsReport::from_error, (context, error), outside),
        call_ensures(UtilsReport::attach, (report, detail), attached),
        call_ensures(UtilsReport::change_context, (report, context), rotated),
    ensures
        made@.context == context && made@.attachments.len() == 0 && made@.cause is None
            && made@.origin is None,
        outside@.context == context && outside@.attachments.len() == 0 && outside@.cause is None
            && outside@.origin == Some(error@),
        attached@.context == report@.context && attached@.cause == report@.cause
            && attached@.origin == report@.origin,
        attached@.attachments.len() == report@.attachments.len() + 1,
        attached@.attachments.last() == detail@,
        attached@.attachments.drop_last() =~= report@.attachments,
        rotated@.context == context && rotated@.attachments.len() == 0 && rotated@.origin is None,
        rotated@.cause == Some(Box::new(report@)),
{
}

/// What is read of a report is what it holds.
pub proof fn report_accessors_read_the_report(
    report: &UtilsReport,
    context: UtilsError,
    details: &Vec<String>,
    cause: Option<&UtilsReport>,
    origin: Option<&String>,
)
    requires
        call_ensures(UtilsReport::current_context, (report,), context),
        call_ensures(UtilsReport::attachments, (report,), details),
        call_ensures(UtilsReport::cause, (report,), cause),
        call_ensures(UtilsReport::origin, (report,), origin),
    ensures
        context == report@.context,
        details@.len() == report@.attachments.len(),
        forall|i: int|
            0 <= i < details@.len() ==> (#[trigger] details@[i])@ == report@.attachments[i],
        report@.cause is None <==> cause is None,
        cause matches Some(c) ==> report@.cause == Some(Box::new(c@)),
        report@.origin is None <==> origin is None,
        origin matches Some(o) ==> report@.origin == Some(o@),
{
    let texts = details@.map_values(|s: String| s@);
    assert(texts == report@.attachments);
    assert(forall|i: int| 0 <= i < details@.len() ==> (#[trigger] details@[i])@ == texts[i]);
}

} // verus!
