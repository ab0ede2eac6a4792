//! Input validation for JSON payloads received over the network.
//!
//! [`validate_and_parse_json`] enforces two caps before the bytes reach
//! `serde_json`: one on the raw payload size and one on the nesting depth,
//! which objects and arrays share. Brackets inside string literals do not
//! nest. Every failure is a [`UtilsError::Internal`] report whose attachment
//! tells the failure modes apart.

use vstd::prelude::*;
use vstd::string::*;

use crate::error::{ReportView, UtilsError, UtilsReport, UtilsResult};
use crate::text;
use crate::text::decimal_text;

verus! {

/// The byte `"`.
pub const QUOTE: u8 = 0x22;

/// The byte `[`.
pub const OPEN_BRACKET: u8 = 0x5b;

/// The byte `\`.
pub const BACKSLASH: u8 = 0x5c;

/// The byte `]`.
pub const CLOSE_BRACKET: u8 = 0x5d;

/// The byte `{`.
pub const OPEN_BRACE: u8 = 0x7b;

/// The byte `}`.
pub const CLOSE_BRACE: u8 = 0x7d;

/// How many backslashes stand immediately before position `i`.
pub open spec fn backslashes_before(data: Seq<u8>, i: int) -> nat
    decreases i,
{
    if i > 0 && data[i - 1] == BACKSLASH {
        1 + backslashes_before(data, i - 1)
    } else {
        0
    }
}

/// Whether the byte at `i` is escaped: an odd number of backslashes precedes
/// it.
pub open spec fn is_escaped(data: Seq<u8>, i: int) -> bool {
    backslashes_before(data, i) % 2 == 1
}

/// Whether a string literal is open after the first `n` bytes.
pub open spec fn in_string(data: Seq<u8>, n: int) -> bool
    decreases n,
{
    if n <= 0 {
        false
    } else if in_string(data, n - 1) {
        data[n - 1] != QUOTE || is_escaped(data, n - 1)
    } else {
        data[n - 1] == QUOTE
    }
}

/// What the byte at `i` adds to the nesting depth.
pub open spec fn nesting_step(data: Seq<u8>, i: int) -> int {
    if in_string(data, i) {
        0
    } else if data[i] == OPEN_BRACE || data[i] == OPEN_BRACKET {
        1
    } else if data[i] == CLOSE_BRACE || data[i] == CLOSE_BRACKET {
        -1
    } else {
        0
    }
}

/// The brackets opened and not yet closed in the first `n` bytes, those in
/// string literals aside.
pub open spec fn nesting(data: Seq<u8>, n: int) -> int
    decreases n,
{
    if n <= 0 {
        0
    } else {
        nesting(data, n - 1) + nesting_step(data, n - 1)
    }
}

/// The deepest nesting reached in the first `n` bytes.
pub open spec fn peak_nesting(data: Seq<u8>, n: int) -> int
    decreases n,
{
    if n <= 0 {
        0
    } else if nesting(data, n) > peak_nesting(data, n - 1) {
        nesting(data, n)
    } else {
        peak_nesting(data, n - 1)
    }
}

/// Whether the nesting leaves `0..=max` for the first time with the `p`-th
/// byte.
pub open spec fn leaves_range_at(data: Seq<u8>, max: int, p: int) -> bool {
    &&& 0 < p <= data.len()
    &&& !(0 <= nesting(data, p) <= max)
    &&& forall|k: int| 0 <= k < p ==> 0 <= #[trigger] nesting(data, k) <= max
}

/// The text of a depth limit exceeded with the `position`-th byte.
pub open spec fn too_deep_text(position: nat, depth: nat, max: nat) -> Seq<char> {
    "JSON depth limit exceeded at position "@ + text::decimal(position) + ": depth "@
        + text::decimal(depth) + ", max "@ + text::decimal(max)
}

/// The text of a bracket that closes nothing.
pub open spec fn unmatched_closing_text(position: nat) -> Seq<char> {
    "invalid JSON: unmatched closing bracket at position "@ + text::decimal(position)
}

/// The text of brackets that nothing closes.
pub open spec fn unmatched_opening_text(count: nat) -> Seq<char> {
    "invalid JSON: "@ + text::decimal(count) + " unmatched opening bracket(s)"@
}

/// The nesting depth of `data`, or why it is rejected: the first byte that
/// takes the nesting above `max` or below zero, else a string literal that
/// is still open at the end, else brackets that are.
pub open spec fn depth_verdict(data: Seq<u8>, max: nat) -> Result<nat, Seq<char>> {
    let len = data.len() as int;
    if exists|p: int| leaves_range_at(data, max as int, p) {
        let p = choose|p: int| leaves_range_at(data, max as int, p);
        if nesting(data, p) < 0 {
            Err(unmatched_closing_text(p as nat))
        } else {
            Err(too_deep_text(p as nat, nesting(data, p) as nat, max))
        }
    } else if in_string(data, len) {
        Err("invalid JSON: unterminated string literal"@)
    } else if nesting(data, len) != 0 {
        Err(unmatched_opening_text(nesting(data, len) as nat))
    } else {
        Ok(peak_nesting(data, len) as nat)
    }
}

/// A report of the one kind of failure that this module has.
pub open spec fn internal_report(detail: Seq<char>) -> ReportView {
    ReportView::fresh(UtilsError::Internal, seq![detail])
}

/// Only one byte can be the first to leave the range.
proof fn lemma_first_is_unique(data: Seq<u8>, max: int, p: int, q: int)
    requires
        leaves_range_at(data, max, p),
        leaves_range_at(data, max, q),
    ensures
        p == q,
{
}

fn internal(detail: String) -> (r: UtilsReport)
    ensures
        r@ == internal_report(detail@),
{
    let r: UtilsReport = UtilsReport::new(UtilsError::Internal).attach(detail);
    assert(r@.attachments =~= seq![detail@]);
    r
}

fn too_deep(position: usize, depth: usize, max: usize) -> (r: UtilsReport)
    ensures
        r@ == internal_report(too_deep_text(position as nat, depth as nat, max as nat)),
{
    let mut text: String = "JSON depth limit exceeded at position ".to_string();
    text.append(decimal_text(position as u64).as_str());
    text.append(": depth ");
    text.append(decimal_text(depth as u64).as_str());
    text.append(", max ");
    text.append(decimal_text(max as u64).as_str());
    internal(text)
}

fn unmatched_closing(position: usize) -> (r: UtilsReport)
    ensures
        r@ == internal_report(unmatched_closing_text(position as nat)),
{
    let mut text: String = "invalid JSON: unmatched closing bracket at position ".to_string();
    text.append(decimal_text(position as u64).as_str());
    internal(text)
}

fn unmatched_opening(count: usize) -> (r: UtilsReport)
    ensures
        r@ == internal_report(unmatched_opening_text(count as nat)),
{
    let mut text: String = "invalid JSON: ".to_string();
    text.append(decimal_text(count as u64).as_str());
    text.append(" unmatched opening bracket(s)");
    internal(text)
}

/// Whether the byte at `i` is escaped.
fn escaped_at(data: &[u8], i: usize) -> (r: bool)
    requires
        i <= data@.len(),
    ensures
        r == is_escaped(data@, i as int),
{
    let mut escape_count: usize = 0;
    let mut j: usize = i;
    while j > 0 && data[j - 1] == BACKSLASH
        invariant
            0 <= j <= i <= data@.len(),
            escape_count == i - j,
            backslashes_before(data@, i as int) == escape_count + backslashes_before(data@, j as int),
        decreases j,
    {
        j -= 1;
        escape_count += 1;
    }
    escape_count % 2 == 1
}

/// Scan `data` as JSON and return the deepest nesting it reaches, or the
/// reason for its rejection.
///
/// Stops at the first byte that takes the nesting above `max_depth`.
pub fn calculate_json_depth(data: &[u8], max_depth: usize) -> (r: UtilsResult<usize>)
    ensures
        match (r, depth_verdict(data@, max_depth as nat)) {
            (Ok(depth), Ok(expected)) => depth == expected,
            (Err(report), Err(text)) => report@ == internal_report(text),
            _ => false,
        },
{
    let mut current_depth: usize = 0;
    let mut max_depth_seen: usize = 0;
    let mut inside_string: bool = false;
    let mut i: usize = 0;
    while i < data.len()
        invariant
            0 <= i <= data@.len(),
            current_depth == nesting(data@, i as int),
            current_depth <= i,
            current_depth <= max_depth_seen <= max_depth,
            max_depth_seen == peak_nesting(data@, i as int),
            inside_string == in_string(data@, i as int),
            forall|k: int| 0 <= k <= i ==> 0 <= #[trigger] nesting(data@, k) <= max_depth,
        decreases data@.len() - i,
    {
        let byte: u8 = data[i];
        let ghost next = i + 1;
        assert(nesting(data@, next) == nesting(data@, i as int) + nesting_step(data@, i as int));
        if inside_string {
            if byte == QUOTE && !escaped_at(data, i) {
                inside_string = false;
            }
        } else if byte == QUOTE {
            inside_string = true;
        } else if byte == OPEN_BRACE || byte == OPEN_BRACKET {
            current_depth += 1;
            if current_depth > max_depth_seen {
                max_depth_seen = current_depth;
            }
            if max_depth_seen > max_depth {
                proof {
                    assert(leaves_range_at(data@, max_depth as int, next));
                    let p = choose|p: int| leaves_range_at(data@, max_depth as int, p);
                    lemma_first_is_unique(data@, max_depth as int, p, next);
                }
                return Err(too_deep(i + 1, max_depth_seen, max_depth));
            }
        } else if byte == CLOSE_BRACE || byte == CLOSE_BRACKET {
            if current_depth == 0 {
                proof {
                    assert(leaves_range_at(data@, max_depth as int, next));
                    let p = choose|p: int| leaves_range_at(data@, max_depth as int, p);
                    lemma_first_is_unique(data@, max_depth as int, p, next);
                }
                return Err(unmatched_closing(i + 1));
            }
            current_depth -= 1;
        }
        i += 1;
    }
    assert(!exists|p: int| leaves_range_at(data@, max_depth as int, p));
    // An unterminated string swallows the brackets after it, so it is
    // reported before them.
    if inside_string {
        return Err(internal("invalid JSON: unterminated string literal".to_string()));
    }
    if current_depth != 0 {
        return Err(unmatched_opening(current_depth));
    }
    Ok(max_depth_seen)
}

/// The text of a payload above the size cap.
pub open spec fn too_large_text(len: nat, max: nat) -> Seq<char> {
    "request body too large: "@ + text::decimal(len) + " bytes (max: "@ + text::decimal(max) + ")"@
}

/// The nesting depth of `data`, or why it is rejected before it is parsed:
/// its size first, then its structure.
pub open spec fn limits_verdict(data: Seq<u8>, max_size: nat, max_depth: nat) -> Result<
    nat,
    Seq<char>,
> {
    if data.len() > max_size {
        Err(too_large_text(data.len(), max_size))
    } else {
        depth_verdict(data, max_depth)
    }
}

/// Hold `data` to the size and nesting caps, without parsing it, and return
/// the nesting depth.
pub fn check_json_limits(
    data: &[u8],
    max_request_body_size: usize,
    max_json_depth: usize,
) -> (r: UtilsResult<usize>)
    ensures
        match (r, limits_verdict(data@, max_request_body_size as nat, max_json_depth as nat)) {
            (Ok(depth), Ok(expected)) => depth == expected,
            (Err(report), Err(text)) => report@ == internal_report(text),
            _ => false,
        },
{
    if data.len() > max_request_body_size {
        let mut text: String = "request body too large: ".to_string();
        text.append(decimal_text(data.len() as u64).as_str());
        text.append(" bytes (max: ");
        text.append(decimal_text(max_request_body_size as u64).as_str());
        text.append(")");
        return Err(internal(text));
    }
    calculate_json_depth(data, max_json_depth)
}

/// A JSON document as `serde_json` holds it.
#[verifier::external_type_specification]
#[verifier::external_body]
pub struct ExJsonValue(serde_json::Value);

/// The document that `serde_json` reads from these bytes, or the text of the
/// error with which it rejects them.
pub uninterp spec fn json_document(bytes: Seq<u8>) -> Result<serde_json::Value, Seq<char>>;

/// Calls `serde_json::from_slice` for a `serde_json::Value`, and renders the
/// error where it fails. The contract claims that whether it succeeds, with
/// which document or else with which error text, is determined by the bytes.
#[verifier::external_body]
pub(crate) fn parse_document(data: &[u8]) -> (r: Result<serde_json::Value, String>)
    ensures
        match json_document(data@) {
            Ok(document) => r == Ok::<serde_json::Value, String>(document),
            Err(error) => r matches Err(text) && text@ == error,
        },
{
    serde_json::from_slice(data).map_err(|e: serde_json::Error| e.to_string())
}

/// The report of a payload that is rejected with this error.
pub open spec fn deserialization_report(error: Seq<char>) -> ReportView {
    ReportView::from_error(UtilsError::Internal, error, seq!["JSON deserialization failed"@])
}

/// The outcome of deserializing a payload that passed the caps: what was
/// read, or a report of the error.
pub fn deserialized<T>(parsed: Result<T, String>) -> (r: UtilsResult<T>)
    ensures
        match parsed {
            Ok(value) => r == Ok::<T, UtilsReport>(value),
            Err(error) => r matches Err(report) && report@ == deserialization_report(error@),
        },
{
    match parsed {
        Ok(value) => Ok(value),
        Err(error) => {
            let detail: String = "JSON deserialization failed".to_string();
            let report: UtilsReport = UtilsReport::from_error(UtilsError::Internal, error).attach(
                detail,
            );
            assert(report@.attachments =~= seq![detail@]);
            Err(report)
        },
    }
}

/// Hold `data` to the size and nesting caps, then read it as JSON.
///
/// `max_request_body_size` caps `data.len()`; `max_json_depth` caps the
/// nesting. Bytes that break a cap never reach the parser.
pub fn validate_and_parse_json(
    data: &[u8],
    max_request_body_size: usize,
    max_json_depth: usize,
) -> (r: UtilsResult<serde_json::Value>)
    ensures
        match limits_verdict(data@, max_request_body_size as nat, max_json_depth as nat) {
            Err(text) => r matches Err(report) && report@ == internal_report(text),
            Ok(_) => match json_document(data@) {
                Ok(document) => r == Ok::<serde_json::Value, UtilsReport>(document),
                Err(error) => r matches Err(report) && report@ == deserialization_report(error),
            },
        },
{
    match check_json_limits(data, max_request_body_size, max_json_depth) {
        Err(report) => Err(report),
        Ok(_) => deserialized(parse_document(data)),
    }
}

/// The scan of a prefix is the same whatever follows it.
proof fn lemma_scan_of_prefix(a: Seq<u8>, b: Seq<u8>, n: int)
    requires
        0 <= n <= a.len(),
        n <= b.len(),
        a.take(n) == b.take(n),
    ensures
        backslashes_before(a, n) == backslashes_before(b, n),
        in_string(a, n) == in_string(b, n),
        nesting(a, n) == nesting(b, n),
        peak_nesting(a, n) == peak_nesting(b, n),
    decreases n,
{
    if n > 0 {
        assert(a[n - 1] == a.take(n)[n - 1]);
        assert(b[n - 1] == b.take(n)[n - 1]);
        assert(a.take(n - 1) =~= a.take(n).take(n - 1));
        assert(b.take(n - 1) =~= b.take(n).take(n - 1));
        lemma_scan_of_prefix(a, b, n - 1);
    }
}

/// The peak bounds every nesting on the way, and is one of them.
proof fn lemma_peak(data: Seq<u8>, n: int)
    requires
        0 <= n,
    ensures
        peak_nesting(data, n) >= 0,
        forall|k: int| 0 <= k <= n ==> #[trigger] nesting(data, k) <= peak_nesting(data, n),
        exists|k: int| 0 <= k <= n && #[trigger] nesting(data, k) == peak_nesting(data, n),
    decreases n,
{
    if n > 0 {
        lemma_peak(data, n - 1);
        let w = choose|k: int| 0 <= k <= n - 1 && #[trigger] nesting(data, k) == peak_nesting(
            data,
            n - 1,
        );
        if nesting(data, n) > peak_nesting(data, n - 1) {
            assert(nesting(data, n) == peak_nesting(data, n));
        } else {
            assert(nesting(data, w) == peak_nesting(data, n));
        }
    } else {
        assert(nesting(data, 0) == 0);
    }
}

/// Payloads that are accepted nest no deeper than the cap.
pub proof fn accepted_depth_is_within_cap(data: Seq<u8>, max: nat)
    requires
        depth_verdict(data, max) is Ok,
    ensures
        depth_verdict(data, max)->Ok_0 <= max,
        depth_verdict(data, max)->Ok_0 == peak_nesting(data, data.len() as int),
{
    let len = data.len() as int;
    lemma_peak(data, len);
    lemma_in_range(data, max as int, len);
}

/// Where no byte is the first to leave the range, none leaves it.
proof fn lemma_in_range(data: Seq<u8>, max: int, n: int)
    requires
        0 <= n <= data.len(),
        0 <= max,
        !exists|p: int| leaves_range_at(data, max, p),
    ensures
        forall|k: int| 0 <= k <= n ==> 0 <= #[trigger] nesting(data, k) <= max,
    decreases n,
{
    if n > 0 {
        lemma_in_range(data, max, n - 1);
        assert(!leaves_range_at(data, max, n));
    } else {
        assert(nesting(data, 0) == 0);
    }
}

/// A payload that is accepted under one depth cap is accepted under any cap
/// that is not below its own depth, and its depth is the same.
pub proof fn depth_cap_may_be_the_depth_itself(data: Seq<u8>, max: nat, other: nat)
    requires
        depth_verdict(data, max) is Ok,
        depth_verdict(data, max)->Ok_0 <= other,
    ensures
        depth_verdict(data, other) == depth_verdict(data, max),
{
    let len = data.len() as int;
    lemma_peak(data, len);
    lemma_in_range(data, max as int, len);
    assert forall|p: int| !leaves_range_at(data, other as int, p) by {
        if 0 < p <= len {
            assert(0 <= nesting(data, p) <= peak_nesting(data, len));
        }
    }
}

/// A payload that nests deeper than a cap is rejected under it, even where
/// its structure is sound.
pub proof fn deeper_than_cap_is_rejected(data: Seq<u8>, max: nat, k: int)
    requires
        0 <= k <= data.len(),
        nesting(data, k) > max,
    ensures
        depth_verdict(data, max) is Err,
{
    if depth_verdict(data, max) is Ok {
        lemma_in_range(data, max as int, data.len() as int);
    }
}

/// A payload that is rejected at one of its bytes, for nesting too deep or
/// for closing nothing, is rejected alike whatever bytes follow.
pub proof fn rejection_ignores_what_follows(data: Seq<u8>, rest: Seq<u8>, max: nat, p: int)
    requires
        leaves_range_at(data, max as int, p),
    ensures
        depth_verdict(data, max) is Err,
        depth_verdict(data + rest, max) == depth_verdict(data, max),
{
    let longer = data + rest;
    assert forall|k: int| 0 <= k <= data.len() implies #[trigger] nesting(longer, k) == nesting(
        data,
        k,
    ) by {
        assert(longer.take(k) =~= data.take(k));
        lemma_scan_of_prefix(longer, data, k);
    }
    assert(leaves_range_at(longer, max as int, p));
    let q = choose|q: int| leaves_range_at(data, max as int, q);
    let r = choose|r: int| leaves_range_at(longer, max as int, r);
    lemma_first_is_unique(data, max as int, p, q);
    lemma_first_is_unique(longer, max as int, p, r);
}

/// What stands between the quotes of a string literal: no quote in it is
/// unescaped, and its last backslash does not escape the closing quote.
pub open spec fn is_string_body(body: Seq<u8>) -> bool {
    &&& forall|i: int| 0 <= i < body.len() && #[trigger] body[i] == QUOTE ==> is_escaped(body, i)
    &&& !is_escaped(body, body.len() as int)
}

/// A run of backslashes inside a string literal ends at its opening quote.
proof fn lemma_escapes_stay_inside(before: Seq<u8>, body: Seq<u8>, data: Seq<u8>, n: int)
    requires
        0 <= n <= body.len(),
        data.len() > before.len() + body.len(),
        data[before.len() as int] == QUOTE,
        forall|j: int|
            0 <= j < body.len() ==> data[before.len() + 1 + j] == #[trigger] body[j],
    ensures
        backslashes_before(data, before.len() + 1 + n) == backslashes_before(body, n),
    decreases n,
{
    if n > 0 {
        assert(data[before.len() + 1 + (n - 1)] == body[n - 1]);
        lemma_escapes_stay_inside(before, body, data, n - 1);
    }
}

/// A string literal leaves the nesting as it was, whatever brackets and
/// escaped quotes it holds.
pub proof fn string_literals_do_not_nest(before: Seq<u8>, body: Seq<u8>)
    requires
        !in_string(before, before.len() as int),
        is_string_body(body),
    ensures
        ({
            let data = before.push(QUOTE) + body.push(QUOTE);
            &&& !in_string(data, data.len() as int)
            &&& nesting(data, data.len() as int) == nesting(before, before.len() as int)
            &&& peak_nesting(data, data.len() as int) == peak_nesting(before, before.len() as int)
        }),
{
    let data = before.push(QUOTE) + body.push(QUOTE);
    let start = before.len() as int;
    assert(data.take(start) =~= before.take(start));
    lemma_scan_of_prefix(data, before, start);
    lemma_peak(data, start);
    lemma_inside_literal(before, body, data, body.len() as int);
    let end = start + 1 + body.len();
    assert(data[end] == QUOTE);
    lemma_escapes_stay_inside(before, body, data, body.len() as int);
}

/// Up to its closing quote a string literal stays open and nests nothing.
proof fn lemma_inside_literal(before: Seq<u8>, body: Seq<u8>, data: Seq<u8>, n: int)
    requires
        0 <= n <= body.len(),
        data == before.push(QUOTE) + body.push(QUOTE),
        !in_string(data, before.len() as int),
        is_string_body(body),
    ensures
        in_string(data, before.len() + 1 + n),
        nesting(data, before.len() + 1 + n) == nesting(data, before.len() as int),
        peak_nesting(data, before.len() + 1 + n) == peak_nesting(data, before.len() as int),
    decreases n,
{
    let start = before.len() as int;
    lemma_peak(data, start);
    if n > 0 {
        lemma_inside_literal(before, body, data, n - 1);
        lemma_escapes_stay_inside(before, body, data, n - 1);
        assert(data[start + n] == body[n - 1]);
    } else {
        assert(data[start] == QUOTE);
    }
}

/// Two texts scanned to the same state stay in step over what follows.
proof fn lemma_same_continuation(a: Seq<u8>, b: Seq<u8>, after: Seq<u8>, n: int)
    requires
        0 <= n <= after.len(),
        !in_string(a, a.len() as int),
        !in_string(b, b.len() as int),
        nesting(a, a.len() as int) == nesting(b, b.len() as int),
        peak_nesting(a, a.len() as int) == peak_nesting(b, b.len() as int),
    ensures
        in_string(a + after, a.len() + n) == in_string(b + after, b.len() + n),
        in_string(a + after, a.len() + n) ==> backslashes_before(a + after, a.len() + n)
            == backslashes_before(b + after, b.len() + n),
        nesting(a + after, a.len() + n) == nesting(b + after, b.len() + n),
        peak_nesting(a + after, a.len() + n) == peak_nesting(b + after, b.len() + n),
    decreases n,
{
    if n > 0 {
        lemma_same_continuation(a, b, after, n - 1);
        assert((a + after)[a.len() + n - 1] == after[n - 1]);
        assert((b + after)[b.len() + n - 1] == after[n - 1]);
    } else {
        assert((a + after).take(a.len() as int) =~= a.take(a.len() as int));
        assert((b + after).take(b.len() as int) =~= b.take(b.len() as int));
        lemma_scan_of_prefix(a + after, a, a.len() as int);
        lemma_scan_of_prefix(b + after, b, b.len() as int);
    }
}

/// Where every nesting stays in range, no byte is the first to leave it.
proof fn lemma_never_leaves(data: Seq<u8>, max: int)
    requires
        forall|k: int| 0 <= k <= data.len() ==> 0 <= #[trigger] nesting(data, k) <= max,
    ensures
        !exists|p: int| leaves_range_at(data, max, p),
{
}

/// Putting a string literal into a text changes neither whether its nesting
/// is accepted nor the depth that is found.
pub proof fn string_literals_do_not_affect_the_depth(
    before: Seq<u8>,
    body: Seq<u8>,
    after: Seq<u8>,
    max: nat,
)
    requires
        !in_string(before, before.len() as int),
        is_string_body(body),
    ensures
        ({
            let plain = depth_verdict(before + after, max);
            let quoted = depth_verdict(before.push(QUOTE) + body.push(QUOTE) + after, max);
            &&& plain is Ok <==> quoted is Ok
            &&& plain is Ok ==> plain == quoted
        }),
{
    let literal = before.push(QUOTE) + body.push(QUOTE);
    let plain = before + after;
    let quoted = literal + after;
    let cut = before.len() as int;
    let moved = literal.len() as int;
    string_literals_do_not_nest(before, body);
    lemma_same_continuation(before, literal, after, after.len() as int);
    assert forall|k: int| 0 <= k <= cut implies #[trigger] nesting(plain, k) == nesting(quoted, k) by {
        assert(plain.take(k) =~= quoted.take(k));
        lemma_scan_of_prefix(plain, quoted, k);
    }
    assert forall|k: int| cut < k <= moved implies #[trigger] nesting(quoted, k) == nesting(
        plain,
        cut,
    ) by {
        assert(quoted.take(k) =~= literal.take(k));
        lemma_scan_of_prefix(quoted, literal, k);
        assert(literal.take(cut) =~= before.take(cut));
        lemma_scan_of_prefix(literal, before, cut);
        assert(plain.take(cut) =~= before.take(cut));
        lemma_scan_of_prefix(plain, before, cut);
        if k < moved {
            lemma_inside_literal(before, body, literal, k - cut - 1);
        }
    }
    assert forall|n: int| 0 <= n <= after.len() implies #[trigger] nesting(plain, cut + n) == nesting(
        quoted,
        moved + n,
    ) by {
        lemma_same_continuation(before, literal, after, n);
    }
    if !exists|p: int| leaves_range_at(plain, max as int, p) {
        lemma_in_range(plain, max as int, plain.len() as int);
        assert forall|k: int| 0 <= k <= quoted.len() implies 0 <= #[trigger] nesting(quoted, k)
            <= max by {
            if k <= cut {
                assert(nesting(plain, k) == nesting(quoted, k));
            } else if k > moved {
                assert(nesting(plain, cut + (k - moved)) == nesting(quoted, moved + (k - moved)));
            }
        }
        lemma_never_leaves(quoted, max as int);
    }
    if !exists|p: int| leaves_range_at(quoted, max as int, p) {
        lemma_in_range(quoted, max as int, quoted.len() as int);
        assert forall|k: int| 0 <= k <= plain.len() implies 0 <= #[trigger] nesting(plain, k)
            <= max by {
            if k <= cut {
                assert(nesting(plain, k) == nesting(quoted, k));
            } else {
                assert(nesting(plain, cut + (k - cut)) == nesting(quoted, moved + (k - cut)));
            }
        }
        lemma_never_leaves(plain, max as int);
    }
}

/// A byte is escaped exactly where an unescaped backslash stands before it.
pub proof fn backslashes_escape_alternately(data: Seq<u8>, i: int)
    requires
        0 <= i,
    ensures
        !is_escaped(data, 0),
        is_escaped(data, i + 1) <==> data[i] == 0x5c && !is_escaped(data, i),
{
}

/// Outside a literal a quote opens one, and inside one the next quote that is
/// not escaped closes it; no other byte does either.
pub proof fn quotes_open_and_close_literals(data: Seq<u8>, i: int)
    requires
        0 <= i,
    ensures
        !in_string(data, 0),
        !in_string(data, i) ==> (in_string(data, i + 1) <==> data[i] == 0x22),
        in_string(data, i) ==> (in_string(data, i + 1) <==> !(data[i] == 0x22 && !is_escaped(
            data,
            i,
        ))),
{
}

/// The positions before `n`, in order.
pub open spec fn positions(n: nat) -> Seq<int> {
    Seq::new(n, |i: int| i)
}

/// The nesting after some bytes is the number of `{` and `[` among them that
/// stand outside of literals, less the number of `}` and `]` that do.
pub proof fn nesting_counts_brackets(data: Seq<u8>, n: nat)
    ensures
        nesting(data, n as int) == positions(n).filter(
            |i: int| !in_string(data, i) && (data[i] == 0x7b || data[i] == 0x5b),
        ).len() - positions(n).filter(
            |i: int| !in_string(data, i) && (data[i] == 0x7d || data[i] == 0x5d),
        ).len(),
    decreases n,
{
    reveal(Seq::filter);
    let opening = |i: int| !in_string(data, i) && (data[i] == 0x7b || data[i] == 0x5b);
    let closing = |i: int| !in_string(data, i) && (data[i] == 0x7d || data[i] == 0x5d);
    if n > 0 {
        nesting_counts_brackets(data, (n - 1) as nat);
        assert(positions(n).drop_last() =~= positions((n - 1) as nat));
        assert(positions(n).last() == n - 1);
        assert(positions(n).filter(opening) == (if opening(n - 1) {
            positions((n - 1) as nat).filter(opening).push(n - 1)
        } else {
            positions((n - 1) as nat).filter(opening)
        }));
        assert(positions(n).filter(closing) == (if closing(n - 1) {
            positions((n - 1) as nat).filter(closing).push(n - 1)
        } else {
            positions((n - 1) as nat).filter(closing)
        }));
    } else {
        assert(positions(0) =~= Seq::empty());
    }
}

/// Outside of literals every opening bracket raises the nesting by one and
/// every closing one lowers it by one, however deep it is; nothing else
/// changes it.
pub proof fn brackets_change_the_nesting_by_one(data: Seq<u8>, i: int)
    requires
        0 <= i,
    ensures
        nesting(data, 0) == 0,
        !in_string(data, i) && (data[i] == 0x7b || data[i] == 0x5b) ==> nesting(data, i + 1)
            == nesting(data, i) + 1,
        !in_string(data, i) && (data[i] == 0x7d || data[i] == 0x5d) ==> nesting(data, i + 1)
            == nesting(data, i) - 1,
        in_string(data, i) || !(data[i] == 0x7b || data[i] == 0x5b || data[i] == 0x7d || data[i]
            == 0x5d) ==> nesting(data, i + 1) == nesting(data, i),
{
}

/// A payload is accepted exactly where the nesting stays between zero and the
/// cap throughout, no literal is left open and every bracket is closed; its
/// depth is the deepest nesting that is reached.
pub proof fn accepted_payloads_are_balanced(data: Seq<u8>, max: nat)
    ensures
        depth_verdict(data, max) is Ok <==> {
            &&& forall|k: int| 0 <= k <= data.len() ==> 0 <= #[trigger] nesting(data, k) <= max
            &&& !in_string(data, data.len() as int)
            &&& nesting(data, data.len() as int) == 0
        },
        depth_verdict(data, max) matches Ok(depth) ==> (forall|k: int|
            0 <= k <= data.len() ==> #[trigger] nesting(data, k) <= depth) && (exists|k: int|
            0 <= k <= data.len() && #[trigger] nesting(data, k) == depth),
{
    let len = data.len() as int;
    lemma_peak(data, len);
    if !exists|p: int| leaves_range_at(data, max as int, p) {
        lemma_in_range(data, max as int, len);
    } else {
        let p = choose|p: int| leaves_range_at(data, max as int, p);
        assert(!(0 <= nesting(data, p) <= max));
    }
}

/// A payload is rejected at the first byte that takes the nesting out of its
/// range, with the position of that byte; else for a literal that is left
/// open; else for the brackets that are.
pub proof fn rejections_tell_the_first_fault(data: Seq<u8>, max: nat, p: int)
    requires
        0 < p <= data.len(),
        forall|k: int| 0 <= k < p ==> 0 <= #[trigger] nesting(data, k) <= max,
    ensures
        nesting(data, p) > max ==> depth_verdict(data, max) == Err::<nat, Seq<char>>(
            "JSON depth limit exceeded at position "@ + text::decimal(p as nat) + ": depth "@
                + text::decimal(nesting(data, p) as nat) + ", max "@ + text::decimal(max),
        ),
        nesting(data, p) < 0 ==> depth_verdict(data, max) == Err::<nat, Seq<char>>(
            "invalid JSON: unmatched closing bracket at position "@ + text::decimal(p as nat),
        ),
        p == data.len() && 0 <= nesting(data, p) <= max && in_string(data, p) ==> depth_verdict(
            data,
            max,
        ) == Err::<nat, Seq<char>>("invalid JSON: unterminated string literal"@),
        p == data.len() && 0 < nesting(data, p) <= max && !in_string(data, p) ==> depth_verdict(
            data,
            max,
        ) == Err::<nat, Seq<char>>(
            "invalid JSON: "@ + text::decimal(nesting(data, p) as nat)
                + " unmatched opening bracket(s)"@,
        ),
{
    if !(0 <= nesting(data, p) <= max) {
        assert(leaves_range_at(data, max as int, p));
        let q = choose|q: int| leaves_range_at(data, max as int, q);
        lemma_first_is_unique(data, max as int, p, q);
    } else if p == data.len() {
        lemma_never_leaves(data, max as int);
    }
}

/// Between brackets, or as the value of an object's only key, an accepted
/// payload is accepted under a cap that is one higher, and is one deeper.
pub proof fn wrapping_adds_one_level(t: Seq<u8>, body: Seq<u8>, max: nat)
    requires
        depth_verdict(t, max) is Ok,
        is_string_body(body),
    ensures
        depth_verdict(seq![0x5bu8] + t + seq![0x5du8], max + 1) == Ok::<nat, Seq<char>>(
            depth_verdict(t, max)->Ok_0 + 1,
        ),
        depth_verdict(
            seq![0x7bu8, 0x22u8] + body + seq![0x22u8, 0x3au8] + t + seq![0x7du8],
            max + 1,
        ) == Ok::<nat, Seq<char>>(depth_verdict(t, max)->Ok_0 + 1),
{
    let open = seq![0x5bu8];
    reveal_with_fuel(nesting, 2);
    reveal_with_fuel(peak_nesting, 2);
    reveal_with_fuel(in_string, 2);
    assert(!in_string(open, 1));
    assert(nesting(open, 1) == 1);
    assert(peak_nesting(open, 1) == 1);
    lemma_wrapped(open, t, 0x5du8, max);
    let key = seq![0x7bu8].push(QUOTE) + body.push(QUOTE);
    let brace = seq![0x7bu8];
    assert(!in_string(brace, 1));
    assert(nesting(brace, 1) == 1);
    assert(peak_nesting(brace, 1) == 1);
    string_literals_do_not_nest(brace, body);
    let front = key.push(0x3au8);
    let len = key.len() as int;
    assert(front.take(len) =~= key.take(len));
    lemma_scan_of_prefix(front, key, len);
    assert(front[len] == 0x3a);
    assert(nesting(front, len + 1) == 1);
    assert forall|k: int| 0 <= k <= front.len() implies 0 <= #[trigger] nesting(front, k) <= 1 by {
        lemma_key_nests_once(body, k);
    }
    lemma_wrapped(front, t, 0x7du8, max);
    assert(seq![0x7bu8, 0x22u8] + body + seq![0x22u8, 0x3au8] + t + seq![0x7du8] =~= front + t
        + seq![0x7du8]);
}

/// Within an object's opening brace and only key the nesting is one.
proof fn lemma_key_nests_once(body: Seq<u8>, k: int)
    requires
        is_string_body(body),
        0 <= k <= body.len() + 4,
    ensures
        ({
            let front = (seq![0x7bu8].push(QUOTE) + body.push(QUOTE)).push(0x3au8);
            0 <= nesting(front, k) <= 1
        }),
{
    let brace = seq![0x7bu8];
    let key = brace.push(QUOTE) + body.push(QUOTE);
    let front = key.push(0x3au8);
    reveal_with_fuel(nesting, 2);
    reveal_with_fuel(in_string, 2);
    string_literals_do_not_nest(brace, body);
    assert(!in_string(key, 1)) by {
        assert(key.take(1) =~= brace.take(1));
        lemma_scan_of_prefix(key, brace, 1);
    }
    assert(nesting(key, 1) == 1) by {
        assert(key.take(1) =~= brace.take(1));
        lemma_scan_of_prefix(key, brace, 1);
    }
    if k <= key.len() {
        assert(front.take(k) =~= key.take(k));
        lemma_scan_of_prefix(front, key, k);
        if 2 <= k < key.len() {
            lemma_inside_literal(brace, body, key, k - 2);
        }
    } else {
        let len = key.len() as int;
        assert(front.take(len) =~= key.take(len));
        lemma_scan_of_prefix(front, key, len);
        assert(front[len] == 0x3a);
    }
}

/// What stands behind a front that leaves one bracket open nests one deeper.
proof fn lemma_wrapped(front: Seq<u8>, t: Seq<u8>, close: u8, max: nat)
    requires
        depth_verdict(t, max) is Ok,
        front.len() > 0,
        front.last() != BACKSLASH,
        close == CLOSE_BRACKET || close == CLOSE_BRACE,
        !in_string(front, front.len() as int),
        nesting(front, front.len() as int) == 1,
        forall|k: int| 0 <= k <= front.len() ==> 0 <= #[trigger] nesting(front, k) <= 1,
    ensures
        depth_verdict(front + t + seq![close], max + 1) == Ok::<nat, Seq<char>>(
            depth_verdict(t, max)->Ok_0 + 1,
        ),
{
    let data = front + t + seq![close];
    let cut = front.len() as int;
    let end = cut + t.len();
    let depth = depth_verdict(t, max)->Ok_0;
    accepted_payloads_are_balanced(t, max);
    assert(data.take(end) =~= front + t);
    assert forall|k: int| 0 <= k <= cut implies 0 <= #[trigger] nesting(data, k) <= 1 by {
        assert(data.take(k) =~= front.take(k));
        lemma_scan_of_prefix(data, front, k);
        assert(0 <= nesting(front, k) <= 1);
    }
    assert(data.take(cut) =~= front.take(cut));
    lemma_scan_of_prefix(data, front, cut);
    assert forall|k: int| 0 <= k <= t.len() implies #[trigger] nesting(data, cut + k) == nesting(
        t,
        k,
    ) + 1 && in_string(data, cut + k) == in_string(t, k) by {
        lemma_behind_front(front, t, data, k);
    }
    assert(in_string(data, cut + t.len()) == in_string(t, t.len() as int)) by {
        lemma_behind_front(front, t, data, t.len() as int);
    }
    assert(nesting(data, cut + t.len()) == 1);
    assert(data[end] == close);
    assert(nesting(data, end + 1) == 0);
    assert forall|k: int| 0 <= k <= data.len() implies 0 <= #[trigger] nesting(data, k) <= depth
        + 1 by {
        if cut <= k <= end {
            assert(nesting(data, cut + (k - cut)) == nesting(t, k - cut) + 1);
        }
    }
    assert(depth <= max) by {
        accepted_depth_is_within_cap(t, max);
    }
    accepted_payloads_are_balanced(data, max + 1);
    let found = depth_verdict(data, max + 1)->Ok_0;
    let w = choose|k: int| 0 <= k <= t.len() && #[trigger] nesting(t, k) == depth;
    assert(nesting(data, cut + w) == depth + 1);
    let v = choose|k: int| 0 <= k <= data.len() && #[trigger] nesting(data, k) == found;
    assert(nesting(data, v) <= depth + 1);
    assert(nesting(data, cut + w) <= found);
}

/// Behind a front that ends outside of a literal and not with a backslash, a
/// text is scanned as it is alone.
proof fn lemma_behind_front(front: Seq<u8>, t: Seq<u8>, data: Seq<u8>, k: int)
    requires
        0 <= k <= t.len(),
        front.len() > 0,
        front.last() != BACKSLASH,
        data.len() >= front.len() + t.len(),
        data.take((front.len() + t.len()) as int) == front + t,
        !in_string(data, front.len() as int),
        nesting(data, front.len() as int) == 1,
    ensures
        backslashes_before(data, front.len() + k) == backslashes_before(t, k),
        in_string(data, front.len() + k) == in_string(t, k),
        nesting(data, front.len() + k) == nesting(t, k) + 1,
    decreases k,
{
    let cut = front.len() as int;
    if k > 0 {
        lemma_behind_front(front, t, data, k - 1);
        assert(data[cut + k - 1] == data.take(cut + t.len())[cut + k - 1]);
        assert((front + t)[cut + k - 1] == t[k - 1]);
    } else {
        assert(data[cut - 1] == data.take(cut + t.len())[cut - 1]);
        assert((front + t)[cut - 1] == front.last());
    }
}

/// The scan finds the depth of what is accepted, and reports a rejection as an
/// internal error with its reason.
pub proof fn scans_report_the_verdict(data: &[u8], max_depth: usize, r: UtilsResult<usize>)
    requires
        call_ensures(calculate_json_depth, (data, max_depth), r),
    ensures
        r is Ok <==> depth_verdict(data@, max_depth as nat) is Ok,
        r matches Ok(depth) ==> depth_verdict(data@, max_depth as nat) == Ok::<nat, Seq<char>>(
            depth as nat,
        ),
        r matches Err(report) ==> report@.context == UtilsError::Internal && report@.cause is None
            && report@.origin is None && depth_verdict(data@, max_depth as nat) is Err
            && report@.attachments =~= seq![depth_verdict(data@, max_depth as nat)->Err_0],
{
}

/// A payload above the size cap is rejected for its size, whatever it holds;
/// any other for its structure.
pub proof fn limits_check_size_before_structure(
    data: &[u8],
    max_size: usize,
    max_depth: usize,
    r: UtilsResult<usize>,
)
    requires
        call_ensures(check_json_limits, (data, max_size, max_depth), r),
    ensures
        r is Ok <==> data@.len() <= max_size && depth_verdict(data@, max_depth as nat) is Ok,
        data@.len() > max_size ==> (r matches Err(report) && report@.context == UtilsError::Internal
            && report@.attachments =~= seq![
            "request body too large: "@ + text::decimal(data@.len()) + " bytes (max: "@
                + text::decimal(max_size as nat) + ")"@,
        ]),
        data@.len() <= max_size ==> (r matches Err(report) ==> report@.context
            == UtilsError::Internal && report@.attachments =~= seq![
            depth_verdict(data@, max_depth as nat)->Err_0,
        ]),
        r matches Ok(depth) ==> depth == depth_verdict(data@, max_depth as nat)->Ok_0,
{
}

/// A payload is parsed exactly where it is within both caps: what `serde_json`
/// reads from it is returned, and what it rejects is reported with its error.
pub proof fn parsing_follows_the_limits(
    data: &[u8],
    max_size: usize,
    max_depth: usize,
    r: UtilsResult<serde_json::Value>,
)
    requires
        call_ensures(validate_and_parse_json, (data, max_size, max_depth), r),
    ensures
        r is Ok <==> data@.len() <= max_size && depth_verdict(data@, max_depth as nat) is Ok
            && json_document(data@) is Ok,
        r matches Ok(document) ==> json_document(data@) == Ok::<serde_json::Value, Seq<char>>(
            document,
        ),
        r matches Err(report) ==> report@.context == UtilsError::Internal && report@.cause is None
            && report@.attachments.len() == 1,
        data@.len() > max_size ==> (r matches Err(report) && report@.attachments =~= seq![
            "request body too large: "@ + text::decimal(data@.len()) + " bytes (max: "@
                + text::decimal(max_size as nat) + ")"@,
        ]),
        data@.len() <= max_size ==> (depth_verdict(data@, max_depth as nat) matches Err(reason)
            ==> (r matches Err(report) && report@.attachments =~= seq![reason])),
        data@.len() <= max_size && depth_verdict(data@, max_depth as nat) is Ok ==> (json_document(
            data@,
        ) matches Err(error) ==> (r matches Err(report) && report@.origin == Some(error)
            && report@.attachments =~= seq!["JSON deserialization failed"@])),
{
}

/// A value that was deserialized is returned, and an error reported.
pub proof fn deserialized_values_are_returned<T>(parsed: Result<T, String>, r: UtilsResult<T>)
    requires
        call_ensures(deserialized::<T>, (parsed,), r),
    ensures
        parsed matches Ok(value) ==> r == Ok::<T, UtilsReport>(value),
        parsed matches Err(error) ==> (r matches Err(report) && report@.context
            == UtilsError::Internal && report@.cause is None && report@.origin == Some(error@)
            && report@.attachments =~= seq!["JSON deserialization failed"@]),
{
}

} // verus!
