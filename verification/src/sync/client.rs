//! What the sync client sends and how a server reply is judged.
//!
//! A change is sent with the record's UUID so the server upserts by record
//! identity, and with tenant, device and a bearer token so the server can
//! authenticate the device and scope the write. Any 2xx reply confirms.

use crate::text::{strip_trailing, without_trailing};
use vstd::prelude::*;

verus! {

/// One outbox row rendered for transport.
#[derive(Debug, Clone)]
pub struct SyncRequest {
    pub idempotency_key: String,
    pub entity_type: String,
    pub entity_uuid: String,
    pub operation: String,
    /// JSON text of the record's full state.
    pub payload: String,
    pub tenant_id: String,
    pub device_id: String,
}

/// Result of trying to push one row.
pub enum SyncOutcome {
    /// The server confirmed receipt (2xx): safe to mark the row done.
    Confirmed,
    /// Anything else (network error, timeout, non-2xx): retry later.
    Failed(String),
}

/// The reason phrase `http::StatusCode` shows for `code`: the canonical
/// reason, or `<unknown status code>` for a code that has none.
pub uninterp spec fn status_reason(code: u16) -> Seq<char>;

/// The decimal digit for `n` (below 10).
pub open spec fn decimal_digit(n: int) -> char {
    (48 + n) as char
}

/// How a status code is shown: its three digits, a space, its reason.
pub open spec fn status_display(code: u16) -> Seq<char> {
    seq![
        decimal_digit((code / 100) as int),
        decimal_digit(((code / 10) % 10) as int),
        decimal_digit((code % 10) as int),
        ' ',
    ] + status_reason(code)
}

/// Whether a status code is a success (2xx).
pub open spec fn is_success(code: u16) -> bool {
    200 <= code && code < 300
}

/// The text of a status code (`http::StatusCode`'s `Display`: the number, a
/// space, and the canonical reason or `<unknown status code>`).
#[verifier::external_body]
fn status_line(code: u16) -> (r: String)
    requires
        100 <= code <= 999,
    ensures
        r@ == seq![
            decimal_digit((code / 100) as int),
            decimal_digit(((code / 10) % 10) as int),
            decimal_digit((code % 10) as int),
            ' ',
        ] + status_reason(code),
{
    match reqwest::StatusCode::from_u16(code) {
        Ok(status) => status.to_string(),
        Err(_) => String::new(),
    }
}

/// The server base URL without trailing slashes.
pub fn normalize_base_url(base: &str) -> (r: String)
    ensures
        r@ == strip_trailing(base@, '/'),
{
    without_trailing(base, '/')
}

/// The URL a change is posted to.
pub fn upsert_url(base: &str) -> (r: String)
    ensures
        r@ == base@ + "/sync/upsert"@,
{
    let mut r = String::from_str(base);
    r.append("/sync/upsert");
    r
}

/// The URL the reconciliation question is posted to.
pub fn reconcile_url(base: &str) -> (r: String)
    ensures
        r@ == base@ + "/sync/reconcile"@,
{
    let mut r = String::from_str(base);
    r.append("/sync/reconcile");
    r
}

/// The URL a snapshot is uploaded to.
pub fn snapshot_url(base: &str) -> (r: String)
    ensures
        r@ == base@ + "/sync/snapshot"@,
{
    let mut r = String::from_str(base);
    r.append("/sync/snapshot");
    r
}

/// Whether a reply with this status confirms the request.
pub fn status_is_success(code: u16) -> (r: bool)
    ensures
        r == is_success(code),
        r <==> 200 <= code < 300,
{
    200 <= code && code < 300
}

/// The outcome of a push that got a reply with status `code` and body `body`:
/// confirmed on 2xx, otherwise a failure naming the status and the body.
pub fn outcome_for_status(code: u16, body: &str) -> (r: SyncOutcome)
    requires
        100 <= code <= 999,
    ensures
        is_success(code) ==> r is Confirmed,
        r is Confirmed <==> 200 <= code < 300,
        !is_success(code) ==> (r matches SyncOutcome::Failed(m) && m@ == "server returned "@
            + status_display(code) + ": "@ + body@),
{
    if status_is_success(code) {
        SyncOutcome::Confirmed
    } else {
        let mut m = String::from_str("server returned ");
        let status = status_line(code);
        m.append(status.as_str());
        m.append(": ");
        m.append(body);
        SyncOutcome::Failed(m)
    }
}

/// The outcome of a push that got no reply: a failure naming the error.
pub fn outcome_for_transport_error(err: &str) -> (r: SyncOutcome)
    ensures
        r matches SyncOutcome::Failed(m) && m@ == "request failed: "@ + err@,
{
    let mut m = String::from_str("request failed: ");
    m.append(err);
    SyncOutcome::Failed(m)
}

/// Judges the status of a reply to a request named `what`: a success, or an
/// error "`what` returned `status`".
pub fn check_status(what: &str, code: u16) -> (r: Result<(), String>)
    requires
        100 <= code <= 999,
    ensures
        is_success(code) ==> r is Ok,
        r is Ok <==> 200 <= code < 300,
        !is_success(code) ==> (r matches Err(m) && m@ == what@ + " returned "@
            + status_display(code)),
{
    if status_is_success(code) {
        Ok(())
    } else {
        let mut m = String::from_str(what);
        m.append(" returned ");
        let status = status_line(code);
        m.append(status.as_str());
        Err(m)
    }
}

/// A reply confirms a pushed change exactly when its status is a 2xx code:
/// every code from 200 through 299 is a success, and no other code is, so a
/// 409 Conflict, a 3xx redirect or a 5xx error is never taken for
/// confirmation.
pub proof fn lemma_success_is_exactly_2xx(code: u16)
    ensures
        is_success(code) <==> 200 <= code && code <= 299,
        code == 409 ==> !is_success(code),
        code == 200 || code == 201 || code == 204 ==> is_success(code),
{
}

} // verus!
