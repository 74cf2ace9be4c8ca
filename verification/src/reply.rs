//! HTTP status decisions and the answers built from them.

use vstd::prelude::*;
use vstd::string::*;
use crate::decimal::{decimal, decimal_string};
use crate::messages::{ErrorReply, HealthResponse, ValuePayload};

verus! {

/// The status codes that `http::StatusCode` accepts: 100 to 999.
pub open spec fn is_status_code(code: u16) -> bool {
    100 <= code <= 999
}

/// Accepts `code` as an HTTP status code when `http::StatusCode::from_u16` does,
/// and gives back its number.
///
/// Trusted: `http::StatusCode::from_u16` (reached as `axum::http::StatusCode`)
/// succeeds exactly on 100..=999, and `StatusCode::as_u16` returns the number it
/// was made from, as the `http` crate's source shows.
#[verifier::external_body]
fn checked_status_code(code: u16) -> (r: Option<u16>)
    ensures
        r == (if is_status_code(code) { Some(code) } else { None::<u16> }),
{
    match axum::http::StatusCode::from_u16(code) {
        Ok(status) => Some(status.as_u16()),
        Err(_) => None,
    }
}

/// The reason phrase that the `http` crate records for a status code, if any.
pub uninterp spec fn canonical_reason_text(code: u16) -> Option<Seq<char>>;

/// The reason phrase of a status code.
///
/// Trusted: `http::StatusCode::canonical_reason` (reached through
/// `axum::http::StatusCode::from_u16`, which accepts every code in 100..=999)
/// returns a fixed phrase for each code; the phrase table is not restated here,
/// only named by `canonical_reason_text`.
#[verifier::external_body]
fn canonical_reason(code: u16) -> (r: Option<String>)
    requires
        is_status_code(code),
    ensures
        match r {
            Some(s) => canonical_reason_text(code) == Some(s@),
            None => canonical_reason_text(code) is None,
        },
{
    match axum::http::StatusCode::from_u16(code) {
        Ok(status) => match status.canonical_reason() {
            Some(text) => Some(text.to_string()),
            None => None,
        },
        Err(_) => None,
    }
}

/// How `http::StatusCode` displays a code: its number, a space and its reason
/// phrase (or `<unknown status code>`).
pub open spec fn status_display(code: u16) -> Seq<char> {
    decimal(code as nat) + " "@ + match canonical_reason_text(code) {
        Some(r) => r,
        None => "<unknown status code>"@,
    }
}

/// Whether a status code reports success (200 to 299), as
/// `http::StatusCode::is_success` decides.
pub fn is_success(code: u16) -> (b: bool)
    ensures
        b == (200 <= code && code < 300),
{
    200 <= code && code < 300
}

/// The status the gateway answers with when relaying an upstream answer: the
/// upstream status when it is a valid status code, 502 otherwise.
pub fn relay_status(upstream: u16) -> (status: u16)
    ensures
        status == (if is_status_code(upstream) { upstream } else { 502 }),
{
    match checked_status_code(upstream) {
        Some(code) => code,
        None => 502,
    }
}

/// A failure to reach or understand an upstream service: 502 with its message.
pub fn bad_gateway(message: String) -> (r: ErrorReply)
    ensures
        r.status == 502,
        r.message@ == message@,
{
    ErrorReply { status: 502, message }
}

/// A failure inside the answering service: 500 with its message.
pub fn internal_error(message: String) -> (r: ErrorReply)
    ensures
        r.status == 500,
        r.message@ == message@,
{
    ErrorReply { status: 500, message }
}

/// The answer to a request naming a malformed group: 400, `invalid group id`.
pub fn invalid_group_id() -> (r: ErrorReply)
    ensures
        r.status == 400,
        r.message@ == "invalid group id"@,
{
    ErrorReply { status: 400, message: String::from_str("invalid group id") }
}

/// The gateway's answer when the supervisor refuses to start a group: 502 and
/// `supervisor <status>: <body>`, the status as `http::StatusCode` displays it.
pub fn supervisor_failure(status: u16, body: &str) -> (r: ErrorReply)
    requires
        is_status_code(status),
    ensures
        r.status == 502,
        r.message@ == "supervisor "@ + status_display(status) + ": "@ + body@,
{
    let mut message = String::from_str("supervisor ");
    message.append(decimal_string(status as u64).as_str());
    message.append(" ");
    match canonical_reason(status) {
        Some(reason) => message.append(reason.as_str()),
        None => message.append("<unknown status code>"),
    }
    message.append(": ");
    message.append(body);
    ErrorReply { status: 502, message }
}

/// What a group process answers to a read of its key/value store, given the
/// stored value (if the key is stored): the value, or 404 `key not found`.
pub fn value_reply(stored: Option<String>) -> (r: Result<ValuePayload, ErrorReply>)
    ensures
        match stored {
            Some(v) => r is Ok && r->Ok_0.value@ == v@,
            None => r is Err && r->Err_0.status == 404 && r->Err_0.message@ == "key not found"@,
        },
{
    match stored {
        Some(value) => Ok(ValuePayload { value }),
        None => Err(ErrorReply { status: 404, message: String::from_str("key not found") }),
    }
}

/// The health answer of the gateway.
pub fn gateway_health() -> (r: HealthResponse)
    ensures
        r.ok,
        r.service@ == "gateway"@,
{
    HealthResponse { ok: true, service: String::from_str("gateway") }
}

/// The health answer of the supervisor.
pub fn supervisor_health() -> (r: HealthResponse)
    ensures
        r.ok,
        r.service@ == "supervisor"@,
{
    HealthResponse { ok: true, service: String::from_str("supervisor") }
}

/// The health answer of the group process serving `group_id`: `group:<id>`.
pub fn group_health(group_id: &str) -> (r: HealthResponse)
    ensures
        r.ok,
        r.service@ == "group:"@ + group_id@,
{
    let service = String::from_str("group:").concat(group_id);
    HealthResponse { ok: true, service }
}

} // verus!
