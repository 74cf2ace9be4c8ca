//! The bodies that the three programs exchange and answer with.

use vstd::prelude::*;

verus! {

/// Answer of every `/health` endpoint.
pub struct HealthResponse {
    pub ok: bool,
    pub service: String,
}

/// A stored value, as sent and returned by the key/value endpoints.
pub struct ValuePayload {
    pub value: String,
}

/// Where a running group process can be reached.
pub struct EnsureGroupResponse {
    pub group_id: String,
    pub port: u16,
    pub pid: Option<u32>,
}

/// An error answer: an HTTP status code and a plain-text body.
pub struct ErrorReply {
    pub status: u16,
    pub message: String,
}

} // verus!
