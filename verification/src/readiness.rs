//! Waiting for a freshly started group process to accept connections.

use vstd::prelude::*;
use vstd::string::*;
use crate::endpoints::{local_addr, local_addr_text};
use crate::messages::ErrorReply;

verus! {

/// How many connection attempts the supervisor makes before giving up.
pub const READY_ATTEMPTS: u32 = 50;

/// How long the supervisor pauses after a refused connection, in milliseconds.
pub const READY_RETRY_MILLIS: u64 = 50;

/// The message when a group process never accepted a connection.
pub open spec fn not_ready_text(port: u16) -> Seq<char> {
    "group server did not become ready on "@ + local_addr_text(port)
}

/// What the supervisor does next while waiting.
pub enum ProbeAction {
    /// Try to connect to `addr`, then call `on_connect`.
    Connect { addr: String },
    /// Pause for `millis` milliseconds, then call `on_slept`.
    Sleep { millis: u64 },
    /// The process accepts connections.
    Ready,
    /// The process never accepted a connection.
    Fail(ErrorReply),
}

/// A wait for the group process on `port`; `attempts` counts the connection
/// attempts made so far.
pub struct ReadinessProbe {
    pub port: u16,
    pub attempts: u32,
}

impl ReadinessProbe {
    /// Starts waiting: the first step is a connection attempt.
    pub fn start(port: u16) -> (r: (ReadinessProbe, ProbeAction))
        ensures
            r.0.port == port,
            r.0.attempts == 1,
            (r.1 matches ProbeAction::Connect { addr } && addr@ == local_addr_text(port)),
    {
        (ReadinessProbe { port, attempts: 1 }, ProbeAction::Connect { addr: local_addr(port) })
    }

    /// A connection attempt ended: success ends the wait, a refusal is followed
    /// by a pause.
    pub fn on_connect(&mut self, connected: bool) -> (a: ProbeAction)
        requires
            1 <= old(self).attempts <= READY_ATTEMPTS,
        ensures
            final(self).port == old(self).port,
            final(self).attempts == old(self).attempts,
            connected ==> a is Ready,
            !connected ==> (a matches ProbeAction::Sleep { millis } && millis == READY_RETRY_MILLIS),
    {
        if connected {
            ProbeAction::Ready
        } else {
            ProbeAction::Sleep { millis: READY_RETRY_MILLIS }
        }
    }

    /// A pause ended: another attempt follows unless 50 have been made, after
    /// which the wait fails with a 500.
    pub fn on_slept(&mut self) -> (a: ProbeAction)
        requires
            1 <= old(self).attempts <= READY_ATTEMPTS,
        ensures
            final(self).port == old(self).port,
            old(self).attempts < READY_ATTEMPTS ==> {
                &&& final(self).attempts == old(self).attempts + 1
                &&& a matches ProbeAction::Connect { addr }
                &&& addr@ == local_addr_text(old(self).port)
            },
            old(self).attempts == READY_ATTEMPTS ==> {
                &&& final(self).attempts == old(self).attempts
                &&& a matches ProbeAction::Fail(e)
                &&& e.status == 500
                &&& e.message@ == not_ready_text(old(self).port)
            },
    {
        if self.attempts < READY_ATTEMPTS {
            self.attempts = self.attempts + 1;
            ProbeAction::Connect { addr: local_addr(self.port) }
        } else {
            let message = String::from_str("group server did not become ready on ").concat(
                local_addr(self.port).as_str(),
            );
            ProbeAction::Fail(ErrorReply { status: 500, message })
        }
    }
}

} // verus!
