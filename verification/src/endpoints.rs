//! Addresses and URLs through which the programs reach each other.

use vstd::prelude::*;
use vstd::string::*;
use crate::decimal::{decimal, decimal_string};

verus! {

/// The loopback address of a group process: `127.0.0.1:<port>`.
pub open spec fn local_addr_text(port: u16) -> Seq<char> {
    "127.0.0.1:"@ + decimal(port as nat)
}

/// The address a group process listens on and the supervisor probes.
pub fn local_addr(port: u16) -> (a: String)
    ensures
        a@ == local_addr_text(port),
{
    String::from_str("127.0.0.1:").concat(decimal_string(port as u64).as_str())
}

/// The supervisor endpoint that makes sure a group process runs:
/// `<supervisor>/groups/<group>/ensure`.
pub fn ensure_url(supervisor_url: &str, group_id: &str) -> (u: String)
    ensures
        u@ == supervisor_url@ + "/groups/"@ + group_id@ + "/ensure"@,
{
    let mut u = String::from_str(supervisor_url);
    u.append("/groups/");
    u.append(group_id);
    u.append("/ensure");
    u
}

/// A key of a group process's store: `http://127.0.0.1:<port>/api/state/<key>`.
pub fn state_url(port: u16, key: &str) -> (u: String)
    ensures
        u@ == "http://127.0.0.1:"@ + decimal(port as nat) + "/api/state/"@ + key@,
{
    let mut u = String::from_str("http://127.0.0.1:");
    u.append(decimal_string(port as u64).as_str());
    u.append("/api/state/");
    u.append(key);
    u
}

/// The WebSocket endpoint of a group process: `ws://127.0.0.1:<port>/ws`.
pub fn upstream_ws_url(port: u16) -> (u: String)
    ensures
        u@ == "ws://127.0.0.1:"@ + decimal(port as nat) + "/ws"@,
{
    let mut u = String::from_str("ws://127.0.0.1:");
    u.append(decimal_string(port as u64).as_str());
    u.append("/ws");
    u
}

/// A path with every backslash turned into a forward slash.
pub open spec fn forward_slashes(s: Seq<char>) -> Seq<char> {
    s.map_values(|c: char| if c == '\\' { '/' } else { c })
}

/// The SQLite connection URL of a group's database, created if missing:
/// `sqlite://<path with forward slashes>?mode=rwc`.
pub fn sqlite_url(db_path: &str) -> (u: String)
    ensures
        u@ == "sqlite://"@ + forward_slashes(db_path@) + "?mode=rwc"@,
{
    proof {
        reveal_strlit("/");
    }
    let mut u = String::from_str("sqlite://");
    let ghost prefix = u@;
    let n = db_path.unicode_len();
    let mut i: usize = 0;
    while i < n
        invariant
            n == db_path@.len(),
            i <= n,
            "/"@ == seq!['/'],
            u@ == prefix + forward_slashes(db_path@.take(i as int)),
        decreases n - i,
    {
        let c = db_path.get_char(i);
        let ghost before = u@;
        if c == '\\' {
            u.append("/");
        } else {
            u.append(db_path.substring_char(i, i + 1));
        }
        assert(db_path@.subrange(i as int, i + 1) =~= seq![c]);
        assert(forward_slashes(db_path@.take(i + 1)) =~= forward_slashes(db_path@.take(i as int)).push(
            if c == '\\' { '/' } else { c },
        ));
        i = i + 1;
    }
    assert(db_path@.take(n as int) =~= db_path@);
    u.append("?mode=rwc");
    u
}

} // verus!
