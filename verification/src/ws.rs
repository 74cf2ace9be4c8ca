//! What happens to each WebSocket message: the gateway relays messages between a
//! client and its group process, and the group process broadcasts them.

use vstd::prelude::*;
use vstd::string::*;
use vstd::utf8::*;

verus! {

/// The code and reason of a WebSocket close message.
pub struct CloseInfo {
    pub code: u16,
    pub reason: String,
}

/// A WebSocket message.
pub enum WsMessage {
    Text(String),
    Binary(Vec<u8>),
    Ping(Vec<u8>),
    Pong(Vec<u8>),
    Close(Option<CloseInfo>),
    /// A raw frame, as a client-side connection may hand out.
    Frame(Vec<u8>),
}

/// What a relay does with the next message read from one side.
pub enum RelayStep {
    /// Send this message to the other side.
    Forward(WsMessage),
    /// Send nothing and read on.
    Skip,
    /// The side is done (closed or failed): stop relaying.
    Stop,
}

/// What a group process does with the next message read from a client socket.
pub enum SocketAction {
    /// Send these bytes to every connected client of the group.
    Broadcast(Vec<u8>),
    /// Send nothing and read on.
    Ignore,
    /// The socket is done.
    Stop,
}

/// The message forwarded for `m`: the same, except that a close message loses its
/// code and reason.
pub open spec fn relayed(m: WsMessage) -> WsMessage {
    match m {
        WsMessage::Close(_) => WsMessage::Close(None),
        other => other,
    }
}

/// The next step of relaying from the client to the group process, given what was
/// read from the client (`None` when the stream ended or failed). Client
/// connections never hand out raw frames.
pub fn relay_to_upstream(incoming: Option<WsMessage>) -> (step: RelayStep)
    requires
        !(incoming matches Some(WsMessage::Frame(_))),
    ensures
        match incoming {
            None => step is Stop,
            Some(m) => step == RelayStep::Forward(relayed(m)),
        },
{
    match incoming {
        None => RelayStep::Stop,
        Some(WsMessage::Close(_)) => RelayStep::Forward(WsMessage::Close(None)),
        Some(m) => RelayStep::Forward(m),
    }
}

/// The next step of relaying from the group process to the client, given what was
/// read from the group process (`None` when the stream ended or failed): raw
/// frames are dropped.
pub fn relay_to_client(incoming: Option<WsMessage>) -> (step: RelayStep)
    ensures
        match incoming {
            None => step is Stop,
            Some(WsMessage::Frame(_)) => step is Skip,
            Some(m) => step == RelayStep::Forward(relayed(m)),
        },
{
    match incoming {
        None => RelayStep::Stop,
        Some(WsMessage::Frame(_)) => RelayStep::Skip,
        Some(WsMessage::Close(_)) => RelayStep::Forward(WsMessage::Close(None)),
        Some(m) => RelayStep::Forward(m),
    }
}

/// What a group process does with what it read from a client (`None` when the
/// stream ended or failed): text is broadcast as its UTF-8 bytes, binary data as
/// it is, pings and pongs are ignored, and a close message ends the socket.
/// Client connections never hand out raw frames.
pub fn socket_action(incoming: Option<WsMessage>) -> (a: SocketAction)
    requires
        !(incoming matches Some(WsMessage::Frame(_))),
    ensures
        match incoming {
            None => a is Stop,
            Some(WsMessage::Text(t)) => (a matches SocketAction::Broadcast(b) && b@ == encode_utf8(t@)),
            Some(WsMessage::Binary(d)) => (a matches SocketAction::Broadcast(b) && b@ == d@),
            Some(WsMessage::Close(_)) => a is Stop,
            Some(_) => a is Ignore,
        },
{
    match incoming {
        None => SocketAction::Stop,
        Some(WsMessage::Text(t)) => SocketAction::Broadcast(t.as_str().as_bytes_vec()),
        Some(WsMessage::Binary(d)) => SocketAction::Broadcast(d),
        Some(WsMessage::Close(_)) => SocketAction::Stop,
        Some(_) => SocketAction::Ignore,
    }
}

/// The relay keeps every message but a close message as it is, in kind and in
/// payload; a close message is forwarded without its code and reason.
pub proof fn law_relay_keeps_messages(t: String, b: Vec<u8>, close: Option<CloseInfo>, frame: Vec<u8>)
    ensures
        relayed(WsMessage::Text(t)) == WsMessage::Text(t),
        relayed(WsMessage::Binary(b)) == WsMessage::Binary(b),
        relayed(WsMessage::Ping(b)) == WsMessage::Ping(b),
        relayed(WsMessage::Pong(b)) == WsMessage::Pong(b),
        relayed(WsMessage::Frame(frame)) == WsMessage::Frame(frame),
        relayed(WsMessage::Close(close)) == WsMessage::Close(None),
{
}

/// A message that is not a close message reaches the other side unchanged, from
/// either side; a close message reaches it as a bare close.
pub proof fn law_relay_forwards_unchanged(m: WsMessage)
    ensures
        !(m is Close) ==> relayed(m) == m,
        m is Close ==> relayed(m) == WsMessage::Close(None),
{
}

} // verus!
