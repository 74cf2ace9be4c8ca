use gameforge::activity::ActivityTracker;
use gameforge::clock::now_secs;
use gameforge::endpoints::{ensure_url, local_addr, sqlite_url, state_url, upstream_ws_url};
use gameforge::reply::{
    bad_gateway, gateway_health, group_health, internal_error, is_success, relay_status, supervisor_failure,
    supervisor_health, value_reply,
};
use gameforge::settings::{GatewaySettings, SupervisorSettings};
use gameforge::ws::{relay_to_client, relay_to_upstream, socket_action, CloseInfo, RelayStep, SocketAction, WsMessage};

#[test]
fn relay_status_keeps_valid_codes() {
    assert_eq!(relay_status(200), 200);
    assert_eq!(relay_status(404), 404);
    assert_eq!(relay_status(100), 100);
    assert_eq!(relay_status(999), 999);
    assert_eq!(relay_status(99), 502);
    assert_eq!(relay_status(1000), 502);
    assert_eq!(relay_status(0), 502);
}

#[test]
fn success_range() {
    assert!(is_success(200));
    assert!(is_success(299));
    assert!(!is_success(300));
    assert!(!is_success(199));
}

#[test]
fn supervisor_failure_message_uses_status_display() {
    let e = supervisor_failure(503, "busy");
    assert_eq!(e.status, 502);
    assert_eq!(e.message, "supervisor 503 Service Unavailable: busy");
    let e = supervisor_failure(400, "invalid group id");
    assert_eq!(e.message, "supervisor 400 Bad Request: invalid group id");
    let e = supervisor_failure(599, "");
    assert_eq!(e.message, "supervisor 599 <unknown status code>: ");
}

#[test]
fn error_replies() {
    let e = bad_gateway("connection refused".to_string());
    assert_eq!((e.status, e.message.as_str()), (502, "connection refused"));
    let e = internal_error("disk full".to_string());
    assert_eq!((e.status, e.message.as_str()), (500, "disk full"));
}

#[test]
fn value_replies() {
    assert_eq!(value_reply(Some("Koushirou".to_string())).ok().unwrap().value, "Koushirou");
    let e = value_reply(None).err().unwrap();
    assert_eq!((e.status, e.message.as_str()), (404, "key not found"));
}

#[test]
fn health_replies() {
    assert_eq!(gateway_health().service, "gateway");
    assert!(gateway_health().ok);
    assert_eq!(supervisor_health().service, "supervisor");
    assert_eq!(group_health("demo").service, "group:demo");
}

#[test]
fn urls() {
    assert_eq!(ensure_url("http://127.0.0.1:8788", "demo"), "http://127.0.0.1:8788/groups/demo/ensure");
    assert_eq!(state_url(4100, "player_name"), "http://127.0.0.1:4100/api/state/player_name");
    assert_eq!(upstream_ws_url(4100), "ws://127.0.0.1:4100/ws");
    assert_eq!(local_addr(8), "127.0.0.1:8");
    assert_eq!(sqlite_url("data/groups/de/demo/game.db"), "sqlite://data/groups/de/demo/game.db?mode=rwc");
    assert_eq!(sqlite_url(".\\data\\groups\\de\\demo\\game.db"), "sqlite://./data/groups/de/demo/game.db?mode=rwc");
    assert_eq!(sqlite_url("データ\\x"), "sqlite://データ/x?mode=rwc");
}

#[test]
fn settings_defaults() {
    let g = GatewaySettings::from_values(None, None);
    assert_eq!((g.bind.as_str(), g.supervisor_url.as_str()), ("0.0.0.0:8787", "http://127.0.0.1:8788"));
    let g = GatewaySettings::from_values(Some("1.2.3.4:1".into()), Some("http://s".into()));
    assert_eq!((g.bind.as_str(), g.supervisor_url.as_str()), ("1.2.3.4:1", "http://s"));
    let s = SupervisorSettings::from_values(None, None, None, None, "bin".into());
    assert_eq!(s.bind, "127.0.0.1:8788");
    assert_eq!(s.data_root, "./data/groups");
    assert_eq!(s.idle_secs, 300);
    assert_eq!(s.group_binary, "bin");
    let s = SupervisorSettings::from_values(None, None, Some("45".into()), Some("/x".into()), "bin".into());
    assert_eq!((s.idle_secs, s.group_binary.as_str()), (45, "/x"));
    let s = SupervisorSettings::from_values(None, None, Some("soon".into()), None, "bin".into());
    assert_eq!(s.idle_secs, 300);
}

#[test]
fn idle_decisions() {
    let mut t = ActivityTracker::new(1000);
    assert!(!t.should_exit(1299, 300));
    assert!(t.should_exit(1300, 300));
    // An open socket keeps the process alive however long it has been.
    t.socket_opened();
    assert!(!t.should_exit(1_000_000, 300));
    t.socket_closed();
    assert_eq!(t.active_sockets, 0);
    t.touch(2000);
    assert!(!t.should_exit(2000, 1));
    assert!(t.should_exit(2000, 0));
    // A clock that went backwards counts as no time passed.
    assert!(!t.should_exit(10, 5));
    assert!(t.should_exit(10, 0));
}

#[test]
fn clock_reads_a_plausible_time() {
    assert!(now_secs() > 1_577_836_800);
}

fn step_name(s: &RelayStep) -> &'static str {
    match s {
        RelayStep::Forward(_) => "forward",
        RelayStep::Skip => "skip",
        RelayStep::Stop => "stop",
    }
}

#[test]
fn relays() {
    match relay_to_upstream(Some(WsMessage::Close(Some(CloseInfo { code: 1000, reason: "bye".into() })))) {
        RelayStep::Forward(WsMessage::Close(None)) => {}
        _ => panic!("close payload must be dropped"),
    }
    match relay_to_upstream(Some(WsMessage::Text("hi".into()))) {
        RelayStep::Forward(WsMessage::Text(t)) => assert_eq!(t, "hi"),
        _ => panic!(),
    }
    match relay_to_client(Some(WsMessage::Ping(vec![1, 2]))) {
        RelayStep::Forward(WsMessage::Ping(p)) => assert_eq!(p, vec![1, 2]),
        _ => panic!(),
    }
    assert_eq!(step_name(&relay_to_client(Some(WsMessage::Frame(vec![0])))), "skip");
    assert_eq!(step_name(&relay_to_client(None)), "stop");
    assert_eq!(step_name(&relay_to_upstream(None)), "stop");
}

#[test]
fn socket_actions() {
    match socket_action(Some(WsMessage::Text("héllo".into()))) {
        SocketAction::Broadcast(b) => assert_eq!(b, "héllo".as_bytes().to_vec()),
        _ => panic!(),
    }
    match socket_action(Some(WsMessage::Binary(vec![9, 8]))) {
        SocketAction::Broadcast(b) => assert_eq!(b, vec![9, 8]),
        _ => panic!(),
    }
    assert!(matches!(socket_action(Some(WsMessage::Ping(vec![]))), SocketAction::Ignore));
    assert!(matches!(socket_action(Some(WsMessage::Pong(vec![]))), SocketAction::Ignore));
    assert!(matches!(socket_action(Some(WsMessage::Close(None))), SocketAction::Stop));
    assert!(matches!(socket_action(None), SocketAction::Stop));
}
