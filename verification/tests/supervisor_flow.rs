use gameforge::ensure::{EnsureAction, EnsureFlow, EnsureStage};
use gameforge::readiness::{ProbeAction, ReadinessProbe, READY_ATTEMPTS};
use gameforge::registry::GroupRegistry;

fn begin(id: &str, reg: &GroupRegistry<u32>) -> (EnsureFlow, EnsureAction) {
    EnsureFlow::begin(id.to_string(), "/opt/gf/gameforge-group-server".to_string(), 300, reg)
}

#[test]
fn invalid_group_is_refused() {
    let reg: GroupRegistry<u32> = GroupRegistry::new();
    let (flow, action) = begin("bad id", &reg);
    assert_eq!(flow.stage, EnsureStage::Finished);
    match action {
        EnsureAction::Reply(Err(e)) => {
            assert_eq!(e.status, 400);
            assert_eq!(e.message, "invalid group id");
        }
        _ => panic!("expected a 400"),
    }
}

#[test]
fn new_group_is_spawned_and_registered() {
    let mut reg: GroupRegistry<u32> = GroupRegistry::new();
    let (mut flow, action) = begin("demo", &reg);
    assert!(matches!(action, EnsureAction::AllocatePort));
    match flow.on_port(Ok(41000)) {
        EnsureAction::PrepareDirectory { directories, file_name } => {
            assert_eq!(directories, vec!["de".to_string(), "demo".to_string()]);
            assert_eq!(file_name, "game.db");
        }
        _ => panic!("expected directory preparation"),
    }
    match flow.on_directory(Ok("data/groups/de/demo/game.db".to_string())) {
        EnsureAction::Spawn { args } => assert_eq!(
            args,
            vec!["--group", "demo", "--db", "data/groups/de/demo/game.db", "--port", "41000", "--idle-seconds", "300"]
        ),
        _ => panic!("expected a spawn"),
    }
    match flow.on_spawned(&mut reg, Ok((7, Some(4242)))) {
        EnsureAction::AwaitReady { port, response } => {
            assert_eq!(port, 41000);
            assert_eq!((response.group_id.as_str(), response.port, response.pid), ("demo", 41000, Some(4242)));
        }
        _ => panic!("expected a wait"),
    }
    assert_eq!(flow.stage, EnsureStage::Finished);
    let i = reg.find("demo").unwrap();
    assert_eq!(*reg.handle(i), 7);
    assert_eq!(reg.describe(i).port, 41000);
}

#[test]
fn running_group_is_reused() {
    let mut reg: GroupRegistry<u32> = GroupRegistry::new();
    reg.insert("demo".to_string(), 5000, Some(99), 1);
    let (mut flow, action) = begin("demo", &reg);
    assert!(matches!(action, EnsureAction::InspectProcess { index: 0 }));
    match flow.on_process_status(&mut reg, true) {
        EnsureAction::Reply(Ok(r)) => assert_eq!((r.group_id.as_str(), r.port, r.pid), ("demo", 5000, Some(99))),
        _ => panic!("expected the running process"),
    }
    assert_eq!(reg.len(), 1);
}

#[test]
fn exited_group_is_replaced() {
    let mut reg: GroupRegistry<u32> = GroupRegistry::new();
    reg.insert("demo".to_string(), 5000, Some(99), 1);
    let (mut flow, _) = begin("demo", &reg);
    assert!(matches!(flow.on_process_status(&mut reg, false), EnsureAction::AllocatePort));
    assert_eq!(reg.find("demo"), None);
    let _ = flow.on_port(Ok(6000));
    let _ = flow.on_directory(Ok("p".to_string()));
    let _ = flow.on_spawned(&mut reg, Ok((2, Some(100))));
    assert_eq!(reg.len(), 1);
    assert_eq!(reg.describe(0).port, 6000);
    assert_eq!(*reg.handle(0), 2);
}

#[test]
fn failures_are_internal_errors() {
    let mut reg: GroupRegistry<u32> = GroupRegistry::new();
    let (mut flow, _) = begin("demo", &reg);
    match flow.on_port(Err("address in use".to_string())) {
        EnsureAction::Reply(Err(e)) => assert_eq!((e.status, e.message.as_str()), (500, "address in use")),
        _ => panic!(),
    }
    let (mut flow, _) = begin("demo", &reg);
    let _ = flow.on_port(Ok(1));
    match flow.on_directory(Err("permission denied".to_string())) {
        EnsureAction::Reply(Err(e)) => assert_eq!((e.status, e.message.as_str()), (500, "permission denied")),
        _ => panic!(),
    }
    let (mut flow, _) = begin("demo", &reg);
    let _ = flow.on_port(Ok(1));
    let _ = flow.on_directory(Ok("p".to_string()));
    match flow.on_spawned(&mut reg, Err(())) {
        EnsureAction::Reply(Err(e)) => {
            assert_eq!(e.status, 500);
            assert_eq!(e.message, "failed to spawn /opt/gf/gameforge-group-server");
        }
        _ => panic!(),
    }
    assert_eq!(reg.len(), 0);
}

#[test]
fn probe_gives_up_after_fifty_attempts() {
    let (mut probe, first) = ReadinessProbe::start(4000);
    assert!(matches!(first, ProbeAction::Connect { ref addr } if addr == "127.0.0.1:4000"));
    let mut connects = 1;
    loop {
        match probe.on_connect(false) {
            ProbeAction::Sleep { millis } => assert_eq!(millis, 50),
            _ => panic!("expected a pause"),
        }
        match probe.on_slept() {
            ProbeAction::Connect { addr } => {
                assert_eq!(addr, "127.0.0.1:4000");
                connects += 1;
            }
            ProbeAction::Fail(e) => {
                assert_eq!(e.status, 500);
                assert_eq!(e.message, "group server did not become ready on 127.0.0.1:4000");
                break;
            }
            _ => panic!(),
        }
    }
    assert_eq!(connects, READY_ATTEMPTS);
}

#[test]
fn probe_succeeds_on_connection() {
    let (mut probe, _) = ReadinessProbe::start(1);
    let _ = probe.on_connect(false);
    let _ = probe.on_slept();
    assert!(matches!(probe.on_connect(true), ProbeAction::Ready));
    assert_eq!(probe.attempts, 2);
}
