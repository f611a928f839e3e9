use opencli_rs::bridge::{
    occupant_pids, BrowserBridge, ConnectAction, ConnectEvent, ConnectProgress, ConnectStage,
    DEFAULT_PORT,
};
use opencli_rs::error::{CliError, ErrorKind};

fn ask(stage: ConnectStage, action: ConnectAction) -> ConnectProgress {
    ConnectProgress::Ask(stage, action)
}

#[test]
fn test_bridge_construction() {
    let bridge = BrowserBridge::new(19825);
    assert_eq!(bridge.port, 19825);
    assert!(bridge.daemon_process.is_none());
}

#[test]
fn test_bridge_default_port() {
    let bridge = BrowserBridge::default_port();
    assert_eq!(bridge.port, DEFAULT_PORT);
}

#[test]
fn default_port_is_known() {
    assert_eq!(DEFAULT_PORT, 19825);
}

#[test]
fn connection_to_our_daemon_only_waits_for_the_extension() {
    let mut bridge = BrowserBridge::new(4000);
    assert_eq!(bridge.connect(), ask(ConnectStage::Running, ConnectAction::IsRunning));
    assert_eq!(
        bridge.resume(ConnectStage::Running, ConnectEvent::Answer(true)),
        ask(ConnectStage::Ours, ConnectAction::IsOurs)
    );
    assert_eq!(
        bridge.resume(ConnectStage::Ours, ConnectEvent::Answer(true)),
        ask(ConnectStage::ExtensionTimer, ConnectAction::StartTimer)
    );
    assert_eq!(
        bridge.resume(ConnectStage::ExtensionTimer, ConnectEvent::Done),
        ask(ConnectStage::ExtensionClock, ConnectAction::ReadTimer)
    );
    assert_eq!(
        bridge.resume(ConnectStage::ExtensionClock, ConnectEvent::Elapsed(14_999)),
        ask(ConnectStage::ExtensionProbe, ConnectAction::IsExtensionConnected)
    );
    assert_eq!(
        bridge.resume(ConnectStage::ExtensionProbe, ConnectEvent::Answer(false)),
        ask(ConnectStage::ExtensionPause, ConnectAction::Sleep(500))
    );
    assert_eq!(
        bridge.resume(ConnectStage::ExtensionPause, ConnectEvent::Done),
        ask(ConnectStage::ExtensionClock, ConnectAction::ReadTimer)
    );
    assert_eq!(
        bridge.resume(ConnectStage::ExtensionProbe, ConnectEvent::Answer(true)),
        ConnectProgress::Open
    );
    assert!(bridge.daemon_process.is_none());
}

#[test]
fn foreign_daemon_is_killed_first() {
    let mut bridge = BrowserBridge::new(4000);
    assert_eq!(
        bridge.resume(ConnectStage::Ours, ConnectEvent::Answer(false)),
        ask(ConnectStage::Killed, ConnectAction::KillOccupant)
    );
    assert_eq!(
        bridge.resume(ConnectStage::Killed, ConnectEvent::Done),
        ask(ConnectStage::Released, ConnectAction::Sleep(500))
    );
    assert_eq!(
        bridge.resume(ConnectStage::Released, ConnectEvent::Done),
        ask(ConnectStage::Spawned, ConnectAction::Spawn)
    );
}

#[test]
fn free_port_gets_a_daemon() {
    let mut bridge = BrowserBridge::new(4000);
    assert_eq!(
        bridge.resume(ConnectStage::Running, ConnectEvent::Answer(false)),
        ask(ConnectStage::Spawned, ConnectAction::Spawn)
    );
    assert_eq!(
        bridge.resume(ConnectStage::ReadyTimer, ConnectEvent::Done),
        ask(ConnectStage::ReadyClock, ConnectAction::ReadTimer)
    );
    assert_eq!(
        bridge.resume(ConnectStage::ReadyClock, ConnectEvent::Elapsed(9_999)),
        ask(ConnectStage::ReadyProbe, ConnectAction::IsRunning)
    );
    assert_eq!(
        bridge.resume(ConnectStage::ReadyProbe, ConnectEvent::Answer(false)),
        ask(ConnectStage::ReadyPause, ConnectAction::Sleep(200))
    );
    assert_eq!(
        bridge.resume(ConnectStage::ReadyProbe, ConnectEvent::Answer(true)),
        ask(ConnectStage::ExtensionTimer, ConnectAction::StartTimer)
    );
}

#[test]
fn daemon_that_is_not_ready_in_time_is_an_error() {
    let mut bridge = BrowserBridge::new(4000);
    let r = bridge.resume(ConnectStage::ReadyClock, ConnectEvent::Elapsed(10_000));
    assert_eq!(
        r,
        ConnectProgress::Failed(CliError {
            kind: ErrorKind::Timeout,
            message: "Daemon did not become ready within 10s".to_string(),
            suggestions: vec![],
        })
    );
}

#[test]
fn extension_that_is_not_connected_in_time_is_an_error() {
    let mut bridge = BrowserBridge::new(4000);
    let r = bridge.resume(ConnectStage::ExtensionClock, ConnectEvent::Elapsed(15_000));
    assert_eq!(
        r,
        ConnectProgress::Failed(CliError {
            kind: ErrorKind::BrowserConnect,
            message: "Chrome extension not connected".to_string(),
            suggestions: vec![
                "Install the OpenCLI Chrome extension".to_string(),
                "Make sure Chrome is running with the extension enabled".to_string(),
                "The daemon is listening on port 4000".to_string(),
            ],
        })
    );
}

#[test]
fn daemon_that_cannot_be_started_is_an_error() {
    let mut bridge = BrowserBridge::new(4000);
    let r = bridge.resume(
        ConnectStage::Spawned,
        ConnectEvent::NoExecutable("gone".to_string()),
    );
    assert_eq!(
        r,
        ConnectProgress::Failed(CliError::browser_connect(
            "Cannot determine current executable: gone"
        ))
    );
    let r = bridge.resume(
        ConnectStage::Spawned,
        ConnectEvent::NotSpawned("denied".to_string()),
    );
    assert_eq!(
        r,
        ConnectProgress::Failed(CliError::browser_connect("Failed to spawn daemon: denied"))
    );
    assert!(bridge.daemon_process.is_none());
}

#[test]
fn arguments_name_the_port() {
    let bridge = BrowserBridge::new(65535);
    assert_eq!(bridge.daemon_args(), vec!["--daemon", "--port", "65535"]);
    assert_eq!(bridge.occupant_query(), vec!["-ti", "tcp:65535"]);
    assert_eq!(BrowserBridge::new(0).occupant_query(), vec!["-ti", "tcp:0"]);
}

#[test]
fn processes_are_read_line_by_line() {
    assert_eq!(occupant_pids("123\n456\n"), vec![123, 456]);
    assert_eq!(occupant_pids("  7 \r\n x\n\n+8\n-9\n4294967296\n4294967295"), vec![7, 8, 4294967295]);
    assert_eq!(occupant_pids(" \n "), Vec::<u32>::new());
}

#[test]
fn closing_a_bridge_without_a_daemon_does_nothing() {
    let mut bridge = BrowserBridge::new(1);
    assert!(bridge.close().is_none());
    assert!(bridge.daemon_process.is_none());
    assert_eq!(bridge.port, 1);
}
