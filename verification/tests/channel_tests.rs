use guardian::connection::{ws_uri_for, ConnectionManager, WsEvent};
use guardian::health::{heartbeat_due, is_healthy};
use guardian::manage_command::{access_granted_beep, MANAGECommand, MANAGEReport};
use guardian::wifi::{
    wifi_check_needs_reconnect, wifi_connect_outcome, wifi_connect_poll, WifiPollDecision,
};

#[test]
fn connection_target_embeds_hex_identity() {
    let uri = ws_uri_for("wss://example.test/doors/", &[0x12, 0xab, 0x00, 0xff]);
    assert_eq!(uri, "wss://example.test/doors/12ab00ff/");
}

#[test]
fn reconnect_cycle_keeps_queued_reports() {
    let mut m = ConnectionManager::new(ws_uri_for("wss://example.test/", &[1, 2]));
    assert!(m.open);
    assert_eq!(m.generation, 1);

    m.queue_report(MANAGEReport::Heartbeat { is_healthy: true });
    m.queue_report(MANAGEReport::OsdpCardRead { event: "{}".to_string() });

    // The close event only marks the channel; reconnection is the
    // orchestrator's decision.
    assert_eq!(m.on_websocket_event(&WsEvent::Closed), None);
    assert!(m.needs_reconnect());

    // The reconnect cycle yields a fresh connection, open again, with
    // every queued report intact.
    m.reconnect();
    assert!(m.open);
    assert_eq!(m.generation, 2);
    assert_eq!(m.next_report(), Some(MANAGEReport::Heartbeat { is_healthy: true }));
    assert_eq!(
        m.next_report(),
        Some(MANAGEReport::OsdpCardRead { event: "{}".to_string() })
    );
    assert_eq!(m.next_report(), None);
}

#[test]
fn inbound_text_yields_commands_and_drops_junk() {
    let mut m = ConnectionManager::new("wss://example.test/1/".to_string());
    let cmd = m.on_websocket_event(&WsEvent::Text {
        payload: "{\"command\":\"door.open\"}".to_string(),
    });
    assert_eq!(cmd, Some(MANAGECommand::DoorOpen));

    // A payload without the required tag is dropped: no command, no
    // crash, and the channel state is untouched.
    let cmd = m.on_websocket_event(&WsEvent::Text { payload: "{\"ping\":1}".to_string() });
    assert_eq!(cmd, None);
    assert!(m.open);

    assert_eq!(m.on_websocket_event(&WsEvent::Connected), None);
    assert_eq!(m.on_websocket_event(&WsEvent::Disconnected), None);
    assert!(m.open);
}

#[test]
fn health_requires_both_liveness_signals() {
    // Fresh tick and engine online: healthy.
    assert!(is_healthy(true, 10_000, 11_999));
    // A stale actuator tick overrides an online engine.
    assert!(!is_healthy(true, 10_000, 12_000));
    assert!(!is_healthy(true, 10_000, 20_000));
    // An offline engine is unhealthy however fresh the tick.
    assert!(!is_healthy(false, 10_000, 10_000));
}

#[test]
fn heartbeat_fires_on_its_own_interval() {
    // The deadline has not passed: no heartbeat.
    assert_eq!(heartbeat_due(5_000, 5_000), None);
    assert_eq!(heartbeat_due(5_000, 4_000), None);
    // Past the deadline: one heartbeat, next one a full interval out.
    assert_eq!(heartbeat_due(5_000, 5_001), Some(65_001));
}

#[test]
fn wifi_poll_decisions() {
    assert_eq!(wifi_connect_poll(true, true, 99_999, 10_000), WifiPollDecision::Up);
    assert_eq!(wifi_connect_poll(true, false, 500, 10_000), WifiPollDecision::KeepWaiting);
    assert_eq!(wifi_connect_poll(false, false, 10_000, 10_000), WifiPollDecision::KeepWaiting);
    assert_eq!(wifi_connect_poll(false, true, 10_001, 10_000), WifiPollDecision::TimedOut);
    assert!(wifi_connect_outcome(WifiPollDecision::Up).is_ok());
    assert!(wifi_connect_outcome(WifiPollDecision::TimedOut).is_err());
    assert!(!wifi_check_needs_reconnect(true));
    assert!(wifi_check_needs_reconnect(false));
}

#[test]
fn access_granted_beep_pattern() {
    let p = access_granted_beep();
    assert_eq!(p.reader, 0);
    assert_eq!(p.control_code, 2);
    assert_eq!(p.on_count, 1);
    assert_eq!(p.off_count, 1);
    assert_eq!(p.rep_count, 2);
}
