//! The connection manager: target lifecycle, the connect flow, the
//! heartbeat watchdog and the reconnect backoff.

use cunzhi::manager::{
    friendly_error, handle_inbound_message, Backoff, InboundAction, LianYiXiaWebSocketManager,
    TransportErrorKind, WatchdogAction,
};
use cunzhi::protocol::RelayMessage;
use cunzhi::types::{ConnectionStatus, WebSocketServerConfig};

fn target(id: &str) -> WebSocketServerConfig {
    WebSocketServerConfig {
        id: id.to_string(),
        name: "staging relay".to_string(),
        host: "10.0.0.5".to_string(),
        port: 9000,
        api_key: "key-1234".to_string(),
        enabled: true,
        auto_connect: false,
    }
}

#[test]
fn add_then_remove_restores_absence() {
    let mut m = LianYiXiaWebSocketManager::new();
    m.add_server(target("t1"));
    assert!(m.get_server_status("t1").is_ok());
    assert!(m.remove_server("t1"));
    // no connection for the id is left ...
    assert!(m.get_server_status("t1").is_err());
    // ... and an in-flight reconnect loop for it stops at its next check
    assert!(!m.backoff_continues("t1"));
    assert_eq!(m.watchdog_step("t1", 0, 0), WatchdogAction::Exit);
}

#[test]
fn remove_unknown_target_changes_nothing() {
    let mut m = LianYiXiaWebSocketManager::new();
    m.add_server(target("t1"));
    assert!(!m.remove_server("t2"));
    assert!(m.get_server_status("t1").is_ok());
}

#[test]
fn connect_flow_reaches_connected() {
    let mut m = LianYiXiaWebSocketManager::new();
    m.add_server(target("t1"));
    let plan = m.connect_begin("t1").expect("target exists");
    assert_eq!(plan.url, "ws://10.0.0.5:9000");
    let auth = plan.auth_frame.expect("a credential is configured");
    let v: serde_json::Value = serde_json::from_str(&auth).unwrap();
    assert_eq!(v["type"].as_str(), Some("auth"));
    assert_eq!(v["api_key"].as_str(), Some("key-1234"));
    assert!(matches!(
        m.get_server_status("t1").unwrap(),
        ConnectionStatus::Connecting
    ));
    m.connect_succeeded("t1", 5_000);
    assert!(matches!(
        m.get_server_status("t1").unwrap(),
        ConnectionStatus::Connected
    ));
}

#[test]
fn connect_without_credential_sends_no_auth_frame() {
    let mut m = LianYiXiaWebSocketManager::new();
    let mut cfg = target("t1");
    cfg.api_key = String::new();
    m.add_server(cfg);
    let plan = m.connect_begin("t1").unwrap();
    assert!(plan.auth_frame.is_none());
}

#[test]
fn connect_failure_surfaces_friendly_category() {
    let mut m = LianYiXiaWebSocketManager::new();
    m.add_server(target("t1"));
    let _ = m.connect_begin("t1").unwrap();
    let msg = m.connect_failed("t1", &TransportErrorKind::Refused);
    assert_eq!(msg, "connection refused, check the relay configuration");
    match m.get_server_status("t1").unwrap() {
        ConnectionStatus::Error(e) => assert_eq!(e, msg),
        other => panic!("status {:?}", other),
    }
}

#[test]
fn friendly_error_keeps_unclassified_text() {
    let mut m = LianYiXiaWebSocketManager::new();
    m.add_server(target("t1"));
    let msg = m.connect_failed("t1", &TransportErrorKind::Other("tls setup failed".to_string()));
    assert_eq!(msg, "connection failed: tls setup failed");
}

#[test]
fn watchdog_reconnects_on_stale_connection() {
    let mut m = LianYiXiaWebSocketManager::new();
    m.add_server(target("t1"));
    let _ = m.connect_begin("t1").unwrap();
    m.connect_succeeded("t1", 10_000);
    // a liveness signal arrives, then the peer stalls
    m.on_liveness_signal("t1", 20_000);
    assert_eq!(m.watchdog_step("t1", 25_000, 30_000), WatchdogAction::Idle);
    assert_eq!(
        m.watchdog_step("t1", 60_000, 30_000),
        WatchdogAction::Reconnect
    );
}

#[test]
fn watchdog_reconnects_a_dropped_connection() {
    let mut m = LianYiXiaWebSocketManager::new();
    m.add_server(target("t1"));
    let _ = m.connect_begin("t1").unwrap();
    m.connect_succeeded("t1", 10_000);
    m.on_peer_closed("t1");
    assert_eq!(
        m.watchdog_step("t1", 10_001, 30_000),
        WatchdogAction::Reconnect
    );
}

#[test]
fn explicit_disconnect_disables_reconnection() {
    let mut m = LianYiXiaWebSocketManager::new();
    m.add_server(target("t1"));
    let _ = m.connect_begin("t1").unwrap();
    m.connect_succeeded("t1", 10_000);
    assert!(m.disconnect_server("t1"));
    assert!(matches!(
        m.get_server_status("t1").unwrap(),
        ConnectionStatus::Disconnected
    ));
    // the watchdog racing the teardown sees reconnection disabled
    assert_eq!(m.watchdog_step("t1", 99_000, 0), WatchdogAction::Exit);
    assert!(!m.backoff_continues("t1"));
}

#[test]
fn auto_connect_decision_follows_flags() {
    let mut m = LianYiXiaWebSocketManager::new();
    let mut cfg = target("t1");
    cfg.auto_connect = true;
    assert!(m.add_server_with_auto_connect(cfg));
    let mut disabled = target("t2");
    disabled.auto_connect = true;
    disabled.enabled = false;
    assert!(!m.add_server_with_auto_connect(disabled));
}

#[test]
fn get_all_status_lists_every_target() {
    let mut m = LianYiXiaWebSocketManager::new();
    m.add_server(target("t1"));
    m.add_server(target("t2"));
    let _ = m.connect_begin("t2").unwrap();
    let all = m.get_all_status();
    assert_eq!(all.len(), 2);
    for (id, status) in all {
        match id.as_str() {
            "t1" => assert!(matches!(status, ConnectionStatus::Disconnected)),
            "t2" => assert!(matches!(status, ConnectionStatus::Connecting)),
            other => panic!("unexpected id {}", other),
        }
    }
}

#[test]
fn backoff_doubles_up_to_the_cap() {
    let mut b = Backoff::new(1, 10);
    let mut waits = Vec::new();
    for _ in 0..6 {
        waits.push(b.on_failure());
    }
    assert_eq!(waits, vec![1, 2, 4, 8, 10, 10]);
    // non-decreasing
    for w in waits.windows(2) {
        assert!(w[0] <= w[1]);
    }
}

#[test]
fn backoff_resets_on_success() {
    let mut b = Backoff::new(2, 64);
    b.on_failure();
    b.on_failure();
    assert_eq!(b.delay, 8);
    b.on_success();
    assert_eq!(b.delay, 2);
    assert_eq!(b.on_failure(), 2);
}

#[test]
fn update_server_resets_connection_state() {
    let mut m = LianYiXiaWebSocketManager::new();
    m.add_server(target("t1"));
    let _ = m.connect_begin("t1").unwrap();
    m.connect_succeeded("t1", 1_000);
    let mut cfg = target("t1");
    cfg.port = 9001;
    m.update_server(cfg);
    assert!(matches!(
        m.get_server_status("t1").unwrap(),
        ConnectionStatus::Disconnected
    ));
    let plan = m.connect_begin("t1").unwrap();
    assert_eq!(plan.url, "ws://10.0.0.5:9001");
}

#[test]
fn inbound_messages_classify_for_the_connection() {
    match handle_inbound_message(RelayMessage::AuthResponse {
        success: true,
        message: "authentication successful".to_string(),
    }) {
        InboundAction::AuthResult { success, message } => {
            assert!(success);
            assert_eq!(message, "authentication successful");
        }
        _ => panic!("expected an authentication outcome"),
    }
    match handle_inbound_message(RelayMessage::PopupRequest {
        request_id: "r-1".to_string(),
        message: "m".to_string(),
        predefined_options: None,
        is_markdown: false,
    }) {
        InboundAction::LaunchApproval { request_id, .. } => assert_eq!(request_id, "r-1"),
        _ => panic!("expected an approval launch"),
    }
    assert!(matches!(
        handle_inbound_message(RelayMessage::Unknown {
            msg_type: "telemetry".to_string()
        }),
        InboundAction::Ignore
    ));
}

#[test]
fn disconnect_all_drops_every_connection() {
    let mut m = LianYiXiaWebSocketManager::new();
    m.add_server(target("t1"));
    m.add_server(target("t2"));
    let _ = m.connect_begin("t1").unwrap();
    m.connect_succeeded("t1", 1_000);
    m.disconnect_all();
    for (_, status) in m.get_all_status() {
        assert!(matches!(status, ConnectionStatus::Disconnected));
    }
}

#[test]
fn connect_begin_refuses_unknown_target() {
    let mut m = LianYiXiaWebSocketManager::new();
    assert!(m.connect_begin("nowhere").is_err());
}

#[test]
fn every_transport_error_has_its_category() {
    assert_eq!(
        friendly_error(&TransportErrorKind::Reset),
        "connection reset, the remote relay dropped the link"
    );
    assert_eq!(
        friendly_error(&TransportErrorKind::Aborted),
        "connection aborted, the remote relay dropped the link"
    );
    assert_eq!(
        friendly_error(&TransportErrorKind::BrokenPipe),
        "broken pipe, the remote relay is unreachable"
    );
    assert_eq!(
        friendly_error(&TransportErrorKind::AlreadyClosed),
        "connection already closed by the remote relay"
    );
}
