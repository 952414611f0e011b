//! The relay client: registration handshake, liveness watchdog, retry
//! policy and the approval path.

use cunzhi::client::{retry_step, ClientAction, WsClient, CLIENT_RETRY_INTERVAL_SECS};
use cunzhi::protocol::RelayMessage;
use cunzhi::types::{ConnectionStatus, TunnelStatus, WebSocketStatus, WsClientConfig};

fn client() -> WsClient<u32> {
    WsClient::new(WsClientConfig {
        host: "relay.example.org".to_string(),
        port: 9000,
        client_id: "host-1-77".to_string(),
    })
}

#[test]
fn registration_handshake_connects() {
    let mut c = client();
    let url = c.connect_begin();
    assert_eq!(url, "ws://relay.example.org:9000");
    assert!(!c.is_connected());
    let register = c.on_socket_connected(100);
    let v: serde_json::Value = serde_json::from_str(&register).unwrap();
    assert_eq!(v["type"].as_str(), Some("register"));
    assert_eq!(v["client_id"].as_str(), Some("host-1-77"));
    // connected only after the acknowledgement
    assert!(!c.is_connected());
    c.handle_message(RelayMessage::RegisterAck {
        message: "ok".to_string(),
    });
    assert!(c.is_connected());
}

#[test]
fn registration_error_is_recorded() {
    let mut c = client();
    c.connect_begin();
    c.on_socket_connected(100);
    c.handle_message(RelayMessage::RegisterError {
        error: "id already taken".to_string(),
    });
    assert!(!c.is_connected());
    match c.status {
        ConnectionStatus::Error(e) => assert_eq!(e, "id already taken"),
        other => panic!("status {:?}", other),
    }
}

#[test]
fn connect_failure_is_recorded() {
    let mut c = client();
    c.connect_begin();
    c.on_connect_failed("connection refused".to_string());
    match c.status {
        ConnectionStatus::Error(e) => assert_eq!(e, "connection failed: connection refused"),
        other => panic!("status {:?}", other),
    }
}

#[test]
fn approval_request_is_handed_to_the_executor() {
    let mut c = client();
    c.connect_begin();
    c.on_socket_connected(100);
    c.handle_message(RelayMessage::RegisterAck {
        message: "ok".to_string(),
    });
    match c.handle_message(RelayMessage::PopupRequest {
        request_id: "r-1".to_string(),
        message: "may I?".to_string(),
        predefined_options: Some(vec!["yes".to_string()]),
        is_markdown: false,
    }) {
        ClientAction::LaunchApproval {
            request_id,
            message,
            predefined_options,
            is_markdown,
        } => {
            assert_eq!(request_id, "r-1");
            assert_eq!(message, "may I?");
            assert_eq!(predefined_options, Some(vec!["yes".to_string()]));
            assert!(!is_markdown);
        }
        _ => panic!("expected an approval launch"),
    }
}

#[test]
fn liveness_watchdog_detects_a_stalled_hub() {
    let mut c = client();
    c.connect_begin();
    c.on_socket_connected(1_000);
    c.handle_message(RelayMessage::RegisterAck {
        message: "ok".to_string(),
    });
    c.on_ping(10_000);
    assert!(c.heartbeat_check(30_000, 60_000));
    assert!(!c.heartbeat_check(80_000, 60_000));
    match c.status {
        ConnectionStatus::Error(e) => assert_eq!(e, "liveness timeout"),
        other => panic!("status {:?}", other),
    }
}

#[test]
fn liveness_watchdog_stops_after_disconnect() {
    let mut c = client();
    c.connect_begin();
    c.on_socket_connected(1_000);
    c.handle_message(RelayMessage::RegisterAck {
        message: "ok".to_string(),
    });
    c.on_disconnected();
    assert!(!c.heartbeat_check(1_001, 60_000));
    assert!(matches!(c.status, ConnectionStatus::Disconnected));
}

#[test]
fn retry_policy_gives_up_at_the_limit() {
    assert_eq!(retry_step(0, 3), Some(1));
    assert_eq!(retry_step(1, 3), Some(2));
    assert_eq!(retry_step(2, 3), None);
    assert_eq!(retry_step(0, 0), None);
    assert_eq!(retry_step(0, u64::MAX), Some(1));
    assert_eq!(CLIENT_RETRY_INTERVAL_SECS, 5);
}

#[test]
fn status_strings_render() {
    assert_eq!(ConnectionStatus::Disconnected.as_string(), "disconnected");
    assert_eq!(ConnectionStatus::Connecting.as_string(), "connecting");
    assert_eq!(ConnectionStatus::Connected.as_string(), "connected");
    assert_eq!(
        ConnectionStatus::Error("boom".to_string()).as_string(),
        "error"
    );
    assert_eq!(WebSocketStatus::Connected.as_string(), "connected");
    assert_eq!(WebSocketStatus::Disconnected.as_string(), "disconnected");
    assert_eq!(TunnelStatus::Running.as_string(), "running");
    assert_eq!(
        TunnelStatus::Error("x".to_string()).as_string(),
        "error"
    );
}
