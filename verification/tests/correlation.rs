//! Request correlation: the dispatch/response round trip resolves exactly
//! once, and late or unmatched responses are no-ops.

use cunzhi::client::{ClientAction, ClientSendError, WsClient};
use cunzhi::correlator::Correlator;
use cunzhi::protocol::RelayMessage;
use cunzhi::types::WsClientConfig;

fn client_config() -> WsClientConfig {
    WsClientConfig {
        host: "localhost".to_string(),
        port: 9000,
        client_id: "host-1".to_string(),
    }
}

fn connected_client() -> WsClient<u32> {
    let mut c: WsClient<u32> = WsClient::new(client_config());
    let _url = c.connect_begin();
    let _register = c.on_socket_connected(1000);
    let _ = c.handle_message(RelayMessage::RegisterAck {
        message: "registration successful".to_string(),
    });
    assert!(c.is_connected());
    c
}

#[test]
fn correlator_round_trip() {
    let mut c: Correlator<String> = Correlator::new();
    c.register("x-1".to_string(), "waiter".to_string());
    assert!(c.is_pending("x-1"));
    assert_eq!(c.resolve("x-1"), Some("waiter".to_string()));
    assert!(!c.is_pending("x-1"));
    // a duplicate response finds nothing and is a no-op
    assert_eq!(c.resolve("x-1"), None);
}

#[test]
fn correlator_unmatched_response_is_noop() {
    let mut c: Correlator<String> = Correlator::new();
    c.register("x-1".to_string(), "waiter".to_string());
    assert_eq!(c.resolve("never-sent"), None);
    assert_eq!(c.len(), 1);
}

#[test]
fn correlator_cancel_then_late_response() {
    let mut c: Correlator<u32> = Correlator::new();
    c.register("x-2".to_string(), 7);
    assert_eq!(c.cancel("x-2"), Some(7));
    // the late response after the timeout cleanup finds nothing
    assert_eq!(c.resolve("x-2"), None);
}

#[test]
fn dispatch_response_round_trip() {
    let mut c = connected_client();
    let frame = c
        .send_popup_request_begin("x-77".to_string(), 41, "m", &None, false)
        .expect("dispatch should be accepted while connected");
    let v: serde_json::Value = serde_json::from_str(&frame).unwrap();
    assert_eq!(v["request_id"].as_str(), Some("x-77"));
    assert_eq!(v["message"].as_str(), Some("m"));
    // the correlated response resolves the original call with "r"
    match c.handle_message(RelayMessage::PopupResponse {
        request_id: "x-77".to_string(),
        response: "r".to_string(),
    }) {
        ClientAction::Deliver { waiter, response } => {
            assert_eq!(waiter, 41);
            assert_eq!(response, "r");
        }
        _ => panic!("expected delivery"),
    }
    // a response for an id with no pending entry is a no-op
    match c.handle_message(RelayMessage::PopupResponse {
        request_id: "x-77".to_string(),
        response: "late".to_string(),
    }) {
        ClientAction::Ignore => {}
        _ => panic!("late response must be ignored"),
    }
}

#[test]
fn dispatch_requires_connection() {
    let mut c: WsClient<u32> = WsClient::new(client_config());
    match c.send_popup_request_begin("x-1".to_string(), 1, "m", &None, false) {
        Err((1, ClientSendError::NotConnected)) => {}
        _ => panic!("dispatch must be refused while disconnected"),
    }
}

#[test]
fn dispatch_refuses_a_dropped_sink() {
    let mut c: WsClient<u32> = WsClient::new(client_config());
    c.connect_begin();
    // the acknowledgement arrives although the sink was never recorded
    let _ = c.handle_message(RelayMessage::RegisterAck {
        message: "ok".to_string(),
    });
    match c.send_popup_request_begin("x-1".to_string(), 1, "m", &None, false) {
        Err((1, ClientSendError::SinkGone)) => {}
        _ => panic!("dispatch must be refused without a sink"),
    }
}

#[test]
fn dispatch_refuses_duplicate_request_id() {
    let mut c = connected_client();
    c.send_popup_request_begin("x-1".to_string(), 1, "m", &None, false)
        .unwrap();
    match c.send_popup_request_begin("x-1".to_string(), 2, "m", &None, false) {
        Err((2, ClientSendError::DuplicateRequestId)) => {}
        _ => panic!("duplicate id must be refused"),
    }
}

#[test]
fn dispatch_timeout_cleans_pending_entry() {
    let mut c = connected_client();
    c.send_popup_request_begin("x-9".to_string(), 5, "m", &None, false)
        .unwrap();
    assert_eq!(c.on_response_timeout("x-9"), Some(5));
    match c.handle_message(RelayMessage::PopupResponse {
        request_id: "x-9".to_string(),
        response: "r".to_string(),
    }) {
        ClientAction::Ignore => {}
        _ => panic!("response after timeout must be ignored"),
    }
}

#[test]
fn fresh_id_dispatch_generates_distinct_ids() {
    let mut c = connected_client();
    let (id1, _f1) = c.send_popup_request(1, "m", &None, false).unwrap();
    let (id2, _f2) = c.send_popup_request(2, "m", &None, false).unwrap();
    assert_eq!(id1.len(), 36);
    assert_eq!(id2.len(), 36);
    assert_ne!(id1, id2);
}
