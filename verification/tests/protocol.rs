//! The wire protocol: every frame the library renders decodes back to the
//! message it was rendered from, and malformed frames are dropped.

use cunzhi::protocol::{
    decode_message, encode_auth, encode_auth_response, encode_error_msg, encode_popup_request,
    encode_popup_response, encode_register, encode_register_ack, encode_register_error,
    RelayMessage,
};

#[test]
fn register_round_trip() {
    let frame = encode_register("host-42");
    match decode_message(&frame) {
        Some(RelayMessage::Register { client_id }) => assert_eq!(client_id, "host-42"),
        other => panic!("decoded {:?}", other),
    }
}

#[test]
fn register_ack_round_trip() {
    let frame = encode_register_ack("registration successful");
    match decode_message(&frame) {
        Some(RelayMessage::RegisterAck { message }) => {
            assert_eq!(message, "registration successful")
        }
        other => panic!("decoded {:?}", other),
    }
}

#[test]
fn register_error_round_trip() {
    let frame = encode_register_error("expected a register message");
    match decode_message(&frame) {
        Some(RelayMessage::RegisterError { error }) => {
            assert_eq!(error, "expected a register message")
        }
        other => panic!("decoded {:?}", other),
    }
}

#[test]
fn auth_round_trip() {
    let frame = encode_auth("key-1234");
    match decode_message(&frame) {
        Some(RelayMessage::Auth { api_key }) => {
            assert_eq!(api_key.as_deref(), Some("key-1234"))
        }
        other => panic!("decoded {:?}", other),
    }
}

#[test]
fn auth_response_round_trip() {
    let frame = encode_auth_response(true, "authentication successful");
    match decode_message(&frame) {
        Some(RelayMessage::AuthResponse { success, message }) => {
            assert!(success);
            assert_eq!(message, "authentication successful");
        }
        other => panic!("decoded {:?}", other),
    }
}

#[test]
fn error_frame_round_trip() {
    let frame = encode_error_msg("please authenticate first");
    match decode_message(&frame) {
        Some(RelayMessage::ErrorMsg { message }) => {
            assert_eq!(message, "please authenticate first")
        }
        other => panic!("decoded {:?}", other),
    }
}

#[test]
fn popup_request_round_trip_with_options() {
    let opts = Some(vec!["continue".to_string(), "stop".to_string()]);
    let frame = encode_popup_request("req-1", "deploy?", &opts, true);
    match decode_message(&frame) {
        Some(RelayMessage::PopupRequest {
            request_id,
            message,
            predefined_options,
            is_markdown,
        }) => {
            assert_eq!(request_id, "req-1");
            assert_eq!(message, "deploy?");
            assert_eq!(
                predefined_options,
                Some(vec!["continue".to_string(), "stop".to_string()])
            );
            assert!(is_markdown);
        }
        other => panic!("decoded {:?}", other),
    }
}

#[test]
fn popup_request_round_trip_without_options() {
    let frame = encode_popup_request("req-2", "plain text", &None, false);
    match decode_message(&frame) {
        Some(RelayMessage::PopupRequest {
            request_id,
            message,
            predefined_options,
            is_markdown,
        }) => {
            assert_eq!(request_id, "req-2");
            assert_eq!(message, "plain text");
            assert_eq!(predefined_options, None);
            assert!(!is_markdown);
        }
        other => panic!("decoded {:?}", other),
    }
}

#[test]
fn popup_response_round_trip() {
    let frame = encode_popup_response("req-1", "continue");
    match decode_message(&frame) {
        Some(RelayMessage::PopupResponse {
            request_id,
            response,
        }) => {
            assert_eq!(request_id, "req-1");
            assert_eq!(response, "continue");
        }
        other => panic!("decoded {:?}", other),
    }
}

#[test]
fn frames_are_json_objects_with_type_field() {
    let frame = encode_popup_request("id-9", "m", &None, false);
    let v: serde_json::Value = serde_json::from_str(&frame).unwrap();
    assert_eq!(v["type"].as_str(), Some("popup_request"));
    assert_eq!(v["request_id"].as_str(), Some("id-9"));
    assert_eq!(v["message"].as_str(), Some("m"));
    assert!(v["predefined_options"].is_null());
    assert_eq!(v["is_markdown"].as_bool(), Some(false));
}

#[test]
fn invalid_json_is_dropped() {
    assert!(decode_message("not json at all {").is_none());
}

#[test]
fn missing_type_field_is_dropped() {
    assert!(decode_message("{\"client_id\": \"x\"}").is_none());
}

#[test]
fn register_without_client_id_is_dropped() {
    assert!(decode_message("{\"type\": \"register\"}").is_none());
}

#[test]
fn popup_request_without_request_id_is_dropped() {
    assert!(decode_message("{\"type\": \"popup_request\", \"message\": \"m\"}").is_none());
}

#[test]
fn unknown_type_classifies_as_unknown() {
    match decode_message("{\"type\": \"telemetry\"}") {
        Some(RelayMessage::Unknown { msg_type }) => assert_eq!(msg_type, "telemetry"),
        other => panic!("decoded {:?}", other),
    }
}

#[test]
fn non_string_field_is_treated_as_absent() {
    assert!(decode_message("{\"type\": \"register\", \"client_id\": 7}").is_none());
}

#[test]
fn auth_without_key_still_classifies_as_auth() {
    match decode_message("{\"type\": \"auth\"}") {
        Some(RelayMessage::Auth { api_key }) => assert_eq!(api_key, None),
        other => panic!("decoded {:?}", other),
    }
}
