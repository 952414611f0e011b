//! The relay wire protocol: JSON text frames whose `type` field selects the
//! variant. Parsing and rendering of the JSON syntax itself is delegated to
//! serde_json behind trusted declarations; the schema — which fields each
//! variant carries and how a frame classifies — is verified here.

use vstd::prelude::*;

verus! {

/// Declares `serde_json::Value`, the parsed form of a JSON frame, so that
/// values of it can pass through signatures; the verifier sees nothing
/// inside one, and everything the schema reads of it goes through the
/// trusted accessors below.
#[verifier::external_type_specification]
#[verifier::external_body]
pub struct ExJsonValue(serde_json::Value);

/// The string-valued fields of the JSON object `v`: the map sends `key` to
/// `s` exactly when `v` is an object whose field `key` holds the string `s`.
pub uninterp spec fn json_str_fields(v: serde_json::Value) -> Map<Seq<char>, Seq<char>>;

/// The bool-valued fields of the JSON object `v`.
pub uninterp spec fn json_bool_fields(v: serde_json::Value) -> Map<Seq<char>, bool>;

/// The fields of the JSON object `v` holding an array whose elements are all
/// strings, as sequences of those strings.
pub uninterp spec fn json_str_array_fields(v: serde_json::Value) -> Map<Seq<char>, Seq<Seq<char>>>;

/// Relies on `serde_json::Value::get` and `Value::as_str`: the string value
/// of field `key` of `v`, `None` if `v` is not an object, lacks the field,
/// or the field is not a string.
#[verifier::external_body]
fn get_str_field(v: &serde_json::Value, key: &str) -> (r: Option<String>)
    ensures
        match r {
            Some(s) => json_str_fields(*v).contains_key(key@) && s@ == json_str_fields(*v)[key@],
            None => !json_str_fields(*v).contains_key(key@),
        },
{
    v.get(key).and_then(|x| x.as_str()).map(|s| s.to_owned())
}

/// Relies on `serde_json::Value::get` and `Value::as_bool`: the bool value
/// of field `key` of `v`, `None` if absent or not a bool.
#[verifier::external_body]
fn get_bool_field(v: &serde_json::Value, key: &str) -> (r: Option<bool>)
    ensures
        match r {
            Some(b) => json_bool_fields(*v).contains_key(key@) && b == json_bool_fields(*v)[key@],
            None => !json_bool_fields(*v).contains_key(key@),
        },
{
    v.get(key).and_then(|x| x.as_bool())
}

/// Relies on `serde_json::Value::get`, `Value::as_array` and `Value::as_str`:
/// the elements of the array field `key` of `v`, `None` if the field is
/// absent, not an array, or contains a non-string element.
#[verifier::external_body]
fn get_str_array_field(v: &serde_json::Value, key: &str) -> (r: Option<Vec<String>>)
    ensures
        match r {
            Some(a) => json_str_array_fields(*v).contains_key(key@) && a.deep_view()
                == json_str_array_fields(*v)[key@],
            None => !json_str_array_fields(*v).contains_key(key@),
        },
{
    match v.get(key).and_then(|x| x.as_array()) {
        None => None,
        Some(items) => items.iter().map(|e| e.as_str().map(|s| s.to_owned())).collect(),
    }
}

/// One message of the relay protocol.
#[derive(Debug, Clone)]
pub enum RelayMessage {
    /// Client -> hub: announce the client's identity.
    Register { client_id: String },
    /// Hub -> client: registration accepted.
    RegisterAck { message: String },
    /// Hub -> client: registration rejected.
    RegisterError { error: String },
    /// Client -> hub: authentication handshake. A frame without the
    /// `api_key` field still classifies as an authentication attempt; the
    /// hub rejects it.
    Auth { api_key: Option<String> },
    /// Hub -> client: outcome of the authentication handshake.
    AuthResponse { success: bool, message: String },
    /// An approval request awaiting a correlated response.
    PopupRequest {
        request_id: String,
        message: String,
        predefined_options: Option<Vec<String>>,
        is_markdown: bool,
    },
    /// The response correlated to an earlier request.
    PopupResponse { request_id: String, response: String },
    /// Reject or terminate a session.
    ErrorMsg { message: String },
    /// A well-formed frame of a type this protocol does not know.
    Unknown { msg_type: String },
}

/// The mathematical shape of a [`RelayMessage`].
pub enum MessageView {
    Register { client_id: Seq<char> },
    RegisterAck { message: Seq<char> },
    RegisterError { error: Seq<char> },
    Auth { api_key: Option<Seq<char>> },
    AuthResponse { success: bool, message: Seq<char> },
    PopupRequest {
        request_id: Seq<char>,
        message: Seq<char>,
        predefined_options: Option<Seq<Seq<char>>>,
        is_markdown: bool,
    },
    PopupResponse { request_id: Seq<char>, response: Seq<char> },
    ErrorMsg { message: Seq<char> },
    Unknown { msg_type: Seq<char> },
}

impl View for RelayMessage {
    type V = MessageView;

    open spec fn view(&self) -> MessageView {
        match self {
            RelayMessage::Register { client_id } => MessageView::Register {
                client_id: client_id@,
            },
            RelayMessage::RegisterAck { message } => MessageView::RegisterAck {
                message: message@,
            },
            RelayMessage::RegisterError { error } => MessageView::RegisterError { error: error@ },
            RelayMessage::Auth { api_key } => MessageView::Auth {
                api_key: match api_key {
                    Some(k) => Some(k@),
                    None => None,
                },
            },
            RelayMessage::AuthResponse { success, message } => MessageView::AuthResponse {
                success: *success,
                message: message@,
            },
            RelayMessage::PopupRequest { request_id, message, predefined_options, is_markdown } => {
                MessageView::PopupRequest {
                    request_id: request_id@,
                    message: message@,
                    predefined_options: match predefined_options {
                        Some(v) => Some(v.deep_view()),
                        None => None,
                    },
                    is_markdown: *is_markdown,
                }
            },
            RelayMessage::PopupResponse { request_id, response } => MessageView::PopupResponse {
                request_id: request_id@,
                response: response@,
            },
            RelayMessage::ErrorMsg { message } => MessageView::ErrorMsg { message: message@ },
            RelayMessage::Unknown { msg_type } => MessageView::Unknown { msg_type: msg_type@ },
        }
    }
}

/// How a parsed frame classifies: which protocol message the JSON object `v`
/// denotes, or `None` when a required field is missing.
pub open spec fn spec_classify(v: serde_json::Value) -> Option<MessageView> {
    let sf = json_str_fields(v);
    let bf = json_bool_fields(v);
    let af = json_str_array_fields(v);
    if !sf.contains_key("type"@) {
        None
    } else {
        let t = sf["type"@];
        if t == "register"@ {
            if sf.contains_key("client_id"@) {
                Some(MessageView::Register { client_id: sf["client_id"@] })
            } else {
                None
            }
        } else if t == "register_ack"@ {
            Some(MessageView::RegisterAck {
                message: if sf.contains_key("message"@) { sf["message"@] } else { Seq::empty() },
            })
        } else if t == "register_error"@ {
            Some(MessageView::RegisterError {
                error: if sf.contains_key("error"@) { sf["error"@] } else { Seq::empty() },
            })
        } else if t == "auth"@ {
            Some(MessageView::Auth {
                api_key: if sf.contains_key("api_key"@) { Some(sf["api_key"@]) } else { None },
            })
        } else if t == "auth_response"@ {
            Some(MessageView::AuthResponse {
                success: if bf.contains_key("success"@) { bf["success"@] } else { false },
                message: if sf.contains_key("message"@) { sf["message"@] } else { Seq::empty() },
            })
        } else if t == "popup_request"@ {
            if sf.contains_key("request_id"@) && sf.contains_key("message"@) {
                Some(MessageView::PopupRequest {
                    request_id: sf["request_id"@],
                    message: sf["message"@],
                    predefined_options: if af.contains_key("predefined_options"@) {
                        Some(af["predefined_options"@])
                    } else {
                        None
                    },
                    is_markdown: if bf.contains_key("is_markdown"@) {
                        bf["is_markdown"@]
                    } else {
                        false
                    },
                })
            } else {
                None
            }
        } else if t == "popup_response"@ {
            if sf.contains_key("request_id"@) && sf.contains_key("response"@) {
                Some(MessageView::PopupResponse {
                    request_id: sf["request_id"@],
                    response: sf["response"@],
                })
            } else {
                None
            }
        } else if t == "error"@ {
            Some(MessageView::ErrorMsg {
                message: if sf.contains_key("message"@) { sf["message"@] } else { Seq::empty() },
            })
        } else {
            Some(MessageView::Unknown { msg_type: t })
        }
    }
}

/// What decoding a text frame yields. Parsing is a deterministic function of
/// the text, so the result is named once here and every contract that speaks
/// of decoding speaks of this name.
pub uninterp spec fn spec_decoded(text: Seq<char>) -> Option<MessageView>;

/// Relies on `serde_json::from_str::<Value>`: parsing is a deterministic
/// function of the text; a parsed value classifies as the decoded message of
/// the text, and texts that do not parse decode to nothing.
#[verifier::external_body]
fn parse_json(text: &str) -> (r: Option<serde_json::Value>)
    ensures
        match r {
            Some(v) => spec_classify(v) == spec_decoded(text@),
            None => spec_decoded(text@) is None,
        },
{
    serde_json::from_str(text).ok()
}

/// Classifies a parsed frame.
pub fn classify(v: &serde_json::Value) -> (r: Option<RelayMessage>)
    ensures
        match r {
            Some(m) => spec_classify(*v) == Some(m@),
            None => spec_classify(*v) is None,
        },
{
    let t = match get_str_field(v, "type") {
        Some(t) => t,
        None => {
            return None;
        },
    };
    if crate::strfmt::str_eq(t.as_str(), "register") {
        match get_str_field(v, "client_id") {
            Some(client_id) => Some(RelayMessage::Register { client_id }),
            None => None,
        }
    } else if crate::strfmt::str_eq(t.as_str(), "register_ack") {
        Some(RelayMessage::RegisterAck { message: get_str_or_empty(v, "message") })
    } else if crate::strfmt::str_eq(t.as_str(), "register_error") {
        Some(RelayMessage::RegisterError { error: get_str_or_empty(v, "error") })
    } else if crate::strfmt::str_eq(t.as_str(), "auth") {
        Some(RelayMessage::Auth { api_key: get_str_field(v, "api_key") })
    } else if crate::strfmt::str_eq(t.as_str(), "auth_response") {
        let success = match get_bool_field(v, "success") {
            Some(b) => b,
            None => false,
        };
        Some(RelayMessage::AuthResponse { success, message: get_str_or_empty(v, "message") })
    } else if crate::strfmt::str_eq(t.as_str(), "popup_request") {
        let request_id = match get_str_field(v, "request_id") {
            Some(s) => s,
            None => {
                return None;
            },
        };
        let message = match get_str_field(v, "message") {
            Some(s) => s,
            None => {
                return None;
            },
        };
        let predefined_options = get_str_array_field(v, "predefined_options");
        let is_markdown = match get_bool_field(v, "is_markdown") {
            Some(b) => b,
            None => false,
        };
        Some(RelayMessage::PopupRequest { request_id, message, predefined_options, is_markdown })
    } else if crate::strfmt::str_eq(t.as_str(), "popup_response") {
        let request_id = match get_str_field(v, "request_id") {
            Some(s) => s,
            None => {
                return None;
            },
        };
        let response = match get_str_field(v, "response") {
            Some(s) => s,
            None => {
                return None;
            },
        };
        Some(RelayMessage::PopupResponse { request_id, response })
    } else if crate::strfmt::str_eq(t.as_str(), "error") {
        Some(RelayMessage::ErrorMsg { message: get_str_or_empty(v, "message") })
    } else {
        Some(RelayMessage::Unknown { msg_type: t })
    }
}

/// The string field `key` of `v`, or the empty string when absent.
fn get_str_or_empty(v: &serde_json::Value, key: &str) -> (r: String)
    ensures
        r@ == if json_str_fields(*v).contains_key(key@) {
            json_str_fields(*v)[key@]
        } else {
            Seq::<char>::empty()
        },
{
    match get_str_field(v, key) {
        Some(s) => s,
        None => String::new(),
    }
}

/// Decodes a text frame into a protocol message. `None` means the text is
/// not valid JSON or lacks a required field; such frames are dropped by
/// every caller, never fatal to a connection.
pub fn decode_message(text: &str) -> (r: Option<RelayMessage>)
    ensures
        match r {
            Some(m) => spec_decoded(text@) == Some(m@),
            None => spec_decoded(text@) is None,
        },
{
    match parse_json(text) {
        Some(v) => classify(&v),
        None => None,
    }
}

// ---------------------------------------------------------------------
// Frame rendering. Each frame an implementation sends is rendered by
// serde_json from plain values; the result is a deterministic function of
// those values and is named so callers' contracts can pin the exact frame.
// ---------------------------------------------------------------------

/// The rendered `register` frame for `client_id`.
pub uninterp spec fn register_json(client_id: Seq<char>) -> Seq<char>;

/// Relies on `serde_json::Value::to_string`: renders the `register` frame.
#[verifier::external_body]
pub fn encode_register(client_id: &str) -> (r: String)
    ensures
        r@ == register_json(client_id@),
{
    let mut m = serde_json::Map::new();
    m.insert("type".to_owned(), serde_json::Value::String("register".to_owned()));
    m.insert("client_id".to_owned(), serde_json::Value::String(client_id.to_owned()));
    serde_json::Value::Object(m).to_string()
}

/// The rendered `register_ack` frame carrying `message`.
pub uninterp spec fn register_ack_json(message: Seq<char>) -> Seq<char>;

/// Relies on `serde_json::Value::to_string`: renders the `register_ack` frame.
#[verifier::external_body]
pub fn encode_register_ack(message: &str) -> (r: String)
    ensures
        r@ == register_ack_json(message@),
{
    let mut m = serde_json::Map::new();
    m.insert("type".to_owned(), serde_json::Value::String("register_ack".to_owned()));
    m.insert("message".to_owned(), serde_json::Value::String(message.to_owned()));
    serde_json::Value::Object(m).to_string()
}

/// The rendered `register_error` frame carrying `error`.
pub uninterp spec fn register_error_json(error: Seq<char>) -> Seq<char>;

/// Relies on `serde_json::Value::to_string`: renders the `register_error` frame.
#[verifier::external_body]
pub fn encode_register_error(error: &str) -> (r: String)
    ensures
        r@ == register_error_json(error@),
{
    let mut m = serde_json::Map::new();
    m.insert("type".to_owned(), serde_json::Value::String("register_error".to_owned()));
    m.insert("error".to_owned(), serde_json::Value::String(error.to_owned()));
    serde_json::Value::Object(m).to_string()
}

/// The rendered `auth` frame carrying `api_key`.
pub uninterp spec fn auth_json(api_key: Seq<char>) -> Seq<char>;

/// Relies on `serde_json::Value::to_string`: renders the `auth` frame.
#[verifier::external_body]
pub fn encode_auth(api_key: &str) -> (r: String)
    ensures
        r@ == auth_json(api_key@),
{
    let mut m = serde_json::Map::new();
    m.insert("type".to_owned(), serde_json::Value::String("auth".to_owned()));
    m.insert("api_key".to_owned(), serde_json::Value::String(api_key.to_owned()));
    serde_json::Value::Object(m).to_string()
}

/// The rendered `auth_response` frame.
pub uninterp spec fn auth_response_json(success: bool, message: Seq<char>) -> Seq<char>;

/// Relies on `serde_json::Value::to_string`: renders the `auth_response` frame.
#[verifier::external_body]
pub fn encode_auth_response(success: bool, message: &str) -> (r: String)
    ensures
        r@ == auth_response_json(success, message@),
{
    let mut m = serde_json::Map::new();
    m.insert("type".to_owned(), serde_json::Value::String("auth_response".to_owned()));
    m.insert("success".to_owned(), serde_json::Value::Bool(success));
    m.insert("message".to_owned(), serde_json::Value::String(message.to_owned()));
    serde_json::Value::Object(m).to_string()
}

/// The rendered `error` frame carrying `message`.
pub uninterp spec fn error_json(message: Seq<char>) -> Seq<char>;

/// Relies on `serde_json::Value::to_string`: renders the `error` frame.
#[verifier::external_body]
pub fn encode_error_msg(message: &str) -> (r: String)
    ensures
        r@ == error_json(message@),
{
    let mut m = serde_json::Map::new();
    m.insert("type".to_owned(), serde_json::Value::String("error".to_owned()));
    m.insert("message".to_owned(), serde_json::Value::String(message.to_owned()));
    serde_json::Value::Object(m).to_string()
}

/// The rendered `popup_request` frame.
pub uninterp spec fn popup_request_json(
    request_id: Seq<char>,
    message: Seq<char>,
    predefined_options: Option<Seq<Seq<char>>>,
    is_markdown: bool,
) -> Seq<char>;

/// Relies on `serde_json::Value::to_string`: renders the `popup_request`
/// frame; an absent option list is rendered as JSON null.
#[verifier::external_body]
pub fn encode_popup_request(
    request_id: &str,
    message: &str,
    predefined_options: &Option<Vec<String>>,
    is_markdown: bool,
) -> (r: String)
    ensures
        r@ == popup_request_json(
            request_id@,
            message@,
            match predefined_options {
                Some(v) => Some(v.deep_view()),
                None => None,
            },
            is_markdown,
        ),
{
    let mut m = serde_json::Map::new();
    m.insert("type".to_owned(), serde_json::Value::String("popup_request".to_owned()));
    m.insert("request_id".to_owned(), serde_json::Value::String(request_id.to_owned()));
    m.insert("message".to_owned(), serde_json::Value::String(message.to_owned()));
    let opts = match predefined_options {
        Some(v) => serde_json::Value::Array(
            v.iter().map(|s| serde_json::Value::String(s.clone())).collect(),
        ),
        None => serde_json::Value::Null,
    };
    m.insert("predefined_options".to_owned(), opts);
    m.insert("is_markdown".to_owned(), serde_json::Value::Bool(is_markdown));
    serde_json::Value::Object(m).to_string()
}

/// The rendered `popup_response` frame.
pub uninterp spec fn popup_response_json(request_id: Seq<char>, response: Seq<char>) -> Seq<char>;

/// Relies on `serde_json::Value::to_string`: renders the `popup_response` frame.
#[verifier::external_body]
pub fn encode_popup_response(request_id: &str, response: &str) -> (r: String)
    ensures
        r@ == popup_response_json(request_id@, response@),
{
    let mut m = serde_json::Map::new();
    m.insert("type".to_owned(), serde_json::Value::String("popup_response".to_owned()));
    m.insert("request_id".to_owned(), serde_json::Value::String(request_id.to_owned()));
    m.insert("response".to_owned(), serde_json::Value::String(response.to_owned()));
    serde_json::Value::Object(m).to_string()
}

} // verus!
