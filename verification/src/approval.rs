//! The boundary to the approval executor: the external program that shows a
//! prompt to a human and prints their answer. The caller writes the request
//! document to a temporary file, runs the program and captures its streams;
//! what the request document holds and how the outcome is read are decided
//! here.

use vstd::prelude::*;
use vstd::string::StringExecFns;
use crate::protocol::{encode_popup_response, popup_response_json};

verus! {

/// The response text standing for a prompt the user dismissed without
/// answering: the executor succeeded but printed nothing.
pub open spec fn spec_cancelled_response() -> Seq<char> {
    "user cancelled the operation"@
}

/// How a finished executor run reads: on success, the trimmed standard
/// output is the response, with empty output meaning the user cancelled; a
/// non-zero exit is a hard failure carrying the standard-error text as its
/// reason.
pub fn executor_outcome(exit_success: bool, stdout_trimmed: String, stderr: String) -> (r: Result<
    String,
    String,
>)
    ensures
        match r {
            Ok(response) => exit_success && (if stdout_trimmed@.len() == 0 {
                response@ == spec_cancelled_response()
            } else {
                response == stdout_trimmed
            }),
            Err(reason) => !exit_success && reason == stderr,
        },
{
    if exit_success {
        if stdout_trimmed.as_str().is_empty() {
            Ok("user cancelled the operation".to_owned())
        } else {
            Ok(stdout_trimmed)
        }
    } else {
        Err(stderr)
    }
}

/// The request document handed to the approval executor, as rendered by
/// serde_json: the request id, the message text, the optional option list
/// (JSON null when absent) and the markdown flag.
pub uninterp spec fn approval_request_json(
    request_id: Seq<char>,
    message: Seq<char>,
    predefined_options: Option<Seq<Seq<char>>>,
    is_markdown: bool,
) -> Seq<char>;

/// Relies on `serde_json::Value::to_string`: renders the approval request
/// document the executor reads from its temporary file.
#[verifier::external_body]
pub fn encode_approval_request(
    request_id: &str,
    message: &str,
    predefined_options: &Option<Vec<String>>,
    is_markdown: bool,
) -> (r: String)
    ensures
        r@ == approval_request_json(
            request_id@,
            message@,
            match predefined_options {
                Some(v) => Some(v.deep_view()),
                None => None,
            },
            is_markdown,
        ),
{
    let mut m = serde_json::Map::new();
    m.insert("id".to_owned(), serde_json::Value::String(request_id.to_owned()));
    m.insert("message".to_owned(), serde_json::Value::String(message.to_owned()));
    let opts = match predefined_options {
        Some(v) => serde_json::Value::Array(
            v.iter().map(|s| serde_json::Value::String(s.clone())).collect(),
        ),
        None => serde_json::Value::Null,
    };
    m.insert("predefined_options".to_owned(), opts);
    m.insert("is_markdown".to_owned(), serde_json::Value::Bool(is_markdown));
    serde_json::Value::Object(m).to_string()
}

/// How an approval request is delivered.
#[derive(Debug, Clone, PartialEq, Eq, Structural)]
pub enum ApprovalRoute {
    /// Dispatch through the relay hub to a connected session.
    ViaHub,
    /// Launch the local approval executor.
    ViaLocalExecutor,
}

/// Chooses how to deliver an approval request: through the hub exactly when
/// a hub is running and has at least one connected session, otherwise by the
/// local executor. A hub attempt that then fails falls back to the local
/// executor rather than failing the request — the caller retries locally.
pub fn choose_approval_route(hub_present: bool, hub_has_clients: bool) -> (r: ApprovalRoute)
    ensures
        (r == ApprovalRoute::ViaHub) <==> (hub_present && hub_has_clients),
{
    if hub_present && hub_has_clients {
        ApprovalRoute::ViaHub
    } else {
        ApprovalRoute::ViaLocalExecutor
    }
}

/// What one approval run needs before the executor starts: the request
/// document to write and the name of the temporary file to hold it.
pub struct ApprovalRun {
    pub document: String,
    pub file_name: String,
}

/// The temporary file an approval request is written to.
pub open spec fn spec_request_file_name(request_id: Seq<char>) -> Seq<char> {
    "mcp_request_"@ + request_id + ".json"@
}

/// Prepares one approval run: the request document and the temporary file
/// name it is written under.
pub fn prepare_approval_run(
    request_id: &str,
    message: &str,
    predefined_options: &Option<Vec<String>>,
    is_markdown: bool,
) -> (r: ApprovalRun)
    ensures
        r.document@ == approval_request_json(
            request_id@,
            message@,
            match predefined_options {
                Some(v) => Some(v.deep_view()),
                None => None,
            },
            is_markdown,
        ),
        r.file_name@ == spec_request_file_name(request_id@),
{
    let document = encode_approval_request(request_id, message, predefined_options, is_markdown);
    let mut file_name: String = "mcp_request_".to_owned();
    file_name.append(request_id);
    file_name.append(".json");
    proof {
        assert(file_name@ =~= spec_request_file_name(request_id@));
    }
    ApprovalRun { document, file_name }
}

/// Reads a finished executor run and, when it succeeded, renders the
/// correlated `popup_response` frame to send back; a failed run carries the
/// standard-error text as its reason and no frame is sent.
pub fn approval_reply_frame(
    request_id: &str,
    exit_success: bool,
    stdout_trimmed: String,
    stderr: String,
) -> (r: Result<String, String>)
    ensures
        match r {
            Ok(frame) => exit_success && frame@ == popup_response_json(
                request_id@,
                if stdout_trimmed@.len() == 0 {
                    spec_cancelled_response()
                } else {
                    stdout_trimmed@
                },
            ),
            Err(reason) => !exit_success && reason == stderr,
        },
{
    match executor_outcome(exit_success, stdout_trimmed, stderr) {
        Ok(response) => Ok(encode_popup_response(request_id, response.as_str())),
        Err(reason) => Err(reason),
    }
}

} // verus!
