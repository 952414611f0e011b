//! The client role of the relay: a single outbound connection that
//! registers under a client id, dispatches approval requests with a bounded
//! wait, answers approval requests arriving from the hub, and watches the
//! hub's liveness through transport pings.
//!
//! Dispatch here is bounded: the caller waits
//! [`POPUP_RESPONSE_TIMEOUT_SECS`] seconds for the correlated response and
//! then cancels the pending entry through
//! [`WsClient::on_response_timeout`], so a late response finds nothing and
//! is ignored.

use vstd::prelude::*;
use vstd::string::StringExecFns;
use crate::correlator::Correlator;
use crate::protocol::{
    encode_popup_request, encode_register, popup_request_json, register_json, RelayMessage,
};
use crate::strfmt::{parse_u64, spec_all_digits, spec_dec, spec_digits_val, str_eq};
use crate::types::{ConnectionStatus, WsClientConfig};

verus! {

/// Seconds a dispatched request waits for its response before timing out.
pub const POPUP_RESPONSE_TIMEOUT_SECS: u64 = 30;

/// Seconds between reconnect attempts of the client's retry loop.
pub const CLIENT_RETRY_INTERVAL_SECS: u64 = 5;

/// The address the client dials.
pub open spec fn spec_client_url(host: Seq<char>, port: u16) -> Seq<char> {
    "ws://"@ + host + ":"@ + spec_dec(port as nat)
}

/// What the caller must do after the client handled an inbound frame.
pub enum ClientAction<W> {
    /// Nothing; the frame was consumed (or was a late response with no
    /// pending entry, a no-op).
    Ignore,
    /// A response arrived for a pending request: complete `waiter` with
    /// `response`.
    Deliver { waiter: W, response: String },
    /// An approval request arrived from the hub: run the approval executor
    /// and send back a correlated `popup_response` frame.
    LaunchApproval {
        request_id: String,
        message: String,
        predefined_options: Option<Vec<String>>,
        is_markdown: bool,
    },
}

/// Why a dispatch was refused.
#[derive(Debug, Clone, PartialEq, Eq, Structural)]
pub enum ClientSendError {
    /// The client is not in the `Connected` state.
    NotConnected,
    /// No outbound sink is held.
    SinkGone,
    /// A request with this id is already pending.
    DuplicateRequestId,
}

/// The relay client. `W` is the caller's single-use completion handle for a
/// dispatched request.
pub struct WsClient<W> {
    pub config: WsClientConfig,
    pub status: ConnectionStatus,
    /// Whether the caller holds an open outbound sink.
    pub sink_present: bool,
    /// When the last liveness signal (a transport ping from the hub) was
    /// observed, in caller-supplied milliseconds.
    pub last_pong_ms: u64,
    pub pending: Correlator<W>,
}

impl<W> WsClient<W> {
    /// Well-formed; established by [`WsClient::new`] and preserved by every
    /// operation.
    pub open spec fn wf(self) -> bool {
        self.pending.wf()
    }

    /// A disconnected client.
    pub fn new(config: WsClientConfig) -> (r: Self)
        ensures
            r.wf(),
            r.config == config,
            r.status is Disconnected,
            !r.sink_present,
            r.last_pong_ms == 0,
            r.pending@ == Map::<Seq<char>, W>::empty(),
    {
        WsClient {
            config,
            status: ConnectionStatus::Disconnected,
            sink_present: false,
            last_pong_ms: 0,
            pending: Correlator::new(),
        }
    }

    /// Begins a connection attempt: the status becomes `Connecting` and the
    /// caller receives the address to dial.
    pub fn connect_begin(&mut self) -> (url: String)
        requires
            old(self).wf(),
        ensures
            final(self).wf(),
            final(self).status is Connecting,
            final(self).config == old(self).config,
            final(self).sink_present == old(self).sink_present,
            final(self).last_pong_ms == old(self).last_pong_ms,
            final(self).pending@ == old(self).pending@,
            url@ == spec_client_url(old(self).config.host@, old(self).config.port),
    {
        self.status = ConnectionStatus::Connecting;
        let mut s: String = "ws://".to_owned();
        s.append(self.config.host.as_str());
        s.append(":");
        let p = crate::strfmt::u64_to_string(self.config.port as u64);
        s.append(p.as_str());
        proof {
            assert(s@ =~= spec_client_url(self.config.host@, self.config.port));
        }
        s
    }

    /// Observes the socket opening: the caller now holds the sink, the
    /// liveness clock restarts, and the registration frame to send at once
    /// is handed back. The status stays `Connecting` until the hub
    /// acknowledges the registration.
    pub fn on_socket_connected(&mut self, now_ms: u64) -> (register_frame: String)
        requires
            old(self).wf(),
        ensures
            final(self).wf(),
            final(self).status == old(self).status,
            final(self).config == old(self).config,
            final(self).sink_present,
            final(self).last_pong_ms == now_ms,
            final(self).pending@ == old(self).pending@,
            register_frame@ == register_json(old(self).config.client_id@),
    {
        self.sink_present = true;
        self.last_pong_ms = now_ms;
        encode_register(self.config.client_id.as_str())
    }

    /// Observes the dial failing: the failure becomes the status.
    pub fn on_connect_failed(&mut self, error: String)
        requires
            old(self).wf(),
        ensures
            final(self).wf(),
            final(self).status matches ConnectionStatus::Error(e) && e@ == "connection failed: "@
                + error@,
            final(self).config == old(self).config,
            !final(self).sink_present,
            final(self).pending@ == old(self).pending@,
    {
        let mut msg: String = "connection failed: ".to_owned();
        msg.append(error.as_str());
        self.status = ConnectionStatus::Error(msg);
        self.sink_present = false;
    }

    /// Handles one decoded frame from the hub: a registration
    /// acknowledgement connects the client; a registration error records
    /// it; a response frame resolves its pending request — or is dropped
    /// when none is pending; an approval request is handed to the caller to
    /// execute; anything else is ignored.
    pub fn handle_message(&mut self, msg: RelayMessage) -> (r: ClientAction<W>)
        requires
            old(self).wf(),
        ensures
            final(self).wf(),
            final(self).config == old(self).config,
            final(self).sink_present == old(self).sink_present,
            final(self).last_pong_ms == old(self).last_pong_ms,
            match msg@ {
                crate::protocol::MessageView::RegisterAck { .. } => final(self).status
                    is Connected && final(self).pending@ == old(self).pending@ && r is Ignore,
                crate::protocol::MessageView::RegisterError { error } => (final(self).status
                    matches ConnectionStatus::Error(e) && e@ == error) && final(self).pending@
                    == old(self).pending@ && r is Ignore,
                crate::protocol::MessageView::PopupResponse { request_id, response } => final(self).status == old(self).status && (if old(self).pending@.contains_key(request_id) {
                    final(self).pending@ == old(self).pending@.remove(request_id) && (r matches
                        ClientAction::Deliver { waiter, response: resp } && waiter == old(self).pending@[request_id] && resp@ == response)
                } else {
                    final(self).pending@ == old(self).pending@ && r is Ignore
                }),
                crate::protocol::MessageView::PopupRequest {
                    request_id,
                    message,
                    predefined_options,
                    is_markdown,
                } => final(self).status == old(self).status && final(self).pending@ == old(self).pending@ && (r matches ClientAction::LaunchApproval {
                    request_id: rid,
                    message: m,
                    predefined_options: opts,
                    is_markdown: md,
                } && rid@ == request_id && m@ == message && md == is_markdown && (match opts {
                    Some(v) => predefined_options == Some(v.deep_view()),
                    None => predefined_options is None,
                })),
                _ => final(self).status == old(self).status && final(self).pending@ == old(self).pending@ && r is Ignore,
            },
    {
        match msg {
            RelayMessage::RegisterAck { message: _ } => {
                self.status = ConnectionStatus::Connected;
                ClientAction::Ignore
            },
            RelayMessage::RegisterError { error } => {
                self.status = ConnectionStatus::Error(error);
                ClientAction::Ignore
            },
            RelayMessage::PopupResponse { request_id, response } => {
                match self.pending.resolve(request_id.as_str()) {
                    Some(waiter) => ClientAction::Deliver { waiter, response },
                    None => ClientAction::Ignore,
                }
            },
            RelayMessage::PopupRequest {
                request_id,
                message,
                predefined_options,
                is_markdown,
            } => ClientAction::LaunchApproval {
                request_id,
                message,
                predefined_options,
                is_markdown,
            },
            _ => ClientAction::Ignore,
        }
    }

    /// Observes a transport ping from the hub: the hub is alive, the
    /// liveness clock restarts.
    pub fn on_ping(&mut self, now_ms: u64)
        requires
            old(self).wf(),
        ensures
            final(self).wf(),
            final(self).last_pong_ms == now_ms,
            final(self).status == old(self).status,
            final(self).config == old(self).config,
            final(self).sink_present == old(self).sink_present,
            final(self).pending@ == old(self).pending@,
    {
        self.last_pong_ms = now_ms;
    }

    /// Observes the connection ending — the hub closed it, or reading
    /// failed: the sink is gone and the status is `Disconnected`.
    pub fn on_disconnected(&mut self)
        requires
            old(self).wf(),
        ensures
            final(self).wf(),
            final(self).status is Disconnected,
            !final(self).sink_present,
            final(self).config == old(self).config,
            final(self).last_pong_ms == old(self).last_pong_ms,
            final(self).pending@ == old(self).pending@,
    {
        self.status = ConnectionStatus::Disconnected;
        self.sink_present = false;
    }

    /// Whether the client is connected (registered and acknowledged).
    pub fn is_connected(&self) -> (r: bool)
        ensures
            r == (self.status is Connected),
    {
        matches!(self.status, ConnectionStatus::Connected)
    }

    /// Dispatches an approval request: parks `waiter` under the request id
    /// and hands back the exact frame to send. Refused — with the waiter
    /// handed back — unless the client is connected with a live sink and
    /// the id is not already pending.
    pub fn send_popup_request_begin(
        &mut self,
        request_id: String,
        waiter: W,
        message: &str,
        predefined_options: &Option<Vec<String>>,
        is_markdown: bool,
    ) -> (r: Result<String, (W, ClientSendError)>)
        requires
            old(self).wf(),
        ensures
            final(self).wf(),
            final(self).status == old(self).status,
            final(self).config == old(self).config,
            final(self).sink_present == old(self).sink_present,
            final(self).last_pong_ms == old(self).last_pong_ms,
            match r {
                Ok(frame) => {
                    &&& old(self).status is Connected
                    &&& old(self).sink_present
                    &&& !old(self).pending@.contains_key(request_id@)
                    &&& final(self).pending@ == old(self).pending@.insert(request_id@, waiter)
                    &&& frame@ == popup_request_json(
                        request_id@,
                        message@,
                        match predefined_options {
                            Some(v) => Some(v.deep_view()),
                            None => None,
                        },
                        is_markdown,
                    )
                },
                Err((w, ClientSendError::NotConnected)) => w == waiter && !(old(self).status
                    is Connected) && final(self).pending@ == old(self).pending@,
                Err((w, ClientSendError::SinkGone)) => w == waiter && old(self).status
                    is Connected && !old(self).sink_present && final(self).pending@ == old(self).pending@,
                Err((w, ClientSendError::DuplicateRequestId)) => w == waiter && old(self).status
                    is Connected && old(self).sink_present && old(self).pending@.contains_key(
                    request_id@,
                ) && final(self).pending@ == old(self).pending@,
            },
    {
        if !matches!(self.status, ConnectionStatus::Connected) {
            return Err((waiter, ClientSendError::NotConnected));
        }
        if !self.sink_present {
            return Err((waiter, ClientSendError::SinkGone));
        }
        if self.pending.is_pending(request_id.as_str()) {
            return Err((waiter, ClientSendError::DuplicateRequestId));
        }
        let frame = encode_popup_request(
            request_id.as_str(),
            message,
            predefined_options,
            is_markdown,
        );
        self.pending.register(request_id, waiter);
        Ok(frame)
    }

    /// Cancels the pending entry for `request_id`: the bounded wait
    /// expired, so a response arriving later is then safely ignored.
    pub fn on_response_timeout(&mut self, request_id: &str) -> (r: Option<W>)
        requires
            old(self).wf(),
        ensures
            final(self).wf(),
            final(self).status == old(self).status,
            final(self).config == old(self).config,
            final(self).sink_present == old(self).sink_present,
            final(self).last_pong_ms == old(self).last_pong_ms,
            match r {
                Some(w) => old(self).pending@.contains_key(request_id@) && w == old(self).pending@[request_id@] && final(self).pending@ == old(self).pending@.remove(
                    request_id@,
                ),
                None => !old(self).pending@.contains_key(request_id@) && final(self).pending@
                    == old(self).pending@,
            },
    {
        self.pending.cancel(request_id)
    }

    /// One tick of the liveness watchdog: reports whether to keep watching.
    /// A client no longer connected stops; a hub silent for longer than
    /// `timeout_ms` is dead, the status becomes an error and the watchdog
    /// stops; otherwise everything stays as it is.
    pub fn heartbeat_check(&mut self, now_ms: u64, timeout_ms: u64) -> (keep_going: bool)
        requires
            old(self).wf(),
        ensures
            final(self).wf(),
            final(self).config == old(self).config,
            final(self).sink_present == old(self).sink_present,
            final(self).last_pong_ms == old(self).last_pong_ms,
            final(self).pending@ == old(self).pending@,
            !(old(self).status is Connected) ==> !keep_going && final(self).status == old(self).status,
            old(self).status is Connected && (now_ms >= old(self).last_pong_ms && now_ms - old(self).last_pong_ms > timeout_ms) ==> !keep_going && (final(self).status matches
                ConnectionStatus::Error(e) && e@ == "liveness timeout"@),
            old(self).status is Connected && !(now_ms >= old(self).last_pong_ms && now_ms - old(self).last_pong_ms > timeout_ms) ==> keep_going && final(self).status == old(self).status,
    {
        if !matches!(self.status, ConnectionStatus::Connected) {
            return false;
        }
        if now_ms >= self.last_pong_ms && now_ms - self.last_pong_ms > timeout_ms {
            self.status = ConnectionStatus::Error("liveness timeout".to_owned());
            return false;
        }
        true
    }
}

/// The retry limit the raw environment value selects: "infinite" — or the
/// infinity sign — never gives up; a decimal number is taken as given; any
/// other value, and an absent one, falls back to the platform default the
/// caller supplies.
pub open spec fn spec_max_retries(raw: Option<Seq<char>>, default_retries: u64) -> u64 {
    match raw {
        None => default_retries,
        Some(s) => if s == "infinite"@ || s == "\u{221E}"@ {
            u64::MAX
        } else if s.len() > 0 && spec_all_digits(s) && spec_digits_val(s) <= u64::MAX {
            spec_digits_val(s) as u64
        } else {
            default_retries
        },
    }
}

/// Decides the retry limit from the raw environment value; see
/// [`spec_max_retries`].
pub fn max_retries_decision(raw: &Option<String>, default_retries: u64) -> (r: u64)
    ensures
        r == spec_max_retries(
            match raw {
                Some(s) => Some(s@),
                None => None,
            },
            default_retries,
        ),
{
    let s = match raw {
        Some(s) => s,
        None => {
            return default_retries;
        },
    };
    if str_eq(s.as_str(), "infinite") || str_eq(s.as_str(), "\u{221E}") {
        return u64::MAX;
    }
    match parse_u64(s.as_str()) {
        Some(n) => n,
        None => default_retries,
    }
}

/// One step of the retry loop around the client: after a disconnect or a
/// failed attempt, the count advances; once it reaches `max_retries` the
/// loop gives up and the caller falls back to its local mode. `None` means
/// give up, `Some(n)` means wait the retry interval and try again with
/// count `n`.
pub fn retry_step(retry_count: u64, max_retries: u64) -> (r: Option<u64>)
    ensures
        retry_count + 1 >= max_retries ==> r is None,
        retry_count + 1 < max_retries ==> r == Some((retry_count + 1) as u64),
{
    if max_retries == 0 || retry_count >= max_retries - 1 {
        None
    } else {
        Some(retry_count + 1)
    }
}

/// Relies on `uuid::Uuid::new_v4` and its `Display` rendering: a fresh
/// random request id in the hyphenated form, 36 characters. Uniqueness is
/// statistical, not promised: collisions are treated as negligible and a
/// caller hitting one is refused, not misrouted.
#[verifier::external_body]
fn new_request_id() -> (r: String)
    ensures
        r@.len() == 36,
{
    uuid::Uuid::new_v4().to_string()
}

impl<W> WsClient<W> {
    /// Dispatches an approval request under a freshly generated request id:
    /// parks `waiter` under the id and hands back the id with the exact
    /// frame to send. Refusals are those of
    /// [`WsClient::send_popup_request_begin`]; a generated id already
    /// pending — a collision of negligible probability — is refused rather
    /// than misrouted.
    pub fn send_popup_request(
        &mut self,
        waiter: W,
        message: &str,
        predefined_options: &Option<Vec<String>>,
        is_markdown: bool,
    ) -> (r: Result<(String, String), (W, ClientSendError)>)
        requires
            old(self).wf(),
        ensures
            final(self).wf(),
            final(self).status == old(self).status,
            final(self).config == old(self).config,
            final(self).sink_present == old(self).sink_present,
            final(self).last_pong_ms == old(self).last_pong_ms,
            match r {
                Ok((request_id, frame)) => {
                    &&& old(self).status is Connected
                    &&& old(self).sink_present
                    &&& !old(self).pending@.contains_key(request_id@)
                    &&& final(self).pending@ == old(self).pending@.insert(request_id@, waiter)
                    &&& frame@ == popup_request_json(
                        request_id@,
                        message@,
                        match predefined_options {
                            Some(v) => Some(v.deep_view()),
                            None => None,
                        },
                        is_markdown,
                    )
                },
                Err((w, ClientSendError::NotConnected)) => w == waiter && !(old(self).status
                    is Connected) && final(self).pending@ == old(self).pending@,
                Err((w, ClientSendError::SinkGone)) => w == waiter && old(self).status
                    is Connected && !old(self).sink_present && final(self).pending@ == old(
                    self,
                ).pending@,
                Err((w, ClientSendError::DuplicateRequestId)) => w == waiter && old(self).status
                    is Connected && old(self).sink_present && (exists|id: Seq<char>|
                    id.len() == 36 && old(self).pending@.contains_key(id)) && final(self).pending@
                    == old(self).pending@,
            },
    {
        let request_id = new_request_id();
        match self.send_popup_request_begin(
            request_id.clone(),
            waiter,
            message,
            predefined_options,
            is_markdown,
        ) {
            Ok(frame) => Ok((request_id, frame)),
            Err(e) => Err(e),
        }
    }
}

} // verus!
