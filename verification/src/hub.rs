//! The server-role relay hub: inbound sessions with an authentication
//! handshake, per-session liveness, and correlated dispatch of approval
//! requests. One type serves both server variants: with `require_auth` the
//! hub enforces the credential handshake of the approval dispatcher
//! (sessions are keyed by connection id and begin unauthenticated); without
//! it, sessions register under a client-chosen id and are live from
//! registration on.
//!
//! Dispatch here is unbounded: a pending request waits until its response
//! arrives or the heartbeat sweep removes the dead session, at which point
//! the caller cancels the entry. A caller wanting the bounded variant races
//! the wait against a timer and cancels on expiry, as the client role does.
//!
//! The hub holds no sockets. The caller accepts connections, feeds every
//! decoded frame in, sends the frames the hub hands back, and performs the
//! removals the sweep decides.

use vstd::prelude::*;
use crate::correlator::Correlator;
use crate::protocol::{
    auth_response_json, encode_auth_response, encode_error_msg, encode_popup_request,
    encode_register_ack, encode_register_error, error_json, popup_request_json,
    register_ack_json, register_error_json, RelayMessage,
};
use crate::registry::Registry;
use crate::strfmt::{format_addr, format_duration, spec_addr, spec_duration, str_views};
use crate::types::{ConnectedClient, ServerStatus, WsServerConfig, WsServerStatus};

verus! {

/// Milliseconds a session may stay unauthenticated before it is terminated.
pub const AUTH_TIMEOUT_MS: u64 = 10000;

/// Authentication state of one session.
#[derive(Debug, Clone, Copy, PartialEq, Eq, Structural)]
pub enum AuthStatus {
    Unauthenticated,
    Authenticated,
}

/// One inbound session.
#[derive(Debug, Clone, Copy)]
pub struct SessionState {
    pub auth: AuthStatus,
    /// When the session was accepted, in caller-supplied milliseconds.
    pub connected_at_ms: u64,
    /// When the last liveness signal (a transport pong) was observed.
    pub last_pong_ms: u64,
}

/// What the caller must do after the hub handled an inbound frame.
pub enum HubAction<W> {
    /// Nothing; the frame was consumed (or was a late response with no
    /// pending entry, which is a no-op, never a fault).
    Ignore,
    /// Send `frame` back on the session.
    Reply { frame: String },
    /// Send `frame` back on the session, then close it; the hub has
    /// already removed the session.
    ReplyAndClose { frame: String },
    /// A response arrived for a pending request: complete `waiter` with
    /// `response`.
    Deliver { waiter: W, response: String },
    /// An approval request arrived from the automation side: run the
    /// approval executor and send back a correlated response frame.
    LaunchApproval {
        request_id: String,
        message: String,
        predefined_options: Option<Vec<String>>,
        is_markdown: bool,
    },
}

/// Why a dispatch was refused.
#[derive(Debug, Clone, PartialEq, Eq, Structural)]
pub enum DispatchError {
    /// No session is connected.
    NoClients,
    /// Sessions are connected but none is authenticated.
    NoAuthenticatedClients,
    /// A request with this id is already pending.
    DuplicateRequestId,
}

/// The provided credential matches the configured one. A hub with no
/// configured credential accepts nothing (fail-closed).
pub open spec fn spec_auth_ok(configured: Option<Seq<char>>, provided: Option<Seq<char>>) -> bool {
    configured matches Some(k) && provided == Some(k)
}

/// A session counts as live — pinged by the sweep, eligible for dispatch —
/// once authenticated.
pub open spec fn spec_session_live(s: SessionState) -> bool {
    s.auth == AuthStatus::Authenticated
}

/// The session's last liveness signal is older than `timeout_ms`.
pub open spec fn spec_session_stale(s: SessionState, now_ms: u64, timeout_ms: u64) -> bool {
    now_ms >= s.last_pong_ms && now_ms - s.last_pong_ms > timeout_ms
}

/// The session has been unauthenticated for longer than the handshake
/// allows.
pub open spec fn spec_auth_timed_out(s: SessionState, now_ms: u64) -> bool {
    now_ms >= s.connected_at_ms && now_ms - s.connected_at_ms > AUTH_TIMEOUT_MS
}

/// Whole seconds elapsed from `t` to `now`, zero when `now` lies before
/// `t` (the caller's clock source is not assumed monotonic).
pub open spec fn spec_elapsed_secs(now_ms: u64, t_ms: u64) -> nat {
    (if now_ms >= t_ms {
        (now_ms - t_ms) as nat
    } else {
        0
    }) / 1000
}

/// The view of the configured credential.
pub open spec fn spec_configured_key(config: WsServerConfig) -> Option<Seq<char>> {
    match config.api_key {
        Some(k) => Some(k@),
        None => None,
    }
}

/// The authentication handshake's outcome: how the session table after the
/// handshake relates to the one before, and which action the caller is
/// handed. A matching credential authenticates the session and acknowledges
/// it; any other case removes the session and sends an error frame before
/// closure; a session gone meanwhile is ignored.
pub open spec fn spec_auth_post<W>(
    pre: Map<Seq<char>, SessionState>,
    post: Map<Seq<char>, SessionState>,
    configured: Option<Seq<char>>,
    conn_id: Seq<char>,
    provided: Option<Seq<char>>,
    r: HubAction<W>,
) -> bool {
    if !pre.contains_key(conn_id) {
        post == pre && r is Ignore
    } else if spec_auth_ok(configured, provided) {
        post == pre.insert(
            conn_id,
            SessionState { auth: AuthStatus::Authenticated, ..pre[conn_id] },
        ) && (r matches HubAction::Reply { frame } && frame@ == auth_response_json(
            true,
            "authentication successful"@,
        ))
    } else {
        post == pre.remove(conn_id) && (r matches HubAction::ReplyAndClose { frame } && frame@
            == error_json(spec_auth_reject_reason(configured, provided)))
    }
}

/// The server-role relay hub. `W` is the caller's single-use completion
/// handle for a dispatched request.
pub struct WsServer<W> {
    pub config: WsServerConfig,
    /// Whether sessions must authenticate before anything else; without
    /// this, sessions enter through registration instead.
    pub require_auth: bool,
    pub status: ServerStatus,
    /// When the listener came up, in caller-supplied milliseconds.
    pub started_at_ms: Option<u64>,
    pub sessions: Registry<SessionState>,
    pub pending: Correlator<W>,
}

impl<W> WsServer<W> {
    /// Well-formed; established by [`WsServer::new`] and preserved by every
    /// operation.
    pub open spec fn wf(self) -> bool {
        self.sessions.wf() && self.pending.wf()
    }

    /// A hub with no sessions and nothing pending.
    pub fn new(config: WsServerConfig, require_auth: bool) -> (r: Self)
        ensures
            r.wf(),
            r.config == config,
            r.require_auth == require_auth,
            r.status is Running,
            r.started_at_ms is None,
            r.sessions@ == Map::<Seq<char>, SessionState>::empty(),
            r.pending@ == Map::<Seq<char>, W>::empty(),
    {
        WsServer {
            config,
            require_auth,
            status: ServerStatus::Running,
            started_at_ms: None,
            sessions: Registry::new(),
            pending: Correlator::new(),
        }
    }

    /// Observes the listening socket coming up.
    pub fn on_bind_ok(&mut self, now_ms: u64)
        requires
            old(self).wf(),
        ensures
            final(self).wf(),
            final(self).status is Running,
            final(self).started_at_ms == Some(now_ms),
            final(self).sessions@ == old(self).sessions@,
            final(self).pending@ == old(self).pending@,
            final(self).config == old(self).config,
            final(self).require_auth == old(self).require_auth,
    {
        self.status = ServerStatus::Running;
        self.started_at_ms = Some(now_ms);
    }

    /// Observes the listening socket failing to come up.
    pub fn on_bind_failed(&mut self, error: String)
        requires
            old(self).wf(),
        ensures
            final(self).wf(),
            final(self).status matches ServerStatus::Error(e) && e == error,
            final(self).started_at_ms == old(self).started_at_ms,
            final(self).sessions@ == old(self).sessions@,
            final(self).pending@ == old(self).pending@,
            final(self).config == old(self).config,
            final(self).require_auth == old(self).require_auth,
    {
        self.status = ServerStatus::Error(error);
    }

    /// Accepts an inbound connection: a fresh unauthenticated session under
    /// `conn_id`, replacing any session that still sat under the same id.
    pub fn session_accepted(&mut self, conn_id: String, now_ms: u64)
        requires
            old(self).wf(),
        ensures
            final(self).wf(),
            final(self).sessions@ == old(self).sessions@.insert(
                conn_id@,
                SessionState {
                    auth: AuthStatus::Unauthenticated,
                    connected_at_ms: now_ms,
                    last_pong_ms: now_ms,
                },
            ),
            final(self).pending@ == old(self).pending@,
            final(self).config == old(self).config,
            final(self).require_auth == old(self).require_auth,
            final(self).status == old(self).status,
            final(self).started_at_ms == old(self).started_at_ms,
    {
        self.sessions.insert(
            conn_id,
            SessionState {
                auth: AuthStatus::Unauthenticated,
                connected_at_ms: now_ms,
                last_pong_ms: now_ms,
            },
        );
    }

    /// Registers a session under the client-chosen id of a `register`
    /// frame (the variant without the credential handshake): the session is
    /// live at once and acknowledged; any older session under the same id
    /// is replaced. A frame of any other type is rejected with a
    /// registration error. Reports whether an older session was replaced.
    pub fn register_session(&mut self, msg: &RelayMessage, now_ms: u64) -> (r: Result<
        (String, String, bool),
        String,
    >)
        requires
            old(self).wf(),
        ensures
            final(self).wf(),
            final(self).pending@ == old(self).pending@,
            final(self).config == old(self).config,
            final(self).require_auth == old(self).require_auth,
            final(self).status == old(self).status,
            final(self).started_at_ms == old(self).started_at_ms,
            match r {
                Ok((client_id, ack_frame, replaced)) => {
                    &&& msg@ matches crate::protocol::MessageView::Register { client_id: cid }
                        && client_id@ == cid
                    &&& final(self).sessions@ == old(self).sessions@.insert(
                        client_id@,
                        SessionState {
                            auth: AuthStatus::Authenticated,
                            connected_at_ms: now_ms,
                            last_pong_ms: now_ms,
                        },
                    )
                    &&& ack_frame@ == register_ack_json("registration successful"@)
                    &&& replaced == old(self).sessions@.contains_key(client_id@)
                },
                Err(error_frame) => {
                    &&& !(msg@ matches crate::protocol::MessageView::Register { .. })
                    &&& final(self).sessions@ == old(self).sessions@
                    &&& error_frame@ == register_error_json("expected a register message"@)
                },
            },
    {
        match msg {
            RelayMessage::Register { client_id } => {
                let replaced = self.sessions.contains_key(client_id.as_str());
                self.sessions.insert(
                    client_id.clone(),
                    SessionState {
                        auth: AuthStatus::Authenticated,
                        connected_at_ms: now_ms,
                        last_pong_ms: now_ms,
                    },
                );
                Ok((client_id.clone(), encode_register_ack("registration successful"), replaced))
            },
            _ => Err(encode_register_error("expected a register message")),
        }
    }

    /// Handles an `auth` frame for `conn_id`: a credential matching the
    /// configured one authenticates the session, which is told so; any
    /// other case — wrong credential, missing credential, or no credential
    /// configured on the hub at all (fail-closed) — removes the session and
    /// sends an error frame before closure. A session gone meanwhile is
    /// ignored.
    pub fn handle_auth(&mut self, conn_id: &str, provided: &Option<String>) -> (r: HubAction<W>)
        requires
            old(self).wf(),
        ensures
            final(self).wf(),
            final(self).pending@ == old(self).pending@,
            final(self).config == old(self).config,
            final(self).require_auth == old(self).require_auth,
            final(self).status == old(self).status,
            final(self).started_at_ms == old(self).started_at_ms,
            spec_auth_post(
                old(self).sessions@,
                final(self).sessions@,
                spec_configured_key(old(self).config),
                conn_id@,
                match provided {
                    Some(p) => Some(p@),
                    None => None,
                },
                r,
            ),
    {
        let session = match self.sessions.get(conn_id) {
            Some(s) => *s,
            None => {
                return HubAction::Ignore;
            },
        };
        let configured = match &self.config.api_key {
            Some(k) => Some(k.as_str()),
            None => None,
        };
        match (configured, provided) {
            (Some(expected), Some(got)) => {
                if crate::strfmt::str_eq(expected, got.as_str()) {
                    self.sessions.insert(
                        conn_id.to_owned(),
                        SessionState { auth: AuthStatus::Authenticated, ..session },
                    );
                    HubAction::Reply { frame: encode_auth_response(true, "authentication successful") }
                } else {
                    let _ = self.sessions.remove(conn_id);
                    HubAction::ReplyAndClose { frame: encode_error_msg("credential rejected") }
                }
            },
            (Some(_), None) => {
                let _ = self.sessions.remove(conn_id);
                HubAction::ReplyAndClose { frame: encode_error_msg("missing credential") }
            },
            (None, _) => {
                let _ = self.sessions.remove(conn_id);
                HubAction::ReplyAndClose {
                    frame: encode_error_msg(
                        "no credential configured on the relay, connection refused",
                    ),
                }
            },
        }
    }

    /// Handles one decoded frame from `conn_id`. Authentication frames go
    /// through the handshake. On a hub that requires authentication, an
    /// unauthenticated session gets nothing else: past the handshake window
    /// it is terminated with a timeout error, within it every other frame
    /// is rejected with a prompt to authenticate. For live sessions, a
    /// response frame resolves its pending request — or is dropped when
    /// none is pending — and an approval request is handed to the caller to
    /// execute. Anything else is ignored.
    pub fn handle_message(&mut self, conn_id: &str, msg: RelayMessage, now_ms: u64) -> (r:
        HubAction<W>)
        requires
            old(self).wf(),
        ensures
            final(self).wf(),
            final(self).config == old(self).config,
            final(self).require_auth == old(self).require_auth,
            final(self).status == old(self).status,
            final(self).started_at_ms == old(self).started_at_ms,
            !old(self).sessions@.contains_key(conn_id@) ==> final(self).sessions@ == old(self).sessions@ && final(self).pending@ == old(self).pending@ && r is Ignore,
            (match msg@ {
                crate::protocol::MessageView::Auth { api_key } => final(self).pending@ == old(
                    self,
                ).pending@ && spec_auth_post(
                    old(self).sessions@,
                    final(self).sessions@,
                    spec_configured_key(old(self).config),
                    conn_id@,
                    api_key,
                    r,
                ),
                _ => true,
            }),
            old(self).sessions@.contains_key(conn_id@) && !(msg@ matches
                crate::protocol::MessageView::Auth { .. }) && old(self).require_auth && old(self).sessions@[conn_id@].auth == AuthStatus::Unauthenticated ==> {
                &&& final(self).pending@ == old(self).pending@
                &&& (if spec_auth_timed_out(old(self).sessions@[conn_id@], now_ms) {
                    final(self).sessions@ == old(self).sessions@.remove(conn_id@) && (r matches
                        HubAction::ReplyAndClose { frame } && frame@ == error_json(
                        "authentication timed out, closing the connection"@,
                    ))
                } else {
                    final(self).sessions@ == old(self).sessions@ && (r matches HubAction::Reply {
                        frame,
                    } && frame@ == error_json("please authenticate first"@))
                })
            },
            old(self).sessions@.contains_key(conn_id@) && (!old(self).require_auth || old(self).sessions@[conn_id@].auth == AuthStatus::Authenticated) ==> (match msg@ {
                crate::protocol::MessageView::PopupResponse { request_id, response } => {
                    &&& final(self).sessions@ == old(self).sessions@
                    &&& (if old(self).pending@.contains_key(request_id) {
                        final(self).pending@ == old(self).pending@.remove(request_id) && (r
                            matches HubAction::Deliver { waiter, response: resp } && waiter == old(self).pending@[request_id] && resp@ == response)
                    } else {
                        final(self).pending@ == old(self).pending@ && r is Ignore
                    })
                },
                crate::protocol::MessageView::PopupRequest {
                    request_id,
                    message,
                    predefined_options,
                    is_markdown,
                } => {
                    &&& final(self).sessions@ == old(self).sessions@
                    &&& final(self).pending@ == old(self).pending@
                    &&& (r matches HubAction::LaunchApproval {
                        request_id: rid,
                        message: m,
                        predefined_options: opts,
                        is_markdown: md,
                    } && rid@ == request_id && m@ == message && md == is_markdown && (match opts {
                        Some(v) => predefined_options == Some(v.deep_view()),
                        None => predefined_options is None,
                    }))
                },
                crate::protocol::MessageView::Auth { .. } => true,
                _ => final(self).sessions@ == old(self).sessions@ && final(self).pending@ == old(self).pending@ && r is Ignore,
            }),
    {
        let session = match self.sessions.get(conn_id) {
            Some(s) => *s,
            None => {
                return HubAction::Ignore;
            },
        };
        if let RelayMessage::Auth { api_key } = &msg {
            return self.handle_auth(conn_id, api_key);
        }
        if self.require_auth && matches!(session.auth, AuthStatus::Unauthenticated) {
            if now_ms >= session.connected_at_ms && now_ms - session.connected_at_ms
                > AUTH_TIMEOUT_MS {
                let _ = self.sessions.remove(conn_id);
                return HubAction::ReplyAndClose {
                    frame: encode_error_msg("authentication timed out, closing the connection"),
                };
            }
            return HubAction::Reply { frame: encode_error_msg("please authenticate first") };
        }
        match msg {
            RelayMessage::PopupResponse { request_id, response } => {
                match self.pending.resolve(request_id.as_str()) {
                    Some(waiter) => HubAction::Deliver { waiter, response },
                    None => HubAction::Ignore,
                }
            },
            RelayMessage::PopupRequest {
                request_id,
                message,
                predefined_options,
                is_markdown,
            } => HubAction::LaunchApproval { request_id, message, predefined_options, is_markdown },
            _ => HubAction::Ignore,
        }
    }

    /// Observes a transport-level pong from `conn_id`.
    pub fn on_pong(&mut self, conn_id: &str, now_ms: u64)
        requires
            old(self).wf(),
        ensures
            final(self).wf(),
            final(self).pending@ == old(self).pending@,
            final(self).config == old(self).config,
            final(self).require_auth == old(self).require_auth,
            final(self).status == old(self).status,
            final(self).started_at_ms == old(self).started_at_ms,
            !old(self).sessions@.contains_key(conn_id@) ==> final(self).sessions@ == old(self).sessions@,
            old(self).sessions@.contains_key(conn_id@) ==> final(self).sessions@ == old(self).sessions@.insert(
                conn_id@,
                SessionState { last_pong_ms: now_ms, ..old(self).sessions@[conn_id@] },
            ),
    {
        let session = match self.sessions.get(conn_id) {
            Some(s) => *s,
            None => {
                return ;
            },
        };
        self.sessions.insert(
            conn_id.to_owned(),
            SessionState { last_pong_ms: now_ms, ..session },
        );
    }

    /// Removes a session: the socket closed, failed, or a ping could not be
    /// sent.
    pub fn remove_session(&mut self, conn_id: &str)
        requires
            old(self).wf(),
        ensures
            final(self).wf(),
            final(self).sessions@ == old(self).sessions@.remove(conn_id@),
            final(self).pending@ == old(self).pending@,
            final(self).config == old(self).config,
            final(self).require_auth == old(self).require_auth,
            final(self).status == old(self).status,
            final(self).started_at_ms == old(self).started_at_ms,
    {
        let _ = self.sessions.remove(conn_id);
    }

    /// Whether any session is connected.
    pub fn has_clients(&self) -> (r: bool)
        requires
            self.wf(),
        ensures
            r == !self.sessions@.is_empty(),
    {
        !self.sessions.is_empty()
    }

    /// Dispatches an approval request: picks some live session, parks
    /// `waiter` under the request id and hands back the session id and the
    /// exact frame to send. Refused — with the waiter handed back — when no
    /// session is connected, none is live, or the id is already pending.
    pub fn dispatch_popup_request(
        &mut self,
        request_id: String,
        waiter: W,
        message: &str,
        predefined_options: &Option<Vec<String>>,
        is_markdown: bool,
    ) -> (r: Result<(String, String), (W, DispatchError)>)
        requires
            old(self).wf(),
        ensures
            final(self).wf(),
            final(self).config == old(self).config,
            final(self).require_auth == old(self).require_auth,
            final(self).status == old(self).status,
            final(self).started_at_ms == old(self).started_at_ms,
            final(self).sessions@ == old(self).sessions@,
            match r {
                Ok((client_id, frame)) => {
                    &&& old(self).sessions@.contains_key(client_id@)
                    &&& spec_session_live(old(self).sessions@[client_id@])
                    &&& !old(self).pending@.contains_key(request_id@)
                    &&& final(self).pending@ == old(self).pending@.insert(request_id@, waiter)
                    &&& frame@ == popup_request_json(
                        request_id@,
                        message@,
                        match predefined_options {
                            Some(v) => Some(v.deep_view()),
                            None => None,
                        },
                        is_markdown,
                    )
                },
                Err((w, DispatchError::NoClients)) => w == waiter && old(self).sessions@.is_empty() && final(self).pending@ == old(self).pending@,
                Err((w, DispatchError::NoAuthenticatedClients)) => w == waiter && !old(self).sessions@.is_empty() && (forall|k: Seq<char>|
                    old(self).sessions@.contains_key(k) ==> !spec_session_live(
                        #[trigger] old(self).sessions@[k],
                    )) && final(self).pending@ == old(self).pending@,
                Err((w, DispatchError::DuplicateRequestId)) => w == waiter && old(self).pending@.contains_key(request_id@) && final(self).pending@ == old(self).pending@,
            },
    {
        if self.sessions.is_empty() {
            return Err((waiter, DispatchError::NoClients));
        }
        let client_id = match find_live_session(&self.sessions) {
            Some(id) => id,
            None => {
                return Err((waiter, DispatchError::NoAuthenticatedClients));
            },
        };
        if self.pending.is_pending(request_id.as_str()) {
            return Err((waiter, DispatchError::DuplicateRequestId));
        }
        let frame = encode_popup_request(
            request_id.as_str(),
            message,
            predefined_options,
            is_markdown,
        );
        self.pending.register(request_id, waiter);
        Ok((client_id, frame))
    }

    /// Cancels the pending entry for `request_id` — the caller gave up on
    /// the response — so that a late response is then safely ignored.
    pub fn cancel_pending(&mut self, request_id: &str) -> (r: Option<W>)
        requires
            old(self).wf(),
        ensures
            final(self).wf(),
            final(self).sessions@ == old(self).sessions@,
            final(self).config == old(self).config,
            final(self).require_auth == old(self).require_auth,
            final(self).status == old(self).status,
            final(self).started_at_ms == old(self).started_at_ms,
            match r {
                Some(w) => old(self).pending@.contains_key(request_id@) && w == old(self).pending@[request_id@] && final(self).pending@ == old(self).pending@.remove(
                    request_id@,
                ),
                None => !old(self).pending@.contains_key(request_id@) && final(self).pending@
                    == old(self).pending@,
            },
    {
        self.pending.cancel(request_id)
    }

    /// One tick of the heartbeat sweep: every live session whose last pong
    /// is older than `timeout_ms` is removed; every other live session is
    /// handed back to be pinged. Sessions still unauthenticated are left to
    /// the handshake timeout and are neither pinged nor removed here.
    pub fn heartbeat_sweep(&mut self, now_ms: u64, timeout_ms: u64) -> (to_ping: Vec<String>)
        requires
            old(self).wf(),
        ensures
            final(self).wf(),
            final(self).pending@ == old(self).pending@,
            final(self).config == old(self).config,
            final(self).require_auth == old(self).require_auth,
            final(self).status == old(self).status,
            final(self).started_at_ms == old(self).started_at_ms,
            forall|k: Seq<char>| #[trigger]
                final(self).sessions@.contains_key(k) ==> old(self).sessions@.contains_key(k)
                    && final(self).sessions@[k] == old(self).sessions@[k],
            forall|k: Seq<char>| #[trigger]
                old(self).sessions@.contains_key(k) ==> (final(self).sessions@.contains_key(k)
                    <==> !(spec_session_live(old(self).sessions@[k]) && spec_session_stale(
                    old(self).sessions@[k],
                    now_ms,
                    timeout_ms,
                ))),
            forall|i: int|
                0 <= i < to_ping@.len() ==> {
                    let k = #[trigger] str_views(to_ping@)[i];
                    &&& old(self).sessions@.contains_key(k)
                    &&& spec_session_live(old(self).sessions@[k])
                    &&& !spec_session_stale(old(self).sessions@[k], now_ms, timeout_ms)
                },
            forall|k: Seq<char>| #[trigger]
                old(self).sessions@.contains_key(k) && spec_session_live(old(self).sessions@[k])
                    && !spec_session_stale(old(self).sessions@[k], now_ms, timeout_ms)
                    ==> str_views(to_ping@).contains(k),
            str_views(to_ping@).no_duplicates(),
    {
        let ghost m0 = self.sessions@;
        let ids = self.sessions.keys();
        let ghost kv = str_views(ids@);
        let n = ids.len();
        let mut to_ping: Vec<String> = Vec::new();
        let mut i: usize = 0;
        while i < n
            invariant
                self.wf(),
                self.pending.wf(),
                n == ids@.len(),
                i <= n,
                kv == str_views(ids@),
                kv.no_duplicates(),
                self.pending@ == old(self).pending@,
                self.config == old(self).config,
                self.require_auth == old(self).require_auth,
                self.status == old(self).status,
                self.started_at_ms == old(self).started_at_ms,
                forall|j: int| 0 <= j < kv.len() ==> #[trigger] m0.contains_key(kv[j]),
                forall|k: Seq<char>| #[trigger] m0.contains_key(k) ==> kv.contains(k),
                forall|k: Seq<char>| #[trigger]
                    self.sessions@.contains_key(k) ==> m0.contains_key(k) && self.sessions@[k]
                        == m0[k],
                forall|j: int|
                    i <= j < kv.len() ==> #[trigger] self.sessions@.contains_key(kv[j]),
                forall|j: int|
                    0 <= j < i ==> (#[trigger] self.sessions@.contains_key(kv[j]) <==> !(
                    spec_session_live(m0[kv[j]]) && spec_session_stale(
                        m0[kv[j]],
                        now_ms,
                        timeout_ms,
                    ))),
                forall|p: int|
                    0 <= p < to_ping@.len() ==> exists|j: int|
                        0 <= j < i && #[trigger] str_views(to_ping@)[p] == kv[j],
                forall|p: int|
                    0 <= p < to_ping@.len() ==> {
                        let k = #[trigger] str_views(to_ping@)[p];
                        &&& m0.contains_key(k)
                        &&& spec_session_live(m0[k])
                        &&& !spec_session_stale(m0[k], now_ms, timeout_ms)
                    },
                forall|j: int|
                    0 <= j < i && spec_session_live(m0[kv[j]]) && !spec_session_stale(
                        m0[kv[j]],
                        now_ms,
                        timeout_ms,
                    ) ==> str_views(to_ping@).contains(#[trigger] kv[j]),
                str_views(to_ping@).no_duplicates(),
            decreases n - i,
        {
            proof {
                assert(kv[i as int] == ids@[i as int]@);
            }
            let session = match self.sessions.get(ids[i].as_str()) {
                Some(s) => *s,
                None => {
                    proof {
                        assert(self.sessions@.contains_key(kv[i as int]));
                    }
                    i += 1;
                    continue ;
                },
            };
            proof {
                assert(session == m0[kv[i as int]]);
            }
            if matches!(session.auth, AuthStatus::Authenticated) {
                if now_ms >= session.last_pong_ms && now_ms - session.last_pong_ms > timeout_ms {
                    let _ = self.sessions.remove(ids[i].as_str());
                } else {
                    let ghost ping_pre = to_ping@;
                    to_ping.push(ids[i].clone());
                    proof {
                        assert(str_views(to_ping@) =~= str_views(ping_pre).push(kv[i as int]));
                        assert forall|p: int|
                            0 <= p < to_ping@.len() implies exists|j: int|
                            0 <= j < i + 1 && #[trigger] str_views(to_ping@)[p] == kv[j] by {
                            if p < ping_pre.len() {
                                assert(str_views(to_ping@)[p] == str_views(ping_pre)[p]);
                                let j = choose|j: int|
                                    0 <= j < i && #[trigger] str_views(ping_pre)[p] == kv[j];
                                assert(str_views(to_ping@)[p] == kv[j]);
                            } else {
                                assert(str_views(to_ping@)[p] == kv[i as int]);
                            }
                        }
                        assert(str_views(to_ping@).no_duplicates()) by {
                            assert forall|p: int, q: int|
                                0 <= p < q < str_views(to_ping@).len() implies str_views(
                                to_ping@,
                            )[p] != str_views(to_ping@)[q] by {
                                if q == str_views(to_ping@).len() - 1 {
                                    let j = choose|j: int|
                                        0 <= j < i && #[trigger] str_views(ping_pre)[p] == kv[j];
                                    assert(str_views(to_ping@)[p] == kv[j]);
                                    assert(str_views(to_ping@)[q] == kv[i as int]);
                                } else {
                                    assert(str_views(to_ping@)[p] == str_views(ping_pre)[p]);
                                    assert(str_views(to_ping@)[q] == str_views(ping_pre)[q]);
                                }
                            }
                        }
                        assert forall|j: int|
                            0 <= j < i + 1 && spec_session_live(m0[kv[j]])
                                && !spec_session_stale(
                                m0[kv[j]],
                                now_ms,
                                timeout_ms,
                            ) implies str_views(to_ping@).contains(#[trigger] kv[j]) by {
                            if j < i {
                                assert(str_views(ping_pre).contains(kv[j]));
                                let p = choose|p: int|
                                    0 <= p < str_views(ping_pre).len() && str_views(ping_pre)[p]
                                        == kv[j];
                                assert(str_views(to_ping@)[p] == kv[j]);
                            } else {
                                assert(str_views(to_ping@)[str_views(to_ping@).len() - 1] == kv[
                                    i as int]);
                            }
                        }
                    }
                }
            }
            i += 1;
        }
        proof {
            assert forall|k: Seq<char>| #[trigger]
                m0.contains_key(k) implies (self.sessions@.contains_key(k) <==> !(
            spec_session_live(m0[k]) && spec_session_stale(m0[k], now_ms, timeout_ms))) by {
                let j = choose|j: int| 0 <= j < kv.len() && kv[j] == k;
            }
            assert forall|k: Seq<char>| #[trigger]
                m0.contains_key(k) && spec_session_live(m0[k]) && !spec_session_stale(
                m0[k],
                now_ms,
                timeout_ms,
            ) implies str_views(to_ping@).contains(k) by {
                let j = choose|j: int| 0 <= j < kv.len() && kv[j] == k;
            }
        }
        to_ping
    }

    /// One tick of the handshake watchdog: every session still
    /// unauthenticated past the handshake window is removed, silent or not
    /// — the arrival-triggered check in `handle_message` only covers
    /// sessions that speak. The removed ids are handed back; the caller
    /// sends each the [`auth_timeout_frame`] and closes it. Authenticated
    /// sessions, and sessions still within the window, are untouched; a hub
    /// without the credential handshake has no unauthenticated sessions, so
    /// nothing is removed there.
    pub fn auth_timeout_sweep(&mut self, now_ms: u64) -> (to_close: Vec<String>)
        requires
            old(self).wf(),
        ensures
            final(self).wf(),
            final(self).pending@ == old(self).pending@,
            final(self).config == old(self).config,
            final(self).require_auth == old(self).require_auth,
            final(self).status == old(self).status,
            final(self).started_at_ms == old(self).started_at_ms,
            forall|k: Seq<char>| #[trigger]
                final(self).sessions@.contains_key(k) ==> old(self).sessions@.contains_key(k)
                    && final(self).sessions@[k] == old(self).sessions@[k],
            forall|k: Seq<char>| #[trigger]
                old(self).sessions@.contains_key(k) ==> (final(self).sessions@.contains_key(k)
                    <==> !(old(self).sessions@[k].auth == AuthStatus::Unauthenticated
                    && spec_auth_timed_out(old(self).sessions@[k], now_ms))),
            forall|i: int|
                0 <= i < to_close@.len() ==> {
                    let k = #[trigger] str_views(to_close@)[i];
                    &&& old(self).sessions@.contains_key(k)
                    &&& old(self).sessions@[k].auth == AuthStatus::Unauthenticated
                    &&& spec_auth_timed_out(old(self).sessions@[k], now_ms)
                },
            forall|k: Seq<char>| #[trigger]
                old(self).sessions@.contains_key(k) && old(self).sessions@[k].auth
                    == AuthStatus::Unauthenticated && spec_auth_timed_out(
                    old(self).sessions@[k],
                    now_ms,
                ) ==> str_views(to_close@).contains(k),
            str_views(to_close@).no_duplicates(),
    {
        let ghost m0 = self.sessions@;
        let ids = self.sessions.keys();
        let ghost kv = str_views(ids@);
        let n = ids.len();
        let mut to_close: Vec<String> = Vec::new();
        let mut i: usize = 0;
        while i < n
            invariant
                self.wf(),
                self.pending.wf(),
                n == ids@.len(),
                i <= n,
                kv == str_views(ids@),
                kv.no_duplicates(),
                self.pending@ == old(self).pending@,
                self.config == old(self).config,
                self.require_auth == old(self).require_auth,
                self.status == old(self).status,
                self.started_at_ms == old(self).started_at_ms,
                forall|j: int| 0 <= j < kv.len() ==> #[trigger] m0.contains_key(kv[j]),
                forall|k: Seq<char>| #[trigger] m0.contains_key(k) ==> kv.contains(k),
                forall|k: Seq<char>| #[trigger]
                    self.sessions@.contains_key(k) ==> m0.contains_key(k) && self.sessions@[k]
                        == m0[k],
                forall|j: int|
                    i <= j < kv.len() ==> #[trigger] self.sessions@.contains_key(kv[j]),
                forall|j: int|
                    0 <= j < i ==> (#[trigger] self.sessions@.contains_key(kv[j]) <==> !(
                    m0[kv[j]].auth == AuthStatus::Unauthenticated && spec_auth_timed_out(
                        m0[kv[j]],
                        now_ms,
                    ))),
                forall|p: int|
                    0 <= p < to_close@.len() ==> exists|j: int|
                        0 <= j < i && #[trigger] str_views(to_close@)[p] == kv[j],
                forall|p: int|
                    0 <= p < to_close@.len() ==> {
                        let k = #[trigger] str_views(to_close@)[p];
                        &&& m0.contains_key(k)
                        &&& m0[k].auth == AuthStatus::Unauthenticated
                        &&& spec_auth_timed_out(m0[k], now_ms)
                    },
                forall|j: int|
                    0 <= j < i && m0[kv[j]].auth == AuthStatus::Unauthenticated
                        && spec_auth_timed_out(m0[kv[j]], now_ms) ==> str_views(
                        to_close@,
                    ).contains(#[trigger] kv[j]),
                str_views(to_close@).no_duplicates(),
            decreases n - i,
        {
            proof {
                assert(kv[i as int] == ids@[i as int]@);
            }
            let session = match self.sessions.get(ids[i].as_str()) {
                Some(s) => *s,
                None => {
                    proof {
                        assert(self.sessions@.contains_key(kv[i as int]));
                    }
                    i += 1;
                    continue ;
                },
            };
            proof {
                assert(session == m0[kv[i as int]]);
            }
            if matches!(session.auth, AuthStatus::Unauthenticated) {
                if now_ms >= session.connected_at_ms && now_ms - session.connected_at_ms
                    > AUTH_TIMEOUT_MS {
                    let _ = self.sessions.remove(ids[i].as_str());
                    let ghost close_pre = to_close@;
                    to_close.push(ids[i].clone());
                    proof {
                        assert(str_views(to_close@) =~= str_views(close_pre).push(kv[i as int]));
                        assert forall|p: int|
                            0 <= p < to_close@.len() implies exists|j: int|
                            0 <= j < i + 1 && #[trigger] str_views(to_close@)[p] == kv[j] by {
                            if p < close_pre.len() {
                                assert(str_views(to_close@)[p] == str_views(close_pre)[p]);
                                let j = choose|j: int|
                                    0 <= j < i && #[trigger] str_views(close_pre)[p] == kv[j];
                                assert(str_views(to_close@)[p] == kv[j]);
                            } else {
                                assert(str_views(to_close@)[p] == kv[i as int]);
                            }
                        }
                        assert(str_views(to_close@).no_duplicates()) by {
                            assert forall|p: int, q: int|
                                0 <= p < q < str_views(to_close@).len() implies str_views(
                                to_close@,
                            )[p] != str_views(to_close@)[q] by {
                                if q == str_views(to_close@).len() - 1 {
                                    let j = choose|j: int|
                                        0 <= j < i && #[trigger] str_views(close_pre)[p] == kv[
                                            j];
                                    assert(str_views(to_close@)[p] == kv[j]);
                                    assert(str_views(to_close@)[q] == kv[i as int]);
                                } else {
                                    assert(str_views(to_close@)[p] == str_views(close_pre)[p]);
                                    assert(str_views(to_close@)[q] == str_views(close_pre)[q]);
                                }
                            }
                        }
                        assert forall|j: int|
                            0 <= j < i + 1 && m0[kv[j]].auth == AuthStatus::Unauthenticated
                                && spec_auth_timed_out(m0[kv[j]], now_ms) implies str_views(
                            to_close@,
                        ).contains(#[trigger] kv[j]) by {
                            if j < i {
                                assert(str_views(close_pre).contains(kv[j]));
                                let p = choose|p: int|
                                    0 <= p < str_views(close_pre).len() && str_views(close_pre)[
                                        p] == kv[j];
                                assert(str_views(to_close@)[p] == kv[j]);
                            } else {
                                assert(str_views(to_close@)[str_views(to_close@).len() - 1]
                                    == kv[i as int]);
                            }
                        }
                    }
                }
            }
            i += 1;
        }
        proof {
            assert forall|k: Seq<char>| #[trigger]
                m0.contains_key(k) implies (self.sessions@.contains_key(k) <==> !(
            m0[k].auth == AuthStatus::Unauthenticated && spec_auth_timed_out(
                m0[k],
                now_ms,
            ))) by {
                let j = choose|j: int| 0 <= j < kv.len() && kv[j] == k;
            }
            assert forall|k: Seq<char>| #[trigger]
                m0.contains_key(k) && m0[k].auth == AuthStatus::Unauthenticated
                && spec_auth_timed_out(m0[k], now_ms) implies str_views(to_close@).contains(
                k,
            ) by {
                let j = choose|j: int| 0 <= j < kv.len() && kv[j] == k;
            }
        }
        to_close
    }

    /// The error frame a session whose handshake timed out is sent before
    /// it is closed.
    pub fn auth_timeout_frame(&self) -> (r: String)
        ensures
            r@ == error_json("authentication timed out, closing the connection"@),
    {
        encode_error_msg("authentication timed out, closing the connection")
    }

    /// Snapshot of the hub for the status surface: the listener status, the
    /// configured address, how long the hub has been up — "not started"
    /// before the listener came up — and the session count.
    pub fn get_status_info(&self, now_ms: u64) -> (r: WsServerStatus)
        requires
            self.wf(),
        ensures
            r.status@ == (match self.status {
                ServerStatus::Running => "running"@,
                ServerStatus::Error(e) => "error: "@ + e@,
            }),
            r.address@ == spec_addr(self.config.host@, self.config.port as nat),
            match self.started_at_ms {
                Some(t) => r.uptime@ == spec_duration(spec_elapsed_secs(now_ms, t)),
                None => r.uptime@ == "not started"@,
            },
            r.client_count == self.sessions@.len(),
    {
        let status = match &self.status {
            ServerStatus::Running => "running".to_owned(),
            ServerStatus::Error(e) => {
                let mut s: String = "error: ".to_owned();
                s.append(e.as_str());
                s
            },
        };
        let address = format_addr(self.config.host.as_str(), self.config.port);
        let uptime = match self.started_at_ms {
            Some(t) => {
                if now_ms >= t {
                    format_duration((now_ms - t) / 1000)
                } else {
                    format_duration(0)
                }
            },
            None => "not started".to_owned(),
        };
        let client_count = self.sessions.len();
        WsServerStatus { status, address, uptime, client_count }
    }

    /// The connected sessions, one entry per session, each with how long it
    /// has been connected, rendered for display.
    pub fn get_connected_clients(&self, now_ms: u64) -> (r: Vec<ConnectedClient>)
        requires
            self.wf(),
        ensures
            r@.len() == self.sessions@.len(),
            forall|i: int|
                0 <= i < r@.len() ==> #[trigger] self.sessions@.contains_key(r@[i].client_id@)
                    && r@[i].connected_at@ == spec_duration(
                    spec_elapsed_secs(now_ms, self.sessions@[r@[i].client_id@].connected_at_ms),
                ),
            forall|i: int, j: int|
                0 <= i < j < r@.len() ==> r@[i].client_id@ != r@[j].client_id@,
    {
        let ids = self.sessions.keys();
        let ghost kv = str_views(ids@);
        let n = ids.len();
        let mut r: Vec<ConnectedClient> = Vec::new();
        let mut i: usize = 0;
        while i < n
            invariant
                self.wf(),
                n == ids@.len(),
                i <= n,
                r@.len() == i,
                kv == str_views(ids@),
                kv.no_duplicates(),
                forall|j: int| 0 <= j < kv.len() ==> #[trigger] self.sessions@.contains_key(kv[j]),
                forall|j: int|
                    0 <= j < i ==> #[trigger] r@[j].client_id@ == kv[j] && r@[j].connected_at@
                        == spec_duration(
                        spec_elapsed_secs(now_ms, self.sessions@[kv[j]].connected_at_ms),
                    ),
            decreases n - i,
        {
            proof {
                assert(kv[i as int] == ids@[i as int]@);
                assert(self.sessions@.contains_key(kv[i as int]));
            }
            let connected_at = match self.sessions.get(ids[i].as_str()) {
                Some(s) => {
                    if now_ms >= s.connected_at_ms {
                        format_duration((now_ms - s.connected_at_ms) / 1000)
                    } else {
                        format_duration(0)
                    }
                },
                None => format_duration(0),
            };
            let client_id = ids[i].clone();
            let ghost r_pre = r@;
            r.push(ConnectedClient { client_id, connected_at });
            proof {
                assert forall|j: int|
                    0 <= j < i + 1 implies #[trigger] r@[j].client_id@ == kv[j]
                    && r@[j].connected_at@ == spec_duration(
                    spec_elapsed_secs(now_ms, self.sessions@[kv[j]].connected_at_ms),
                ) by {
                    if j < i {
                        assert(r@[j] == r_pre[j]);
                    }
                }
            }
            i += 1;
        }
        proof {
            assert forall|i: int|
                0 <= i < r@.len() implies #[trigger] self.sessions@.contains_key(r@[i].client_id@)
                && r@[i].connected_at@ == spec_duration(
                spec_elapsed_secs(now_ms, self.sessions@[r@[i].client_id@].connected_at_ms),
            ) by {
                assert(r@[i].client_id@ == kv[i]);
            }
        }
        r
    }
}

/// Some live session of `sessions`, if any; no ordering is promised beyond
/// "some live session".
fn find_live_session(sessions: &Registry<SessionState>) -> (r: Option<String>)
    requires
        sessions.wf(),
    ensures
        match r {
            Some(id) => sessions@.contains_key(id@) && spec_session_live(sessions@[id@]),
            None => forall|k: Seq<char>|
                sessions@.contains_key(k) ==> !spec_session_live(#[trigger] sessions@[k]),
        },
{
    let ids = sessions.keys();
    let n = ids.len();
    let mut i: usize = 0;
    while i < n
        invariant
            sessions.wf(),
            n == ids@.len(),
            i <= n,
            forall|j: int|
                0 <= j < ids@.len() ==> #[trigger] sessions@.contains_key(str_views(ids@)[j]),
            forall|k: Seq<char>| #[trigger]
                sessions@.contains_key(k) ==> str_views(ids@).contains(k),
            forall|j: int|
                0 <= j < i ==> !spec_session_live(#[trigger] sessions@[str_views(ids@)[j]]),
        decreases n - i,
    {
        proof {
            assert(str_views(ids@)[i as int] == ids@[i as int]@);
        }
        let live = match sessions.get(ids[i].as_str()) {
            Some(s) => matches!(s.auth, AuthStatus::Authenticated),
            None => false,
        };
        if live {
            return Some(ids[i].clone());
        }
        i += 1;
    }
    proof {
        assert forall|k: Seq<char>| sessions@.contains_key(k) implies !spec_session_live(
            #[trigger] sessions@[k],
        ) by {
            assert(str_views(ids@).contains(k));
            let j = choose|j: int| 0 <= j < str_views(ids@).len() && str_views(ids@)[j] == k;
            assert(str_views(ids@)[j] == k);
            assert(!spec_session_live(sessions@[str_views(ids@)[j]]));
        }
    }
    None
}

/// Why an authentication attempt was rejected, as the error frame's text.
pub open spec fn spec_auth_reject_reason(
    configured: Option<Seq<char>>,
    provided: Option<Seq<char>>,
) -> Seq<char> {
    match configured {
        None => "no credential configured on the relay, connection refused"@,
        Some(_) => match provided {
            None => "missing credential"@,
            Some(_) => "credential rejected"@,
        },
    }
}

/// Law (authentication handshake). With a credential configured, exactly a
/// matching one authenticates; anything else is rejected, and a hub with no
/// configured credential rejects every attempt — fail-closed, never open.
pub proof fn lemma_auth_fail_closed(configured: Option<Seq<char>>, provided: Option<Seq<char>>)
    ensures
        spec_auth_ok(configured, provided) <==> (configured matches Some(k) && provided == Some(
            k,
        )),
        configured is None ==> !spec_auth_ok(configured, provided),
{
}

} // verus!
