//! The client-role connection manager: a registry of named relay targets,
//! each with its own connection state machine, heartbeat watchdog and
//! reconnect-with-backoff engine. All socket work is the caller's: the
//! manager decides, the caller dials, sends and sleeps, and feeds back what
//! happened.

use vstd::prelude::*;
use vstd::string::StringExecFns;
use crate::protocol::{auth_json, encode_auth, RelayMessage};
use crate::registry::Registry;
use crate::strfmt::{spec_dec, u64_to_string};
use crate::types::{ConnectionStatus, WebSocketServerConfig};

verus! {

/// Doubles a delay, saturating at `max_delay`.
pub open spec fn spec_next_delay(delay: u64, max_delay: u64) -> u64 {
    if 2 * delay <= max_delay {
        (2 * delay) as u64
    } else {
        max_delay
    }
}

/// The reconnect-with-backoff engine: each failed attempt waits the current
/// delay and doubles it up to the configured maximum; any successful
/// connect resets the delay to its initial value.
#[derive(Debug, Clone)]
pub struct Backoff {
    /// The delay after a success, in seconds.
    pub initial_delay: u64,
    /// The largest delay ever waited, in seconds.
    pub max_delay: u64,
    /// The delay the next failure will wait, in seconds.
    pub delay: u64,
}

impl Backoff {
    /// Well-formed: the current delay never exceeds the maximum.
    pub open spec fn wf(self) -> bool {
        self.initial_delay <= self.max_delay && self.delay <= self.max_delay
    }

    /// A fresh engine waiting `initial_delay` first.
    pub fn new(initial_delay: u64, max_delay: u64) -> (r: Self)
        requires
            initial_delay <= max_delay,
        ensures
            r.wf(),
            r.initial_delay == initial_delay,
            r.max_delay == max_delay,
            r.delay == initial_delay,
    {
        Backoff { initial_delay, max_delay, delay: initial_delay }
    }

    /// A connect attempt failed: reports how long to wait before the next
    /// attempt, and doubles the delay, capped at the maximum.
    pub fn on_failure(&mut self) -> (wait: u64)
        requires
            old(self).wf(),
        ensures
            final(self).wf(),
            wait == old(self).delay,
            final(self).delay == spec_next_delay(old(self).delay, old(self).max_delay),
            final(self).delay >= old(self).delay,
            final(self).initial_delay == old(self).initial_delay,
            final(self).max_delay == old(self).max_delay,
    {
        let wait = self.delay;
        self.delay = if self.delay <= self.max_delay / 2 {
            2 * self.delay
        } else {
            self.max_delay
        };
        wait
    }

    /// A connect attempt succeeded: the delay resets to its initial value.
    pub fn on_success(&mut self)
        requires
            old(self).wf(),
        ensures
            final(self).wf(),
            final(self).delay == old(self).initial_delay,
            final(self).initial_delay == old(self).initial_delay,
            final(self).max_delay == old(self).max_delay,
    {
        self.delay = self.initial_delay;
    }
}

/// Law (backoff monotonicity): any chain of delays in which each is the
/// doubled-and-capped successor of the one before — what successive
/// failures of [`Backoff::on_failure`] wait — is non-decreasing, doubles
/// exactly while doubling stays under the cap, and never exceeds the cap.
pub proof fn lemma_backoff_monotone(ds: Seq<u64>, max_delay: u64)
    requires
        forall|i: int| 0 <= i < ds.len() ==> ds[i] <= max_delay,
        forall|i: int| 0 <= i < ds.len() - 1 ==> ds[i + 1] == spec_next_delay(ds[i], max_delay),
    ensures
        forall|i: int, j: int| 0 <= i <= j < ds.len() ==> ds[i] <= ds[j],
        forall|i: int|
            0 <= i < ds.len() - 1 && 2 * #[trigger] ds[i] <= max_delay ==> ds[i + 1] == 2 * ds[
                i
            ],
    decreases ds.len(),
{
    if ds.len() > 1 {
        let tail = ds.drop_first();
        assert forall|i: int| 0 <= i < tail.len() implies tail[i] <= max_delay by {
            assert(tail[i] == ds[i + 1]);
        }
        assert forall|i: int| 0 <= i < tail.len() - 1 implies tail[i + 1] == spec_next_delay(
            tail[i],
            max_delay,
        ) by {
            assert(tail[i] == ds[i + 1]);
            assert(tail[i + 1] == ds[i + 2]);
            assert(ds[i + 2] == spec_next_delay(ds[i + 1], max_delay));
        }
        lemma_backoff_monotone(tail, max_delay);
        assert(ds[1] == spec_next_delay(ds[0], max_delay));
        assert(ds[0] <= ds[1]);
        assert forall|i: int, j: int| 0 <= i <= j < ds.len() implies ds[i] <= ds[j] by {
            if 0 < i {
                assert(tail[i - 1] == ds[i]);
                assert(tail[j - 1] == ds[j]);
            } else if 0 < j {
                assert(tail[0] == ds[1]);
                assert(tail[j - 1] == ds[j]);
            }
        }
        assert forall|i: int|
            0 <= i < ds.len() - 1 && 2 * #[trigger] ds[i] <= max_delay implies ds[i + 1] == 2
                * ds[i] by {
            assert(ds[i + 1] == spec_next_delay(ds[i], max_delay));
        }
    }
}

/// One managed connection: the target's configuration and the connection's
/// runtime state.
#[derive(Debug)]
pub struct Connection {
    pub config: WebSocketServerConfig,
    pub status: ConnectionStatus,
    /// Whether the watchdog may reconnect this target automatically:
    /// enabled by a successful connect, disabled by an explicit disconnect.
    pub should_reconnect: bool,
    /// When the last liveness signal (a transport ping) was observed,
    /// in caller-supplied milliseconds.
    pub last_liveness_ms: u64,
    /// Whether the caller holds an open outbound sink for this connection.
    pub sink_present: bool,
}

/// A transport failure, already classified by kind; the text of `Other` is
/// the failure rendered by the transport.
#[derive(Debug, Clone)]
pub enum TransportErrorKind {
    Refused,
    Reset,
    Aborted,
    BrokenPipe,
    AlreadyClosed,
    Other(String),
}

/// The human-readable category of a transport failure.
pub open spec fn spec_friendly_error(kind: TransportErrorKind) -> Seq<char> {
    match kind {
        TransportErrorKind::Refused => "connection refused, check the relay configuration"@,
        TransportErrorKind::Reset => "connection reset, the remote relay dropped the link"@,
        TransportErrorKind::Aborted => "connection aborted, the remote relay dropped the link"@,
        TransportErrorKind::BrokenPipe => "broken pipe, the remote relay is unreachable"@,
        TransportErrorKind::AlreadyClosed => "connection already closed by the remote relay"@,
        TransportErrorKind::Other(e) => "connection failed: "@ + e@,
    }
}

/// Renders the human-readable category of a transport failure.
pub fn friendly_error(kind: &TransportErrorKind) -> (r: String)
    ensures
        r@ == spec_friendly_error(*kind),
{
    match kind {
        TransportErrorKind::Refused => "connection refused, check the relay configuration"
            .to_owned(),
        TransportErrorKind::Reset => "connection reset, the remote relay dropped the link"
            .to_owned(),
        TransportErrorKind::Aborted => "connection aborted, the remote relay dropped the link"
            .to_owned(),
        TransportErrorKind::BrokenPipe => "broken pipe, the remote relay is unreachable"
            .to_owned(),
        TransportErrorKind::AlreadyClosed => "connection already closed by the remote relay"
            .to_owned(),
        TransportErrorKind::Other(e) => {
            let mut s: String = "connection failed: ".to_owned();
            s.append(e.as_str());
            s
        },
    }
}

/// The manager refused because the named target does not exist.
#[derive(Debug, Clone)]
pub struct UnknownServer;

/// What the caller must do to open a connection: the address to dial and,
/// when the target carries a credential, the authentication frame to send
/// as soon as the socket is up.
#[derive(Debug)]
pub struct ConnectPlan {
    pub url: String,
    pub auth_frame: Option<String>,
}

/// The address a target is dialed at.
pub open spec fn spec_ws_url(host: Seq<char>, port: u16) -> Seq<char> {
    "ws://"@ + host + ":"@ + spec_dec(port as nat)
}

/// What the watchdog decides for one target on one tick.
#[derive(Debug, Clone, PartialEq, Eq, Structural)]
pub enum WatchdogAction {
    /// The target is gone or reconnection is disabled: the watchdog exits.
    Exit,
    /// The connection is stale or down: hand the target to the backoff
    /// engine.
    Reconnect,
    /// Nothing to do this tick.
    Idle,
}

/// The watchdog's decision, from the manager's state: a missing target or
/// disabled reconnection ends the watchdog; a connected target whose last
/// liveness signal is older than `timeout_ms` is stale and reconnects, as
/// does a disconnected or failed target; anything else waits.
pub open spec fn spec_watchdog_action(
    m: Map<Seq<char>, Connection>,
    id: Seq<char>,
    now_ms: u64,
    timeout_ms: u64,
) -> WatchdogAction {
    if !m.contains_key(id) || !m[id].should_reconnect {
        WatchdogAction::Exit
    } else {
        match m[id].status {
            ConnectionStatus::Connected => {
                if now_ms >= m[id].last_liveness_ms && now_ms - m[id].last_liveness_ms
                    > timeout_ms {
                    WatchdogAction::Reconnect
                } else {
                    WatchdogAction::Idle
                }
            },
            ConnectionStatus::Disconnected => WatchdogAction::Reconnect,
            ConnectionStatus::Error(_) => WatchdogAction::Reconnect,
            ConnectionStatus::Connecting => WatchdogAction::Idle,
        }
    }
}

/// The reconnect loop keeps going only while the target still exists and
/// automatic reconnection is still enabled.
pub open spec fn spec_backoff_continues(m: Map<Seq<char>, Connection>, id: Seq<char>) -> bool {
    m.contains_key(id) && m[id].should_reconnect
}

/// The client-role connection manager: one [`Connection`] per registered
/// target, keyed by target id.
pub struct LianYiXiaWebSocketManager {
    pub connections: Registry<Connection>,
}

impl LianYiXiaWebSocketManager {
    /// Well-formed; established by [`LianYiXiaWebSocketManager::new`] and
    /// preserved by every operation.
    pub open spec fn wf(self) -> bool {
        self.connections.wf()
    }

    /// The registered targets and their connection state.
    pub open spec fn view(self) -> Map<Seq<char>, Connection> {
        self.connections@
    }

    /// A manager with no targets.
    pub fn new() -> (r: Self)
        ensures
            r.wf(),
            r.view() == Map::<Seq<char>, Connection>::empty(),
    {
        LianYiXiaWebSocketManager { connections: Registry::new() }
    }

    /// Registers a target without connecting: a fresh disconnected
    /// connection, reconnection disabled. An existing entry with the same
    /// id is replaced.
    pub fn add_server(&mut self, config: WebSocketServerConfig)
        requires
            old(self).wf(),
        ensures
            final(self).wf(),
            final(self).view() == old(self).view().insert(
                config.id@,
                final(self).view()[config.id@],
            ),
            final(self).view()[config.id@].config == config,
            final(self).view()[config.id@].status is Disconnected,
            !final(self).view()[config.id@].should_reconnect,
            !final(self).view()[config.id@].sink_present,
    {
        let id = config.id.clone();
        let conn = Connection {
            config,
            status: ConnectionStatus::Disconnected,
            should_reconnect: false,
            last_liveness_ms: 0,
            sink_present: false,
        };
        self.connections.insert(id, conn);
    }

    /// Registers a target and reports whether the caller should connect it
    /// right away: exactly when the target is enabled and marked for
    /// automatic connection. Registration succeeds either way.
    pub fn add_server_with_auto_connect(&mut self, config: WebSocketServerConfig) -> (connect_now:
        bool)
        requires
            old(self).wf(),
        ensures
            final(self).wf(),
            connect_now == (config.enabled && config.auto_connect),
            final(self).view() == old(self).view().insert(
                config.id@,
                final(self).view()[config.id@],
            ),
            final(self).view()[config.id@].config == config,
            final(self).view()[config.id@].status is Disconnected,
            !final(self).view()[config.id@].should_reconnect,
            !final(self).view()[config.id@].sink_present,
    {
        let connect_now = config.enabled && config.auto_connect;
        self.add_server(config);
        connect_now
    }

    /// Removes a target; its connection state is gone and any watchdog or
    /// reconnect loop for the id finds nothing and exits. Removing an
    /// unknown id changes nothing.
    pub fn remove_server(&mut self, server_id: &str) -> (removed: bool)
        requires
            old(self).wf(),
        ensures
            final(self).wf(),
            final(self).view() == old(self).view().remove(server_id@),
            removed == old(self).view().contains_key(server_id@),
            !spec_backoff_continues(final(self).view(), server_id@),
    {
        let r = self.connections.remove(server_id);
        r.is_some()
    }

    /// Begins connecting a target: any prior sink is dropped, the status
    /// becomes `Connecting`, and the caller receives the address to dial
    /// together with the authentication frame to send first — present
    /// exactly when the target carries a non-empty credential.
    pub fn connect_begin(&mut self, server_id: &str) -> (r: Result<ConnectPlan, UnknownServer>)
        requires
            old(self).wf(),
        ensures
            final(self).wf(),
            match r {
                Ok(plan) => {
                    let c = old(self).view()[server_id@];
                    &&& old(self).view().contains_key(server_id@)
                    &&& final(self).view() == old(self).view().insert(
                        server_id@,
                        final(self).view()[server_id@],
                    )
                    &&& final(self).view()[server_id@].config == c.config
                    &&& final(self).view()[server_id@].status is Connecting
                    &&& !final(self).view()[server_id@].should_reconnect
                    &&& !final(self).view()[server_id@].sink_present
                    &&& plan.url@ == spec_ws_url(c.config.host@, c.config.port)
                    &&& (plan.auth_frame matches Some(f) ==> c.config.api_key@.len() > 0 && f@
                        == auth_json(c.config.api_key@))
                    &&& (plan.auth_frame is None ==> c.config.api_key@.len() == 0)
                },
                Err(UnknownServer) => !old(self).view().contains_key(server_id@) && final(self).view() == old(self).view(),
            },
    {
        let mut conn = match self.connections.remove(server_id) {
            Some(c) => c,
            None => {
                return Err(UnknownServer);
            },
        };
        conn.status = ConnectionStatus::Connecting;
        conn.should_reconnect = false;
        conn.sink_present = false;
        let url = format_ws_url(conn.config.host.as_str(), conn.config.port);
        let auth_frame = if conn.config.api_key.as_str().is_empty() {
            None
        } else {
            Some(encode_auth(conn.config.api_key.as_str()))
        };
        let ghost m0 = old(self).view();
        self.connections.insert(server_id.to_owned(), conn);
        proof {
            assert(self.view() =~= m0.insert(server_id@, self.view()[server_id@]));
        }
        Ok(ConnectPlan { url, auth_frame })
    }

    /// Observes that a connect attempt finished its handshake: the target —
    /// if it still exists — is `Connected`, automatic reconnection is
    /// enabled, the liveness clock restarts at `now_ms` and the caller's
    /// sink is recorded. A target removed meanwhile is left alone.
    pub fn connect_succeeded(&mut self, server_id: &str, now_ms: u64)
        requires
            old(self).wf(),
        ensures
            final(self).wf(),
            !old(self).view().contains_key(server_id@) ==> final(self).view() == old(self).view(),
            old(self).view().contains_key(server_id@) ==> {
                &&& final(self).view() == old(self).view().insert(
                    server_id@,
                    final(self).view()[server_id@],
                )
                &&& final(self).view()[server_id@].config == old(self).view()[server_id@].config
                &&& final(self).view()[server_id@].status is Connected
                &&& final(self).view()[server_id@].should_reconnect
                &&& final(self).view()[server_id@].last_liveness_ms == now_ms
                &&& final(self).view()[server_id@].sink_present
            },
    {
        let mut conn = match self.connections.remove(server_id) {
            Some(c) => c,
            None => {
                return ;
            },
        };
        conn.status = ConnectionStatus::Connected;
        conn.should_reconnect = true;
        conn.last_liveness_ms = now_ms;
        conn.sink_present = true;
        let ghost m0 = old(self).view();
        self.connections.insert(server_id.to_owned(), conn);
        proof {
            assert(self.view() =~= m0.insert(server_id@, self.view()[server_id@]));
        }
    }

    /// Observes that a connect attempt failed: the failure is classified
    /// into its human-readable category, which becomes the target's error
    /// status and is handed back for surfacing. A target removed meanwhile
    /// is left alone.
    pub fn connect_failed(&mut self, server_id: &str, kind: &TransportErrorKind) -> (msg: String)
        requires
            old(self).wf(),
        ensures
            final(self).wf(),
            msg@ == spec_friendly_error(*kind),
            !old(self).view().contains_key(server_id@) ==> final(self).view() == old(self).view(),
            old(self).view().contains_key(server_id@) ==> {
                &&& final(self).view() == old(self).view().insert(
                    server_id@,
                    final(self).view()[server_id@],
                )
                &&& final(self).view()[server_id@].config == old(self).view()[server_id@].config
                &&& (final(self).view()[server_id@].status matches ConnectionStatus::Error(e)
                    && e@ == spec_friendly_error(*kind))
                &&& final(self).view()[server_id@].should_reconnect == old(self).view()[server_id@].should_reconnect
                &&& !final(self).view()[server_id@].sink_present
            },
    {
        let msg = friendly_error(kind);
        let mut conn = match self.connections.remove(server_id) {
            Some(c) => c,
            None => {
                return msg;
            },
        };
        conn.status = ConnectionStatus::Error(msg.clone());
        conn.sink_present = false;
        let ghost m0 = old(self).view();
        self.connections.insert(server_id.to_owned(), conn);
        proof {
            assert(self.view() =~= m0.insert(server_id@, self.view()[server_id@]));
        }
        msg
    }

    /// Disconnects a target deliberately: automatic reconnection is
    /// disabled in the same step that the sink is dropped and the status
    /// becomes `Disconnected`, so a watchdog tick racing the teardown
    /// already sees reconnection disabled and exits instead of dialing
    /// again. Reports whether the target existed.
    pub fn disconnect_server(&mut self, server_id: &str) -> (found: bool)
        requires
            old(self).wf(),
        ensures
            final(self).wf(),
            found == old(self).view().contains_key(server_id@),
            !old(self).view().contains_key(server_id@) ==> final(self).view() == old(self).view(),
            old(self).view().contains_key(server_id@) ==> {
                &&& final(self).view() == old(self).view().insert(
                    server_id@,
                    final(self).view()[server_id@],
                )
                &&& final(self).view()[server_id@].config == old(self).view()[server_id@].config
                &&& final(self).view()[server_id@].status is Disconnected
                &&& !final(self).view()[server_id@].should_reconnect
                &&& !final(self).view()[server_id@].sink_present
                &&& spec_watchdog_action(final(self).view(), server_id@, 0, 0)
                    == WatchdogAction::Exit
            },
    {
        let mut conn = match self.connections.remove(server_id) {
            Some(c) => c,
            None => {
                return false;
            },
        };
        conn.should_reconnect = false;
        conn.status = ConnectionStatus::Disconnected;
        conn.sink_present = false;
        let ghost m0 = old(self).view();
        self.connections.insert(server_id.to_owned(), conn);
        proof {
            assert(self.view() =~= m0.insert(server_id@, self.view()[server_id@]));
        }
        true
    }

    /// Observes a transport-level liveness signal for a target: its
    /// liveness clock restarts at `now_ms`.
    pub fn on_liveness_signal(&mut self, server_id: &str, now_ms: u64)
        requires
            old(self).wf(),
        ensures
            final(self).wf(),
            !old(self).view().contains_key(server_id@) ==> final(self).view() == old(self).view(),
            old(self).view().contains_key(server_id@) ==> {
                &&& final(self).view() == old(self).view().insert(
                    server_id@,
                    final(self).view()[server_id@],
                )
                &&& final(self).view()[server_id@] == (Connection {
                    last_liveness_ms: now_ms,
                    ..old(self).view()[server_id@]
                })
            },
    {
        let mut conn = match self.connections.remove(server_id) {
            Some(c) => c,
            None => {
                return ;
            },
        };
        conn.last_liveness_ms = now_ms;
        let ghost m0 = old(self).view();
        self.connections.insert(server_id.to_owned(), conn);
        proof {
            assert(self.view() =~= m0.insert(server_id@, self.view()[server_id@]));
        }
    }

    /// Observes the peer closing the connection: the target — if it still
    /// exists — is `Disconnected` and the sink is gone; reconnection
    /// stays as it was, so the watchdog may dial again.
    pub fn on_peer_closed(&mut self, server_id: &str)
        requires
            old(self).wf(),
        ensures
            final(self).wf(),
            !old(self).view().contains_key(server_id@) ==> final(self).view() == old(self).view(),
            old(self).view().contains_key(server_id@) ==> {
                &&& final(self).view() == old(self).view().insert(
                    server_id@,
                    final(self).view()[server_id@],
                )
                &&& final(self).view()[server_id@].config == old(self).view()[server_id@].config
                &&& final(self).view()[server_id@].status is Disconnected
                &&& final(self).view()[server_id@].should_reconnect == old(self).view()[server_id@].should_reconnect
                &&& !final(self).view()[server_id@].sink_present
            },
    {
        let mut conn = match self.connections.remove(server_id) {
            Some(c) => c,
            None => {
                return ;
            },
        };
        conn.status = ConnectionStatus::Disconnected;
        conn.sink_present = false;
        let ghost m0 = old(self).view();
        self.connections.insert(server_id.to_owned(), conn);
        proof {
            assert(self.view() =~= m0.insert(server_id@, self.view()[server_id@]));
        }
    }

    /// Observes a transport error on an established connection: the target
    /// — if it still exists — carries the failure's category as its error
    /// status and the sink is gone.
    pub fn on_transport_error(&mut self, server_id: &str, kind: &TransportErrorKind) -> (msg:
        String)
        requires
            old(self).wf(),
        ensures
            final(self).wf(),
            msg@ == spec_friendly_error(*kind),
            !old(self).view().contains_key(server_id@) ==> final(self).view() == old(self).view(),
            old(self).view().contains_key(server_id@) ==> {
                &&& final(self).view() == old(self).view().insert(
                    server_id@,
                    final(self).view()[server_id@],
                )
                &&& final(self).view()[server_id@].config == old(self).view()[server_id@].config
                &&& (final(self).view()[server_id@].status matches ConnectionStatus::Error(e)
                    && e@ == spec_friendly_error(*kind))
                &&& !final(self).view()[server_id@].sink_present
            },
    {
        self.connect_failed(server_id, kind)
    }

    /// The status of one target.
    pub fn get_server_status(&self, server_id: &str) -> (r: Result<
        ConnectionStatus,
        UnknownServer,
    >)
        requires
            self.wf(),
        ensures
            match r {
                Ok(status) => self.view().contains_key(server_id@) && status
                    == self.view()[server_id@].status,
                Err(UnknownServer) => !self.view().contains_key(server_id@),
            },
    {
        match self.connections.get(server_id) {
            Some(conn) => Ok(clone_status(&conn.status)),
            None => Err(UnknownServer),
        }
    }

    /// The status of every target: one entry per registered id, no id
    /// twice.
    pub fn get_all_status(&self) -> (r: Vec<(String, ConnectionStatus)>)
        requires
            self.wf(),
        ensures
            r@.len() == self.view().len(),
            forall|i: int|
                0 <= i < r@.len() ==> #[trigger] self.view().contains_key(r@[i].0@) && r@[i].1
                    == self.view()[r@[i].0@].status,
            forall|i: int, j: int| 0 <= i < j < r@.len() ==> r@[i].0@ != r@[j].0@,
    {
        let ids = self.connections.keys();
        let ghost kv = crate::strfmt::str_views(ids@);
        let mut r: Vec<(String, ConnectionStatus)> = Vec::new();
        let n = ids.len();
        let mut i: usize = 0;
        while i < n
            invariant
                self.wf(),
                n == ids@.len(),
                i <= n,
                r@.len() == i,
                kv == crate::strfmt::str_views(ids@),
                kv.no_duplicates(),
                forall|j: int| 0 <= j < kv.len() ==> #[trigger] self.view().contains_key(kv[j]),
                forall|j: int|
                    0 <= j < i ==> #[trigger] r@[j].0@ == kv[j] && r@[j].1 == self.view()[
                        kv[j]].status,
            decreases n - i,
        {
            proof {
                assert(kv[i as int] == ids@[i as int]@);
                assert(self.view().contains_key(kv[i as int]));
            }
            let status = match self.connections.get(ids[i].as_str()) {
                Some(conn) => clone_status(&conn.status),
                None => ConnectionStatus::Disconnected,
            };
            let id = ids[i].clone();
            let ghost r_pre = r@;
            r.push((id, status));
            proof {
                assert forall|j: int|
                    0 <= j < i + 1 implies #[trigger] r@[j].0@ == kv[j] && r@[j].1
                    == self.view()[kv[j]].status by {
                    if j < i {
                        assert(r@[j] == r_pre[j]);
                    }
                }
            }
            i += 1;
        }
        proof {
            assert forall|i: int|
                0 <= i < r@.len() implies #[trigger] self.view().contains_key(r@[i].0@)
                && r@[i].1 == self.view()[r@[i].0@].status by {
                assert(r@[i].0@ == kv[i]);
            }
        }
        r
    }

    /// Replaces a target's configuration: the old connection state is
    /// discarded and a fresh disconnected one takes its place, effective on
    /// the next connect.
    pub fn update_server(&mut self, config: WebSocketServerConfig)
        requires
            old(self).wf(),
        ensures
            final(self).wf(),
            final(self).view() == old(self).view().insert(
                config.id@,
                final(self).view()[config.id@],
            ),
            final(self).view()[config.id@].config == config,
            final(self).view()[config.id@].status is Disconnected,
            !final(self).view()[config.id@].should_reconnect,
            !final(self).view()[config.id@].sink_present,
    {
        self.add_server(config);
    }

    /// The watchdog's decision for one target on one tick; see
    /// [`spec_watchdog_action`]. In particular, a `Connected` target whose
    /// last liveness signal is more than `timeout_ms` old reconnects.
    pub fn watchdog_step(&self, server_id: &str, now_ms: u64, timeout_ms: u64) -> (r:
        WatchdogAction)
        requires
            self.wf(),
        ensures
            r == spec_watchdog_action(self.view(), server_id@, now_ms, timeout_ms),
    {
        let conn = match self.connections.get(server_id) {
            Some(c) => c,
            None => {
                return WatchdogAction::Exit;
            },
        };
        if !conn.should_reconnect {
            return WatchdogAction::Exit;
        }
        match &conn.status {
            ConnectionStatus::Connected => {
                if now_ms >= conn.last_liveness_ms && now_ms - conn.last_liveness_ms > timeout_ms {
                    WatchdogAction::Reconnect
                } else {
                    WatchdogAction::Idle
                }
            },
            ConnectionStatus::Disconnected => WatchdogAction::Reconnect,
            ConnectionStatus::Error(_) => WatchdogAction::Reconnect,
            ConnectionStatus::Connecting => WatchdogAction::Idle,
        }
    }

    /// Whether an in-flight reconnect loop should keep trying: only while
    /// the target still exists and automatic reconnection is enabled.
    pub fn backoff_continues(&self, server_id: &str) -> (r: bool)
        requires
            self.wf(),
        ensures
            r == spec_backoff_continues(self.view(), server_id@),
    {
        match self.connections.get(server_id) {
            Some(conn) => conn.should_reconnect,
            None => false,
        }
    }

    /// Disconnects every connection at once (shutdown): all sinks are
    /// dropped and every status becomes `Disconnected`; the targets
    /// themselves, their configurations and their reconnection flags stay.
    pub fn disconnect_all(&mut self)
        requires
            old(self).wf(),
        ensures
            final(self).wf(),
            forall|k: Seq<char>| #[trigger]
                final(self).view().contains_key(k) == old(self).view().contains_key(k),
            forall|k: Seq<char>| #[trigger]
                old(self).view().contains_key(k) ==> final(self).view()[k] == (Connection {
                    status: ConnectionStatus::Disconnected,
                    sink_present: false,
                    ..old(self).view()[k]
                }),
    {
        let ghost m0 = self.view();
        let ids = self.connections.keys();
        let ghost kv = crate::strfmt::str_views(ids@);
        let n = ids.len();
        let mut i: usize = 0;
        while i < n
            invariant
                self.wf(),
                n == ids@.len(),
                i <= n,
                kv == crate::strfmt::str_views(ids@),
                kv.no_duplicates(),
                forall|j: int| 0 <= j < kv.len() ==> #[trigger] m0.contains_key(kv[j]),
                forall|k: Seq<char>| #[trigger] m0.contains_key(k) ==> kv.contains(k),
                forall|k: Seq<char>| #[trigger]
                    self.view().contains_key(k) == m0.contains_key(k),
                forall|j: int|
                    i <= j < kv.len() ==> #[trigger] self.view()[kv[j]] == m0[kv[j]],
                forall|j: int|
                    0 <= j < i ==> #[trigger] self.view()[kv[j]] == (Connection {
                        status: ConnectionStatus::Disconnected,
                        sink_present: false,
                        ..m0[kv[j]]
                    }),
            decreases n - i,
        {
            proof {
                assert(kv[i as int] == ids@[i as int]@);
                assert(m0.contains_key(kv[i as int]));
            }
            let ghost before = self.view();
            let mut conn = match self.connections.remove(ids[i].as_str()) {
                Some(c) => c,
                None => {
                    proof {
                        assert(before.contains_key(kv[i as int]) == m0.contains_key(
                            kv[i as int],
                        ));
                        assert(false);
                    }
                    i += 1;
                    continue ;
                },
            };
            conn.status = ConnectionStatus::Disconnected;
            conn.sink_present = false;
            let ghost pre = self.view();
            self.connections.insert(ids[i].clone(), conn);
            proof {
                assert(pre == before.remove(kv[i as int]));
                assert(self.view() == pre.insert(kv[i as int], self.view()[kv[i as int]]));
                assert forall|k: Seq<char>| #[trigger]
                    self.view().contains_key(k) == m0.contains_key(k) by {
                    if k != kv[i as int] {
                        assert(self.view().contains_key(k) == pre.contains_key(k));
                        assert(pre.contains_key(k) == before.contains_key(k));
                        assert(before.contains_key(k) == m0.contains_key(k));
                    }
                }
                assert forall|j: int|
                    i + 1 <= j < kv.len() implies #[trigger] self.view()[kv[j]] == m0[kv[j]] by {
                    assert(kv[j] != kv[i as int]);
                    assert(before[kv[j]] == m0[kv[j]]);
                }
                assert forall|j: int|
                    0 <= j < i + 1 implies #[trigger] self.view()[kv[j]] == (Connection {
                        status: ConnectionStatus::Disconnected,
                        sink_present: false,
                        ..m0[kv[j]]
                    }) by {
                    if j < i {
                        assert(kv[j] != kv[i as int]);
                    } else {
                        assert(before[kv[i as int]] == m0[kv[i as int]]);
                    }
                }
            }
            i += 1;
        }
        proof {
            assert forall|k: Seq<char>| #[trigger]
                m0.contains_key(k) implies self.view()[k] == (Connection {
                status: ConnectionStatus::Disconnected,
                sink_present: false,
                ..m0[k]
            }) by {
                let j = choose|j: int| 0 <= j < kv.len() && kv[j] == k;
            }
        }
    }
}


/// What the caller must do after the manager handled an inbound frame on a
/// connection: surface the handshake outcome, run the approval executor and
/// send back a correlated response, or nothing — unrecognized frames are
/// logged and ignored, and never fatal to the connection.
pub enum InboundAction {
    /// Nothing; the frame was consumed or unrecognized.
    Ignore,
    /// The relay answered the authentication handshake; for the log only,
    /// the connection state does not change.
    AuthResult { success: bool, message: String },
    /// An approval request arrived: run the approval executor and send back
    /// a correlated `popup_response` frame.
    LaunchApproval {
        request_id: String,
        message: String,
        predefined_options: Option<Vec<String>>,
        is_markdown: bool,
    },
}

/// Classifies one inbound frame of a managed connection. No frame changes
/// the connection's state: liveness and closure are transport-level events
/// observed separately.
pub fn handle_inbound_message(msg: RelayMessage) -> (r: InboundAction)
    ensures
        match msg@ {
            crate::protocol::MessageView::AuthResponse { success, message } => (r matches
                InboundAction::AuthResult { success: s, message: m } && s == success && m@
                == message),
            crate::protocol::MessageView::PopupRequest {
                request_id,
                message,
                predefined_options,
                is_markdown,
            } => (r matches InboundAction::LaunchApproval {
                request_id: rid,
                message: m,
                predefined_options: opts,
                is_markdown: md,
            } && rid@ == request_id && m@ == message && md == is_markdown && (match opts {
                Some(v) => predefined_options == Some(v.deep_view()),
                None => predefined_options is None,
            })),
            _ => r is Ignore,
        },
{
    match msg {
        RelayMessage::AuthResponse { success, message } => InboundAction::AuthResult {
            success,
            message,
        },
        RelayMessage::PopupRequest {
            request_id,
            message,
            predefined_options,
            is_markdown,
        } => InboundAction::LaunchApproval {
            request_id,
            message,
            predefined_options,
            is_markdown,
        },
        _ => InboundAction::Ignore,
    }
}

/// Renders `ws://host:port`.
fn format_ws_url(host: &str, port: u16) -> (r: String)
    ensures
        r@ == spec_ws_url(host@, port),
{
    let mut s: String = "ws://".to_owned();
    s.append(host);
    s.append(":");
    let p = u64_to_string(port as u64);
    s.append(p.as_str());
    proof {
        assert(s@ =~= spec_ws_url(host@, port));
    }
    s
}

/// A copy of a status equal to the original.
fn clone_status(status: &ConnectionStatus) -> (r: ConnectionStatus)
    ensures
        r == *status,
{
    match status {
        ConnectionStatus::Disconnected => ConnectionStatus::Disconnected,
        ConnectionStatus::Connecting => ConnectionStatus::Connecting,
        ConnectionStatus::Connected => ConnectionStatus::Connected,
        ConnectionStatus::Error(e) => ConnectionStatus::Error(e.clone()),
    }
}

/// Law (add then remove restores absence): registering a target and then
/// removing it leaves the manager with no connection for that id — whatever
/// was there before — and any in-flight reconnect loop for the id observes
/// `spec_backoff_continues` false at its next check, within one backoff
/// cycle, and terminates.
pub proof fn lemma_add_remove_restores(
    m: Map<Seq<char>, Connection>,
    id: Seq<char>,
    c: Connection,
)
    ensures
        !m.insert(id, c).remove(id).contains_key(id),
        !spec_backoff_continues(m.insert(id, c).remove(id), id),
        spec_watchdog_action(m.insert(id, c).remove(id), id, 0, 0) == WatchdogAction::Exit,
        !m.contains_key(id) ==> m.insert(id, c).remove(id) == m,
{
    assert(!m.contains_key(id) ==> m.insert(id, c).remove(id) =~= m);
}

} // verus!
