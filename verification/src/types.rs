//! Shared data model: connection and server status enums, target
//! configuration records, and the aggregate application state.

use vstd::prelude::*;

verus! {

/// Status of one client-role connection to a remote relay target.
#[derive(Debug, Clone)]
pub enum ConnectionStatus {
    Disconnected,
    Connecting,
    Connected,
    Error(String),
}

impl ConnectionStatus {
    /// The short machine-readable name of this status.
    pub open spec fn spec_string(&self) -> Seq<char> {
        match self {
            ConnectionStatus::Disconnected => "disconnected"@,
            ConnectionStatus::Connecting => "connecting"@,
            ConnectionStatus::Connected => "connected"@,
            ConnectionStatus::Error(_) => "error"@,
        }
    }

    pub fn as_string(&self) -> (r: String)
        ensures
            r@ == self.spec_string(),
    {
        match self {
            ConnectionStatus::Disconnected => "disconnected".to_owned(),
            ConnectionStatus::Connecting => "connecting".to_owned(),
            ConnectionStatus::Connected => "connected".to_owned(),
            ConnectionStatus::Error(_) => "error".to_owned(),
        }
    }
}

/// Status of the single outbound connection held by the desktop shell's
/// WebSocket manager. Same state space as [`ConnectionStatus`], kept as its
/// own type because the two managers evolve independently.
#[derive(Debug, Clone)]
pub enum WebSocketStatus {
    Disconnected,
    Connecting,
    Connected,
    Error(String),
}

impl WebSocketStatus {
    /// The short machine-readable name of this status.
    pub open spec fn spec_string(&self) -> Seq<char> {
        match self {
            WebSocketStatus::Disconnected => "disconnected"@,
            WebSocketStatus::Connecting => "connecting"@,
            WebSocketStatus::Connected => "connected"@,
            WebSocketStatus::Error(_) => "error"@,
        }
    }

    pub fn as_string(&self) -> (r: String)
        ensures
            r@ == self.spec_string(),
    {
        match self {
            WebSocketStatus::Disconnected => "disconnected".to_owned(),
            WebSocketStatus::Connecting => "connecting".to_owned(),
            WebSocketStatus::Connected => "connected".to_owned(),
            WebSocketStatus::Error(_) => "error".to_owned(),
        }
    }
}

/// Status of the relay hub's listening socket.
#[derive(Debug, Clone)]
pub enum ServerStatus {
    Running,
    Error(String),
}

/// Status of the SSH reverse-tunnel subprocess.
#[derive(Debug, Clone)]
pub enum TunnelStatus {
    Stopped,
    Starting,
    Running,
    Error(String),
}

impl TunnelStatus {
    /// The short machine-readable name of this status.
    pub open spec fn spec_string(&self) -> Seq<char> {
        match self {
            TunnelStatus::Stopped => "stopped"@,
            TunnelStatus::Starting => "starting"@,
            TunnelStatus::Running => "running"@,
            TunnelStatus::Error(_) => "error"@,
        }
    }

    pub fn as_string(&self) -> (r: String)
        ensures
            r@ == self.spec_string(),
    {
        match self {
            TunnelStatus::Stopped => "stopped".to_owned(),
            TunnelStatus::Starting => "starting".to_owned(),
            TunnelStatus::Running => "running".to_owned(),
            TunnelStatus::Error(_) => "error".to_owned(),
        }
    }
}

/// Configuration of one remote relay target the connection manager may
/// connect to.
#[derive(Debug, Clone)]
pub struct WebSocketServerConfig {
    /// Unique identity of the target.
    pub id: String,
    /// Display name.
    pub name: String,
    /// Remote host.
    pub host: String,
    /// Remote port.
    pub port: u16,
    /// Pre-shared credential sent during the handshake; empty means the
    /// target expects no authentication.
    pub api_key: String,
    /// Whether the target may be used at all.
    pub enabled: bool,
    /// Whether the manager should connect as soon as the target is added.
    pub auto_connect: bool,
}

/// The set of configured relay targets.
#[derive(Debug, Clone)]
pub struct WebSocketServersConfig {
    pub servers: Vec<WebSocketServerConfig>,
}

impl Default for WebSocketServersConfig {
    fn default() -> (r: Self)
        ensures
            r.servers@.len() == 0,
    {
        WebSocketServersConfig { servers: Vec::new() }
    }
}

/// Runtime view of one configured target: its configuration together with
/// the current connection status.
#[derive(Debug, Clone)]
pub struct WebSocketConnectionInfo {
    pub config: WebSocketServerConfig,
    pub status: ConnectionStatus,
}

/// One entry of the connection-info registry held by [`LianYiXiaState`],
/// keyed by target id.
#[derive(Debug, Clone)]
pub struct ConnectionInfoEntry {
    pub id: String,
    pub info: WebSocketConnectionInfo,
}

/// Aggregate state the desktop shell shares with its command handlers: the
/// persisted target configuration and the runtime connection registry.
#[derive(Debug)]
pub struct LianYiXiaState {
    pub servers_config: WebSocketServersConfig,
    pub websocket_connections: Vec<ConnectionInfoEntry>,
}

impl Default for LianYiXiaState {
    fn default() -> (r: Self)
        ensures
            r.servers_config.servers@.len() == 0,
            r.websocket_connections@.len() == 0,
    {
        LianYiXiaState {
            servers_config: WebSocketServersConfig { servers: Vec::new() },
            websocket_connections: Vec::new(),
        }
    }
}

/// One connected client as reported to the status surface.
#[derive(Debug, Clone)]
pub struct ConnectedClient {
    pub client_id: String,
    /// Time connected so far, already rendered for display.
    pub connected_at: String,
}

/// Snapshot of the relay hub for the status surface.
#[derive(Debug, Clone)]
pub struct WsServerStatus {
    pub status: String,
    pub address: String,
    pub uptime: String,
    pub client_count: usize,
}

/// Configuration of the client role: which relay to dial and the identity
/// to register under.
#[derive(Debug, Clone)]
pub struct WsClientConfig {
    pub host: String,
    pub port: u16,
    pub client_id: String,
}

/// Configuration of the server role. A hub with no configured credential
/// rejects every connection (fail-closed).
#[derive(Debug, Clone)]
pub struct WsServerConfig {
    pub host: String,
    pub port: u16,
    pub api_key: Option<String>,
}

} // verus!
