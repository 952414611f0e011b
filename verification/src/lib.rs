//! Relay and connectivity layer for routing approval requests between a
//! remote automation process and a local approval interface.
//!
//! The crate models the relay's moving parts as verified state machines:
//! the wire-protocol message schema, the request/response correlator, the
//! SSH reverse-tunnel supervisor, the client-role connection manager with
//! heartbeat and exponential backoff, and the server-role relay hub with
//! its authentication handshake and liveness sweep. All I/O (sockets,
//! subprocesses, timers) lives outside the library; callers feed events in
//! and perform the actions the library decides on.

pub mod approval;
pub mod cli;
pub mod client;
pub mod correlator;
pub mod hub;
pub mod manager;
pub mod protocol;
pub mod registry;
pub mod strfmt;
pub mod tunnel;
pub mod types;
