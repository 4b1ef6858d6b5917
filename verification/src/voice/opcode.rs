//! The opcodes of the voice protocol.

use vstd::prelude::*;

verus! {

/// Begins a voice websocket connection.
pub const IDENTIFY: u64 = 0;

/// Selects the voice protocol.
pub const SELECT_PROTOCOL: u64 = 1;

/// Completes the websocket handshake.
pub const READY: u64 = 2;

/// Keeps the websocket connection alive.
pub const HEARTBEAT: u64 = 3;

/// Describes the session.
pub const SESSION_DESCRIPTION: u64 = 4;

/// Indicates which users are speaking.
pub const SPEAKING: u64 = 5;

/// Sent right after a client heartbeat was received.
pub const HEARTBEAT_ACK: u64 = 6;

/// Resumes a connection.
pub const RESUME: u64 = 7;

/// Carries the interval at which the client should send heartbeats.
pub const HELLO: u64 = 8;

/// Acknowledges a resume.
pub const RESUMED: u64 = 9;

/// A client has left the voice channel.
pub const CLIENT_DISCONNECT: u64 = 13;

} // verus!
