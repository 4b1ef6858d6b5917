//! The opcodes of the gateway protocol.

use vstd::prelude::*;

verus! {

/// An event was dispatched.
pub const DISPATCH: u64 = 0;

/// Keeps the connection alive; sent by either side.
pub const HEARTBEAT: u64 = 1;

/// Starts a session.
pub const IDENTIFY: u64 = 2;

/// Updates the client's presence.
pub const STATUS_UPDATE: u64 = 3;

/// Joins, moves between or leaves voice channels.
pub const VOICE_STATE_UPDATE: u64 = 4;

/// Resumes a session.
pub const RESUME: u64 = 6;

/// Tells the client to reconnect.
pub const RECONNECT: u64 = 7;

/// Asks for the members of a guild.
pub const REQUEST_GUILD_MEMBERS: u64 = 8;

/// Tells the client that its session is invalid.
pub const INVALID_SESSION: u64 = 9;

/// Sent right after connecting; carries the heartbeat interval.
pub const HELLO: u64 = 10;

/// Acknowledges a heartbeat.
pub const HEARTBEAT_ACK: u64 = 11;

} // verus!
