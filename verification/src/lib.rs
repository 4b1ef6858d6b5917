//! Core runtime of a chat-and-voice bot client: identifiers, payload envelopes,
//! rate limiting, REST request planning, and the gateway and voice protocols.

use vstd::prelude::*;

pub mod connection;
pub mod decode;
pub mod embed;
pub mod encode;
pub mod endpoint;
pub mod error;
pub mod gateway;
pub mod ids;
pub mod json;
pub mod model;
pub mod net;
pub mod payload;
pub mod rest;
pub mod router;
pub mod text;
pub mod voice;

