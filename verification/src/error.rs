//! What can go wrong on a gateway connection.

use vstd::prelude::*;
use crate::gateway::CloseCode;
use crate::payload::FromPayloadError;

verus! {

/// An error of the gateway connection. Errors of the transport carry the
/// message of the library that reported them.
#[derive(Debug)]
pub enum GatewayError {
    /// A url could not be parsed.
    Url(String),
    /// A websocket operation failed.
    Ws(String),
    /// Text could not be written or read as JSON.
    Json(String),
    /// The heartbeat timer failed.
    HeartbeatTimer(String),
    /// A REST operation failed.
    RestError(String),
    /// The gateway closed the connection.
    ConnectionClosed(Option<CloseCode>),
    /// A command could not be sent; the connection is most likely closed.
    SendError(String),
    /// Reading or writing failed.
    Io(String),
    /// A payload could not be read as an event.
    FromPayload(FromPayloadError),
    /// The gateway did not open the connection with a hello.
    ExpectedHello,
    /// The gateway did not answer the identify command with a ready event.
    ExpectedReady,
    /// An error of the user's event handler.
    Generic(String),
}

impl GatewayError {
    /// Whether the connection can go on after this error: it cannot after an
    /// error of the websocket or of the heartbeat timer.
    pub fn is_recoverable(&self) -> (r: bool)
        ensures
            r == !(self is Ws || self is HeartbeatTimer),
    {
        match self {
            GatewayError::Ws(_) => false,
            GatewayError::HeartbeatTimer(_) => false,
            _ => true,
        }
    }

    /// The error for a close frame with the given code.
    pub fn connection_closed(code: Option<u16>) -> (r: GatewayError)
        ensures
            r == GatewayError::ConnectionClosed(
                match code {
                    Some(code) => crate::gateway::close_code_of(code),
                    None => None,
                },
            ),
    {
        GatewayError::ConnectionClosed(
            match code {
                Some(code) => match CloseCode::try_from(code) {
                    Ok(reason) => Some(reason),
                    Err(_) => None,
                },
                None => None,
            },
        )
    }
}

} // verus!
