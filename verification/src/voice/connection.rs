//! The voice connection: the handshake that sets up a voice session and the
//! turns of the task that keeps its websocket alive.
//!
//! The functions here decide; they do not wait, send or receive. Whoever runs
//! the connection hands in what happened and carries out what comes back.

use vstd::prelude::*;
use crate::connection::Incoming;
use crate::decode::{field_read, FromJson};
use crate::endpoint::{parsed_url, voice_url, voice_url_text};
use crate::gateway::{GatewayCommand, VoiceStateUpdate};
use crate::ids::{ChannelId, GuildId, UserId};
use crate::json::json_parse;
use crate::net::IpAddress;
use crate::payload::{envelope_of, FromPayloadError, Payload};
use crate::router::{EventRouter, VoiceInfo};
use crate::voice::opcode;
use crate::voice::udp::{
    be32, discovery_of, discovery_request, parse_discovery_response, DiscoveryPacketError,
};
use crate::voice::{
    close_code_of, is_voice_event_opcode, CloseCode, Identify, SelectProtocol, UdpProtocolData,
    VoiceCommand, VoiceEvent,
};

verus! {

/// What can go wrong on a voice connection. Errors of the transport carry
/// the message of the library that reported them.
#[derive(Debug)]
pub enum VoiceError {
    /// The voice server's endpoint gives no url.
    BadUrl,
    /// A websocket operation failed.
    Ws(String),
    /// Text could not be written as JSON.
    Json(String),
    /// The voice server closed the connection.
    VoiceConnectionClosed(Option<CloseCode>),
    /// A command could not be sent; the connection is most likely closed.
    SendError(String),
    /// Reading or writing failed.
    Io(String),
    /// The answer to the IP discovery request could not be read.
    IpDiscovery(DiscoveryPacketError),
    /// A payload could not be read as an event.
    FromPayload(FromPayloadError),
    /// The audio could not be encoded.
    Opus(String),
    /// No voice server update came in time.
    Timeout,
    /// The voice server did not open the connection with a hello.
    ExpectedHello,
    /// The voice server did not answer the identify command with a ready
    /// event.
    ExpectedReady,
    /// Something was handed in that the handshake does not wait for.
    OutOfOrder,
}

/// Seconds to wait for the voice server update before giving up.
pub const VOICE_INFO_TIMEOUT_SECS: u64 = 5;

/// The encryption mode that this library speaks.
pub open spec fn encryption_mode() -> Seq<char> {
    "xsalsa20_poly1305"@
}

/// What reading a text message of the voice server gives.
pub open spec fn voice_text_read(text: Seq<char>, r: Result<Payload, VoiceError>) -> bool {
    match json_parse(text) {
        None => r matches Err(VoiceError::FromPayload(FromPayloadError::Json(_))),
        Some(j) => match envelope_of(j) {
            Some(p) => r is Ok && r->Ok_0@ == p,
            None => r matches Err(VoiceError::FromPayload(FromPayloadError::Json(_))),
        },
    }
}

/// Reads a message of the voice server: a close frame ends the connection
/// with the reason that its code stands for; a text is read as an envelope.
pub fn read_voice_message(message: Incoming) -> (r: Result<Payload, VoiceError>)
    ensures
        match message {
            Incoming::Close(code) => r == Err::<Payload, VoiceError>(
                VoiceError::VoiceConnectionClosed(
                    match code {
                        Some(code) => close_code_of(code),
                        None => None,
                    },
                ),
            ),
            Incoming::Text(text) => voice_text_read(text@, r),
        },
{
    match message {
        Incoming::Close(code) => Err(
            VoiceError::VoiceConnectionClosed(
                match code {
                    Some(code) => match CloseCode::try_from(code) {
                        Ok(reason) => Some(reason),
                        Err(_) => None,
                    },
                    None => None,
                },
            ),
        ),
        Incoming::Text(text) => match Payload::parse(text.as_str()) {
            Ok(payload) => Ok(payload),
            Err(e) => Err(VoiceError::FromPayload(e)),
        },
    }
}

/// The interval at which heartbeats are sent when the server reports
/// `reported`: three quarters of it, rounded down.
pub open spec fn heartbeat_millis(reported: u64) -> u64 {
    ((reported * 3) / 4) as u64
}

/// The interval at which to send heartbeats when the server reports
/// `reported`.
pub fn heartbeat_interval(reported: u64) -> (r: u64)
    ensures
        r == heartbeat_millis(reported),
{
    ((reported as u128 * 3) / 4) as u64
}

/// How far a voice handshake has come.
#[derive(Debug, Clone, Copy, PartialEq, Eq, Structural)]
pub enum Stage {
    /// Waiting for the voice server update of the guild.
    AwaitVoiceInfo,
    /// Waiting for the voice server's hello.
    AwaitHello,
    /// Waiting for the voice server's ready event.
    AwaitReady,
    /// Waiting for the answer to the IP discovery request.
    AwaitDiscovery,
    /// Waiting for the session description.
    AwaitSessionDescription,
}

/// A voice connection in the making.
pub struct Handshake {
    pub guild_id: GuildId,
    pub user_id: UserId,
    /// The session of the gateway connection.
    pub session_id: String,
    pub stage: Stage,
    /// The number of the receiver on which the voice server update comes.
    pub receiver: u64,
    /// The token from the voice server update.
    pub token: String,
    /// The heartbeat interval that the hello reported.
    pub reported_interval: u64,
    /// Synchronization source identifier from the ready event.
    pub ssrc: u32,
    /// Where to send audio, from the ready event.
    pub ip: IpAddress,
    pub port: u16,
}

/// What a voice session needs to send audio.
#[derive(Debug, Clone)]
pub struct VoiceSession {
    pub guild_id: GuildId,
    /// Synchronization source identifier of our audio.
    pub ssrc: u32,
    /// Where to send audio.
    pub ip: IpAddress,
    pub port: u16,
    /// The key that seals every packet.
    pub secret_key: [u8; 32],
    /// Milliseconds between two heartbeats on the voice websocket.
    pub heartbeat_interval: u64,
}

/// What happened during a voice handshake.
pub enum HandshakeInput {
    /// The voice server update of the guild came.
    VoiceInfo(VoiceInfo),
    /// No voice server update came in time.
    Timeout,
    /// A payload came over the voice websocket.
    Payload(Payload),
    /// A datagram came in answer to the IP discovery request.
    Discovery([u8; 70]),
}

/// What to do next in a voice handshake.
pub enum HandshakeOutput {
    /// Open the voice websocket at the url, then hand in its payloads.
    Connect { url: String },
    /// Send the command over the voice websocket.
    Send(VoiceCommand),
    /// Bind a UDP socket, send the packet to the address and hand in the
    /// datagram that comes back.
    Discover { ip: IpAddress, port: u16, packet: [u8; 70] },
    /// Nothing; hand in the next payload.
    Wait,
    /// The handshake is done.
    Done(VoiceSession),
}

impl Handshake {
    /// Starts a voice handshake for a channel of a guild: registers a waiter
    /// for the guild's voice server update and says what to send over the
    /// gateway. The caller then waits on the receiver, for at most
    /// [`VOICE_INFO_TIMEOUT_SECS`] seconds.
    pub fn start(
        router: &mut EventRouter,
        user_id: UserId,
        session_id: String,
        guild_id: GuildId,
        channel_id: Option<ChannelId>,
    ) -> (r: (Handshake, GatewayCommand))
        requires
            old(router)@.next < u64::MAX,
        ensures
            final(router)@.routes == old(router)@.routes.insert(guild_id.0.0, r.0.receiver),
            final(router)@.next == old(router)@.next + 1,
            final(router)@.wf(),
            r.0.receiver == old(router)@.next,
            r.0.stage == Stage::AwaitVoiceInfo,
            r.0.guild_id == guild_id,
            r.0.user_id == user_id,
            r.0.session_id == session_id,
            r.1 == GatewayCommand::VoiceStateUpdate(
                VoiceStateUpdate { guild_id, channel_id, self_mute: false, self_deaf: false },
            ),
    {
        let receiver = router.register(guild_id);
        (
            Handshake {
                guild_id,
                user_id,
                session_id,
                stage: Stage::AwaitVoiceInfo,
                receiver,
                token: String::new(),
                reported_interval: 0,
                ssrc: 0,
                ip: IpAddress::V4(0, 0, 0, 0),
                port: 0,
            },
            GatewayCommand::VoiceStateUpdate(
                VoiceStateUpdate { guild_id, channel_id, self_mute: false, self_deaf: false },
            ),
        )
    }

    /// What the handshake keeps whatever comes in.
    pub open spec fn same_session(self, before: Handshake) -> bool {
        &&& self.guild_id == before.guild_id
        &&& self.user_id == before.user_id
        &&& self.session_id == before.session_id
        &&& self.receiver == before.receiver
    }

    /// Whether `self` and `r` are what becomes of the handshake `before`
    /// when the voice server update `info` comes.
    pub open spec fn after_voice_info(
        self,
        before: Handshake,
        info: VoiceInfo,
        r: Result<HandshakeOutput, VoiceError>,
    ) -> bool {
        match parsed_url(voice_url_text(info.endpoint@)) {
            Some(url) => {
                &&& r matches Ok(HandshakeOutput::Connect { url: out })
                &&& out@ == url
                &&& self.stage == Stage::AwaitHello
                &&& self.token == info.token
            },
            None => r == Err::<HandshakeOutput, VoiceError>(VoiceError::BadUrl),
        }
    }

    /// Whether `self` and `r` are what becomes of the handshake `before`
    /// when `payload` comes over the voice websocket.
    pub open spec fn after_payload(
        self,
        before: Handshake,
        payload: Payload,
        r: Result<HandshakeOutput, VoiceError>,
    ) -> bool {
        match VoiceEvent::refusal(payload@) {
            Some(fault) => r matches Err(VoiceError::FromPayload(e)) && e.fault() == fault,
            None => match before.stage {
                Stage::AwaitHello => if payload@.op == opcode::HELLO {
                    &&& self.stage == Stage::AwaitReady
                    &&& field_read(self.reported_interval, payload@.d, "heartbeat_interval"@)
                    &&& self.token == before.token
                    &&& r == Ok::<HandshakeOutput, VoiceError>(
                        HandshakeOutput::Send(
                            VoiceCommand::Identify(
                                Identify {
                                    server_id: before.guild_id,
                                    user_id: before.user_id,
                                    session_id: before.session_id,
                                    token: before.token,
                                },
                            ),
                        ),
                    )
                } else {
                    r == Err::<HandshakeOutput, VoiceError>(VoiceError::ExpectedHello)
                },
                Stage::AwaitReady => if payload@.op == opcode::READY {
                    &&& self.stage == Stage::AwaitDiscovery
                    &&& self.reported_interval == before.reported_interval
                    &&& field_read(self.ssrc, payload@.d, "ssrc"@)
                    &&& field_read(self.ip, payload@.d, "ip"@)
                    &&& field_read(self.port, payload@.d, "port"@)
                    &&& r matches Ok(HandshakeOutput::Discover { ip, port, packet })
                    &&& ip == self.ip
                    &&& port == self.port
                    &&& packet@ == be32(self.ssrc) + Seq::new(66, |i: int| 0u8)
                } else {
                    r == Err::<HandshakeOutput, VoiceError>(VoiceError::ExpectedReady)
                },
                Stage::AwaitSessionDescription => if payload@.op == opcode::SESSION_DESCRIPTION {
                    &&& r matches Ok(HandshakeOutput::Done(session))
                    &&& session.guild_id == before.guild_id
                    &&& session.ssrc == before.ssrc
                    &&& session.ip == before.ip
                    &&& session.port == before.port
                    &&& field_read(session.secret_key, payload@.d, "secret_key"@)
                    &&& session.heartbeat_interval == heartbeat_millis(before.reported_interval)
                } else {
                    self == before && r is Ok && r->Ok_0 is Wait
                },
                _ => r == Err::<HandshakeOutput, VoiceError>(VoiceError::OutOfOrder),
            },
        }
    }

    /// Whether `self` and `r` are what becomes of the handshake `before`
    /// when the datagram `buf` answers the IP discovery request.
    pub open spec fn after_discovery(
        self,
        before: Handshake,
        buf: [u8; 70],
        r: Result<HandshakeOutput, VoiceError>,
    ) -> bool {
        match discovery_of(buf@) {
            Ok((address, port)) => {
                &&& self.stage == Stage::AwaitSessionDescription
                &&& self.ssrc == before.ssrc
                &&& self.ip == before.ip
                &&& self.port == before.port
                &&& self.reported_interval == before.reported_interval
                &&& r matches Ok(HandshakeOutput::Send(VoiceCommand::SelectProtocol(select)))
                &&& select.protocol@ == "udp"@
                &&& exists|data: UdpProtocolData|
                    #![auto]
                    data.address == address && data.port == port && data.mode@
                        == encryption_mode() && crate::json::json_view(select.data) == data.json()
            },
            Err(e) => r == Err::<HandshakeOutput, VoiceError>(VoiceError::IpDiscovery(e)),
        }
    }

    /// Takes in what happened and says what to do next.
    ///
    /// The voice server update gives the url of the voice websocket. The
    /// first payload there has to be a hello; it is answered with an identify
    /// command. The second has to be the ready event; it is followed by an IP
    /// discovery request to the address that it names. The answer to that
    /// gives our own address, which goes out in a select protocol command
    /// for `udp` and `xsalsa20_poly1305`. After that, payloads are passed
    /// over until the session description comes; with its key the handshake
    /// is done. A timeout, a payload that cannot be read, an answer that
    /// cannot be read and anything that comes out of turn end the handshake
    /// with an error.
    pub fn on_input(&mut self, input: HandshakeInput) -> (r: Result<HandshakeOutput, VoiceError>)
        ensures
            final(self).same_session(*old(self)),
            match input {
                HandshakeInput::Timeout => r == Err::<HandshakeOutput, VoiceError>(
                    VoiceError::Timeout,
                ),
                HandshakeInput::VoiceInfo(info) => if old(self).stage == Stage::AwaitVoiceInfo {
                    final(self).after_voice_info(*old(self), info, r)
                } else {
                    r == Err::<HandshakeOutput, VoiceError>(VoiceError::OutOfOrder)
                },
                HandshakeInput::Payload(payload) => final(self).after_payload(
                    *old(self),
                    payload,
                    r,
                ),
                HandshakeInput::Discovery(buf) => if old(self).stage == Stage::AwaitDiscovery {
                    final(self).after_discovery(*old(self), buf, r)
                } else {
                    r == Err::<HandshakeOutput, VoiceError>(VoiceError::OutOfOrder)
                },
            },
    {
        match input {
            HandshakeInput::Timeout => Err(VoiceError::Timeout),
            HandshakeInput::VoiceInfo(info) => {
                if self.stage != Stage::AwaitVoiceInfo {
                    return Err(VoiceError::OutOfOrder);
                }
                match voice_url(info.endpoint.as_str()) {
                    Some(url) => {
                        self.token = info.token;
                        self.stage = Stage::AwaitHello;
                        Ok(HandshakeOutput::Connect { url })
                    },
                    None => Err(VoiceError::BadUrl),
                }
            },
            HandshakeInput::Payload(payload) => {
                let event = match VoiceEvent::try_from(payload) {
                    Ok(event) => event,
                    Err(e) => {
                        return Err(VoiceError::FromPayload(e));
                    },
                };
                match self.stage {
                    Stage::AwaitHello => match event {
                        VoiceEvent::Hello(hello) => {
                            self.reported_interval = hello.heartbeat_interval;
                            self.stage = Stage::AwaitReady;
                            Ok(
                                HandshakeOutput::Send(
                                    VoiceCommand::Identify(
                                        Identify {
                                            server_id: self.guild_id,
                                            user_id: self.user_id,
                                            session_id: self.session_id.clone(),
                                            token: self.token.clone(),
                                        },
                                    ),
                                ),
                            )
                        },
                        _ => Err(VoiceError::ExpectedHello),
                    },
                    Stage::AwaitReady => match event {
                        VoiceEvent::Ready(ready) => {
                            self.ssrc = ready.ssrc;
                            self.ip = ready.ip;
                            self.port = ready.port;
                            self.stage = Stage::AwaitDiscovery;
                            let packet = discovery_request([0u8; 70], ready.ssrc);
                            assert(packet@ =~= be32(self.ssrc) + Seq::new(66, |i: int| 0u8));
                            Ok(HandshakeOutput::Discover { ip: ready.ip, port: ready.port, packet })
                        },
                        _ => Err(VoiceError::ExpectedReady),
                    },
                    Stage::AwaitSessionDescription => match event {
                        VoiceEvent::SessionDescription(description) => {
                            Ok(
                                HandshakeOutput::Done(
                                    VoiceSession {
                                        guild_id: self.guild_id,
                                        ssrc: self.ssrc,
                                        ip: self.ip,
                                        port: self.port,
                                        secret_key: description.secret_key,
                                        heartbeat_interval: heartbeat_interval(
                                            self.reported_interval,
                                        ),
                                    },
                                ),
                            )
                        },
                        _ => Ok(HandshakeOutput::Wait),
                    },
                    _ => Err(VoiceError::OutOfOrder),
                }
            },
            HandshakeInput::Discovery(buf) => {
                if self.stage != Stage::AwaitDiscovery {
                    return Err(VoiceError::OutOfOrder);
                }
                match parse_discovery_response(buf) {
                    Ok((address, port)) => {
                        let data = UdpProtocolData {
                            address,
                            port,
                            mode: "xsalsa20_poly1305".to_owned(),
                        };
                        let select = SelectProtocol::udp(&data);
                        self.stage = Stage::AwaitSessionDescription;
                        Ok(HandshakeOutput::Send(VoiceCommand::SelectProtocol(select)))
                    },
                    Err(e) => Err(VoiceError::IpDiscovery(e)),
                }
            },
        }
    }
}

/// What happened on the voice websocket of a running session.
pub enum KeepaliveInput {
    /// The audio task is done, or gone.
    Complete,
    /// The heartbeat timer ticked.
    Tick,
    /// A payload came.
    Payload(Payload),
    /// The stream of payloads has ended.
    Ended,
}

/// What the keepalive task does after a turn.
pub enum KeepaliveOutput {
    /// Nothing; wait for what happens next.
    Continue,
    /// Send the command over the voice websocket.
    Send(VoiceCommand),
    /// An event came that this library does nothing with yet; the caller may
    /// note it.
    Unhandled(VoiceEvent),
    /// The task is done.
    Stop,
}

/// One turn of the task that keeps the voice websocket alive. When the
/// audio task is done, the task stops. A tick of the heartbeat timer is
/// answered with a heartbeat with the nonce 0. Of the payloads,
/// acknowledgements, a repeated hello and a repeated ready event are passed
/// over; a session description, a speaking event, a resumed event and a
/// client disconnect are handed back as unhandled. A payload with an opcode
/// under which the server sends no event is passed over; a payload whose
/// data cannot be read is an error. The end of the stream is passed over.
pub fn keepalive_turn(input: KeepaliveInput) -> (r: Result<KeepaliveOutput, VoiceError>)
    ensures
        match input {
            KeepaliveInput::Complete => r == Ok::<KeepaliveOutput, VoiceError>(
                KeepaliveOutput::Stop,
            ),
            KeepaliveInput::Tick => r == Ok::<KeepaliveOutput, VoiceError>(
                KeepaliveOutput::Send(VoiceCommand::Heartbeat(0)),
            ),
            KeepaliveInput::Ended => r == Ok::<KeepaliveOutput, VoiceError>(
                KeepaliveOutput::Continue,
            ),
            KeepaliveInput::Payload(payload) => if !is_voice_event_opcode(payload@.op) {
                r == Ok::<KeepaliveOutput, VoiceError>(KeepaliveOutput::Continue)
            } else {
                match VoiceEvent::refusal(payload@) {
                    Some(fault) => r matches Err(VoiceError::FromPayload(e)) && e.fault()
                        == fault,
                    None => if payload@.op == opcode::HEARTBEAT_ACK || payload@.op
                        == opcode::HELLO || payload@.op == opcode::READY {
                        r == Ok::<KeepaliveOutput, VoiceError>(KeepaliveOutput::Continue)
                    } else {
                        r matches Ok(KeepaliveOutput::Unhandled(event)) && event.read_from(
                            payload@,
                        )
                    },
                }
            },
        },
{
    match input {
        KeepaliveInput::Complete => Ok(KeepaliveOutput::Stop),
        KeepaliveInput::Tick => Ok(KeepaliveOutput::Send(VoiceCommand::Heartbeat(0))),
        KeepaliveInput::Ended => Ok(KeepaliveOutput::Continue),
        KeepaliveInput::Payload(payload) => {
            let event = match VoiceEvent::try_from(payload) {
                Ok(event) => event,
                Err(FromPayloadError::UnknownOpcode(_)) => {
                    return Ok(KeepaliveOutput::Continue);
                },
                Err(other) => {
                    return Err(VoiceError::FromPayload(other));
                },
            };
            match event {
                VoiceEvent::HeartbeatACK => Ok(KeepaliveOutput::Continue),
                VoiceEvent::Hello(_) => Ok(KeepaliveOutput::Continue),
                VoiceEvent::Ready(_) => Ok(KeepaliveOutput::Continue),
                other => Ok(KeepaliveOutput::Unhandled(other)),
            }
        },
    }
}

} // verus!
