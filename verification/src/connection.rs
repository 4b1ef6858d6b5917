//! The gateway connection: the handshake that opens it and the turns that
//! keep it running.
//!
//! The functions here decide; they do not wait, send or receive. Whoever runs
//! the connection hands in what happened (a message came, the heartbeat timer
//! ticked, the stream ended) and carries out what comes back.

use vstd::prelude::*;
use crate::decode::{field_id, field_str, opt_field_id, FromJson};
use crate::error::GatewayError;
use crate::gateway::event_kind::{event_kind, EventKind};
use crate::gateway::opcode;
use crate::gateway::{
    GatewayCommand, GatewayEvent, Heartbeat, Identify, InvalidSession, ReceivableEvent,
};
use crate::json::{json_parse, Json};
use crate::model::{ConnectionProperties, User};
use crate::payload::{envelope_of, Fault, FromPayloadError, Payload, PayloadView};
use crate::ids::{ChannelId, GuildId, Snowflake};
use crate::router::{EventRouter, EventRouterView, VoiceInfo, VoiceLocation, VoiceStates};

verus! {

/// A message that came over a websocket.
#[derive(Debug)]
pub enum Incoming {
    /// A text message.
    Text(String),
    /// A close frame, with its close code if it carried one.
    Close(Option<u16>),
}

/// What reading a text message of the gateway gives.
pub open spec fn gateway_text_read(text: Seq<char>, r: Result<Payload, GatewayError>) -> bool {
    match json_parse(text) {
        None => r matches Err(GatewayError::FromPayload(FromPayloadError::Json(_))),
        Some(j) => match envelope_of(j) {
            Some(p) => if p.dispatch_named() {
                r is Ok && r->Ok_0@ == p
            } else {
                r == Err::<Payload, GatewayError>(
                    GatewayError::FromPayload(FromPayloadError::MissingEventName),
                )
            },
            None => r matches Err(GatewayError::FromPayload(FromPayloadError::Json(_))),
        },
    }
}

/// Reads a message of the gateway: a close frame ends the connection with
/// the reason that its code stands for; a text is read as an envelope.
pub fn read_message(message: Incoming) -> (r: Result<Payload, GatewayError>)
    ensures
        match message {
            Incoming::Close(code) => r == Err::<Payload, GatewayError>(
                GatewayError::ConnectionClosed(
                    match code {
                        Some(code) => crate::gateway::close_code_of(code),
                        None => None,
                    },
                ),
            ),
            Incoming::Text(text) => gateway_text_read(text@, r),
        },
{
    match message {
        Incoming::Close(code) => Err(GatewayError::connection_closed(code)),
        Incoming::Text(text) => match Payload::parse_gateway(text.as_str()) {
            Ok(payload) => Ok(payload),
            Err(e) => Err(GatewayError::FromPayload(e)),
        },
    }
}

/// The sequence number to remember after a payload with the sequence
/// number `s`: the larger of the two; a payload without one changes nothing.
pub open spec fn next_seq(seen: Option<u64>, s: Option<u64>) -> Option<u64> {
    match (seen, s) {
        (_, None) => seen,
        (None, Some(n)) => Some(n),
        (Some(old), Some(n)) => if n >= old {
            Some(n)
        } else {
            Some(old)
        },
    }
}

/// The sequence number to remember after a payload with the sequence
/// number `s`.
pub fn update_seq_num(seen: Option<u64>, s: Option<u64>) -> (r: Option<u64>)
    ensures
        r == next_seq(seen, s),
{
    match (seen, s) {
        (_, None) => seen,
        (None, Some(n)) => Some(n),
        (Some(old), Some(n)) => if n >= old {
            Some(n)
        } else {
            Some(old)
        },
    }
}

/// A gateway connection in the making: connected, and waiting first for the
/// gateway's hello, then for its ready event.
pub struct Handshake {
    /// The bot's token.
    pub token: String,
    /// What the client reports about itself; handed over with the identify
    /// command.
    pub properties: Option<ConnectionProperties>,
    /// The heartbeat interval from the hello, once it has come.
    pub heartbeat_interval: Option<u64>,
    /// The last sequence number seen.
    pub seq_num: Option<u64>,
}

/// A gateway connection that is running.
pub struct Connection {
    /// Identifies the session.
    pub session_id: String,
    /// The user that the client is logged in as.
    pub user: User,
    /// The bot's token.
    pub token: String,
    /// The last sequence number seen; sent with every heartbeat.
    pub seq_num: Option<u64>,
    /// Milliseconds between two heartbeats.
    pub heartbeat_interval: u64,
    /// The voice connection attempts that wait for a voice server update.
    pub voice_update_store: EventRouter,
    /// The last voice state seen of each user.
    pub voice_state: VoiceStates,
}

/// How far a handshake has come after a payload.
pub enum HandshakeStep {
    /// The hello has come: send the command, then hand in the next payload.
    Identify { handshake: Handshake, command: GatewayCommand },
    /// The ready event has come: the connection is running.
    Connected(Connection),
}

impl Handshake {
    /// The start of a handshake, right after the websocket was opened.
    pub fn new(token: String, properties: ConnectionProperties) -> (r: Handshake)
        ensures
            r.token == token,
            r.properties == Some(properties),
            r.heartbeat_interval is None,
            r.seq_num is None,
    {
        Handshake { token, properties: Some(properties), heartbeat_interval: None, seq_num: None }
    }

    /// Whether the handshake waits for the hello.
    pub open spec fn awaits_hello(self) -> bool {
        self.properties is Some
    }

    /// Takes in the next payload of the gateway. The first payload has to be
    /// a hello: it sets the heartbeat interval and is answered with an
    /// identify command that carries the token and the client's properties.
    /// The second has to be the ready event: it brings the session and the
    /// user, and the connection is running. Anything else ends the handshake
    /// with an error. Every payload's sequence number is remembered.
    pub fn on_payload(self, payload: Payload) -> (r: Result<HandshakeStep, GatewayError>)
        ensures
            match GatewayEvent::refusal(payload@) {
                Some(fault) => r matches Err(GatewayError::FromPayload(e)) && e.fault() == fault,
                None => if self.awaits_hello() {
                    if payload@.op == opcode::HELLO {
                        &&& r matches Ok(HandshakeStep::Identify { handshake, command })
                        &&& handshake.token == self.token
                        &&& handshake.properties is None
                        &&& handshake.heartbeat_interval == crate::decode::field_u64(
                            payload@.d,
                            "heartbeat_interval"@,
                        )
                        &&& handshake.seq_num == next_seq(self.seq_num, payload@.s)
                        &&& command matches GatewayCommand::Identify(identify)
                        &&& identify.token == self.token
                        &&& identify.properties == self.properties.unwrap()
                        &&& identify.compress is None
                        &&& identify.large_threshold is None
                        &&& identify.shard is None
                        &&& identify.presence is None
                    } else {
                        r == Err::<HandshakeStep, GatewayError>(GatewayError::ExpectedHello)
                    }
                } else {
                    if payload@.op == opcode::DISPATCH && event_kind(payload@.t.unwrap()) == Some(
                        EventKind::Ready,
                    ) && self.heartbeat_interval is Some {
                        &&& r matches Ok(HandshakeStep::Connected(connection))
                        &&& field_str(payload@.d, "session_id"@) == Some(connection.session_id@)
                        &&& connection.user.read_from(payload@.d.member("user"@).unwrap())
                        &&& connection.token == self.token
                        &&& connection.seq_num == next_seq(self.seq_num, payload@.s)
                        &&& connection.heartbeat_interval == self.heartbeat_interval.unwrap()
                        &&& connection.voice_update_store@.routes == Map::<u64, u64>::empty()
                        &&& connection.voice_update_store@.wf()
                        &&& connection.voice_state@ == Map::<u64, VoiceLocation>::empty()
                    } else {
                        r == Err::<HandshakeStep, GatewayError>(GatewayError::ExpectedReady)
                    }
                },
            },
    {
        let seq_num = update_seq_num(self.seq_num, payload.s);
        let event = match GatewayEvent::try_from(payload) {
            Ok(event) => event,
            Err(e) => {
                return Err(GatewayError::FromPayload(e));
            },
        };
        let Handshake { token, properties, heartbeat_interval, seq_num: _ } = self;
        match properties {
            Some(properties) => match event {
                GatewayEvent::Hello(hello) => {
                    let identify = Identify::new(token.clone(), properties);
                    Ok(
                        HandshakeStep::Identify {
                            handshake: Handshake {
                                token,
                                properties: None,
                                heartbeat_interval: Some(hello.heartbeat_interval),
                                seq_num,
                            },
                            command: GatewayCommand::Identify(identify),
                        },
                    )
                },
                _ => Err(GatewayError::ExpectedHello),
            },
            None => match (event, heartbeat_interval) {
                (
                    GatewayEvent::ReceivableEvent(ReceivableEvent::Ready(ready)),
                    Some(heartbeat_interval),
                ) => {
                    Ok(
                        HandshakeStep::Connected(
                            Connection {
                                session_id: ready.session_id,
                                user: ready.user,
                                token,
                                seq_num,
                                heartbeat_interval,
                                voice_update_store: EventRouter::new(),
                                voice_state: VoiceStates::new(),
                            },
                        ),
                    )
                },
                _ => Err(GatewayError::ExpectedReady),
            },
        }
    }
}

/// What happened on a running connection.
pub enum TurnInput {
    /// The heartbeat timer ticked.
    Tick,
    /// A payload came.
    Payload(Payload),
    /// The stream of payloads has ended.
    Ended,
}

/// The gateway asks for the session to be resumed or started anew. The
/// library has no policy for that: it hands the request on.
#[derive(Debug, Clone, Copy, PartialEq, Eq, Structural)]
pub enum ResumeSignal {
    /// The client should reconnect.
    Reconnect,
    /// The session is invalid.
    InvalidSession(InvalidSession),
}

/// What to do after a turn.
pub enum TurnOutput {
    /// Nothing; wait for what happens next.
    Continue,
    /// Send the command over the gateway.
    Send(GatewayCommand),
    /// Hand the event to the user's handler.
    Dispatch(ReceivableEvent),
    /// Hand the voice info to the waiter with the given receiver number.
    Route { receiver: u64, info: VoiceInfo },
    /// Tell the embedder that the gateway asks for a resume.
    Signal(ResumeSignal),
    /// The connection has ended normally.
    Stop,
}

impl TurnOutput {
    /// Whether `self` is what the payload `p` asks for, on a connection
    /// that has seen the sequence number `seq` and routes voice server
    /// updates by `router`.
    pub open spec fn answers(self, p: PayloadView, seq: Option<u64>, router: EventRouterView) -> bool {
        if p.op == opcode::HEARTBEAT_ACK || p.op == opcode::HELLO {
            self is Continue
        } else if p.op == opcode::HEARTBEAT {
            self == TurnOutput::Send(GatewayCommand::Heartbeat(Heartbeat { last_seq: seq }))
        } else if p.op == opcode::RECONNECT {
            self == TurnOutput::Signal(ResumeSignal::Reconnect)
        } else if p.op == opcode::INVALID_SESSION {
            p.d.as_bool() is Some && self == TurnOutput::Signal(
                ResumeSignal::InvalidSession(InvalidSession { resumable: p.d.as_bool().unwrap() }),
            )
        } else if p.op == opcode::DISPATCH && p.t is Some {
            if event_kind(p.t.unwrap()) == Some(EventKind::VoiceServerUpdate) && router.route(
                field_id(p.d, "guild_id"@).unwrap(),
            ) is Some {
                &&& self matches TurnOutput::Route { receiver, info }
                &&& Some(receiver) == router.route(field_id(p.d, "guild_id"@).unwrap())
                &&& field_str(p.d, "token"@) == Some(info.token@)
                &&& field_str(p.d, "endpoint"@) == Some(info.endpoint@)
            } else {
                self matches TurnOutput::Dispatch(event) && event.read_from(p.t.unwrap(), p.d)
            }
        } else {
            false
        }
    }
}

/// The identifier that an optional number stands for.
pub open spec fn opt_guild(id: Option<u64>) -> Option<GuildId> {
    match id {
        Some(id) => Some(GuildId(Snowflake(id))),
        None => None,
    }
}

/// The identifier that an optional number stands for.
pub open spec fn opt_channel(id: Option<u64>) -> Option<ChannelId> {
    match id {
        Some(id) => Some(ChannelId(Snowflake(id))),
        None => None,
    }
}

/// The voice states that are known after the payload `p`: a voice state
/// update replaces what was known of its user; nothing else changes them.
pub open spec fn voice_states_after(before: Map<u64, VoiceLocation>, p: PayloadView) -> Map<
    u64,
    VoiceLocation,
> {
    if p.op == opcode::DISPATCH && p.t is Some && event_kind(p.t.unwrap()) == Some(
        EventKind::VoiceStateUpdate,
    ) && GatewayEvent::refusal(p) is None {
        before.insert(
            field_id(p.d, "user_id"@).unwrap(),
            VoiceLocation {
                guild_id: opt_guild(opt_field_id(p.d, "guild_id"@).unwrap()),
                channel_id: opt_channel(opt_field_id(p.d, "channel_id"@).unwrap()),
            },
        )
    } else {
        before
    }
}

impl Connection {
    /// The heartbeat to send now: it carries the last sequence number seen.
    pub fn heartbeat(&self) -> (r: GatewayCommand)
        ensures
            r == GatewayCommand::Heartbeat(Heartbeat { last_seq: self.seq_num }),
    {
        GatewayCommand::Heartbeat(Heartbeat { last_seq: self.seq_num })
    }

    /// Decides what to do with a dispatched event: a voice server update for
    /// a guild with a registered waiter goes to that waiter, every other
    /// event to the user's handler.
    pub fn handle_dispatch(&self, event: ReceivableEvent) -> (r: TurnOutput)
        ensures
            match event {
                ReceivableEvent::VoiceServerUpdate(update) => match self.voice_update_store@.route(
                    update.guild_id.0.0,
                ) {
                    Some(receiver) => r == (TurnOutput::Route {
                        receiver,
                        info: VoiceInfo { token: update.token, endpoint: update.endpoint },
                    }),
                    None => r == TurnOutput::Dispatch(event),
                },
                _ => r == TurnOutput::Dispatch(event),
            },
    {
        match event {
            ReceivableEvent::VoiceServerUpdate(update) => {
                match self.voice_update_store.send_event(&update.guild_id) {
                    Some(receiver) => TurnOutput::Route {
                        receiver,
                        info: VoiceInfo { token: update.token, endpoint: update.endpoint },
                    },
                    None => TurnOutput::Dispatch(ReceivableEvent::VoiceServerUpdate(update)),
                }
            },
            other => TurnOutput::Dispatch(other),
        }
    }

    /// One turn of a running connection. A tick of the heartbeat timer is
    /// answered with a heartbeat that carries the last sequence number seen.
    /// A payload first updates that number; then a heartbeat request is
    /// answered with a heartbeat, acknowledgements and a repeated hello are
    /// passed over, a request to reconnect or an invalid session is handed on
    /// as a signal, and a dispatched event goes to the waiter of its guild if
    /// it is a voice server update with a waiter, else to the user's handler.
    /// A payload with an opcode outside the table is passed over; any other
    /// payload that cannot be read is an error. The end of the stream ends
    /// the connection. A voice state update is also noted in the voice
    /// states of the connection.
    pub fn turn(&mut self, input: TurnInput) -> (r: Result<TurnOutput, GatewayError>)
        ensures
            final(self).voice_state@ == match input {
                TurnInput::Payload(payload) => voice_states_after(old(self).voice_state@, payload@),
                _ => old(self).voice_state@,
            },
            final(self).session_id == old(self).session_id,
            final(self).user == old(self).user,
            final(self).token == old(self).token,
            final(self).heartbeat_interval == old(self).heartbeat_interval,
            final(self).voice_update_store == old(self).voice_update_store,
            match input {
                TurnInput::Tick => final(self).seq_num == old(self).seq_num && r == Ok::<
                    TurnOutput,
                    GatewayError,
                >(
                    TurnOutput::Send(
                        GatewayCommand::Heartbeat(Heartbeat { last_seq: old(self).seq_num }),
                    ),
                ),
                TurnInput::Ended => final(self).seq_num == old(self).seq_num && r == Ok::<
                    TurnOutput,
                    GatewayError,
                >(TurnOutput::Stop),
                TurnInput::Payload(payload) => {
                    &&& final(self).seq_num == next_seq(old(self).seq_num, payload@.s)
                    &&& match GatewayEvent::refusal(payload@) {
                        Some(Fault::UnknownOpcode(_)) => r == Ok::<TurnOutput, GatewayError>(
                            TurnOutput::Continue,
                        ),
                        Some(fault) => r matches Err(GatewayError::FromPayload(e)) && e.fault()
                            == fault,
                        None => r is Ok && r->Ok_0.answers(
                            payload@,
                            final(self).seq_num,
                            old(self).voice_update_store@,
                        ),
                    }
                },
            },
    {
        match input {
            TurnInput::Tick => Ok(TurnOutput::Send(self.heartbeat())),
            TurnInput::Ended => Ok(TurnOutput::Stop),
            TurnInput::Payload(payload) => {
                self.seq_num = update_seq_num(self.seq_num, payload.s);
                let event = match GatewayEvent::try_from(payload) {
                    Ok(event) => event,
                    Err(FromPayloadError::UnknownOpcode(_)) => {
                        return Ok(TurnOutput::Continue);
                    },
                    Err(other) => {
                        return Err(GatewayError::FromPayload(other));
                    },
                };
                match event {
                    GatewayEvent::HeartbeatAck => Ok(TurnOutput::Continue),
                    GatewayEvent::HeartbeatRequest => Ok(TurnOutput::Send(self.heartbeat())),
                    GatewayEvent::Hello(_) => Ok(TurnOutput::Continue),
                    GatewayEvent::ReceivableEvent(event) => {
                        match &event {
                            ReceivableEvent::VoiceStateUpdate(state) => {
                                self.voice_state.observe(
                                    state.user_id,
                                    VoiceLocation {
                                        guild_id: state.guild_id,
                                        channel_id: state.channel_id,
                                    },
                                );
                            },
                            _ => {},
                        }
                        Ok(self.handle_dispatch(event))
                    },
                    GatewayEvent::Reconnect => Ok(TurnOutput::Signal(ResumeSignal::Reconnect)),
                    GatewayEvent::InvalidSession(invalid) => Ok(
                        TurnOutput::Signal(ResumeSignal::InvalidSession(invalid)),
                    ),
                }
            },
        }
    }
}

} // verus!
