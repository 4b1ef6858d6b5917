//! The voice protocol: opcodes, commands, events, close codes and the media
//! packets.

use vstd::prelude::*;
use crate::decode::{
    field_read, field_readable, get_object, get_objects, list_field_read, list_field_readable,
    FromJson,
};
use crate::encode::{id_json, put_bool, put_id, put_str, put_u64};
use crate::ids::{GuildId, Snowflake, UserId};
use crate::json::{
    json_as_array, json_as_u64, json_clone, json_from_map, json_from_u64, json_is_object,
    json_map_insert, json_map_new, json_view, json_views, no_members, Json,
};
use crate::net::{ip_text, IpAddress};
use crate::payload::{refused, Fault, FromPayloadError, Payload, PayloadView};

pub mod audio;
pub mod connection;
pub mod opcode;
pub mod source;
pub mod udp;

verus! {

/// Whether `op` is in the voice protocol's opcode table.
pub open spec fn is_voice_opcode(op: u64) -> bool {
    op <= 9 || op == 13
}

/// Begins a voice websocket connection.
#[derive(Debug, Clone)]
pub struct Identify {
    pub server_id: GuildId,
    pub user_id: UserId,
    pub session_id: String,
    pub token: String,
}

impl Identify {
    pub open spec fn json(self) -> Json {
        Json::Object(
            no_members().insert("server_id"@, id_json(self.server_id.0.0)).insert(
                "user_id"@,
                id_json(self.user_id.0.0),
            ).insert("session_id"@, Json::Str(self.session_id@)).insert(
                "token"@,
                Json::Str(self.token@),
            ),
        )
    }

    pub fn to_json(&self) -> (r: serde_json::Value)
        ensures
            json_view(r) == self.json(),
    {
        let mut m = json_map_new();
        put_id(&mut m, "server_id", self.server_id.0.0);
        put_id(&mut m, "user_id", self.user_id.0.0);
        put_str(&mut m, "session_id", self.session_id.as_str());
        put_str(&mut m, "token", self.token.as_str());
        json_from_map(m)
    }
}

/// The data of [`SelectProtocol`] for the protocol `udp`: our address and
/// port as the voice server sees them, and the encryption mode.
#[derive(Debug, Clone)]
pub struct UdpProtocolData {
    pub address: IpAddress,
    pub port: u16,
    pub mode: String,
}

impl UdpProtocolData {
    pub open spec fn json(self) -> Json {
        Json::Object(
            no_members().insert("address"@, Json::Str(ip_text(self.address))).insert(
                "port"@,
                Json::PosInt(self.port as u64),
            ).insert("mode"@, Json::Str(self.mode@)),
        )
    }

    pub fn to_json(&self) -> (r: serde_json::Value)
        ensures
            json_view(r) == self.json(),
    {
        let mut m = json_map_new();
        let address = self.address.to_text();
        put_str(&mut m, "address", address.as_str());
        put_u64(&mut m, "port", self.port as u64);
        put_str(&mut m, "mode", self.mode.as_str());
        json_from_map(m)
    }
}

/// Selects the voice protocol.
#[derive(Debug)]
pub struct SelectProtocol {
    pub protocol: String,
    /// What the protocol needs to know; see [`UdpProtocolData`].
    pub data: serde_json::Value,
}

impl SelectProtocol {
    /// The command that selects `udp` with the given data.
    pub fn udp(data: &UdpProtocolData) -> (r: SelectProtocol)
        ensures
            r.protocol@ == "udp"@,
            json_view(r.data) == data.json(),
    {
        SelectProtocol { protocol: "udp".to_owned(), data: data.to_json() }
    }

    pub open spec fn json(self) -> Json {
        Json::Object(
            no_members().insert("protocol"@, Json::Str(self.protocol@)).insert(
                "data"@,
                json_view(self.data),
            ),
        )
    }

    pub fn to_json(&self) -> (r: serde_json::Value)
        ensures
            json_view(r) == self.json(),
    {
        let mut m = json_map_new();
        put_str(&mut m, "protocol", self.protocol.as_str());
        json_map_insert(&mut m, "data", json_clone(&self.data));
        json_from_map(m)
    }
}

/// Says whether our user is speaking.
#[derive(Debug, Clone, Copy, PartialEq, Eq, Structural)]
pub struct SetSpeaking {
    pub speaking: bool,
    pub delay: u64,
    pub ssrc: u32,
}

impl SetSpeaking {
    pub open spec fn json(self) -> Json {
        Json::Object(
            no_members().insert("speaking"@, Json::Bool(self.speaking)).insert(
                "delay"@,
                Json::PosInt(self.delay),
            ).insert("ssrc"@, Json::PosInt(self.ssrc as u64)),
        )
    }

    pub fn to_json(&self) -> (r: serde_json::Value)
        ensures
            json_view(r) == self.json(),
    {
        let mut m = json_map_new();
        put_bool(&mut m, "speaking", self.speaking);
        put_u64(&mut m, "delay", self.delay);
        put_u64(&mut m, "ssrc", self.ssrc as u64);
        json_from_map(m)
    }
}

/// Resumes a voice connection.
#[derive(Debug, Clone)]
pub struct Resume {
    pub server_id: GuildId,
    pub session_id: String,
    pub token: String,
}

impl Resume {
    pub open spec fn json(self) -> Json {
        Json::Object(
            no_members().insert("server_id"@, id_json(self.server_id.0.0)).insert(
                "session_id"@,
                Json::Str(self.session_id@),
            ).insert("token"@, Json::Str(self.token@)),
        )
    }

    pub fn to_json(&self) -> (r: serde_json::Value)
        ensures
            json_view(r) == self.json(),
    {
        let mut m = json_map_new();
        put_id(&mut m, "server_id", self.server_id.0.0);
        put_str(&mut m, "session_id", self.session_id.as_str());
        put_str(&mut m, "token", self.token.as_str());
        json_from_map(m)
    }
}

/// What a client sends over the voice websocket.
#[derive(Debug)]
pub enum VoiceCommand {
    /// Begins a voice websocket connection.
    Identify(Identify),
    /// Selects the voice protocol.
    SelectProtocol(SelectProtocol),
    /// Keeps the websocket connection alive; carries a nonce.
    Heartbeat(u64),
    /// Says whether our user is speaking.
    SetSpeaking(SetSpeaking),
    /// Resumes a connection.
    Resume(Resume),
}

impl VoiceCommand {
    /// The opcode under which the command is sent.
    pub open spec fn opcode(self) -> u64 {
        match self {
            VoiceCommand::Identify(_) => opcode::IDENTIFY,
            VoiceCommand::SelectProtocol(_) => opcode::SELECT_PROTOCOL,
            VoiceCommand::Heartbeat(_) => opcode::HEARTBEAT,
            VoiceCommand::SetSpeaking(_) => opcode::SPEAKING,
            VoiceCommand::Resume(_) => opcode::RESUME,
        }
    }

    /// The data with which the command is sent.
    pub open spec fn json(self) -> Json {
        match self {
            VoiceCommand::Identify(c) => c.json(),
            VoiceCommand::SelectProtocol(c) => c.json(),
            VoiceCommand::Heartbeat(nonce) => Json::PosInt(nonce),
            VoiceCommand::SetSpeaking(c) => c.json(),
            VoiceCommand::Resume(c) => c.json(),
        }
    }

    /// The envelope in which the command is sent.
    pub open spec fn envelope(self) -> PayloadView {
        PayloadView { op: self.opcode(), d: self.json(), s: None, t: None }
    }
}

/// Every voice command is sent under an opcode of the voice protocol's
/// table.
pub proof fn lemma_voice_command_opcode_in_table(command: VoiceCommand)
    ensures
        is_voice_opcode(command.opcode()),
{
}

impl Payload {
    /// Puts a voice command into its envelope: the opcode of its kind, its
    /// data, and neither sequence number nor event name.
    pub fn try_from_voice_command(command: VoiceCommand) -> (r: Result<Payload, serde_json::Error>)
        ensures
            r is Ok,
            r->Ok_0@ == command.envelope(),
            is_voice_opcode(r->Ok_0.op),
    {
        let (op, d) = match &command {
            VoiceCommand::Identify(c) => (opcode::IDENTIFY, c.to_json()),
            VoiceCommand::SelectProtocol(c) => (opcode::SELECT_PROTOCOL, c.to_json()),
            VoiceCommand::Heartbeat(nonce) => (opcode::HEARTBEAT, json_from_u64(*nonce)),
            VoiceCommand::SetSpeaking(c) => (opcode::SPEAKING, c.to_json()),
            VoiceCommand::Resume(c) => (opcode::RESUME, c.to_json()),
        };
        Ok(Payload { op, d, s: None, t: None })
    }
}

/// Completes the websocket handshake: where to send audio.
#[derive(Debug, Clone)]
pub struct Ready {
    /// Synchronization source identifier of our audio.
    pub ssrc: u32,
    pub ip: IpAddress,
    pub port: u16,
    /// The encryption modes that the server offers.
    pub modes: Vec<String>,
}

impl FromJson for Ready {
    open spec fn readable(j: Json) -> bool {
        &&& j is Object
        &&& field_readable::<u32>(j, "ssrc"@)
        &&& field_readable::<IpAddress>(j, "ip"@)
        &&& field_readable::<u16>(j, "port"@)
        &&& list_field_readable::<String>(j, "modes"@)
    }

    open spec fn read_from(&self, j: Json) -> bool {
        &&& j is Object
        &&& field_read(self.ssrc, j, "ssrc"@)
        &&& field_read(self.ip, j, "ip"@)
        &&& field_read(self.port, j, "port"@)
        &&& list_field_read(self.modes@, j, "modes"@)
    }

    fn from_json(json: &serde_json::Value) -> (r: Option<Ready>) {
        if !json_is_object(json) {
            return None;
        }
        let ssrc = get_object::<u32>(json, "ssrc")?;
        let ip = get_object::<IpAddress>(json, "ip")?;
        let port = get_object::<u16>(json, "port")?;
        let modes = get_objects::<String>(json, "modes")?;
        Some(Ready { ssrc, ip, port, modes })
    }
}

/// A secret key: it travels as an array of 32 bytes.
impl FromJson for [u8; 32] {
    open spec fn readable(j: Json) -> bool {
        &&& j.as_array() is Some
        &&& j.as_array().unwrap().len() == 32
        &&& forall|i: int|
            0 <= i < 32 ==> (#[trigger] j.as_array().unwrap()[i]).as_u64() is Some
                && j.as_array().unwrap()[i].as_u64().unwrap() <= 255
    }

    open spec fn read_from(&self, j: Json) -> bool {
        &&& j.as_array() is Some
        &&& j.as_array().unwrap().len() == 32
        &&& forall|i: int|
            0 <= i < 32 ==> (#[trigger] j.as_array().unwrap()[i]).as_u64() == Some(self@[i] as u64)
    }

    fn from_json(json: &serde_json::Value) -> (r: Option<[u8; 32]>) {
        let items = json_as_array(json)?;
        if items.len() != 32 {
            return None;
        }
        let ghost trees = json_views(items@);
        let mut key = [0u8; 32];
        let mut i: usize = 0;
        while i < 32
            invariant
                i <= 32,
                items@.len() == 32,
                trees == json_views(items@),
                json_view(*json).as_array() == Some(trees),
                forall|k: int| 0 <= k < i ==> (#[trigger] trees[k]).as_u64() == Some(key@[k] as u64),
            decreases 32 - i,
        {
            match json_as_u64(&items[i]) {
                Some(n) => {
                    if n > 255 {
                        assert(trees[i as int].as_u64().unwrap() > 255);
                        return None;
                    }
                    key[i] = n as u8;
                },
                None => {
                    assert(trees[i as int].as_u64() is None);
                    return None;
                },
            }
            i = i + 1;
        }
        Some(key)
    }
}

/// Describes the session: how to encrypt audio.
#[derive(Debug, Clone)]
pub struct SessionDescription {
    pub mode: String,
    /// The key that seals every packet.
    pub secret_key: [u8; 32],
}

impl FromJson for SessionDescription {
    open spec fn readable(j: Json) -> bool {
        &&& j is Object
        &&& field_readable::<String>(j, "mode"@)
        &&& field_readable::<[u8; 32]>(j, "secret_key"@)
    }

    open spec fn read_from(&self, j: Json) -> bool {
        &&& j is Object
        &&& field_read(self.mode, j, "mode"@)
        &&& field_read(self.secret_key, j, "secret_key"@)
    }

    fn from_json(json: &serde_json::Value) -> (r: Option<SessionDescription>) {
        if !json_is_object(json) {
            return None;
        }
        let mode = get_object::<String>(json, "mode")?;
        let secret_key = get_object::<[u8; 32]>(json, "secret_key")?;
        Some(SessionDescription { mode, secret_key })
    }
}

/// Says which user is speaking.
#[derive(Debug, Clone, Copy, PartialEq, Eq, Structural)]
pub struct Speaking {
    pub speaking: bool,
    pub user_id: UserId,
    pub ssrc: u32,
}

impl FromJson for Speaking {
    open spec fn readable(j: Json) -> bool {
        &&& j is Object
        &&& field_readable::<bool>(j, "speaking"@)
        &&& field_readable::<UserId>(j, "user_id"@)
        &&& field_readable::<u32>(j, "ssrc"@)
    }

    open spec fn read_from(&self, j: Json) -> bool {
        &&& j is Object
        &&& field_read(self.speaking, j, "speaking"@)
        &&& field_read(self.user_id, j, "user_id"@)
        &&& field_read(self.ssrc, j, "ssrc"@)
    }

    fn from_json(json: &serde_json::Value) -> (r: Option<Speaking>) {
        if !json_is_object(json) {
            return None;
        }
        let speaking = get_object::<bool>(json, "speaking")?;
        let user_id = get_object::<UserId>(json, "user_id")?;
        let ssrc = get_object::<u32>(json, "ssrc")?;
        Some(Speaking { speaking, user_id, ssrc })
    }
}

/// The first message of the voice server: at what interval to send
/// heartbeats.
#[derive(Debug, Clone, Copy, PartialEq, Eq, Structural)]
pub struct Hello {
    /// Milliseconds between two heartbeats, as the server reports them. The
    /// client sends heartbeats at three quarters of this interval.
    pub heartbeat_interval: u64,
}

impl FromJson for Hello {
    open spec fn readable(j: Json) -> bool {
        &&& j is Object
        &&& field_readable::<u64>(j, "heartbeat_interval"@)
    }

    open spec fn read_from(&self, j: Json) -> bool {
        &&& j is Object
        &&& field_read(self.heartbeat_interval, j, "heartbeat_interval"@)
    }

    fn from_json(json: &serde_json::Value) -> (r: Option<Hello>) {
        if !json_is_object(json) {
            return None;
        }
        let heartbeat_interval = get_object::<u64>(json, "heartbeat_interval")?;
        Some(Hello { heartbeat_interval })
    }
}

/// What the voice server sends.
#[derive(Debug, Clone)]
pub enum VoiceEvent {
    /// Completes the websocket handshake.
    Ready(Ready),
    /// Describes the session.
    SessionDescription(SessionDescription),
    /// Says which user is speaking.
    Speaking(Speaking),
    /// The server acknowledged a heartbeat.
    HeartbeatACK,
    /// Carries the heartbeat interval.
    Hello(Hello),
    /// The server acknowledged a resume.
    Resumed,
    /// A client has left the voice channel.
    ClientDisconnect,
}

/// Whether `op` is an opcode under which the voice server sends an event.
pub open spec fn is_voice_event_opcode(op: u64) -> bool {
    op == opcode::READY || op == opcode::SESSION_DESCRIPTION || op == opcode::SPEAKING || op
        == opcode::HEARTBEAT_ACK || op == opcode::HELLO || op == opcode::RESUMED || op
        == opcode::CLIENT_DISCONNECT
}

impl VoiceEvent {
    /// Why an envelope cannot be read as an event of the voice server, if
    /// it cannot.
    pub open spec fn refusal(p: PayloadView) -> Option<Fault> {
        if p.op == opcode::READY {
            if Ready::readable(p.d) {
                None
            } else {
                Some(Fault::Json)
            }
        } else if p.op == opcode::SESSION_DESCRIPTION {
            if SessionDescription::readable(p.d) {
                None
            } else {
                Some(Fault::Json)
            }
        } else if p.op == opcode::SPEAKING {
            if Speaking::readable(p.d) {
                None
            } else {
                Some(Fault::Json)
            }
        } else if p.op == opcode::HELLO {
            if Hello::readable(p.d) {
                None
            } else {
                Some(Fault::Json)
            }
        } else if p.op == opcode::HEARTBEAT_ACK || p.op == opcode::RESUMED || p.op
            == opcode::CLIENT_DISCONNECT {
            None
        } else {
            Some(Fault::UnknownOpcode(p.op))
        }
    }

    /// Whether `self` is the event that the envelope `p` carries.
    pub open spec fn read_from(self, p: PayloadView) -> bool {
        if p.op == opcode::READY {
            self matches VoiceEvent::Ready(ready) && ready.read_from(p.d)
        } else if p.op == opcode::SESSION_DESCRIPTION {
            self matches VoiceEvent::SessionDescription(description) && description.read_from(p.d)
        } else if p.op == opcode::SPEAKING {
            self matches VoiceEvent::Speaking(speaking) && speaking.read_from(p.d)
        } else if p.op == opcode::HELLO {
            self matches VoiceEvent::Hello(hello) && hello.read_from(p.d)
        } else if p.op == opcode::HEARTBEAT_ACK {
            self is HeartbeatACK
        } else if p.op == opcode::RESUMED {
            self is Resumed
        } else if p.op == opcode::CLIENT_DISCONNECT {
            self is ClientDisconnect
        } else {
            false
        }
    }

    /// Reads the event that an envelope carries, by its opcode in the voice
    /// protocol's table. Every opcode under which the server sends no event
    /// is refused as unknown, those that only clients send among them.
    pub fn try_from(payload: Payload) -> (r: Result<VoiceEvent, FromPayloadError>)
        ensures
            match VoiceEvent::refusal(payload@) {
                Some(fault) => refused(r, fault),
                None => r is Ok && r->Ok_0.read_from(payload@),
            },
            r == Err::<VoiceEvent, FromPayloadError>(FromPayloadError::UnknownOpcode(payload@.op))
                <==> !is_voice_event_opcode(payload@.op),
    {
        let op = payload.op;
        if op == opcode::READY {
            match Ready::from_json(&payload.d) {
                Some(ready) => Ok(VoiceEvent::Ready(ready)),
                None => Err(FromPayloadError::bad_shape("the data is no ready event")),
            }
        } else if op == opcode::SESSION_DESCRIPTION {
            match SessionDescription::from_json(&payload.d) {
                Some(description) => Ok(VoiceEvent::SessionDescription(description)),
                None => Err(FromPayloadError::bad_shape("the data is no session description")),
            }
        } else if op == opcode::SPEAKING {
            match Speaking::from_json(&payload.d) {
                Some(speaking) => Ok(VoiceEvent::Speaking(speaking)),
                None => Err(FromPayloadError::bad_shape("the data is no speaking event")),
            }
        } else if op == opcode::HEARTBEAT_ACK {
            Ok(VoiceEvent::HeartbeatACK)
        } else if op == opcode::HELLO {
            match Hello::from_json(&payload.d) {
                Some(hello) => Ok(VoiceEvent::Hello(hello)),
                None => Err(FromPayloadError::bad_shape("the data is no hello")),
            }
        } else if op == opcode::RESUMED {
            Ok(VoiceEvent::Resumed)
        } else if op == opcode::CLIENT_DISCONNECT {
            Ok(VoiceEvent::ClientDisconnect)
        } else {
            Err(FromPayloadError::UnknownOpcode(op))
        }
    }
}

/// Why the voice server closed the connection.
#[derive(Debug, Clone, Copy, PartialEq, Eq, Structural)]
pub enum CloseCode {
    /// The client sent an invalid opcode.
    UnknownOpcode,
    /// The client sent a payload before it identified.
    NotAuthenticated,
    /// The token in the identify payload is wrong.
    AuthenticationFailed,
    /// The client identified more than once.
    AlreadyAuthenticated,
    /// The session is no longer valid.
    SessionNoLongerValid,
    /// The session timed out.
    SessionTimeout,
    /// The server that the client tried to connect to was not found.
    ServerNotFound,
    /// The server did not recognise the protocol.
    UnknownProtocol,
    /// The client was disconnected; it may try to resume.
    Disconnected,
    /// The voice server crashed; the client may try to resume.
    VoiceServerCrashed,
    /// The server did not recognise the encryption mode.
    UnknownEncryptionMode,
}

/// The reason that a close code of the voice server stands for.
pub open spec fn close_code_of(code: u16) -> Option<CloseCode> {
    if code == 4001 {
        Some(CloseCode::UnknownOpcode)
    } else if code == 4003 {
        Some(CloseCode::NotAuthenticated)
    } else if code == 4004 {
        Some(CloseCode::AuthenticationFailed)
    } else if code == 4005 {
        Some(CloseCode::AlreadyAuthenticated)
    } else if code == 4006 {
        Some(CloseCode::SessionNoLongerValid)
    } else if code == 4009 {
        Some(CloseCode::SessionTimeout)
    } else if code == 4011 {
        Some(CloseCode::ServerNotFound)
    } else if code == 4012 {
        Some(CloseCode::UnknownProtocol)
    } else if code == 4014 {
        Some(CloseCode::Disconnected)
    } else if code == 4015 {
        Some(CloseCode::VoiceServerCrashed)
    } else if code == 4016 {
        Some(CloseCode::UnknownEncryptionMode)
    } else {
        None
    }
}

impl CloseCode {
    /// The reason that a close code stands for; an error for a code outside
    /// the table.
    pub fn try_from(close_code: u16) -> (r: Result<CloseCode, ()>)
        ensures
            match close_code_of(close_code) {
                Some(code) => r == Ok::<CloseCode, ()>(code),
                None => r is Err,
            },
    {
        if close_code == 4001 {
            Ok(CloseCode::UnknownOpcode)
        } else if close_code == 4003 {
            Ok(CloseCode::NotAuthenticated)
        } else if close_code == 4004 {
            Ok(CloseCode::AuthenticationFailed)
        } else if close_code == 4005 {
            Ok(CloseCode::AlreadyAuthenticated)
        } else if close_code == 4006 {
            Ok(CloseCode::SessionNoLongerValid)
        } else if close_code == 4009 {
            Ok(CloseCode::SessionTimeout)
        } else if close_code == 4011 {
            Ok(CloseCode::ServerNotFound)
        } else if close_code == 4012 {
            Ok(CloseCode::UnknownProtocol)
        } else if close_code == 4014 {
            Ok(CloseCode::Disconnected)
        } else if close_code == 4015 {
            Ok(CloseCode::VoiceServerCrashed)
        } else if close_code == 4016 {
            Ok(CloseCode::UnknownEncryptionMode)
        } else {
            Err(())
        }
    }
}

} // verus!
