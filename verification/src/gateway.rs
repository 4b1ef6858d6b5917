//! The gateway protocol: opcodes, commands, events and close codes.

use vstd::prelude::*;
use crate::decode::FromJson;
use crate::encode::{
    id_json, id_to_json, opt_bool_json, pair_json, pair_to_json, put_bool, put_id, put_opt_bool,
    put_str, put_u64, with_member,
};
use crate::ids::{ChannelId, GuildId, Snowflake};
use crate::json::{
    json_as_array, json_as_bool, json_clone, json_from_array, json_from_map, json_from_u64,
    json_get, json_map_insert, json_map_new, json_null, json_view, json_views, no_members, Json,
};
use crate::model::{Activity, ConnectionProperties, UpdateStatus};
use crate::payload::{refused, Fault, FromPayloadError, Payload, PayloadView};

pub mod event_kind;
pub mod events;
pub mod opcode;

pub use crate::gateway::events::{
    ChannelPinsUpdate, GuildBanAdd, GuildBanRemove, GuildEmojisUpdate, GuildIntegrationsUpdate,
    GuildMemberAdd, GuildMemberRemove, GuildMemberUpdate, GuildMembersChunk, GuildRoleCreate,
    GuildRoleDelete, GuildRoleUpdate, Hello, MessageDelete, MessageDeleteBulk,
    MessageReactionAdd, MessageReactionRemove, MessageReactionRemoveAll, MessageUpdate, Ready,
    ReceivableEvent, Resumed, TypingStart, VoiceServerUpdate, WebhooksUpdate,
};


verus! {

/// Whether `op` is in the gateway's opcode table.
pub open spec fn is_gateway_opcode(op: u64) -> bool {
    op <= 11 && op != 5
}

/// The name of a gateway opcode, `unknown` for a number outside the table.
pub open spec fn opcode_name_spec(op: u64) -> Seq<char> {
    if op == opcode::DISPATCH {
        "DISPATCH"@
    } else if op == opcode::HEARTBEAT {
        "HEARTBEAT"@
    } else if op == opcode::IDENTIFY {
        "IDENTIFY"@
    } else if op == opcode::STATUS_UPDATE {
        "STATUS_UPDATE"@
    } else if op == opcode::VOICE_STATE_UPDATE {
        "VOICE_STATE_UPDATE"@
    } else if op == opcode::RESUME {
        "RESUME"@
    } else if op == opcode::RECONNECT {
        "RECONNECT"@
    } else if op == opcode::REQUEST_GUILD_MEMBERS {
        "REQUEST_GUILD_MEMBERS"@
    } else if op == opcode::INVALID_SESSION {
        "INVALID_SESSION"@
    } else if op == opcode::HELLO {
        "HELLO"@
    } else if op == opcode::HEARTBEAT_ACK {
        "HEARTBEAT_ACK"@
    } else {
        "unknown"@
    }
}

/// The name of a gateway opcode.
pub fn opcode_name(op: u64) -> (name: &'static str)
    ensures
        name@ == opcode_name_spec(op),
{
    if op == opcode::DISPATCH {
        "DISPATCH"
    } else if op == opcode::HEARTBEAT {
        "HEARTBEAT"
    } else if op == opcode::IDENTIFY {
        "IDENTIFY"
    } else if op == opcode::STATUS_UPDATE {
        "STATUS_UPDATE"
    } else if op == opcode::VOICE_STATE_UPDATE {
        "VOICE_STATE_UPDATE"
    } else if op == opcode::RESUME {
        "RESUME"
    } else if op == opcode::RECONNECT {
        "RECONNECT"
    } else if op == opcode::REQUEST_GUILD_MEMBERS {
        "REQUEST_GUILD_MEMBERS"
    } else if op == opcode::INVALID_SESSION {
        "INVALID_SESSION"
    } else if op == opcode::HELLO {
        "HELLO"
    } else if op == opcode::HEARTBEAT_ACK {
        "HEARTBEAT_ACK"
    } else {
        "unknown"
    }
}

/// Whether `op` is in the gateway's opcode table.
pub fn known_opcode(op: u64) -> (known: bool)
    ensures
        known == is_gateway_opcode(op),
{
    op == opcode::DISPATCH || op == opcode::HEARTBEAT || op == opcode::IDENTIFY || op
        == opcode::STATUS_UPDATE || op == opcode::VOICE_STATE_UPDATE || op == opcode::RESUME || op
        == opcode::RECONNECT || op == opcode::REQUEST_GUILD_MEMBERS || op
        == opcode::INVALID_SESSION || op == opcode::HELLO || op == opcode::HEARTBEAT_ACK
}

/// Keeps the connection alive; carries the last sequence number seen.
#[derive(Debug, Clone, Copy, PartialEq, Eq, Structural)]
pub struct Heartbeat {
    pub last_seq: Option<u64>,
}

impl Heartbeat {
    /// The data of a heartbeat: the last sequence number, or `null`.
    pub open spec fn json(self) -> Json {
        match self.last_seq {
            Some(n) => Json::PosInt(n),
            None => Json::Null,
        }
    }

    pub fn to_json(&self) -> (r: serde_json::Value)
        ensures
            json_view(r) == self.json(),
    {
        match self.last_seq {
            Some(n) => json_from_u64(n),
            None => json_null(),
        }
    }
}

/// Starts a session.
#[derive(Debug, Clone)]
pub struct Identify {
    /// Authentication token.
    pub token: String,
    pub properties: ConnectionProperties,
    /// Whether this connection supports compression of packets.
    pub compress: Option<bool>,
    /// Number of members at which the gateway stops sending offline members.
    pub large_threshold: Option<u8>,
    /// Shard number and number of shards.
    pub shard: Option<[u8; 2]>,
    /// Initial presence.
    pub presence: Option<UpdateStatus>,
}

impl Identify {
    /// An identify command with a token, the client's properties and
    /// nothing else.
    pub fn new(token: String, properties: ConnectionProperties) -> (r: Identify)
        ensures
            r == (Identify {
                token,
                properties,
                compress: None,
                large_threshold: None,
                shard: None,
                presence: None,
            }),
    {
        Identify {
            token,
            properties,
            compress: None,
            large_threshold: None,
            shard: None,
            presence: None,
        }
    }

    pub open spec fn json(self) -> Json {
        let m = no_members().insert("token"@, Json::Str(self.token@)).insert(
            "properties"@,
            self.properties.json(),
        );
        let m = with_member(m, "compress"@, opt_bool_json(self.compress));
        let m = with_member(
            m,
            "large_threshold"@,
            match self.large_threshold {
                Some(n) => Some(Json::PosInt(n as u64)),
                None => None,
            },
        );
        let m = with_member(
            m,
            "shard"@,
            match self.shard {
                Some(shard) => Some(pair_json(shard@[0] as u64, shard@[1] as u64)),
                None => None,
            },
        );
        let m = with_member(
            m,
            "presence"@,
            match self.presence {
                Some(p) => Some(p.json()),
                None => None,
            },
        );
        Json::Object(m)
    }

    pub fn to_json(&self) -> (r: serde_json::Value)
        ensures
            json_view(r) == self.json(),
    {
        let mut m = json_map_new();
        put_str(&mut m, "token", self.token.as_str());
        json_map_insert(&mut m, "properties", self.properties.to_json());
        put_opt_bool(&mut m, "compress", self.compress);
        match self.large_threshold {
            Some(n) => {
                put_u64(&mut m, "large_threshold", n as u64);
            },
            None => {},
        }
        match &self.shard {
            Some(shard) => {
                json_map_insert(&mut m, "shard", pair_to_json(shard[0] as u64, shard[1] as u64));
            },
            None => {},
        }
        match &self.presence {
            Some(p) => {
                json_map_insert(&mut m, "presence", p.to_json());
            },
            None => {},
        }
        json_from_map(m)
    }
}

/// Updates the client's presence.
#[derive(Debug, Clone)]
pub struct StatusUpdate {
    /// Unix time in milliseconds of when the client went idle.
    pub since: Option<u64>,
    /// The user's new activity.
    pub game: Option<Activity>,
    /// The user's new status.
    pub status: String,
    /// Whether the client is away from keyboard.
    pub afk: bool,
}

impl StatusUpdate {
    pub open spec fn json(self) -> Json {
        Json::Object(
            no_members().insert(
                "since"@,
                match self.since {
                    Some(n) => Json::PosInt(n),
                    None => Json::Null,
                },
            ).insert(
                "game"@,
                match self.game {
                    Some(g) => g.json(),
                    None => Json::Null,
                },
            ).insert("status"@, Json::Str(self.status@)).insert("afk"@, Json::Bool(self.afk)),
        )
    }

    pub fn to_json(&self) -> (r: serde_json::Value)
        ensures
            json_view(r) == self.json(),
    {
        let mut m = json_map_new();
        json_map_insert(
            &mut m,
            "since",
            match self.since {
                Some(n) => json_from_u64(n),
                None => json_null(),
            },
        );
        json_map_insert(
            &mut m,
            "game",
            match &self.game {
                Some(g) => g.to_json(),
                None => json_null(),
            },
        );
        put_str(&mut m, "status", self.status.as_str());
        put_bool(&mut m, "afk", self.afk);
        json_from_map(m)
    }
}

/// Joins, moves between or leaves voice channels.
#[derive(Debug, Clone, Copy, PartialEq, Eq, Structural)]
pub struct VoiceStateUpdate {
    pub guild_id: GuildId,
    /// The voice channel to join; `None` to disconnect.
    pub channel_id: Option<ChannelId>,
    /// Whether the client is muted.
    pub self_mute: bool,
    /// Whether the client is deafened.
    pub self_deaf: bool,
}

impl VoiceStateUpdate {
    pub open spec fn json(self) -> Json {
        Json::Object(
            no_members().insert("guild_id"@, id_json(self.guild_id.0.0)).insert(
                "channel_id"@,
                match self.channel_id {
                    Some(id) => id_json(id.0.0),
                    None => Json::Null,
                },
            ).insert("self_mute"@, Json::Bool(self.self_mute)).insert(
                "self_deaf"@,
                Json::Bool(self.self_deaf),
            ),
        )
    }

    pub fn to_json(&self) -> (r: serde_json::Value)
        ensures
            json_view(r) == self.json(),
    {
        let mut m = json_map_new();
        put_id(&mut m, "guild_id", self.guild_id.0.0);
        json_map_insert(
            &mut m,
            "channel_id",
            match self.channel_id {
                Some(id) => id_to_json(id.0.0),
                None => json_null(),
            },
        );
        put_bool(&mut m, "self_mute", self.self_mute);
        put_bool(&mut m, "self_deaf", self.self_deaf);
        json_from_map(m)
    }
}

/// Resumes a session.
#[derive(Debug, Clone)]
pub struct Resume {
    /// Session token.
    pub token: String,
    pub session_id: String,
    /// Last sequence number received.
    pub seq: u64,
}

impl Resume {
    pub open spec fn json(self) -> Json {
        Json::Object(
            no_members().insert("token"@, Json::Str(self.token@)).insert(
                "session_id"@,
                Json::Str(self.session_id@),
            ).insert("seq"@, Json::PosInt(self.seq)),
        )
    }

    pub fn to_json(&self) -> (r: serde_json::Value)
        ensures
            json_view(r) == self.json(),
    {
        let mut m = json_map_new();
        put_str(&mut m, "token", self.token.as_str());
        put_str(&mut m, "session_id", self.session_id.as_str());
        put_u64(&mut m, "seq", self.seq);
        json_from_map(m)
    }
}

/// The JSON forms of a list of guild identifiers.
pub open spec fn guild_ids_json(ids: Seq<GuildId>) -> Seq<Json> {
    Seq::new(ids.len(), |i: int| id_json(ids[i].0.0))
}

/// Asks for the members of guilds.
#[derive(Debug, Clone)]
pub struct RequestGuildMembers {
    /// The guilds to get members for.
    pub guild_id: Vec<GuildId>,
    /// What the names of the members start with; empty for all members.
    pub query: String,
    /// Largest number of members to send; zero for all that match.
    pub limit: u64,
}

impl RequestGuildMembers {
    pub open spec fn json(self) -> Json {
        Json::Object(
            no_members().insert("guild_id"@, Json::Array(guild_ids_json(self.guild_id@))).insert(
                "query"@,
                Json::Str(self.query@),
            ).insert("limit"@, Json::PosInt(self.limit)),
        )
    }

    pub fn to_json(&self) -> (r: serde_json::Value)
        ensures
            json_view(r) == self.json(),
    {
        let mut items: Vec<serde_json::Value> = Vec::new();
        let mut i: usize = 0;
        while i < self.guild_id.len()
            invariant
                i <= self.guild_id@.len(),
                items@.len() == i,
                forall|k: int| 0 <= k < i ==> json_view(#[trigger] items@[k]) == id_json(
                    self.guild_id@[k].0.0,
                ),
            decreases self.guild_id@.len() - i,
        {
            items.push(id_to_json(self.guild_id[i].0.0));
            i = i + 1;
        }
        assert(json_views(items@) =~= guild_ids_json(self.guild_id@));
        let mut m = json_map_new();
        json_map_insert(&mut m, "guild_id", json_from_array(items));
        put_str(&mut m, "query", self.query.as_str());
        put_u64(&mut m, "limit", self.limit);
        json_from_map(m)
    }
}

/// What a client sends over the gateway.
#[derive(Debug, Clone)]
pub enum GatewayCommand {
    Heartbeat(Heartbeat),
    Identify(Identify),
    StatusUpdate(StatusUpdate),
    VoiceStateUpdate(VoiceStateUpdate),
    Resume(Resume),
    RequestGuildMembers(RequestGuildMembers),
}

impl GatewayCommand {
    /// The opcode under which the command is sent.
    pub open spec fn opcode(self) -> u64 {
        match self {
            GatewayCommand::Heartbeat(_) => opcode::HEARTBEAT,
            GatewayCommand::Identify(_) => opcode::IDENTIFY,
            GatewayCommand::StatusUpdate(_) => opcode::STATUS_UPDATE,
            GatewayCommand::VoiceStateUpdate(_) => opcode::VOICE_STATE_UPDATE,
            GatewayCommand::Resume(_) => opcode::RESUME,
            GatewayCommand::RequestGuildMembers(_) => opcode::REQUEST_GUILD_MEMBERS,
        }
    }

    /// The data with which the command is sent.
    pub open spec fn json(self) -> Json {
        match self {
            GatewayCommand::Heartbeat(c) => c.json(),
            GatewayCommand::Identify(c) => c.json(),
            GatewayCommand::StatusUpdate(c) => c.json(),
            GatewayCommand::VoiceStateUpdate(c) => c.json(),
            GatewayCommand::Resume(c) => c.json(),
            GatewayCommand::RequestGuildMembers(c) => c.json(),
        }
    }

    /// The envelope in which the command is sent.
    pub open spec fn envelope(self) -> PayloadView {
        PayloadView { op: self.opcode(), d: self.json(), s: None, t: None }
    }
}

/// Whether `op` is an opcode that only the client sends over the gateway.
pub open spec fn is_send_only_opcode(op: u64) -> bool {
    op == opcode::IDENTIFY || op == opcode::STATUS_UPDATE || op == opcode::VOICE_STATE_UPDATE || op
        == opcode::RESUME || op == opcode::REQUEST_GUILD_MEMBERS
}

/// Every command is sent under an opcode of the gateway's table.
pub proof fn lemma_command_opcode_in_table(command: GatewayCommand)
    ensures
        is_gateway_opcode(command.opcode()),
        command.opcode() == opcode::HEARTBEAT || is_send_only_opcode(command.opcode()),
        command.envelope().dispatch_named(),
{
}

impl Payload {
    /// Puts a command into its envelope: the opcode of its kind, its data,
    /// and neither sequence number nor event name.
    pub fn try_from_command(command: GatewayCommand) -> (r: Result<Payload, serde_json::Error>)
        ensures
            r is Ok,
            r->Ok_0@ == command.envelope(),
            is_gateway_opcode(r->Ok_0.op),
    {
        let (op, d) = match &command {
            GatewayCommand::Heartbeat(c) => (opcode::HEARTBEAT, c.to_json()),
            GatewayCommand::Identify(c) => (opcode::IDENTIFY, c.to_json()),
            GatewayCommand::StatusUpdate(c) => (opcode::STATUS_UPDATE, c.to_json()),
            GatewayCommand::VoiceStateUpdate(c) => (opcode::VOICE_STATE_UPDATE, c.to_json()),
            GatewayCommand::Resume(c) => (opcode::RESUME, c.to_json()),
            GatewayCommand::RequestGuildMembers(c) => (opcode::REQUEST_GUILD_MEMBERS, c.to_json()),
        };
        Ok(Payload { op, d, s: None, t: None })
    }
}

/// The session is invalid.
#[derive(Debug, Clone, Copy, PartialEq, Eq, Structural)]
pub struct InvalidSession {
    /// Whether the session can be resumed.
    pub resumable: bool,
}

/// What the gateway sends.
#[derive(Debug)]
pub enum GatewayEvent {
    Hello(Hello),
    ReceivableEvent(ReceivableEvent),
    /// The gateway acknowledged a heartbeat.
    HeartbeatAck,
    /// The gateway asks for a heartbeat at once.
    HeartbeatRequest,
    /// The client should reconnect.
    Reconnect,
    InvalidSession(InvalidSession),
}

impl GatewayEvent {
    /// Why an envelope cannot be read as an event of the gateway, if it
    /// cannot.
    pub open spec fn refusal(p: PayloadView) -> Option<Fault> {
        if p.op == opcode::DISPATCH {
            match p.t {
                None => Some(Fault::MissingEventName),
                Some(name) => if ReceivableEvent::readable(name, p.d) {
                    None
                } else {
                    Some(Fault::Json)
                },
            }
        } else if p.op == opcode::HEARTBEAT || p.op == opcode::RECONNECT || p.op
            == opcode::HEARTBEAT_ACK {
            None
        } else if p.op == opcode::INVALID_SESSION {
            if p.d.as_bool() is Some {
                None
            } else {
                Some(Fault::Json)
            }
        } else if p.op == opcode::HELLO {
            if Hello::readable(p.d) {
                None
            } else {
                Some(Fault::Json)
            }
        } else if is_send_only_opcode(p.op) {
            Some(Fault::UnexpectedOpcode(p.op))
        } else {
            Some(Fault::UnknownOpcode(p.op))
        }
    }

    /// Whether `self` is the event that the envelope `p` carries.
    pub open spec fn read_from(self, p: PayloadView) -> bool {
        if p.op == opcode::DISPATCH {
            p.t is Some && (self matches GatewayEvent::ReceivableEvent(event) && event.read_from(
                p.t.unwrap(),
                p.d,
            ))
        } else if p.op == opcode::HEARTBEAT {
            self is HeartbeatRequest
        } else if p.op == opcode::RECONNECT {
            self is Reconnect
        } else if p.op == opcode::HEARTBEAT_ACK {
            self is HeartbeatAck
        } else if p.op == opcode::INVALID_SESSION {
            self matches GatewayEvent::InvalidSession(invalid) && p.d.as_bool() == Some(
                invalid.resumable,
            )
        } else if p.op == opcode::HELLO {
            self matches GatewayEvent::Hello(hello) && hello.read_from(p.d)
        } else {
            false
        }
    }

    /// Reads the event that an envelope carries, by its opcode: a dispatch
    /// by its event name; an opcode that only clients send is refused as
    /// unexpected, and one outside the table as unknown.
    pub fn try_from(payload: Payload) -> (r: Result<GatewayEvent, FromPayloadError>)
        ensures
            match GatewayEvent::refusal(payload@) {
                Some(fault) => refused(r, fault),
                None => r is Ok && r->Ok_0.read_from(payload@),
            },
    {
        let op = payload.op;
        if op == opcode::DISPATCH {
            match ReceivableEvent::from_payload(payload) {
                Ok(event) => Ok(GatewayEvent::ReceivableEvent(event)),
                Err(e) => Err(e),
            }
        } else if op == opcode::HEARTBEAT {
            Ok(GatewayEvent::HeartbeatRequest)
        } else if op == opcode::RECONNECT {
            Ok(GatewayEvent::Reconnect)
        } else if op == opcode::INVALID_SESSION {
            match json_as_bool(&payload.d) {
                Some(resumable) => Ok(GatewayEvent::InvalidSession(InvalidSession { resumable })),
                None => Err(FromPayloadError::bad_shape("the data is no boolean")),
            }
        } else if op == opcode::HELLO {
            match Hello::from_json(&payload.d) {
                Some(hello) => Ok(GatewayEvent::Hello(hello)),
                None => Err(FromPayloadError::bad_shape("the data is no hello")),
            }
        } else if op == opcode::HEARTBEAT_ACK {
            Ok(GatewayEvent::HeartbeatAck)
        } else if known_opcode(op) {
            Err(FromPayloadError::UnexpectedOpcode(op))
        } else {
            Err(FromPayloadError::UnknownOpcode(op))
        }
    }
}

/// Why the gateway closed the connection.
#[derive(Debug, Clone, Copy, PartialEq, Eq, Structural)]
pub enum CloseCode {
    /// Something went wrong on the gateway's side.
    UnknownError,
    /// The client sent an invalid opcode, or an invalid payload for one.
    UnknownOpcode,
    /// The client sent a payload that could not be decoded.
    DecodeError,
    /// The client sent a payload before it identified.
    NotAuthenticated,
    /// The token in the identify payload is wrong.
    AuthenticationFailed,
    /// The client identified more than once.
    AlreadyAuthenticated,
    /// The sequence number sent when resuming was invalid.
    InvalidSeq,
    /// The client sent payloads too quickly.
    RateLimited,
    /// The session timed out.
    SessionTimeout,
    /// The client sent an invalid shard when it identified.
    InvalidShard,
    /// The session would have handled too many guilds.
    ShardingRequired,
}

/// The reason that a close code of the gateway stands for.
pub open spec fn close_code_of(code: u16) -> Option<CloseCode> {
    if code == 4000 {
        Some(CloseCode::UnknownError)
    } else if code == 4001 {
        Some(CloseCode::UnknownOpcode)
    } else if code == 4002 {
        Some(CloseCode::DecodeError)
    } else if code == 4003 {
        Some(CloseCode::NotAuthenticated)
    } else if code == 4004 {
        Some(CloseCode::AuthenticationFailed)
    } else if code == 4005 {
        Some(CloseCode::AlreadyAuthenticated)
    } else if code == 4007 {
        Some(CloseCode::InvalidSeq)
    } else if code == 4008 {
        Some(CloseCode::RateLimited)
    } else if code == 4009 {
        Some(CloseCode::SessionTimeout)
    } else if code == 4010 {
        Some(CloseCode::InvalidShard)
    } else if code == 4011 {
        Some(CloseCode::ShardingRequired)
    } else {
        None
    }
}

impl CloseCode {
    /// The reason that a close code stands for; an error for a code outside
    /// the table.
    pub fn try_from(close_code: u16) -> (r: Result<CloseCode, ()>)
        ensures
            match close_code_of(close_code) {
                Some(code) => r == Ok::<CloseCode, ()>(code),
                None => r is Err,
            },
    {
        if close_code == 4000 {
            Ok(CloseCode::UnknownError)
        } else if close_code == 4001 {
            Ok(CloseCode::UnknownOpcode)
        } else if close_code == 4002 {
            Ok(CloseCode::DecodeError)
        } else if close_code == 4003 {
            Ok(CloseCode::NotAuthenticated)
        } else if close_code == 4004 {
            Ok(CloseCode::AuthenticationFailed)
        } else if close_code == 4005 {
            Ok(CloseCode::AlreadyAuthenticated)
        } else if close_code == 4007 {
            Ok(CloseCode::InvalidSeq)
        } else if close_code == 4008 {
            Ok(CloseCode::RateLimited)
        } else if close_code == 4009 {
            Ok(CloseCode::SessionTimeout)
        } else if close_code == 4010 {
            Ok(CloseCode::InvalidShard)
        } else if close_code == 4011 {
            Ok(CloseCode::ShardingRequired)
        } else {
            Err(())
        }
    }
}

} // verus!
