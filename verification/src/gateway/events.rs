//! The events that the gateway dispatches: what each carries, and how it is
//! read from the data of its envelope.

use vstd::prelude::*;
use crate::decode::{
    default_list_field_read, field_read, field_readable, get_object, get_objects,
    get_objects_or_empty, get_opt_object, list_field_read, list_field_readable, opt_field_read,
    opt_field_readable, opt_list_field_readable, FromJson,
};
use crate::gateway::event_kind::{event_kind, EventKind};
use crate::ids::{ChannelId, GuildId, MessageId, RoleId, UserId};
use crate::json::{json_is_object, json_view, Json};
use crate::model::objects::{
    Channel, Emoji, Guild, GuildMember, Message, PresenceUpdate, Role, UnavailableGuild, User,
    VoiceState,
};
use crate::payload::{FromPayloadError, Payload};

verus! {

/// The first message of the gateway: at what interval to send heartbeats.
#[derive(Debug, Clone)]
pub struct Hello {
    /// Milliseconds between two heartbeats.
    pub heartbeat_interval: u64,
    /// Servers that the connection went through; for debugging.
    pub _trace: Vec<String>,
}

impl FromJson for Hello {
    open spec fn readable(j: Json) -> bool {
        &&& j is Object
        &&& field_readable::<u64>(j, "heartbeat_interval"@)
        &&& opt_list_field_readable::<String>(j, "_trace"@)
    }

    open spec fn read_from(&self, j: Json) -> bool {
        &&& j is Object
        &&& field_read(self.heartbeat_interval, j, "heartbeat_interval"@)
        &&& default_list_field_read(self._trace@, j, "_trace"@)
    }

    fn from_json(json: &serde_json::Value) -> (r: Option<Hello>) {
        if !json_is_object(json) {
            return None;
        }
        let heartbeat_interval = get_object::<u64>(json, "heartbeat_interval")?;
        let _trace = get_objects_or_empty::<String>(json, "_trace")?;
        Some(Hello { heartbeat_interval, _trace })
    }
}

/// The session has started.
#[derive(Debug, Clone)]
pub struct Ready {
    /// Version of the gateway protocol.
    pub v: u64,
    /// The user that the client is logged in as.
    pub user: User,
    /// The direct-message channels that the user is in.
    pub private_channels: Vec<Channel>,
    /// The guilds that the user is in.
    pub guilds: Vec<UnavailableGuild>,
    /// Identifies the session; needed to resume it.
    pub session_id: String,
    /// Servers that the connection went through; for debugging.
    pub _trace: Vec<String>,
}

impl FromJson for Ready {
    open spec fn readable(j: Json) -> bool {
        &&& j is Object
        &&& field_readable::<u64>(j, "v"@)
        &&& field_readable::<User>(j, "user"@)
        &&& list_field_readable::<Channel>(j, "private_channels"@)
        &&& list_field_readable::<UnavailableGuild>(j, "guilds"@)
        &&& field_readable::<String>(j, "session_id"@)
        &&& opt_list_field_readable::<String>(j, "_trace"@)
    }

    open spec fn read_from(&self, j: Json) -> bool {
        &&& j is Object
        &&& field_read(self.v, j, "v"@)
        &&& field_read(self.user, j, "user"@)
        &&& list_field_read(self.private_channels@, j, "private_channels"@)
        &&& list_field_read(self.guilds@, j, "guilds"@)
        &&& field_read(self.session_id, j, "session_id"@)
        &&& default_list_field_read(self._trace@, j, "_trace"@)
    }

    fn from_json(json: &serde_json::Value) -> (r: Option<Ready>) {
        if !json_is_object(json) {
            return None;
        }
        let v = get_object::<u64>(json, "v")?;
        let user = get_object::<User>(json, "user")?;
        let private_channels = get_objects::<Channel>(json, "private_channels")?;
        let guilds = get_objects::<UnavailableGuild>(json, "guilds")?;
        let session_id = get_object::<String>(json, "session_id")?;
        let _trace = get_objects_or_empty::<String>(json, "_trace")?;
        Some(Ready { v, user, private_channels, guilds, session_id, _trace })
    }
}

/// The session was resumed.
#[derive(Debug, Clone)]
pub struct Resumed {
    /// Servers that the connection went through; for debugging.
    pub _trace: Vec<String>,
}

impl FromJson for Resumed {
    open spec fn readable(j: Json) -> bool {
        &&& j is Object
        &&& opt_list_field_readable::<String>(j, "_trace"@)
    }

    open spec fn read_from(&self, j: Json) -> bool {
        &&& j is Object
        &&& default_list_field_read(self._trace@, j, "_trace"@)
    }

    fn from_json(json: &serde_json::Value) -> (r: Option<Resumed>) {
        if !json_is_object(json) {
            return None;
        }
        let _trace = get_objects_or_empty::<String>(json, "_trace")?;
        Some(Resumed { _trace })
    }
}

/// A message was pinned or unpinned.
#[derive(Debug, Clone)]
pub struct ChannelPinsUpdate {
    pub channel_id: ChannelId,
    /// When the last message was pinned, in ISO 8601 notation.
    pub last_pin_timestamp: Option<String>,
}

impl FromJson for ChannelPinsUpdate {
    open spec fn readable(j: Json) -> bool {
        &&& j is Object
        &&& field_readable::<ChannelId>(j, "channel_id"@)
        &&& opt_field_readable::<String>(j, "last_pin_timestamp"@)
    }

    open spec fn read_from(&self, j: Json) -> bool {
        &&& j is Object
        &&& field_read(self.channel_id, j, "channel_id"@)
        &&& opt_field_read(self.last_pin_timestamp, j, "last_pin_timestamp"@)
    }

    fn from_json(json: &serde_json::Value) -> (r: Option<ChannelPinsUpdate>) {
        if !json_is_object(json) {
            return None;
        }
        let channel_id = get_object::<ChannelId>(json, "channel_id")?;
        let last_pin_timestamp = get_opt_object::<String>(json, "last_pin_timestamp")?;
        Some(ChannelPinsUpdate { channel_id, last_pin_timestamp })
    }
}

/// A user was banned from a guild.
#[derive(Debug, Clone)]
pub struct GuildBanAdd {
    pub guild_id: GuildId,
    pub user: User,
}

impl FromJson for GuildBanAdd {
    open spec fn readable(j: Json) -> bool {
        &&& j is Object
        &&& field_readable::<GuildId>(j, "guild_id"@)
        &&& field_readable::<User>(j, "user"@)
    }

    open spec fn read_from(&self, j: Json) -> bool {
        &&& j is Object
        &&& field_read(self.guild_id, j, "guild_id"@)
        &&& field_read(self.user, j, "user"@)
    }

    fn from_json(json: &serde_json::Value) -> (r: Option<GuildBanAdd>) {
        if !json_is_object(json) {
            return None;
        }
        let guild_id = get_object::<GuildId>(json, "guild_id")?;
        let user = get_object::<User>(json, "user")?;
        Some(GuildBanAdd { guild_id, user })
    }
}

/// A user was unbanned from a guild.
#[derive(Debug, Clone)]
pub struct GuildBanRemove {
    pub guild_id: GuildId,
    pub user: User,
}

impl FromJson for GuildBanRemove {
    open spec fn readable(j: Json) -> bool {
        &&& j is Object
        &&& field_readable::<GuildId>(j, "guild_id"@)
        &&& field_readable::<User>(j, "user"@)
    }

    open spec fn read_from(&self, j: Json) -> bool {
        &&& j is Object
        &&& field_read(self.guild_id, j, "guild_id"@)
        &&& field_read(self.user, j, "user"@)
    }

    fn from_json(json: &serde_json::Value) -> (r: Option<GuildBanRemove>) {
        if !json_is_object(json) {
            return None;
        }
        let guild_id = get_object::<GuildId>(json, "guild_id")?;
        let user = get_object::<User>(json, "user")?;
        Some(GuildBanRemove { guild_id, user })
    }
}

/// A guild's emojis were updated.
#[derive(Debug, Clone)]
pub struct GuildEmojisUpdate {
    pub guild_id: GuildId,
    pub emojis: Vec<Emoji>,
}

impl FromJson for GuildEmojisUpdate {
    open spec fn readable(j: Json) -> bool {
        &&& j is Object
        &&& field_readable::<GuildId>(j, "guild_id"@)
        &&& list_field_readable::<Emoji>(j, "emojis"@)
    }

    open spec fn read_from(&self, j: Json) -> bool {
        &&& j is Object
        &&& field_read(self.guild_id, j, "guild_id"@)
        &&& list_field_read(self.emojis@, j, "emojis"@)
    }

    fn from_json(json: &serde_json::Value) -> (r: Option<GuildEmojisUpdate>) {
        if !json_is_object(json) {
            return None;
        }
        let guild_id = get_object::<GuildId>(json, "guild_id")?;
        let emojis = get_objects::<Emoji>(json, "emojis")?;
        Some(GuildEmojisUpdate { guild_id, emojis })
    }
}

/// A guild's integrations were updated.
#[derive(Debug, Clone, Copy, PartialEq, Eq, Structural)]
pub struct GuildIntegrationsUpdate {
    pub guild_id: GuildId,
}

impl FromJson for GuildIntegrationsUpdate {
    open spec fn readable(j: Json) -> bool {
        &&& j is Object
        &&& field_readable::<GuildId>(j, "guild_id"@)
    }

    open spec fn read_from(&self, j: Json) -> bool {
        &&& j is Object
        &&& field_read(self.guild_id, j, "guild_id"@)
    }

    fn from_json(json: &serde_json::Value) -> (r: Option<GuildIntegrationsUpdate>) {
        if !json_is_object(json) {
            return None;
        }
        let guild_id = get_object::<GuildId>(json, "guild_id")?;
        Some(GuildIntegrationsUpdate { guild_id })
    }
}

/// A user was removed from a guild.
#[derive(Debug, Clone)]
pub struct GuildMemberRemove {
    pub guild_id: GuildId,
    pub user: User,
}

impl FromJson for GuildMemberRemove {
    open spec fn readable(j: Json) -> bool {
        &&& j is Object
        &&& field_readable::<GuildId>(j, "guild_id"@)
        &&& field_readable::<User>(j, "user"@)
    }

    open spec fn read_from(&self, j: Json) -> bool {
        &&& j is Object
        &&& field_read(self.guild_id, j, "guild_id"@)
        &&& field_read(self.user, j, "user"@)
    }

    fn from_json(json: &serde_json::Value) -> (r: Option<GuildMemberRemove>) {
        if !json_is_object(json) {
            return None;
        }
        let guild_id = get_object::<GuildId>(json, "guild_id")?;
        let user = get_object::<User>(json, "user")?;
        Some(GuildMemberRemove { guild_id, user })
    }
}

/// A guild member was updated.
#[derive(Debug, Clone)]
pub struct GuildMemberUpdate {
    pub guild_id: GuildId,
    /// The member's roles.
    pub roles: Vec<RoleId>,
    pub user: User,
    /// Nickname of the user in the guild.
    pub nick: String,
}

impl FromJson for GuildMemberUpdate {
    open spec fn readable(j: Json) -> bool {
        &&& j is Object
        &&& field_readable::<GuildId>(j, "guild_id"@)
        &&& list_field_readable::<RoleId>(j, "roles"@)
        &&& field_readable::<User>(j, "user"@)
        &&& field_readable::<String>(j, "nick"@)
    }

    open spec fn read_from(&self, j: Json) -> bool {
        &&& j is Object
        &&& field_read(self.guild_id, j, "guild_id"@)
        &&& list_field_read(self.roles@, j, "roles"@)
        &&& field_read(self.user, j, "user"@)
        &&& field_read(self.nick, j, "nick"@)
    }

    fn from_json(json: &serde_json::Value) -> (r: Option<GuildMemberUpdate>) {
        if !json_is_object(json) {
            return None;
        }
        let guild_id = get_object::<GuildId>(json, "guild_id")?;
        let roles = get_objects::<RoleId>(json, "roles")?;
        let user = get_object::<User>(json, "user")?;
        let nick = get_object::<String>(json, "nick")?;
        Some(GuildMemberUpdate { guild_id, roles, user, nick })
    }
}

/// A guild role was created.
#[derive(Debug, Clone)]
pub struct GuildRoleCreate {
    pub guild_id: GuildId,
    pub role: Role,
}

impl FromJson for GuildRoleCreate {
    open spec fn readable(j: Json) -> bool {
        &&& j is Object
        &&& field_readable::<GuildId>(j, "guild_id"@)
        &&& field_readable::<Role>(j, "role"@)
    }

    open spec fn read_from(&self, j: Json) -> bool {
        &&& j is Object
        &&& field_read(self.guild_id, j, "guild_id"@)
        &&& field_read(self.role, j, "role"@)
    }

    fn from_json(json: &serde_json::Value) -> (r: Option<GuildRoleCreate>) {
        if !json_is_object(json) {
            return None;
        }
        let guild_id = get_object::<GuildId>(json, "guild_id")?;
        let role = get_object::<Role>(json, "role")?;
        Some(GuildRoleCreate { guild_id, role })
    }
}

/// A guild role was updated.
#[derive(Debug, Clone)]
pub struct GuildRoleUpdate {
    pub guild_id: GuildId,
    pub role: Role,
}

impl FromJson for GuildRoleUpdate {
    open spec fn readable(j: Json) -> bool {
        &&& j is Object
        &&& field_readable::<GuildId>(j, "guild_id"@)
        &&& field_readable::<Role>(j, "role"@)
    }

    open spec fn read_from(&self, j: Json) -> bool {
        &&& j is Object
        &&& field_read(self.guild_id, j, "guild_id"@)
        &&& field_read(self.role, j, "role"@)
    }

    fn from_json(json: &serde_json::Value) -> (r: Option<GuildRoleUpdate>) {
        if !json_is_object(json) {
            return None;
        }
        let guild_id = get_object::<GuildId>(json, "guild_id")?;
        let role = get_object::<Role>(json, "role")?;
        Some(GuildRoleUpdate { guild_id, role })
    }
}

/// A guild role was deleted.
#[derive(Debug, Clone, Copy, PartialEq, Eq, Structural)]
pub struct GuildRoleDelete {
    pub guild_id: GuildId,
    pub role_id: RoleId,
}

impl FromJson for GuildRoleDelete {
    open spec fn readable(j: Json) -> bool {
        &&& j is Object
        &&& field_readable::<GuildId>(j, "guild_id"@)
        &&& field_readable::<RoleId>(j, "role_id"@)
    }

    open spec fn read_from(&self, j: Json) -> bool {
        &&& j is Object
        &&& field_read(self.guild_id, j, "guild_id"@)
        &&& field_read(self.role_id, j, "role_id"@)
    }

    fn from_json(json: &serde_json::Value) -> (r: Option<GuildRoleDelete>) {
        if !json_is_object(json) {
            return None;
        }
        let guild_id = get_object::<GuildId>(json, "guild_id")?;
        let role_id = get_object::<RoleId>(json, "role_id")?;
        Some(GuildRoleDelete { guild_id, role_id })
    }
}

/// A message was edited.
#[derive(Debug, Clone, Copy, PartialEq, Eq, Structural)]
pub struct MessageUpdate {}

impl FromJson for MessageUpdate {
    open spec fn readable(j: Json) -> bool {
        j is Object
    }

    open spec fn read_from(&self, j: Json) -> bool {
        j is Object
    }

    fn from_json(json: &serde_json::Value) -> (r: Option<MessageUpdate>) {
        if !json_is_object(json) {
            return None;
        }
        Some(MessageUpdate {})
    }
}

/// A message was deleted.
#[derive(Debug, Clone, Copy, PartialEq, Eq, Structural)]
pub struct MessageDelete {
    pub id: MessageId,
    pub channel_id: ChannelId,
    pub guild_id: Option<GuildId>,
}

impl FromJson for MessageDelete {
    open spec fn readable(j: Json) -> bool {
        &&& j is Object
        &&& field_readable::<MessageId>(j, "id"@)
        &&& field_readable::<ChannelId>(j, "channel_id"@)
        &&& opt_field_readable::<GuildId>(j, "guild_id"@)
    }

    open spec fn read_from(&self, j: Json) -> bool {
        &&& j is Object
        &&& field_read(self.id, j, "id"@)
        &&& field_read(self.channel_id, j, "channel_id"@)
        &&& opt_field_read(self.guild_id, j, "guild_id"@)
    }

    fn from_json(json: &serde_json::Value) -> (r: Option<MessageDelete>) {
        if !json_is_object(json) {
            return None;
        }
        let id = get_object::<MessageId>(json, "id")?;
        let channel_id = get_object::<ChannelId>(json, "channel_id")?;
        let guild_id = get_opt_object::<GuildId>(json, "guild_id")?;
        Some(MessageDelete { id, channel_id, guild_id })
    }
}

/// Several messages were deleted at once.
#[derive(Debug, Clone)]
pub struct MessageDeleteBulk {
    pub ids: Vec<MessageId>,
    pub channel_id: ChannelId,
    pub guild_id: Option<GuildId>,
}

impl FromJson for MessageDeleteBulk {
    open spec fn readable(j: Json) -> bool {
        &&& j is Object
        &&& list_field_readable::<MessageId>(j, "ids"@)
        &&& field_readable::<ChannelId>(j, "channel_id"@)
        &&& opt_field_readable::<GuildId>(j, "guild_id"@)
    }

    open spec fn read_from(&self, j: Json) -> bool {
        &&& j is Object
        &&& list_field_read(self.ids@, j, "ids"@)
        &&& field_read(self.channel_id, j, "channel_id"@)
        &&& opt_field_read(self.guild_id, j, "guild_id"@)
    }

    fn from_json(json: &serde_json::Value) -> (r: Option<MessageDeleteBulk>) {
        if !json_is_object(json) {
            return None;
        }
        let ids = get_objects::<MessageId>(json, "ids")?;
        let channel_id = get_object::<ChannelId>(json, "channel_id")?;
        let guild_id = get_opt_object::<GuildId>(json, "guild_id")?;
        Some(MessageDeleteBulk { ids, channel_id, guild_id })
    }
}

/// A user reacted to a message.
#[derive(Debug, Clone)]
pub struct MessageReactionAdd {
    pub user_id: UserId,
    pub channel_id: ChannelId,
    pub message_id: MessageId,
    pub guild_id: Option<GuildId>,
    /// The emoji used to react.
    pub emoji: Emoji,
}

impl FromJson for MessageReactionAdd {
    open spec fn readable(j: Json) -> bool {
        &&& j is Object
        &&& field_readable::<UserId>(j, "user_id"@)
        &&& field_readable::<ChannelId>(j, "channel_id"@)
        &&& field_readable::<MessageId>(j, "message_id"@)
        &&& opt_field_readable::<GuildId>(j, "guild_id"@)
        &&& field_readable::<Emoji>(j, "emoji"@)
    }

    open spec fn read_from(&self, j: Json) -> bool {
        &&& j is Object
        &&& field_read(self.user_id, j, "user_id"@)
        &&& field_read(self.channel_id, j, "channel_id"@)
        &&& field_read(self.message_id, j, "message_id"@)
        &&& opt_field_read(self.guild_id, j, "guild_id"@)
        &&& field_read(self.emoji, j, "emoji"@)
    }

    fn from_json(json: &serde_json::Value) -> (r: Option<MessageReactionAdd>) {
        if !json_is_object(json) {
            return None;
        }
        let user_id = get_object::<UserId>(json, "user_id")?;
        let channel_id = get_object::<ChannelId>(json, "channel_id")?;
        let message_id = get_object::<MessageId>(json, "message_id")?;
        let guild_id = get_opt_object::<GuildId>(json, "guild_id")?;
        let emoji = get_object::<Emoji>(json, "emoji")?;
        Some(MessageReactionAdd { user_id, channel_id, message_id, guild_id, emoji })
    }
}

/// A user removed a reaction from a message.
#[derive(Debug, Clone)]
pub struct MessageReactionRemove {
    pub user_id: UserId,
    pub channel_id: ChannelId,
    pub message_id: MessageId,
    pub guild_id: Option<GuildId>,
    /// The emoji that was used to react.
    pub emoji: Emoji,
}

impl FromJson for MessageReactionRemove {
    open spec fn readable(j: Json) -> bool {
        &&& j is Object
        &&& field_readable::<UserId>(j, "user_id"@)
        &&& field_readable::<ChannelId>(j, "channel_id"@)
        &&& field_readable::<MessageId>(j, "message_id"@)
        &&& opt_field_readable::<GuildId>(j, "guild_id"@)
        &&& field_readable::<Emoji>(j, "emoji"@)
    }

    open spec fn read_from(&self, j: Json) -> bool {
        &&& j is Object
        &&& field_read(self.user_id, j, "user_id"@)
        &&& field_read(self.channel_id, j, "channel_id"@)
        &&& field_read(self.message_id, j, "message_id"@)
        &&& opt_field_read(self.guild_id, j, "guild_id"@)
        &&& field_read(self.emoji, j, "emoji"@)
    }

    fn from_json(json: &serde_json::Value) -> (r: Option<MessageReactionRemove>) {
        if !json_is_object(json) {
            return None;
        }
        let user_id = get_object::<UserId>(json, "user_id")?;
        let channel_id = get_object::<ChannelId>(json, "channel_id")?;
        let message_id = get_object::<MessageId>(json, "message_id")?;
        let guild_id = get_opt_object::<GuildId>(json, "guild_id")?;
        let emoji = get_object::<Emoji>(json, "emoji")?;
        Some(MessageReactionRemove { user_id, channel_id, message_id, guild_id, emoji })
    }
}

/// All reactions were removed from a message.
#[derive(Debug, Clone, Copy, PartialEq, Eq, Structural)]
pub struct MessageReactionRemoveAll {
    pub channel_id: ChannelId,
    pub message_id: MessageId,
    pub guild_id: Option<GuildId>,
}

impl FromJson for MessageReactionRemoveAll {
    open spec fn readable(j: Json) -> bool {
        &&& j is Object
        &&& field_readable::<ChannelId>(j, "channel_id"@)
        &&& field_readable::<MessageId>(j, "message_id"@)
        &&& opt_field_readable::<GuildId>(j, "guild_id"@)
    }

    open spec fn read_from(&self, j: Json) -> bool {
        &&& j is Object
        &&& field_read(self.channel_id, j, "channel_id"@)
        &&& field_read(self.message_id, j, "message_id"@)
        &&& opt_field_read(self.guild_id, j, "guild_id"@)
    }

    fn from_json(json: &serde_json::Value) -> (r: Option<MessageReactionRemoveAll>) {
        if !json_is_object(json) {
            return None;
        }
        let channel_id = get_object::<ChannelId>(json, "channel_id")?;
        let message_id = get_object::<MessageId>(json, "message_id")?;
        let guild_id = get_opt_object::<GuildId>(json, "guild_id")?;
        Some(MessageReactionRemoveAll { channel_id, message_id, guild_id })
    }
}

/// A user started typing in a channel.
#[derive(Debug, Clone, Copy, PartialEq, Eq, Structural)]
pub struct TypingStart {
    pub channel_id: ChannelId,
    pub guild_id: Option<GuildId>,
    pub user_id: UserId,
    /// Unix time in seconds of when the user started typing.
    pub timestamp: u64,
}

impl FromJson for TypingStart {
    open spec fn readable(j: Json) -> bool {
        &&& j is Object
        &&& field_readable::<ChannelId>(j, "channel_id"@)
        &&& opt_field_readable::<GuildId>(j, "guild_id"@)
        &&& field_readable::<UserId>(j, "user_id"@)
        &&& field_readable::<u64>(j, "timestamp"@)
    }

    open spec fn read_from(&self, j: Json) -> bool {
        &&& j is Object
        &&& field_read(self.channel_id, j, "channel_id"@)
        &&& opt_field_read(self.guild_id, j, "guild_id"@)
        &&& field_read(self.user_id, j, "user_id"@)
        &&& field_read(self.timestamp, j, "timestamp"@)
    }

    fn from_json(json: &serde_json::Value) -> (r: Option<TypingStart>) {
        if !json_is_object(json) {
            return None;
        }
        let channel_id = get_object::<ChannelId>(json, "channel_id")?;
        let guild_id = get_opt_object::<GuildId>(json, "guild_id")?;
        let user_id = get_object::<UserId>(json, "user_id")?;
        let timestamp = get_object::<u64>(json, "timestamp")?;
        Some(TypingStart { channel_id, guild_id, user_id, timestamp })
    }
}

/// A guild's voice server was updated: where and with what token to connect.
#[derive(Debug, Clone)]
pub struct VoiceServerUpdate {
    /// Voice connection token.
    pub token: String,
    /// The guild that this update is for.
    pub guild_id: GuildId,
    /// The voice server's host.
    pub endpoint: String,
}

impl FromJson for VoiceServerUpdate {
    open spec fn readable(j: Json) -> bool {
        &&& j is Object
        &&& field_readable::<String>(j, "token"@)
        &&& field_readable::<GuildId>(j, "guild_id"@)
        &&& field_readable::<String>(j, "endpoint"@)
    }

    open spec fn read_from(&self, j: Json) -> bool {
        &&& j is Object
        &&& field_read(self.token, j, "token"@)
        &&& field_read(self.guild_id, j, "guild_id"@)
        &&& field_read(self.endpoint, j, "endpoint"@)
    }

    fn from_json(json: &serde_json::Value) -> (r: Option<VoiceServerUpdate>) {
        if !json_is_object(json) {
            return None;
        }
        let token = get_object::<String>(json, "token")?;
        let guild_id = get_object::<GuildId>(json, "guild_id")?;
        let endpoint = get_object::<String>(json, "endpoint")?;
        Some(VoiceServerUpdate { token, guild_id, endpoint })
    }
}

/// A user joined a guild.
#[derive(Debug, Clone)]
pub struct GuildMemberAdd {
    pub guild_id: GuildId,
    /// The new member; its properties stand beside the guild in the data.
    pub member: GuildMember,
}

impl FromJson for GuildMemberAdd {
    open spec fn readable(j: Json) -> bool {
        &&& j is Object
        &&& field_readable::<GuildId>(j, "guild_id"@)
        &&& GuildMember::readable(j)
    }

    open spec fn read_from(&self, j: Json) -> bool {
        &&& j is Object
        &&& field_read(self.guild_id, j, "guild_id"@)
        &&& self.member.read_from(j)
    }

    fn from_json(json: &serde_json::Value) -> (r: Option<GuildMemberAdd>) {
        if !json_is_object(json) {
            return None;
        }
        let guild_id = get_object::<GuildId>(json, "guild_id")?;
        let member = GuildMember::from_json(json)?;
        Some(GuildMemberAdd { guild_id, member })
    }
}

/// Answer to a request for guild members.
#[derive(Debug, Clone)]
pub struct GuildMembersChunk {
    pub guild_id: GuildId,
    pub members: Vec<GuildMember>,
}

impl FromJson for GuildMembersChunk {
    open spec fn readable(j: Json) -> bool {
        &&& j is Object
        &&& field_readable::<GuildId>(j, "guild_id"@)
        &&& list_field_readable::<GuildMember>(j, "members"@)
    }

    open spec fn read_from(&self, j: Json) -> bool {
        &&& j is Object
        &&& field_read(self.guild_id, j, "guild_id"@)
        &&& list_field_read(self.members@, j, "members"@)
    }

    fn from_json(json: &serde_json::Value) -> (r: Option<GuildMembersChunk>) {
        if !json_is_object(json) {
            return None;
        }
        let guild_id = get_object::<GuildId>(json, "guild_id")?;
        let members = get_objects::<GuildMember>(json, "members")?;
        Some(GuildMembersChunk { guild_id, members })
    }
}

/// A channel's webhook was created, updated or deleted.
#[derive(Debug, Clone, Copy, PartialEq, Eq, Structural)]
pub struct WebhooksUpdate {
    pub guild_id: GuildId,
    pub channel_id: ChannelId,
}

impl FromJson for WebhooksUpdate {
    open spec fn readable(j: Json) -> bool {
        &&& j is Object
        &&& field_readable::<GuildId>(j, "guild_id"@)
        &&& field_readable::<ChannelId>(j, "channel_id"@)
    }

    open spec fn read_from(&self, j: Json) -> bool {
        &&& j is Object
        &&& field_read(self.guild_id, j, "guild_id"@)
        &&& field_read(self.channel_id, j, "channel_id"@)
    }

    fn from_json(json: &serde_json::Value) -> (r: Option<WebhooksUpdate>) {
        if !json_is_object(json) {
            return None;
        }
        let guild_id = get_object::<GuildId>(json, "guild_id")?;
        let channel_id = get_object::<ChannelId>(json, "channel_id")?;
        Some(WebhooksUpdate { guild_id, channel_id })
    }
}

/// An event that the gateway dispatched.
#[derive(Debug)]
pub enum ReceivableEvent {
    /// The session has started.
    Ready(Ready),
    /// The session was resumed.
    Resumed(Resumed),
    /// A channel was created.
    ChannelCreate(Channel),
    /// A channel was updated.
    ChannelUpdate(Channel),
    /// A channel was deleted.
    ChannelDelete(Channel),
    /// A message was pinned or unpinned.
    ChannelPinsUpdate(ChannelPinsUpdate),
    /// A guild became available, or the user joined one.
    GuildCreate(Guild),
    /// A guild was updated.
    GuildUpdate(Guild),
    /// A guild became unavailable, or the user left one.
    GuildDelete(UnavailableGuild),
    /// A user was banned from a guild.
    GuildBanAdd(GuildBanAdd),
    /// A user was unbanned from a guild.
    GuildBanRemove(GuildBanRemove),
    /// A guild's emojis were updated.
    GuildEmojisUpdate(GuildEmojisUpdate),
    /// A guild's integrations were updated.
    GuildIntegrationsUpdate(GuildIntegrationsUpdate),
    /// A user joined a guild.
    GuildMemberAdd(GuildMemberAdd),
    /// A user was removed from a guild.
    GuildMemberRemove(GuildMemberRemove),
    /// A guild member was updated.
    GuildMemberUpdate(GuildMemberUpdate),
    /// Answer to a request for guild members.
    GuildMembersChunk(GuildMembersChunk),
    /// A guild role was created.
    GuildRoleCreate(GuildRoleCreate),
    /// A guild role was updated.
    GuildRoleUpdate(GuildRoleUpdate),
    /// A guild role was deleted.
    GuildRoleDelete(GuildRoleDelete),
    /// A message was created.
    MessageCreate(Message),
    /// A message was edited.
    MessageUpdate(MessageUpdate),
    /// A message was deleted.
    MessageDelete(MessageDelete),
    /// Several messages were deleted at once.
    MessageDeleteBulk(MessageDeleteBulk),
    /// A user reacted to a message.
    MessageReactionAdd(MessageReactionAdd),
    /// A user removed a reaction from a message.
    MessageReactionRemove(MessageReactionRemove),
    /// All reactions were removed from a message.
    MessageReactionRemoveAll(MessageReactionRemoveAll),
    /// A user's presence was updated.
    PresenceUpdate(PresenceUpdate),
    /// A user started typing in a channel.
    TypingStart(TypingStart),
    /// Properties of the user changed.
    UserUpdate(User),
    /// Someone joined, left or moved between voice channels.
    VoiceStateUpdate(VoiceState),
    /// A guild's voice server was updated.
    VoiceServerUpdate(VoiceServerUpdate),
    /// A channel's webhook was created, updated or deleted.
    WebhooksUpdate(WebhooksUpdate),
    /// An event under a name that this library does not know, kept for
    /// forward compatibility.
    Unknown { name: String, value: serde_json::Value },
}

impl ReceivableEvent {
    /// Whether a dispatch under `name` with the data `d` can be read.
    pub open spec fn readable(name: Seq<char>, d: Json) -> bool {
        match event_kind(name) {
            Some(EventKind::Ready) => Ready::readable(d),
            Some(EventKind::Resumed) => Resumed::readable(d),
            Some(EventKind::ChannelCreate) => Channel::readable(d),
            Some(EventKind::ChannelUpdate) => Channel::readable(d),
            Some(EventKind::ChannelDelete) => Channel::readable(d),
            Some(EventKind::ChannelPinsUpdate) => ChannelPinsUpdate::readable(d),
            Some(EventKind::GuildCreate) => Guild::readable(d),
            Some(EventKind::GuildUpdate) => Guild::readable(d),
            Some(EventKind::GuildDelete) => UnavailableGuild::readable(d),
            Some(EventKind::GuildBanAdd) => GuildBanAdd::readable(d),
            Some(EventKind::GuildBanRemove) => GuildBanRemove::readable(d),
            Some(EventKind::GuildEmojisUpdate) => GuildEmojisUpdate::readable(d),
            Some(EventKind::GuildIntegrationsUpdate) => GuildIntegrationsUpdate::readable(d),
            Some(EventKind::GuildMemberAdd) => GuildMemberAdd::readable(d),
            Some(EventKind::GuildMemberRemove) => GuildMemberRemove::readable(d),
            Some(EventKind::GuildMemberUpdate) => GuildMemberUpdate::readable(d),
            Some(EventKind::GuildMembersChunk) => GuildMembersChunk::readable(d),
            Some(EventKind::GuildRoleCreate) => GuildRoleCreate::readable(d),
            Some(EventKind::GuildRoleUpdate) => GuildRoleUpdate::readable(d),
            Some(EventKind::GuildRoleDelete) => GuildRoleDelete::readable(d),
            Some(EventKind::MessageCreate) => Message::readable(d),
            Some(EventKind::MessageUpdate) => MessageUpdate::readable(d),
            Some(EventKind::MessageDelete) => MessageDelete::readable(d),
            Some(EventKind::MessageDeleteBulk) => MessageDeleteBulk::readable(d),
            Some(EventKind::MessageReactionAdd) => MessageReactionAdd::readable(d),
            Some(EventKind::MessageReactionRemove) => MessageReactionRemove::readable(d),
            Some(EventKind::MessageReactionRemoveAll) => MessageReactionRemoveAll::readable(d),
            Some(EventKind::PresenceUpdate) => PresenceUpdate::readable(d),
            Some(EventKind::TypingStart) => TypingStart::readable(d),
            Some(EventKind::UserUpdate) => User::readable(d),
            Some(EventKind::VoiceStateUpdate) => VoiceState::readable(d),
            Some(EventKind::VoiceServerUpdate) => VoiceServerUpdate::readable(d),
            Some(EventKind::WebhooksUpdate) => WebhooksUpdate::readable(d),
            None => true,
        }
    }

    /// Whether `self` is the event that was dispatched under `name` with the
    /// data `d`.
    pub open spec fn read_from(self, name: Seq<char>, d: Json) -> bool {
        match event_kind(name) {
            Some(EventKind::Ready) => {
                self matches ReceivableEvent::Ready(event) && event.read_from(d)
            },
            Some(EventKind::Resumed) => {
                self matches ReceivableEvent::Resumed(event) && event.read_from(d)
            },
            Some(EventKind::ChannelCreate) => {
                self matches ReceivableEvent::ChannelCreate(event) && event.read_from(d)
            },
            Some(EventKind::ChannelUpdate) => {
                self matches ReceivableEvent::ChannelUpdate(event) && event.read_from(d)
            },
            Some(EventKind::ChannelDelete) => {
                self matches ReceivableEvent::ChannelDelete(event) && event.read_from(d)
            },
            Some(EventKind::ChannelPinsUpdate) => {
                self matches ReceivableEvent::ChannelPinsUpdate(event) && event.read_from(d)
            },
            Some(EventKind::GuildCreate) => {
                self matches ReceivableEvent::GuildCreate(event) && event.read_from(d)
            },
            Some(EventKind::GuildUpdate) => {
                self matches ReceivableEvent::GuildUpdate(event) && event.read_from(d)
            },
            Some(EventKind::GuildDelete) => {
                self matches ReceivableEvent::GuildDelete(event) && event.read_from(d)
            },
            Some(EventKind::GuildBanAdd) => {
                self matches ReceivableEvent::GuildBanAdd(event) && event.read_from(d)
            },
            Some(EventKind::GuildBanRemove) => {
                self matches ReceivableEvent::GuildBanRemove(event) && event.read_from(d)
            },
            Some(EventKind::GuildEmojisUpdate) => {
                self matches ReceivableEvent::GuildEmojisUpdate(event) && event.read_from(d)
            },
            Some(EventKind::GuildIntegrationsUpdate) => {
                self matches ReceivableEvent::GuildIntegrationsUpdate(event) && event.read_from(d)
            },
            Some(EventKind::GuildMemberAdd) => {
                self matches ReceivableEvent::GuildMemberAdd(event) && event.read_from(d)
            },
            Some(EventKind::GuildMemberRemove) => {
                self matches ReceivableEvent::GuildMemberRemove(event) && event.read_from(d)
            },
            Some(EventKind::GuildMemberUpdate) => {
                self matches ReceivableEvent::GuildMemberUpdate(event) && event.read_from(d)
            },
            Some(EventKind::GuildMembersChunk) => {
                self matches ReceivableEvent::GuildMembersChunk(event) && event.read_from(d)
            },
            Some(EventKind::GuildRoleCreate) => {
                self matches ReceivableEvent::GuildRoleCreate(event) && event.read_from(d)
            },
            Some(EventKind::GuildRoleUpdate) => {
                self matches ReceivableEvent::GuildRoleUpdate(event) && event.read_from(d)
            },
            Some(EventKind::GuildRoleDelete) => {
                self matches ReceivableEvent::GuildRoleDelete(event) && event.read_from(d)
            },
            Some(EventKind::MessageCreate) => {
                self matches ReceivableEvent::MessageCreate(event) && event.read_from(d)
            },
            Some(EventKind::MessageUpdate) => {
                self matches ReceivableEvent::MessageUpdate(event) && event.read_from(d)
            },
            Some(EventKind::MessageDelete) => {
                self matches ReceivableEvent::MessageDelete(event) && event.read_from(d)
            },
            Some(EventKind::MessageDeleteBulk) => {
                self matches ReceivableEvent::MessageDeleteBulk(event) && event.read_from(d)
            },
            Some(EventKind::MessageReactionAdd) => {
                self matches ReceivableEvent::MessageReactionAdd(event) && event.read_from(d)
            },
            Some(EventKind::MessageReactionRemove) => {
                self matches ReceivableEvent::MessageReactionRemove(event) && event.read_from(d)
            },
            Some(EventKind::MessageReactionRemoveAll) => {
                self matches ReceivableEvent::MessageReactionRemoveAll(event) && event.read_from(d)
            },
            Some(EventKind::PresenceUpdate) => {
                self matches ReceivableEvent::PresenceUpdate(event) && event.read_from(d)
            },
            Some(EventKind::TypingStart) => {
                self matches ReceivableEvent::TypingStart(event) && event.read_from(d)
            },
            Some(EventKind::UserUpdate) => {
                self matches ReceivableEvent::UserUpdate(event) && event.read_from(d)
            },
            Some(EventKind::VoiceStateUpdate) => {
                self matches ReceivableEvent::VoiceStateUpdate(event) && event.read_from(d)
            },
            Some(EventKind::VoiceServerUpdate) => {
                self matches ReceivableEvent::VoiceServerUpdate(event) && event.read_from(d)
            },
            Some(EventKind::WebhooksUpdate) => {
                self matches ReceivableEvent::WebhooksUpdate(event) && event.read_from(d)
            },
            None => {
                self matches ReceivableEvent::Unknown { name: unknown, value } && unknown@ == name
                    && json_view(value) == d
            },
        }
    }

    /// The event that was dispatched under `name` with the data `d`: an
    /// event under a known name is read; one under an unknown name keeps its
    /// data as it came.
    pub fn from_dispatch(name: String, d: serde_json::Value) -> (r: Option<ReceivableEvent>)
        ensures
            r is Some <==> ReceivableEvent::readable(name@, json_view(d)),
            r matches Some(event) ==> event.read_from(name@, json_view(d)),
    {
        match EventKind::from_name(name.as_str()) {
            Some(EventKind::Ready) => match Ready::from_json(&d) {
                Some(event) => Some(ReceivableEvent::Ready(event)),
                None => None,
            },
            Some(EventKind::Resumed) => match Resumed::from_json(&d) {
                Some(event) => Some(ReceivableEvent::Resumed(event)),
                None => None,
            },
            Some(EventKind::ChannelCreate) => match Channel::from_json(&d) {
                Some(event) => Some(ReceivableEvent::ChannelCreate(event)),
                None => None,
            },
            Some(EventKind::ChannelUpdate) => match Channel::from_json(&d) {
                Some(event) => Some(ReceivableEvent::ChannelUpdate(event)),
                None => None,
            },
            Some(EventKind::ChannelDelete) => match Channel::from_json(&d) {
                Some(event) => Some(ReceivableEvent::ChannelDelete(event)),
                None => None,
            },
            Some(EventKind::ChannelPinsUpdate) => match ChannelPinsUpdate::from_json(&d) {
                Some(event) => Some(ReceivableEvent::ChannelPinsUpdate(event)),
                None => None,
            },
            Some(EventKind::GuildCreate) => match Guild::from_json(&d) {
                Some(event) => Some(ReceivableEvent::GuildCreate(event)),
                None => None,
            },
            Some(EventKind::GuildUpdate) => match Guild::from_json(&d) {
                Some(event) => Some(ReceivableEvent::GuildUpdate(event)),
                None => None,
            },
            Some(EventKind::GuildDelete) => match UnavailableGuild::from_json(&d) {
                Some(event) => Some(ReceivableEvent::GuildDelete(event)),
                None => None,
            },
            Some(EventKind::GuildBanAdd) => match GuildBanAdd::from_json(&d) {
                Some(event) => Some(ReceivableEvent::GuildBanAdd(event)),
                None => None,
            },
            Some(EventKind::GuildBanRemove) => match GuildBanRemove::from_json(&d) {
                Some(event) => Some(ReceivableEvent::GuildBanRemove(event)),
                None => None,
            },
            Some(EventKind::GuildEmojisUpdate) => match GuildEmojisUpdate::from_json(&d) {
                Some(event) => Some(ReceivableEvent::GuildEmojisUpdate(event)),
                None => None,
            },
            Some(EventKind::GuildIntegrationsUpdate) => match GuildIntegrationsUpdate::from_json(&d) {
                Some(event) => Some(ReceivableEvent::GuildIntegrationsUpdate(event)),
                None => None,
            },
            Some(EventKind::GuildMemberAdd) => match GuildMemberAdd::from_json(&d) {
                Some(event) => Some(ReceivableEvent::GuildMemberAdd(event)),
                None => None,
            },
            Some(EventKind::GuildMemberRemove) => match GuildMemberRemove::from_json(&d) {
                Some(event) => Some(ReceivableEvent::GuildMemberRemove(event)),
                None => None,
            },
            Some(EventKind::GuildMemberUpdate) => match GuildMemberUpdate::from_json(&d) {
                Some(event) => Some(ReceivableEvent::GuildMemberUpdate(event)),
                None => None,
            },
            Some(EventKind::GuildMembersChunk) => match GuildMembersChunk::from_json(&d) {
                Some(event) => Some(ReceivableEvent::GuildMembersChunk(event)),
                None => None,
            },
            Some(EventKind::GuildRoleCreate) => match GuildRoleCreate::from_json(&d) {
                Some(event) => Some(ReceivableEvent::GuildRoleCreate(event)),
                None => None,
            },
            Some(EventKind::GuildRoleUpdate) => match GuildRoleUpdate::from_json(&d) {
                Some(event) => Some(ReceivableEvent::GuildRoleUpdate(event)),
                None => None,
            },
            Some(EventKind::GuildRoleDelete) => match GuildRoleDelete::from_json(&d) {
                Some(event) => Some(ReceivableEvent::GuildRoleDelete(event)),
                None => None,
            },
            Some(EventKind::MessageCreate) => match Message::from_json(&d) {
                Some(event) => Some(ReceivableEvent::MessageCreate(event)),
                None => None,
            },
            Some(EventKind::MessageUpdate) => match MessageUpdate::from_json(&d) {
                Some(event) => Some(ReceivableEvent::MessageUpdate(event)),
                None => None,
            },
            Some(EventKind::MessageDelete) => match MessageDelete::from_json(&d) {
                Some(event) => Some(ReceivableEvent::MessageDelete(event)),
                None => None,
            },
            Some(EventKind::MessageDeleteBulk) => match MessageDeleteBulk::from_json(&d) {
                Some(event) => Some(ReceivableEvent::MessageDeleteBulk(event)),
                None => None,
            },
            Some(EventKind::MessageReactionAdd) => match MessageReactionAdd::from_json(&d) {
                Some(event) => Some(ReceivableEvent::MessageReactionAdd(event)),
                None => None,
            },
            Some(EventKind::MessageReactionRemove) => match MessageReactionRemove::from_json(&d) {
                Some(event) => Some(ReceivableEvent::MessageReactionRemove(event)),
                None => None,
            },
            Some(EventKind::MessageReactionRemoveAll) => match MessageReactionRemoveAll::from_json(&d) {
                Some(event) => Some(ReceivableEvent::MessageReactionRemoveAll(event)),
                None => None,
            },
            Some(EventKind::PresenceUpdate) => match PresenceUpdate::from_json(&d) {
                Some(event) => Some(ReceivableEvent::PresenceUpdate(event)),
                None => None,
            },
            Some(EventKind::TypingStart) => match TypingStart::from_json(&d) {
                Some(event) => Some(ReceivableEvent::TypingStart(event)),
                None => None,
            },
            Some(EventKind::UserUpdate) => match User::from_json(&d) {
                Some(event) => Some(ReceivableEvent::UserUpdate(event)),
                None => None,
            },
            Some(EventKind::VoiceStateUpdate) => match VoiceState::from_json(&d) {
                Some(event) => Some(ReceivableEvent::VoiceStateUpdate(event)),
                None => None,
            },
            Some(EventKind::VoiceServerUpdate) => match VoiceServerUpdate::from_json(&d) {
                Some(event) => Some(ReceivableEvent::VoiceServerUpdate(event)),
                None => None,
            },
            Some(EventKind::WebhooksUpdate) => match WebhooksUpdate::from_json(&d) {
                Some(event) => Some(ReceivableEvent::WebhooksUpdate(event)),
                None => None,
            },
            None => Some(ReceivableEvent::Unknown { name, value: d }),
        }
    }

    /// The event that a dispatch envelope carries.
    pub fn from_payload(payload: Payload) -> (r: Result<ReceivableEvent, FromPayloadError>)
        ensures
            match payload@.t {
                None => r == Err::<ReceivableEvent, FromPayloadError>(
                    FromPayloadError::MissingEventName,
                ),
                Some(name) => if ReceivableEvent::readable(name, payload@.d) {
                    r is Ok && r->Ok_0.read_from(name, payload@.d)
                } else {
                    r matches Err(FromPayloadError::Json(_))
                },
            },
    {
        let Payload { op: _, d, s: _, t } = payload;
        match t {
            None => Err(FromPayloadError::MissingEventName),
            Some(name) => match ReceivableEvent::from_dispatch(name, d) {
                Some(event) => Ok(event),
                None => Err(
                    FromPayloadError::bad_shape("the data is not what the event name asks for"),
                ),
            },
        }
    }
}

} // verus!
