//! The events that the gateway dispatches, by name.

use vstd::prelude::*;
use crate::text::chars_of;

verus! {

/// The kinds of event that the gateway dispatches under a known name.
#[derive(Debug, Clone, Copy, PartialEq, Eq, Structural)]
pub enum EventKind {
    /// The session has started; carries the initial state.
    Ready,
    /// The session was resumed.
    Resumed,
    /// A channel was created.
    ChannelCreate,
    /// A channel was updated.
    ChannelUpdate,
    /// A channel was deleted.
    ChannelDelete,
    /// A message was pinned or unpinned.
    ChannelPinsUpdate,
    /// A guild became available, or the user joined one.
    GuildCreate,
    /// A guild was updated.
    GuildUpdate,
    /// A guild became unavailable, or the user left one.
    GuildDelete,
    /// A user was banned from a guild.
    GuildBanAdd,
    /// A user was unbanned from a guild.
    GuildBanRemove,
    /// A guild's emojis were updated.
    GuildEmojisUpdate,
    /// A guild's integrations were updated.
    GuildIntegrationsUpdate,
    /// A user joined a guild.
    GuildMemberAdd,
    /// A user was removed from a guild.
    GuildMemberRemove,
    /// A guild member was updated.
    GuildMemberUpdate,
    /// Answer to a request for guild members.
    GuildMembersChunk,
    /// A guild role was created.
    GuildRoleCreate,
    /// A guild role was updated.
    GuildRoleUpdate,
    /// A guild role was deleted.
    GuildRoleDelete,
    /// A message was created.
    MessageCreate,
    /// A message was edited.
    MessageUpdate,
    /// A message was deleted.
    MessageDelete,
    /// Several messages were deleted at once.
    MessageDeleteBulk,
    /// A user reacted to a message.
    MessageReactionAdd,
    /// A user removed a reaction from a message.
    MessageReactionRemove,
    /// All reactions were removed from a message.
    MessageReactionRemoveAll,
    /// A user's presence was updated.
    PresenceUpdate,
    /// A user started typing in a channel.
    TypingStart,
    /// Properties of the user changed.
    UserUpdate,
    /// Someone joined, left or moved between voice channels.
    VoiceStateUpdate,
    /// A guild's voice server was updated.
    VoiceServerUpdate,
    /// A channel's webhook was created, updated or deleted.
    WebhooksUpdate,
}

impl EventKind {
    /// The name under which the gateway dispatches this kind of event.
    pub open spec fn name(self) -> Seq<char> {
        match self {
            EventKind::Ready => "READY"@,
            EventKind::Resumed => "RESUMED"@,
            EventKind::ChannelCreate => "CHANNEL_CREATE"@,
            EventKind::ChannelUpdate => "CHANNEL_UPDATE"@,
            EventKind::ChannelDelete => "CHANNEL_DELETE"@,
            EventKind::ChannelPinsUpdate => "CHANNEL_PINS_UPDATE"@,
            EventKind::GuildCreate => "GUILD_CREATE"@,
            EventKind::GuildUpdate => "GUILD_UPDATE"@,
            EventKind::GuildDelete => "GUILD_DELETE"@,
            EventKind::GuildBanAdd => "GUILD_BAN_ADD"@,
            EventKind::GuildBanRemove => "GUILD_BAN_REMOVE"@,
            EventKind::GuildEmojisUpdate => "GUILD_EMOJIS_UPDATE"@,
            EventKind::GuildIntegrationsUpdate => "GUILD_INTEGRATIONS_UPDATE"@,
            EventKind::GuildMemberAdd => "GUILD_MEMBER_ADD"@,
            EventKind::GuildMemberRemove => "GUILD_MEMBER_REMOVE"@,
            EventKind::GuildMemberUpdate => "GUILD_MEMBER_UPDATE"@,
            EventKind::GuildMembersChunk => "GUILD_MEMBERS_CHUNK"@,
            EventKind::GuildRoleCreate => "GUILD_ROLE_CREATE"@,
            EventKind::GuildRoleUpdate => "GUILD_ROLE_UPDATE"@,
            EventKind::GuildRoleDelete => "GUILD_ROLE_DELETE"@,
            EventKind::MessageCreate => "MESSAGE_CREATE"@,
            EventKind::MessageUpdate => "MESSAGE_UPDATE"@,
            EventKind::MessageDelete => "MESSAGE_DELETE"@,
            EventKind::MessageDeleteBulk => "MESSAGE_DELETE_BULK"@,
            EventKind::MessageReactionAdd => "MESSAGE_REACTION_ADD"@,
            EventKind::MessageReactionRemove => "MESSAGE_REACTION_REMOVE"@,
            EventKind::MessageReactionRemoveAll => "MESSAGE_REACTION_REMOVE_ALL"@,
            EventKind::PresenceUpdate => "PRESENCE_UPDATE"@,
            EventKind::TypingStart => "TYPING_START"@,
            EventKind::UserUpdate => "USER_UPDATE"@,
            EventKind::VoiceStateUpdate => "VOICE_STATE_UPDATE"@,
            EventKind::VoiceServerUpdate => "VOICE_SERVER_UPDATE"@,
            EventKind::WebhooksUpdate => "WEBHOOKS_UPDATE"@,
        }
    }

    /// The name under which the gateway dispatches this kind of event.
    pub fn as_str(&self) -> (r: &'static str)
        ensures
            r@ == self.name(),
    {
        match self {
            EventKind::Ready => "READY",
            EventKind::Resumed => "RESUMED",
            EventKind::ChannelCreate => "CHANNEL_CREATE",
            EventKind::ChannelUpdate => "CHANNEL_UPDATE",
            EventKind::ChannelDelete => "CHANNEL_DELETE",
            EventKind::ChannelPinsUpdate => "CHANNEL_PINS_UPDATE",
            EventKind::GuildCreate => "GUILD_CREATE",
            EventKind::GuildUpdate => "GUILD_UPDATE",
            EventKind::GuildDelete => "GUILD_DELETE",
            EventKind::GuildBanAdd => "GUILD_BAN_ADD",
            EventKind::GuildBanRemove => "GUILD_BAN_REMOVE",
            EventKind::GuildEmojisUpdate => "GUILD_EMOJIS_UPDATE",
            EventKind::GuildIntegrationsUpdate => "GUILD_INTEGRATIONS_UPDATE",
            EventKind::GuildMemberAdd => "GUILD_MEMBER_ADD",
            EventKind::GuildMemberRemove => "GUILD_MEMBER_REMOVE",
            EventKind::GuildMemberUpdate => "GUILD_MEMBER_UPDATE",
            EventKind::GuildMembersChunk => "GUILD_MEMBERS_CHUNK",
            EventKind::GuildRoleCreate => "GUILD_ROLE_CREATE",
            EventKind::GuildRoleUpdate => "GUILD_ROLE_UPDATE",
            EventKind::GuildRoleDelete => "GUILD_ROLE_DELETE",
            EventKind::MessageCreate => "MESSAGE_CREATE",
            EventKind::MessageUpdate => "MESSAGE_UPDATE",
            EventKind::MessageDelete => "MESSAGE_DELETE",
            EventKind::MessageDeleteBulk => "MESSAGE_DELETE_BULK",
            EventKind::MessageReactionAdd => "MESSAGE_REACTION_ADD",
            EventKind::MessageReactionRemove => "MESSAGE_REACTION_REMOVE",
            EventKind::MessageReactionRemoveAll => "MESSAGE_REACTION_REMOVE_ALL",
            EventKind::PresenceUpdate => "PRESENCE_UPDATE",
            EventKind::TypingStart => "TYPING_START",
            EventKind::UserUpdate => "USER_UPDATE",
            EventKind::VoiceStateUpdate => "VOICE_STATE_UPDATE",
            EventKind::VoiceServerUpdate => "VOICE_SERVER_UPDATE",
            EventKind::WebhooksUpdate => "WEBHOOKS_UPDATE",
        }
    }

    /// The kind of event that is dispatched under `name`; `None` for a name
    /// that this library does not know.
    pub fn from_name(name: &str) -> (r: Option<EventKind>)
        ensures
            r == event_kind(name@),
    {
        let chars = chars_of(name);
        if is_name(&chars, "READY") {
            Some(EventKind::Ready)
        } else if is_name(&chars, "RESUMED") {
            Some(EventKind::Resumed)
        } else if is_name(&chars, "CHANNEL_CREATE") {
            Some(EventKind::ChannelCreate)
        } else if is_name(&chars, "CHANNEL_UPDATE") {
            Some(EventKind::ChannelUpdate)
        } else if is_name(&chars, "CHANNEL_DELETE") {
            Some(EventKind::ChannelDelete)
        } else if is_name(&chars, "CHANNEL_PINS_UPDATE") {
            Some(EventKind::ChannelPinsUpdate)
        } else if is_name(&chars, "GUILD_CREATE") {
            Some(EventKind::GuildCreate)
        } else if is_name(&chars, "GUILD_UPDATE") {
            Some(EventKind::GuildUpdate)
        } else if is_name(&chars, "GUILD_DELETE") {
            Some(EventKind::GuildDelete)
        } else if is_name(&chars, "GUILD_BAN_ADD") {
            Some(EventKind::GuildBanAdd)
        } else if is_name(&chars, "GUILD_BAN_REMOVE") {
            Some(EventKind::GuildBanRemove)
        } else if is_name(&chars, "GUILD_EMOJIS_UPDATE") {
            Some(EventKind::GuildEmojisUpdate)
        } else if is_name(&chars, "GUILD_INTEGRATIONS_UPDATE") {
            Some(EventKind::GuildIntegrationsUpdate)
        } else if is_name(&chars, "GUILD_MEMBER_ADD") {
            Some(EventKind::GuildMemberAdd)
        } else if is_name(&chars, "GUILD_MEMBER_REMOVE") {
            Some(EventKind::GuildMemberRemove)
        } else if is_name(&chars, "GUILD_MEMBER_UPDATE") {
            Some(EventKind::GuildMemberUpdate)
        } else if is_name(&chars, "GUILD_MEMBERS_CHUNK") {
            Some(EventKind::GuildMembersChunk)
        } else if is_name(&chars, "GUILD_ROLE_CREATE") {
            Some(EventKind::GuildRoleCreate)
        } else if is_name(&chars, "GUILD_ROLE_UPDATE") {
            Some(EventKind::GuildRoleUpdate)
        } else if is_name(&chars, "GUILD_ROLE_DELETE") {
            Some(EventKind::GuildRoleDelete)
        } else if is_name(&chars, "MESSAGE_CREATE") {
            Some(EventKind::MessageCreate)
        } else if is_name(&chars, "MESSAGE_UPDATE") {
            Some(EventKind::MessageUpdate)
        } else if is_name(&chars, "MESSAGE_DELETE") {
            Some(EventKind::MessageDelete)
        } else if is_name(&chars, "MESSAGE_DELETE_BULK") {
            Some(EventKind::MessageDeleteBulk)
        } else if is_name(&chars, "MESSAGE_REACTION_ADD") {
            Some(EventKind::MessageReactionAdd)
        } else if is_name(&chars, "MESSAGE_REACTION_REMOVE") {
            Some(EventKind::MessageReactionRemove)
        } else if is_name(&chars, "MESSAGE_REACTION_REMOVE_ALL") {
            Some(EventKind::MessageReactionRemoveAll)
        } else if is_name(&chars, "PRESENCE_UPDATE") {
            Some(EventKind::PresenceUpdate)
        } else if is_name(&chars, "TYPING_START") {
            Some(EventKind::TypingStart)
        } else if is_name(&chars, "USER_UPDATE") {
            Some(EventKind::UserUpdate)
        } else if is_name(&chars, "VOICE_STATE_UPDATE") {
            Some(EventKind::VoiceStateUpdate)
        } else if is_name(&chars, "VOICE_SERVER_UPDATE") {
            Some(EventKind::VoiceServerUpdate)
        } else if is_name(&chars, "WEBHOOKS_UPDATE") {
            Some(EventKind::WebhooksUpdate)
        } else {
            None
        }
    }
}

/// Whether `chars` spells `name`.
fn is_name(chars: &Vec<char>, name: &str) -> (r: bool)
    ensures
        r == (chars@ == name@),
{
    let other = chars_of(name);
    if chars.len() != other.len() {
        return false;
    }
    let mut i: usize = 0;
    while i < chars.len()
        invariant
            i <= chars@.len(),
            chars@.len() == other@.len(),
            other@ == name@,
            forall|j: int| 0 <= j < i ==> chars@[j] == other@[j],
        decreases chars@.len() - i,
    {
        if chars[i] != other[i] {
            assert(chars@[i as int] != name@[i as int]);
            return false;
        }
        i = i + 1;
    }
    assert(chars@ =~= name@);
    true
}

/// The kind of event that is dispatched under `name`.
pub open spec fn event_kind(name: Seq<char>) -> Option<EventKind> {
    if name == "READY"@ {
        Some(EventKind::Ready)
    } else if name == "RESUMED"@ {
        Some(EventKind::Resumed)
    } else if name == "CHANNEL_CREATE"@ {
        Some(EventKind::ChannelCreate)
    } else if name == "CHANNEL_UPDATE"@ {
        Some(EventKind::ChannelUpdate)
    } else if name == "CHANNEL_DELETE"@ {
        Some(EventKind::ChannelDelete)
    } else if name == "CHANNEL_PINS_UPDATE"@ {
        Some(EventKind::ChannelPinsUpdate)
    } else if name == "GUILD_CREATE"@ {
        Some(EventKind::GuildCreate)
    } else if name == "GUILD_UPDATE"@ {
        Some(EventKind::GuildUpdate)
    } else if name == "GUILD_DELETE"@ {
        Some(EventKind::GuildDelete)
    } else if name == "GUILD_BAN_ADD"@ {
        Some(EventKind::GuildBanAdd)
    } else if name == "GUILD_BAN_REMOVE"@ {
        Some(EventKind::GuildBanRemove)
    } else if name == "GUILD_EMOJIS_UPDATE"@ {
        Some(EventKind::GuildEmojisUpdate)
    } else if name == "GUILD_INTEGRATIONS_UPDATE"@ {
        Some(EventKind::GuildIntegrationsUpdate)
    } else if name == "GUILD_MEMBER_ADD"@ {
        Some(EventKind::GuildMemberAdd)
    } else if name == "GUILD_MEMBER_REMOVE"@ {
        Some(EventKind::GuildMemberRemove)
    } else if name == "GUILD_MEMBER_UPDATE"@ {
        Some(EventKind::GuildMemberUpdate)
    } else if name == "GUILD_MEMBERS_CHUNK"@ {
        Some(EventKind::GuildMembersChunk)
    } else if name == "GUILD_ROLE_CREATE"@ {
        Some(EventKind::GuildRoleCreate)
    } else if name == "GUILD_ROLE_UPDATE"@ {
        Some(EventKind::GuildRoleUpdate)
    } else if name == "GUILD_ROLE_DELETE"@ {
        Some(EventKind::GuildRoleDelete)
    } else if name == "MESSAGE_CREATE"@ {
        Some(EventKind::MessageCreate)
    } else if name == "MESSAGE_UPDATE"@ {
        Some(EventKind::MessageUpdate)
    } else if name == "MESSAGE_DELETE"@ {
        Some(EventKind::MessageDelete)
    } else if name == "MESSAGE_DELETE_BULK"@ {
        Some(EventKind::MessageDeleteBulk)
    } else if name == "MESSAGE_REACTION_ADD"@ {
        Some(EventKind::MessageReactionAdd)
    } else if name == "MESSAGE_REACTION_REMOVE"@ {
        Some(EventKind::MessageReactionRemove)
    } else if name == "MESSAGE_REACTION_REMOVE_ALL"@ {
        Some(EventKind::MessageReactionRemoveAll)
    } else if name == "PRESENCE_UPDATE"@ {
        Some(EventKind::PresenceUpdate)
    } else if name == "TYPING_START"@ {
        Some(EventKind::TypingStart)
    } else if name == "USER_UPDATE"@ {
        Some(EventKind::UserUpdate)
    } else if name == "VOICE_STATE_UPDATE"@ {
        Some(EventKind::VoiceStateUpdate)
    } else if name == "VOICE_SERVER_UPDATE"@ {
        Some(EventKind::VoiceServerUpdate)
    } else if name == "WEBHOOKS_UPDATE"@ {
        Some(EventKind::WebhooksUpdate)
    } else {
        None
    }
}

/// Every kind of event is found again under its own name: no two kinds share
/// a name.
pub proof fn lemma_event_kind_of_name(kind: EventKind)
    ensures
        event_kind(kind.name()) == Some(kind),
{
    reveal_strlit("READY");
    reveal_strlit("RESUMED");
    reveal_strlit("CHANNEL_CREATE");
    reveal_strlit("CHANNEL_UPDATE");
    reveal_strlit("CHANNEL_DELETE");
    reveal_strlit("CHANNEL_PINS_UPDATE");
    reveal_strlit("GUILD_CREATE");
    reveal_strlit("GUILD_UPDATE");
    reveal_strlit("GUILD_DELETE");
    reveal_strlit("GUILD_BAN_ADD");
    reveal_strlit("GUILD_BAN_REMOVE");
    reveal_strlit("GUILD_EMOJIS_UPDATE");
    reveal_strlit("GUILD_INTEGRATIONS_UPDATE");
    reveal_strlit("GUILD_MEMBER_ADD");
    reveal_strlit("GUILD_MEMBER_REMOVE");
    reveal_strlit("GUILD_MEMBER_UPDATE");
    reveal_strlit("GUILD_MEMBERS_CHUNK");
    reveal_strlit("GUILD_ROLE_CREATE");
    reveal_strlit("GUILD_ROLE_UPDATE");
    reveal_strlit("GUILD_ROLE_DELETE");
    reveal_strlit("MESSAGE_CREATE");
    reveal_strlit("MESSAGE_UPDATE");
    reveal_strlit("MESSAGE_DELETE");
    reveal_strlit("MESSAGE_DELETE_BULK");
    reveal_strlit("MESSAGE_REACTION_ADD");
    reveal_strlit("MESSAGE_REACTION_REMOVE");
    reveal_strlit("MESSAGE_REACTION_REMOVE_ALL");
    reveal_strlit("PRESENCE_UPDATE");
    reveal_strlit("TYPING_START");
    reveal_strlit("USER_UPDATE");
    reveal_strlit("VOICE_STATE_UPDATE");
    reveal_strlit("VOICE_SERVER_UPDATE");
    reveal_strlit("WEBHOOKS_UPDATE");
    assert("READY"@.len() == 5);
    assert("RESUMED"@.len() == 7);
    assert("CHANNEL_CREATE"@.len() == 14);
    assert("CHANNEL_CREATE"@[0] == 'C');
    assert("CHANNEL_CREATE"@[8] == 'C');
    assert("CHANNEL_UPDATE"@.len() == 14);
    assert("CHANNEL_UPDATE"@[0] == 'C');
    assert("CHANNEL_UPDATE"@[8] == 'U');
    assert("CHANNEL_DELETE"@.len() == 14);
    assert("CHANNEL_DELETE"@[0] == 'C');
    assert("CHANNEL_DELETE"@[8] == 'D');
    assert("CHANNEL_PINS_UPDATE"@.len() == 19);
    assert("CHANNEL_PINS_UPDATE"@[0] == 'C');
    assert("GUILD_CREATE"@.len() == 12);
    assert("GUILD_CREATE"@[0] == 'G');
    assert("GUILD_CREATE"@[6] == 'C');
    assert("GUILD_UPDATE"@.len() == 12);
    assert("GUILD_UPDATE"@[0] == 'G');
    assert("GUILD_UPDATE"@[6] == 'U');
    assert("GUILD_DELETE"@.len() == 12);
    assert("GUILD_DELETE"@[0] == 'G');
    assert("GUILD_DELETE"@[6] == 'D');
    assert("GUILD_BAN_ADD"@.len() == 13);
    assert("GUILD_BAN_REMOVE"@.len() == 16);
    assert("GUILD_BAN_REMOVE"@[6] == 'B');
    assert("GUILD_EMOJIS_UPDATE"@.len() == 19);
    assert("GUILD_EMOJIS_UPDATE"@[0] == 'G');
    assert("GUILD_EMOJIS_UPDATE"@[6] == 'E');
    assert("GUILD_INTEGRATIONS_UPDATE"@.len() == 25);
    assert("GUILD_MEMBER_ADD"@.len() == 16);
    assert("GUILD_MEMBER_ADD"@[6] == 'M');
    assert("GUILD_MEMBER_REMOVE"@.len() == 19);
    assert("GUILD_MEMBER_REMOVE"@[0] == 'G');
    assert("GUILD_MEMBER_REMOVE"@[6] == 'M');
    assert("GUILD_MEMBER_REMOVE"@[12] == '_');
    assert("GUILD_MEMBER_REMOVE"@[13] == 'R');
    assert("GUILD_MEMBER_UPDATE"@.len() == 19);
    assert("GUILD_MEMBER_UPDATE"@[0] == 'G');
    assert("GUILD_MEMBER_UPDATE"@[6] == 'M');
    assert("GUILD_MEMBER_UPDATE"@[12] == '_');
    assert("GUILD_MEMBER_UPDATE"@[13] == 'U');
    assert("GUILD_MEMBERS_CHUNK"@.len() == 19);
    assert("GUILD_MEMBERS_CHUNK"@[0] == 'G');
    assert("GUILD_MEMBERS_CHUNK"@[6] == 'M');
    assert("GUILD_MEMBERS_CHUNK"@[12] == 'S');
    assert("GUILD_ROLE_CREATE"@.len() == 17);
    assert("GUILD_ROLE_CREATE"@[11] == 'C');
    assert("GUILD_ROLE_UPDATE"@.len() == 17);
    assert("GUILD_ROLE_UPDATE"@[11] == 'U');
    assert("GUILD_ROLE_DELETE"@.len() == 17);
    assert("GUILD_ROLE_DELETE"@[11] == 'D');
    assert("MESSAGE_CREATE"@.len() == 14);
    assert("MESSAGE_CREATE"@[0] == 'M');
    assert("MESSAGE_CREATE"@[8] == 'C');
    assert("MESSAGE_UPDATE"@.len() == 14);
    assert("MESSAGE_UPDATE"@[0] == 'M');
    assert("MESSAGE_UPDATE"@[8] == 'U');
    assert("MESSAGE_DELETE"@.len() == 14);
    assert("MESSAGE_DELETE"@[0] == 'M');
    assert("MESSAGE_DELETE"@[8] == 'D');
    assert("MESSAGE_DELETE_BULK"@.len() == 19);
    assert("MESSAGE_DELETE_BULK"@[0] == 'M');
    assert("MESSAGE_REACTION_ADD"@.len() == 20);
    assert("MESSAGE_REACTION_REMOVE"@.len() == 23);
    assert("MESSAGE_REACTION_REMOVE_ALL"@.len() == 27);
    assert("PRESENCE_UPDATE"@.len() == 15);
    assert("PRESENCE_UPDATE"@[0] == 'P');
    assert("TYPING_START"@.len() == 12);
    assert("TYPING_START"@[0] == 'T');
    assert("USER_UPDATE"@.len() == 11);
    assert("VOICE_STATE_UPDATE"@.len() == 18);
    assert("VOICE_SERVER_UPDATE"@.len() == 19);
    assert("VOICE_SERVER_UPDATE"@[0] == 'V');
    assert("WEBHOOKS_UPDATE"@.len() == 15);
    assert("WEBHOOKS_UPDATE"@[0] == 'W');
}

} // verus!
