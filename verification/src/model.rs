//! Domain objects that the core itself sends or reads: connection
//! properties, presence, users and unavailable guilds.

use vstd::prelude::*;
use crate::encode::{
    id_json, opt_bool_json, opt_str_json, opt_u64_json, pair_json, pair_to_json, put_bool, put_id,
    put_opt_bool, put_opt_str, put_opt_u64, put_str, put_u64, with_member,
};
use crate::ids::ApplicationId;
use crate::json::{json_from_map, json_map_insert, json_map_new, json_view, no_members, Json};

pub mod objects;

pub use crate::model::objects::{
    ActivityFlags, ActivityType, Application, ApplicationCommand,
    ApplicationCommandInteractionData, ApplicationCommandInteractionDataOption,
    ApplicationCommandOption, ApplicationCommandOptionChoice, ApplicationCommandOptionType,
    ApplicationFlags, Attachment, ButtonStyle, Channel, ChannelType, ClientStatus, Emoji,
    Guild, GuildMember, Interaction, InteractionType, MembershipState, Mention, Message,
    MessageActivity, MessageActivityType, MessageApplication, MessageComponent,
    MessageComponentType, MessageFlags, MessageInteraction, MessageReference,
    MessageStickerItem, MessageType, Overwrite, OverwriteType, PartialGuild,
    PartialGuildMember, PartialUser, Permissions, PresenceUpdate, PrivacyLevel, Reaction, Role,
    StageInstance, StringOrInt, Team, TeamMember, ThreadMember, ThreadMetadata, Timestamp,
    UnavailableGuild, User, VoiceState,
};

verus! {

/// What the client tells the gateway about itself when it identifies.
#[derive(Debug, Clone)]
pub struct ConnectionProperties {
    pub os: String,
    pub browser: String,
    pub device: String,
}

impl ConnectionProperties {
    /// The properties that this library reports on the operating system `os`.
    pub fn for_os(os: String) -> (r: ConnectionProperties)
        ensures
            r.os == os,
            r.browser@ == "discord-next-rust"@,
            r.device@ == "discord-next-rust"@,
    {
        ConnectionProperties {
            os,
            browser: "discord-next-rust".to_owned(),
            device: "discord-next-rust".to_owned(),
        }
    }

    pub open spec fn json(self) -> Json {
        Json::Object(
            no_members().insert("$os"@, Json::Str(self.os@)).insert(
                "$browser"@,
                Json::Str(self.browser@),
            ).insert("$device"@, Json::Str(self.device@)),
        )
    }

    pub fn to_json(&self) -> (r: serde_json::Value)
        ensures
            json_view(r) == self.json(),
    {
        let mut m = json_map_new();
        put_str(&mut m, "$os", self.os.as_str());
        put_str(&mut m, "$browser", self.browser.as_str());
        put_str(&mut m, "$device", self.device.as_str());
        json_from_map(m)
    }
}

/// A user's status.
#[derive(Debug, Clone, Copy, PartialEq, Eq, Structural)]
pub enum Status {
    Online,
    DoNotDisturb,
    /// Away from keyboard.
    AFK,
    /// Invisible, and shown as offline.
    Invisible,
    Offline,
}

impl Status {
    /// The name of the status on the wire.
    pub open spec fn name(self) -> Seq<char> {
        match self {
            Status::Online => "online"@,
            Status::DoNotDisturb => "dnd"@,
            Status::AFK => "idle"@,
            Status::Invisible => "invisible"@,
            Status::Offline => "offline"@,
        }
    }

    /// The name of the status on the wire.
    pub fn as_str(&self) -> (r: &'static str)
        ensures
            r@ == self.name(),
    {
        match self {
            Status::Online => "online",
            Status::DoNotDisturb => "dnd",
            Status::AFK => "idle",
            Status::Invisible => "invisible",
            Status::Offline => "offline",
        }
    }
}

/// Start and end of an activity, in Unix time.
#[derive(Debug, Clone, Copy, PartialEq, Eq, Structural)]
pub struct Timestamps {
    pub start: Option<u64>,
    pub end: Option<u64>,
}

impl Timestamps {
    pub open spec fn json(self) -> Json {
        Json::Object(
            with_member(
                with_member(no_members(), "start"@, opt_u64_json(self.start)),
                "end"@,
                opt_u64_json(self.end),
            ),
        )
    }

    pub fn to_json(&self) -> (r: serde_json::Value)
        ensures
            json_view(r) == self.json(),
    {
        let mut m = json_map_new();
        put_opt_u64(&mut m, "start", self.start);
        put_opt_u64(&mut m, "end", self.end);
        json_from_map(m)
    }
}

/// The party that a player is in.
#[derive(Debug, Clone)]
pub struct Party {
    pub id: Option<String>,
    /// Current and largest size of the party.
    pub size: Option<(u64, u64)>,
}

impl Party {
    pub open spec fn json(self) -> Json {
        Json::Object(
            with_member(
                with_member(no_members(), "id"@, opt_str_json(self.id)),
                "size"@,
                match self.size {
                    Some(size) => Some(pair_json(size.0, size.1)),
                    None => None,
                },
            ),
        )
    }

    pub fn to_json(&self) -> (r: serde_json::Value)
        ensures
            json_view(r) == self.json(),
    {
        let mut m = json_map_new();
        put_opt_str(&mut m, "id", &self.id);
        match self.size {
            Some(size) => {
                json_map_insert(&mut m, "size", pair_to_json(size.0, size.1));
            },
            None => {},
        }
        json_from_map(m)
    }
}

/// Images of an activity and the texts shown when hovering over them.
#[derive(Debug, Clone)]
pub struct Assets {
    pub large_image: Option<String>,
    pub large_text: Option<String>,
    pub small_image: Option<String>,
    pub small_text: Option<String>,
}

impl Assets {
    pub open spec fn json(self) -> Json {
        Json::Object(
            with_member(
                with_member(
                    with_member(
                        with_member(no_members(), "large_image"@, opt_str_json(self.large_image)),
                        "large_text"@,
                        opt_str_json(self.large_text),
                    ),
                    "small_image"@,
                    opt_str_json(self.small_image),
                ),
                "small_text"@,
                opt_str_json(self.small_text),
            ),
        )
    }

    pub fn to_json(&self) -> (r: serde_json::Value)
        ensures
            json_view(r) == self.json(),
    {
        let mut m = json_map_new();
        put_opt_str(&mut m, "large_image", &self.large_image);
        put_opt_str(&mut m, "large_text", &self.large_text);
        put_opt_str(&mut m, "small_image", &self.small_image);
        put_opt_str(&mut m, "small_text", &self.small_text);
        json_from_map(m)
    }
}

/// Secrets for joining and spectating.
#[derive(Debug, Clone)]
pub struct ActivitySecrets {
    /// The secret for joining a party.
    pub join: Option<String>,
    /// The secret for spectating a game.
    pub spectate: Option<String>,
    /// The secret for one instanced match.
    pub match_secret: Option<String>,
}

impl ActivitySecrets {
    pub open spec fn json(self) -> Json {
        Json::Object(
            with_member(
                with_member(
                    with_member(no_members(), "join"@, opt_str_json(self.join)),
                    "spectate"@,
                    opt_str_json(self.spectate),
                ),
                "match"@,
                opt_str_json(self.match_secret),
            ),
        )
    }

    pub fn to_json(&self) -> (r: serde_json::Value)
        ensures
            json_view(r) == self.json(),
    {
        let mut m = json_map_new();
        put_opt_str(&mut m, "join", &self.join);
        put_opt_str(&mut m, "spectate", &self.spectate);
        put_opt_str(&mut m, "match", &self.match_secret);
        json_from_map(m)
    }
}

/// What a user is doing.
#[derive(Debug, Clone)]
pub struct Activity {
    pub name: String,
    pub typ: ActivityType,
    /// Stream url; looked at when the kind is streaming.
    pub url: Option<String>,
    pub timestamps: Option<Timestamps>,
    pub application_id: Option<ApplicationId>,
    /// What the player is currently doing.
    pub details: Option<String>,
    /// The user's current party status.
    pub state: Option<String>,
    pub party: Option<Party>,
    pub assets: Option<Assets>,
    pub secrets: Option<ActivitySecrets>,
    /// Whether the activity is an instanced game session.
    pub instance: Option<bool>,
    pub flags: Option<ActivityFlags>,
}

impl Activity {
    pub open spec fn json(self) -> Json {
        let m = no_members().insert("name"@, Json::Str(self.name@)).insert(
            "type"@,
            Json::PosInt(self.typ.number()),
        );
        let m = with_member(m, "url"@, opt_str_json(self.url));
        let m = with_member(
            m,
            "timestamps"@,
            match self.timestamps {
                Some(t) => Some(t.json()),
                None => None,
            },
        );
        let m = with_member(
            m,
            "application_id"@,
            match self.application_id {
                Some(id) => Some(id_json(id.0.0)),
                None => None,
            },
        );
        let m = with_member(m, "details"@, opt_str_json(self.details));
        let m = with_member(m, "state"@, opt_str_json(self.state));
        let m = with_member(
            m,
            "party"@,
            match self.party {
                Some(p) => Some(p.json()),
                None => None,
            },
        );
        let m = with_member(
            m,
            "assets"@,
            match self.assets {
                Some(a) => Some(a.json()),
                None => None,
            },
        );
        let m = with_member(
            m,
            "secrets"@,
            match self.secrets {
                Some(s) => Some(s.json()),
                None => None,
            },
        );
        let m = with_member(m, "instance"@, opt_bool_json(self.instance));
        let m = with_member(
            m,
            "flags"@,
            match self.flags {
                Some(f) => Some(Json::PosInt(f.bits as u64)),
                None => None,
            },
        );
        Json::Object(m)
    }

    pub fn to_json(&self) -> (r: serde_json::Value)
        ensures
            json_view(r) == self.json(),
    {
        let mut m = json_map_new();
        put_str(&mut m, "name", self.name.as_str());
        put_u64(&mut m, "type", self.typ.to_number());
        put_opt_str(&mut m, "url", &self.url);
        match &self.timestamps {
            Some(t) => {
                json_map_insert(&mut m, "timestamps", t.to_json());
            },
            None => {},
        }
        match &self.application_id {
            Some(id) => {
                put_id(&mut m, "application_id", id.0.0);
            },
            None => {},
        }
        put_opt_str(&mut m, "details", &self.details);
        put_opt_str(&mut m, "state", &self.state);
        match &self.party {
            Some(p) => {
                json_map_insert(&mut m, "party", p.to_json());
            },
            None => {},
        }
        match &self.assets {
            Some(a) => {
                json_map_insert(&mut m, "assets", a.to_json());
            },
            None => {},
        }
        match &self.secrets {
            Some(s) => {
                json_map_insert(&mut m, "secrets", s.to_json());
            },
            None => {},
        }
        put_opt_bool(&mut m, "instance", self.instance);
        match &self.flags {
            Some(f) => {
                put_u64(&mut m, "flags", f.bits as u64);
            },
            None => {},
        }
        json_from_map(m)
    }
}

/// The presence that a client sets for itself.
#[derive(Debug, Clone)]
pub struct UpdateStatus {
    /// Unix time in milliseconds of when the client went idle.
    pub since: Option<u64>,
    /// The user's new activity.
    pub game: Option<Activity>,
    pub status: Status,
    /// Whether the client is away from keyboard.
    pub afk: bool,
}

impl UpdateStatus {
    /// A presence with a status and nothing else.
    pub fn new_basic(status: Status, afk: bool) -> (r: UpdateStatus)
        ensures
            r == (UpdateStatus { since: None, game: None, status, afk }),
    {
        UpdateStatus { since: None, game: None, status, afk }
    }

    pub open spec fn json(self) -> Json {
        let m = with_member(no_members(), "since"@, opt_u64_json(self.since));
        let m = with_member(
            m,
            "game"@,
            match self.game {
                Some(g) => Some(g.json()),
                None => None,
            },
        );
        Json::Object(
            m.insert("status"@, Json::Str(self.status.name())).insert("afk"@, Json::Bool(self.afk)),
        )
    }

    pub fn to_json(&self) -> (r: serde_json::Value)
        ensures
            json_view(r) == self.json(),
    {
        let mut m = json_map_new();
        put_opt_u64(&mut m, "since", self.since);
        match &self.game {
            Some(g) => {
                json_map_insert(&mut m, "game", g.to_json());
            },
            None => {},
        }
        put_str(&mut m, "status", self.status.as_str());
        put_bool(&mut m, "afk", self.afk);
        json_from_map(m)
    }
}

/// The event categories that a client asks the gateway for.
#[derive(Debug, Clone, Copy, PartialEq, Eq, Structural)]
pub struct IntentFlags {
    pub bits: u32,
}

pub const GUILDS: u32 = 0x0001;

/// A privileged intent.
pub const GUILD_MEMBERS: u32 = 0x0002;

pub const GUILD_BANS: u32 = 0x0004;

pub const GUILD_EMOJIS: u32 = 0x0008;

pub const GUILD_INTEGRATIONS: u32 = 0x0010;

pub const GUILD_WEBHOOKS: u32 = 0x0020;

pub const GUILD_INVITES: u32 = 0x0040;

pub const GUILD_VOICE_STATES: u32 = 0x0080;

/// A privileged intent.
pub const GUILD_PRESENCES: u32 = 0x0100;

pub const GUILD_MESSAGES: u32 = 0x0200;

pub const GUILD_MESSAGE_REACTIONS: u32 = 0x0400;

pub const GUILD_MESSAGE_TYPING: u32 = 0x0800;

pub const DIRECT_MESSAGES: u32 = 0x1000;

pub const DIRECT_MESSAGE_REACTIONS: u32 = 0x2000;

pub const DIRECT_MESSAGE_TYPING: u32 = 0x4000;

/// Every intent that is defined.
pub const ALL_INTENTS: u32 = 0x7FFF;

/// The intents that the service grants only on request.
pub const KNOWN_PRIVILEGED: u32 = 0x0102;

impl IntentFlags {
    /// Every defined intent.
    pub fn all() -> (r: IntentFlags)
        ensures
            r.bits == ALL_INTENTS,
    {
        IntentFlags { bits: ALL_INTENTS }
    }

    /// The flags as a number.
    pub fn bits(&self) -> (r: u32)
        ensures
            r == self.bits,
    {
        self.bits
    }

    /// The flags that a number writes; bits that stand for no intent are
    /// dropped.
    pub fn from_bits_truncate(bits: u32) -> (r: IntentFlags)
        ensures
            r.bits == bits & ALL_INTENTS,
    {
        IntentFlags { bits: bits & ALL_INTENTS }
    }

    /// Whether every intent of `other` is among these.
    pub fn contains(&self, other: IntentFlags) -> (r: bool)
        ensures
            r == (self.bits & other.bits == other.bits),
    {
        self.bits & other.bits == other.bits
    }
}

impl Default for IntentFlags {
    /// Every defined intent but the privileged ones.
    fn default() -> (r: IntentFlags)
        ensures
            r.bits == ALL_INTENTS & !KNOWN_PRIVILEGED,
            r.bits & KNOWN_PRIVILEGED == 0,
            r.bits | KNOWN_PRIVILEGED == ALL_INTENTS,
    {
        let bits: u32 = ALL_INTENTS & !KNOWN_PRIVILEGED;
        assert(0x7FFFu32 & !0x0102u32 == 0x7EFDu32) by (bit_vector);
        assert(0x7EFDu32 & 0x0102u32 == 0u32) by (bit_vector);
        assert(0x7EFDu32 | 0x0102u32 == 0x7FFFu32) by (bit_vector);
        IntentFlags { bits }
    }
}

} // verus!
