//! Domain objects as the gateway writes them, and how each is read from
//! JSON.

use vstd::prelude::*;
use crate::decode::{
    default_list_field_read, field_read, field_readable, get_object, get_objects,
    get_objects_or_empty, get_opt_object, get_opt_objects, id_of, json_id, list_field_read,
    list_field_readable, opt_field_read, opt_field_readable, opt_list_field_read,
    opt_list_field_readable, Decimal, FromJson,
};
use crate::ids::{
    ApplicationCommandId, ApplicationId, ChannelId, EmojiId, GuildId, InteractionId, MessageId,
    RoleId, Snowflake, StageInstanceId, StickerId, TeamId, UserId, WebhookId,
};
use crate::json::{json_as_array, json_as_str, json_as_u64, json_is_object, json_view, json_views, Json};
use crate::model::{Activity, ActivitySecrets, Assets, Party, Status, Timestamps};
use crate::text::str_eq;

verus! {

/// What kind of activity a user is engaged in.
#[derive(Debug, Clone, Copy, PartialEq, Eq, Structural)]
pub enum ActivityType {
    Game,
    Streaming,
    Listening,
}

impl ActivityType {
    /// The number of the variant on the wire.
    pub open spec fn number(self) -> u64 {
        match self {
            ActivityType::Game => 0,
            ActivityType::Streaming => 1,
            ActivityType::Listening => 2,
        }
    }

    /// The variant with the given number on the wire, if there is one.
    pub open spec fn of_number(n: u64) -> Option<ActivityType> {
        if n == 0 {
            Some(ActivityType::Game)
        } else if n == 1 {
            Some(ActivityType::Streaming)
        } else if n == 2 {
            Some(ActivityType::Listening)
        } else {
            None
        }
    }

    /// The number of the variant on the wire.
    pub fn to_number(&self) -> (r: u64)
        ensures
            r == self.number(),
    {
        match self {
            ActivityType::Game => 0,
            ActivityType::Streaming => 1,
            ActivityType::Listening => 2,
        }
    }

    /// The variant with the given number on the wire.
    pub fn from_number(n: u64) -> (r: Option<ActivityType>)
        ensures
            r == ActivityType::of_number(n),
    {
        if n == 0 {
            Some(ActivityType::Game)
        } else if n == 1 {
            Some(ActivityType::Streaming)
        } else if n == 2 {
            Some(ActivityType::Listening)
        } else {
            None
        }
    }
}

impl FromJson for ActivityType {
    open spec fn readable(j: Json) -> bool {
        j.as_u64() is Some && ActivityType::of_number(j.as_u64().unwrap()) is Some
    }

    open spec fn read_from(&self, j: Json) -> bool {
        j.as_u64() is Some && ActivityType::of_number(j.as_u64().unwrap()) == Some(*self)
    }

    fn from_json(v: &serde_json::Value) -> (r: Option<ActivityType>) {
        match json_as_u64(v) {
            Some(n) => ActivityType::from_number(n),
            None => None,
        }
    }
}

/// Whom a permission overwrite is for.
#[derive(Debug, Clone, Copy, PartialEq, Eq, Structural)]
pub enum OverwriteType {
    Role,
    Member,
}

impl OverwriteType {
    /// The number of the variant on the wire.
    pub open spec fn number(self) -> u64 {
        match self {
            OverwriteType::Role => 0,
            OverwriteType::Member => 1,
        }
    }

    /// The variant with the given number on the wire, if there is one.
    pub open spec fn of_number(n: u64) -> Option<OverwriteType> {
        if n == 0 {
            Some(OverwriteType::Role)
        } else if n == 1 {
            Some(OverwriteType::Member)
        } else {
            None
        }
    }

    /// The number of the variant on the wire.
    pub fn to_number(&self) -> (r: u64)
        ensures
            r == self.number(),
    {
        match self {
            OverwriteType::Role => 0,
            OverwriteType::Member => 1,
        }
    }

    /// The variant with the given number on the wire.
    pub fn from_number(n: u64) -> (r: Option<OverwriteType>)
        ensures
            r == OverwriteType::of_number(n),
    {
        if n == 0 {
            Some(OverwriteType::Role)
        } else if n == 1 {
            Some(OverwriteType::Member)
        } else {
            None
        }
    }
}

impl FromJson for OverwriteType {
    open spec fn readable(j: Json) -> bool {
        j.as_u64() is Some && OverwriteType::of_number(j.as_u64().unwrap()) is Some
    }

    open spec fn read_from(&self, j: Json) -> bool {
        j.as_u64() is Some && OverwriteType::of_number(j.as_u64().unwrap()) == Some(*self)
    }

    fn from_json(v: &serde_json::Value) -> (r: Option<OverwriteType>) {
        match json_as_u64(v) {
            Some(n) => OverwriteType::from_number(n),
            None => None,
        }
    }
}

/// What an activity that was sent with a message invites to.
#[derive(Debug, Clone, Copy, PartialEq, Eq, Structural)]
pub enum MessageActivityType {
    Join,
    Spectate,
    Listen,
    JoinRequest,
}

impl MessageActivityType {
    /// The number of the variant on the wire.
    pub open spec fn number(self) -> u64 {
        match self {
            MessageActivityType::Join => 1,
            MessageActivityType::Spectate => 2,
            MessageActivityType::Listen => 3,
            MessageActivityType::JoinRequest => 5,
        }
    }

    /// The variant with the given number on the wire, if there is one.
    pub open spec fn of_number(n: u64) -> Option<MessageActivityType> {
        if n == 1 {
            Some(MessageActivityType::Join)
        } else if n == 2 {
            Some(MessageActivityType::Spectate)
        } else if n == 3 {
            Some(MessageActivityType::Listen)
        } else if n == 5 {
            Some(MessageActivityType::JoinRequest)
        } else {
            None
        }
    }

    /// The number of the variant on the wire.
    pub fn to_number(&self) -> (r: u64)
        ensures
            r == self.number(),
    {
        match self {
            MessageActivityType::Join => 1,
            MessageActivityType::Spectate => 2,
            MessageActivityType::Listen => 3,
            MessageActivityType::JoinRequest => 5,
        }
    }

    /// The variant with the given number on the wire.
    pub fn from_number(n: u64) -> (r: Option<MessageActivityType>)
        ensures
            r == MessageActivityType::of_number(n),
    {
        if n == 1 {
            Some(MessageActivityType::Join)
        } else if n == 2 {
            Some(MessageActivityType::Spectate)
        } else if n == 3 {
            Some(MessageActivityType::Listen)
        } else if n == 5 {
            Some(MessageActivityType::JoinRequest)
        } else {
            None
        }
    }
}

impl FromJson for MessageActivityType {
    open spec fn readable(j: Json) -> bool {
        j.as_u64() is Some && MessageActivityType::of_number(j.as_u64().unwrap()) is Some
    }

    open spec fn read_from(&self, j: Json) -> bool {
        j.as_u64() is Some && MessageActivityType::of_number(j.as_u64().unwrap()) == Some(*self)
    }

    fn from_json(v: &serde_json::Value) -> (r: Option<MessageActivityType>) {
        match json_as_u64(v) {
            Some(n) => MessageActivityType::from_number(n),
            None => None,
        }
    }
}

/// What kind of interaction took place.
#[derive(Debug, Clone, Copy, PartialEq, Eq, Structural)]
pub enum InteractionType {
    Ping,
    ApplicationCommand,
    MessageComponent,
}

impl InteractionType {
    /// The number of the variant on the wire.
    pub open spec fn number(self) -> u64 {
        match self {
            InteractionType::Ping => 1,
            InteractionType::ApplicationCommand => 2,
            InteractionType::MessageComponent => 3,
        }
    }

    /// The variant with the given number on the wire, if there is one.
    pub open spec fn of_number(n: u64) -> Option<InteractionType> {
        if n == 1 {
            Some(InteractionType::Ping)
        } else if n == 2 {
            Some(InteractionType::ApplicationCommand)
        } else if n == 3 {
            Some(InteractionType::MessageComponent)
        } else {
            None
        }
    }

    /// The number of the variant on the wire.
    pub fn to_number(&self) -> (r: u64)
        ensures
            r == self.number(),
    {
        match self {
            InteractionType::Ping => 1,
            InteractionType::ApplicationCommand => 2,
            InteractionType::MessageComponent => 3,
        }
    }

    /// The variant with the given number on the wire.
    pub fn from_number(n: u64) -> (r: Option<InteractionType>)
        ensures
            r == InteractionType::of_number(n),
    {
        if n == 1 {
            Some(InteractionType::Ping)
        } else if n == 2 {
            Some(InteractionType::ApplicationCommand)
        } else if n == 3 {
            Some(InteractionType::MessageComponent)
        } else {
            None
        }
    }
}

impl FromJson for InteractionType {
    open spec fn readable(j: Json) -> bool {
        j.as_u64() is Some && InteractionType::of_number(j.as_u64().unwrap()) is Some
    }

    open spec fn read_from(&self, j: Json) -> bool {
        j.as_u64() is Some && InteractionType::of_number(j.as_u64().unwrap()) == Some(*self)
    }

    fn from_json(v: &serde_json::Value) -> (r: Option<InteractionType>) {
        match json_as_u64(v) {
            Some(n) => InteractionType::from_number(n),
            None => None,
        }
    }
}

/// What kind of component a message carries.
#[derive(Debug, Clone, Copy, PartialEq, Eq, Structural)]
pub enum MessageComponentType {
    ActionRow,
    Button,
    SelectMenu,
}

impl MessageComponentType {
    /// The number of the variant on the wire.
    pub open spec fn number(self) -> u64 {
        match self {
            MessageComponentType::ActionRow => 1,
            MessageComponentType::Button => 2,
            MessageComponentType::SelectMenu => 3,
        }
    }

    /// The variant with the given number on the wire, if there is one.
    pub open spec fn of_number(n: u64) -> Option<MessageComponentType> {
        if n == 1 {
            Some(MessageComponentType::ActionRow)
        } else if n == 2 {
            Some(MessageComponentType::Button)
        } else if n == 3 {
            Some(MessageComponentType::SelectMenu)
        } else {
            None
        }
    }

    /// The number of the variant on the wire.
    pub fn to_number(&self) -> (r: u64)
        ensures
            r == self.number(),
    {
        match self {
            MessageComponentType::ActionRow => 1,
            MessageComponentType::Button => 2,
            MessageComponentType::SelectMenu => 3,
        }
    }

    /// The variant with the given number on the wire.
    pub fn from_number(n: u64) -> (r: Option<MessageComponentType>)
        ensures
            r == MessageComponentType::of_number(n),
    {
        if n == 1 {
            Some(MessageComponentType::ActionRow)
        } else if n == 2 {
            Some(MessageComponentType::Button)
        } else if n == 3 {
            Some(MessageComponentType::SelectMenu)
        } else {
            None
        }
    }
}

impl FromJson for MessageComponentType {
    open spec fn readable(j: Json) -> bool {
        j.as_u64() is Some && MessageComponentType::of_number(j.as_u64().unwrap()) is Some
    }

    open spec fn read_from(&self, j: Json) -> bool {
        j.as_u64() is Some && MessageComponentType::of_number(j.as_u64().unwrap()) == Some(*self)
    }

    fn from_json(v: &serde_json::Value) -> (r: Option<MessageComponentType>) {
        match json_as_u64(v) {
            Some(n) => MessageComponentType::from_number(n),
            None => None,
        }
    }
}

/// How a button looks.
#[derive(Debug, Clone, Copy, PartialEq, Eq, Structural)]
pub enum ButtonStyle {
    Primary,
    Secondary,
    Success,
    Danger,
    Link,
}

impl ButtonStyle {
    /// The number of the variant on the wire.
    pub open spec fn number(self) -> u64 {
        match self {
            ButtonStyle::Primary => 1,
            ButtonStyle::Secondary => 2,
            ButtonStyle::Success => 3,
            ButtonStyle::Danger => 4,
            ButtonStyle::Link => 5,
        }
    }

    /// The variant with the given number on the wire, if there is one.
    pub open spec fn of_number(n: u64) -> Option<ButtonStyle> {
        if n == 1 {
            Some(ButtonStyle::Primary)
        } else if n == 2 {
            Some(ButtonStyle::Secondary)
        } else if n == 3 {
            Some(ButtonStyle::Success)
        } else if n == 4 {
            Some(ButtonStyle::Danger)
        } else if n == 5 {
            Some(ButtonStyle::Link)
        } else {
            None
        }
    }

    /// The number of the variant on the wire.
    pub fn to_number(&self) -> (r: u64)
        ensures
            r == self.number(),
    {
        match self {
            ButtonStyle::Primary => 1,
            ButtonStyle::Secondary => 2,
            ButtonStyle::Success => 3,
            ButtonStyle::Danger => 4,
            ButtonStyle::Link => 5,
        }
    }

    /// The variant with the given number on the wire.
    pub fn from_number(n: u64) -> (r: Option<ButtonStyle>)
        ensures
            r == ButtonStyle::of_number(n),
    {
        if n == 1 {
            Some(ButtonStyle::Primary)
        } else if n == 2 {
            Some(ButtonStyle::Secondary)
        } else if n == 3 {
            Some(ButtonStyle::Success)
        } else if n == 4 {
            Some(ButtonStyle::Danger)
        } else if n == 5 {
            Some(ButtonStyle::Link)
        } else {
            None
        }
    }
}

impl FromJson for ButtonStyle {
    open spec fn readable(j: Json) -> bool {
        j.as_u64() is Some && ButtonStyle::of_number(j.as_u64().unwrap()) is Some
    }

    open spec fn read_from(&self, j: Json) -> bool {
        j.as_u64() is Some && ButtonStyle::of_number(j.as_u64().unwrap()) == Some(*self)
    }

    fn from_json(v: &serde_json::Value) -> (r: Option<ButtonStyle>) {
        match json_as_u64(v) {
            Some(n) => ButtonStyle::from_number(n),
            None => None,
        }
    }
}

/// A user's standing in a team.
#[derive(Debug, Clone, Copy, PartialEq, Eq, Structural)]
pub enum MembershipState {
    Invited,
    Accepted,
}

impl MembershipState {
    /// The number of the variant on the wire.
    pub open spec fn number(self) -> u64 {
        match self {
            MembershipState::Invited => 1,
            MembershipState::Accepted => 2,
        }
    }

    /// The variant with the given number on the wire, if there is one.
    pub open spec fn of_number(n: u64) -> Option<MembershipState> {
        if n == 1 {
            Some(MembershipState::Invited)
        } else if n == 2 {
            Some(MembershipState::Accepted)
        } else {
            None
        }
    }

    /// The number of the variant on the wire.
    pub fn to_number(&self) -> (r: u64)
        ensures
            r == self.number(),
    {
        match self {
            MembershipState::Invited => 1,
            MembershipState::Accepted => 2,
        }
    }

    /// The variant with the given number on the wire.
    pub fn from_number(n: u64) -> (r: Option<MembershipState>)
        ensures
            r == MembershipState::of_number(n),
    {
        if n == 1 {
            Some(MembershipState::Invited)
        } else if n == 2 {
            Some(MembershipState::Accepted)
        } else {
            None
        }
    }
}

impl FromJson for MembershipState {
    open spec fn readable(j: Json) -> bool {
        j.as_u64() is Some && MembershipState::of_number(j.as_u64().unwrap()) is Some
    }

    open spec fn read_from(&self, j: Json) -> bool {
        j.as_u64() is Some && MembershipState::of_number(j.as_u64().unwrap()) == Some(*self)
    }

    fn from_json(v: &serde_json::Value) -> (r: Option<MembershipState>) {
        match json_as_u64(v) {
            Some(n) => MembershipState::from_number(n),
            None => None,
        }
    }
}

/// Who can see a stage instance.
#[derive(Debug, Clone, Copy, PartialEq, Eq, Structural)]
pub enum PrivacyLevel {
    Public,
    GuildOnly,
}

impl PrivacyLevel {
    /// The number of the variant on the wire.
    pub open spec fn number(self) -> u64 {
        match self {
            PrivacyLevel::Public => 1,
            PrivacyLevel::GuildOnly => 2,
        }
    }

    /// The variant with the given number on the wire, if there is one.
    pub open spec fn of_number(n: u64) -> Option<PrivacyLevel> {
        if n == 1 {
            Some(PrivacyLevel::Public)
        } else if n == 2 {
            Some(PrivacyLevel::GuildOnly)
        } else {
            None
        }
    }

    /// The number of the variant on the wire.
    pub fn to_number(&self) -> (r: u64)
        ensures
            r == self.number(),
    {
        match self {
            PrivacyLevel::Public => 1,
            PrivacyLevel::GuildOnly => 2,
        }
    }

    /// The variant with the given number on the wire.
    pub fn from_number(n: u64) -> (r: Option<PrivacyLevel>)
        ensures
            r == PrivacyLevel::of_number(n),
    {
        if n == 1 {
            Some(PrivacyLevel::Public)
        } else if n == 2 {
            Some(PrivacyLevel::GuildOnly)
        } else {
            None
        }
    }
}

impl FromJson for PrivacyLevel {
    open spec fn readable(j: Json) -> bool {
        j.as_u64() is Some && PrivacyLevel::of_number(j.as_u64().unwrap()) is Some
    }

    open spec fn read_from(&self, j: Json) -> bool {
        j.as_u64() is Some && PrivacyLevel::of_number(j.as_u64().unwrap()) == Some(*self)
    }

    fn from_json(v: &serde_json::Value) -> (r: Option<PrivacyLevel>) {
        match json_as_u64(v) {
            Some(n) => PrivacyLevel::from_number(n),
            None => None,
        }
    }
}

/// What kind of value an option of a command takes.
#[derive(Debug, Clone, Copy, PartialEq, Eq, Structural)]
pub enum ApplicationCommandOptionType {
    SubCommand,
    SubCommandGroup,
    String,
    Integer,
    Boolean,
    User,
    Channel,
    Role,
    Mentionable,
}

impl ApplicationCommandOptionType {
    /// The number of the variant on the wire.
    pub open spec fn number(self) -> u64 {
        match self {
            ApplicationCommandOptionType::SubCommand => 1,
            ApplicationCommandOptionType::SubCommandGroup => 2,
            ApplicationCommandOptionType::String => 3,
            ApplicationCommandOptionType::Integer => 4,
            ApplicationCommandOptionType::Boolean => 5,
            ApplicationCommandOptionType::User => 6,
            ApplicationCommandOptionType::Channel => 7,
            ApplicationCommandOptionType::Role => 8,
            ApplicationCommandOptionType::Mentionable => 9,
        }
    }

    /// The variant with the given number on the wire, if there is one.
    pub open spec fn of_number(n: u64) -> Option<ApplicationCommandOptionType> {
        if n == 1 {
            Some(ApplicationCommandOptionType::SubCommand)
        } else if n == 2 {
            Some(ApplicationCommandOptionType::SubCommandGroup)
        } else if n == 3 {
            Some(ApplicationCommandOptionType::String)
        } else if n == 4 {
            Some(ApplicationCommandOptionType::Integer)
        } else if n == 5 {
            Some(ApplicationCommandOptionType::Boolean)
        } else if n == 6 {
            Some(ApplicationCommandOptionType::User)
        } else if n == 7 {
            Some(ApplicationCommandOptionType::Channel)
        } else if n == 8 {
            Some(ApplicationCommandOptionType::Role)
        } else if n == 9 {
            Some(ApplicationCommandOptionType::Mentionable)
        } else {
            None
        }
    }

    /// The number of the variant on the wire.
    pub fn to_number(&self) -> (r: u64)
        ensures
            r == self.number(),
    {
        match self {
            ApplicationCommandOptionType::SubCommand => 1,
            ApplicationCommandOptionType::SubCommandGroup => 2,
            ApplicationCommandOptionType::String => 3,
            ApplicationCommandOptionType::Integer => 4,
            ApplicationCommandOptionType::Boolean => 5,
            ApplicationCommandOptionType::User => 6,
            ApplicationCommandOptionType::Channel => 7,
            ApplicationCommandOptionType::Role => 8,
            ApplicationCommandOptionType::Mentionable => 9,
        }
    }

    /// The variant with the given number on the wire.
    pub fn from_number(n: u64) -> (r: Option<ApplicationCommandOptionType>)
        ensures
            r == ApplicationCommandOptionType::of_number(n),
    {
        if n == 1 {
            Some(ApplicationCommandOptionType::SubCommand)
        } else if n == 2 {
            Some(ApplicationCommandOptionType::SubCommandGroup)
        } else if n == 3 {
            Some(ApplicationCommandOptionType::String)
        } else if n == 4 {
            Some(ApplicationCommandOptionType::Integer)
        } else if n == 5 {
            Some(ApplicationCommandOptionType::Boolean)
        } else if n == 6 {
            Some(ApplicationCommandOptionType::User)
        } else if n == 7 {
            Some(ApplicationCommandOptionType::Channel)
        } else if n == 8 {
            Some(ApplicationCommandOptionType::Role)
        } else if n == 9 {
            Some(ApplicationCommandOptionType::Mentionable)
        } else {
            None
        }
    }
}

impl FromJson for ApplicationCommandOptionType {
    open spec fn readable(j: Json) -> bool {
        j.as_u64() is Some && ApplicationCommandOptionType::of_number(j.as_u64().unwrap()) is Some
    }

    open spec fn read_from(&self, j: Json) -> bool {
        j.as_u64() is Some && ApplicationCommandOptionType::of_number(j.as_u64().unwrap()) == Some(*self)
    }

    fn from_json(v: &serde_json::Value) -> (r: Option<ApplicationCommandOptionType>) {
        match json_as_u64(v) {
            Some(n) => ApplicationCommandOptionType::from_number(n),
            None => None,
        }
    }
}

/// What kind of channel a channel is.
#[derive(Debug, Clone, Copy, PartialEq, Eq, Structural)]
pub enum ChannelType {
    GuildText,
    DirectMessage,
    GuildVoice,
    GroupDm,
    GuildCategory,
    GuildNews,
    GuildStore,
    GuildNewsThread,
    GuildPublicThread,
    GuildPrivateThread,
    GuildStageVoice,
}

impl ChannelType {
    /// The number of the variant on the wire.
    pub open spec fn number(self) -> u64 {
        match self {
            ChannelType::GuildText => 0,
            ChannelType::DirectMessage => 1,
            ChannelType::GuildVoice => 2,
            ChannelType::GroupDm => 3,
            ChannelType::GuildCategory => 4,
            ChannelType::GuildNews => 5,
            ChannelType::GuildStore => 6,
            ChannelType::GuildNewsThread => 10,
            ChannelType::GuildPublicThread => 11,
            ChannelType::GuildPrivateThread => 12,
            ChannelType::GuildStageVoice => 13,
        }
    }

    /// The variant with the given number on the wire, if there is one.
    pub open spec fn of_number(n: u64) -> Option<ChannelType> {
        if n == 0 {
            Some(ChannelType::GuildText)
        } else if n == 1 {
            Some(ChannelType::DirectMessage)
        } else if n == 2 {
            Some(ChannelType::GuildVoice)
        } else if n == 3 {
            Some(ChannelType::GroupDm)
        } else if n == 4 {
            Some(ChannelType::GuildCategory)
        } else if n == 5 {
            Some(ChannelType::GuildNews)
        } else if n == 6 {
            Some(ChannelType::GuildStore)
        } else if n == 10 {
            Some(ChannelType::GuildNewsThread)
        } else if n == 11 {
            Some(ChannelType::GuildPublicThread)
        } else if n == 12 {
            Some(ChannelType::GuildPrivateThread)
        } else if n == 13 {
            Some(ChannelType::GuildStageVoice)
        } else {
            None
        }
    }

    /// The number of the variant on the wire.
    pub fn to_number(&self) -> (r: u64)
        ensures
            r == self.number(),
    {
        match self {
            ChannelType::GuildText => 0,
            ChannelType::DirectMessage => 1,
            ChannelType::GuildVoice => 2,
            ChannelType::GroupDm => 3,
            ChannelType::GuildCategory => 4,
            ChannelType::GuildNews => 5,
            ChannelType::GuildStore => 6,
            ChannelType::GuildNewsThread => 10,
            ChannelType::GuildPublicThread => 11,
            ChannelType::GuildPrivateThread => 12,
            ChannelType::GuildStageVoice => 13,
        }
    }

    /// The variant with the given number on the wire.
    pub fn from_number(n: u64) -> (r: Option<ChannelType>)
        ensures
            r == ChannelType::of_number(n),
    {
        if n == 0 {
            Some(ChannelType::GuildText)
        } else if n == 1 {
            Some(ChannelType::DirectMessage)
        } else if n == 2 {
            Some(ChannelType::GuildVoice)
        } else if n == 3 {
            Some(ChannelType::GroupDm)
        } else if n == 4 {
            Some(ChannelType::GuildCategory)
        } else if n == 5 {
            Some(ChannelType::GuildNews)
        } else if n == 6 {
            Some(ChannelType::GuildStore)
        } else if n == 10 {
            Some(ChannelType::GuildNewsThread)
        } else if n == 11 {
            Some(ChannelType::GuildPublicThread)
        } else if n == 12 {
            Some(ChannelType::GuildPrivateThread)
        } else if n == 13 {
            Some(ChannelType::GuildStageVoice)
        } else {
            None
        }
    }
}

impl FromJson for ChannelType {
    open spec fn readable(j: Json) -> bool {
        j.as_u64() is Some && ChannelType::of_number(j.as_u64().unwrap()) is Some
    }

    open spec fn read_from(&self, j: Json) -> bool {
        j.as_u64() is Some && ChannelType::of_number(j.as_u64().unwrap()) == Some(*self)
    }

    fn from_json(v: &serde_json::Value) -> (r: Option<ChannelType>) {
        match json_as_u64(v) {
            Some(n) => ChannelType::from_number(n),
            None => None,
        }
    }
}

/// What kind of message a message is.
#[derive(Debug, Clone, Copy, PartialEq, Eq, Structural)]
pub enum MessageType {
    Default,
    RecipientAdd,
    RecipientRemove,
    Call,
    ChannelnameChange,
    ChannelIconChange,
    ChannePinnedMessage,
    GuildMemberJoin,
    UserPremiumGuildSubscription,
    UserPremiumGuildSubscriptionTier1,
    UserPremiumGuildSubscriptionTier2,
    UserPremiumGuildSubscriptionTier3,
    ChannelFollowAdd,
    GuildDiscoveryDisqualified,
    GuildDiscoveryRequalified,
    GuildDiscoveryGracePeriodInitialWarning,
    GuildDiscoveryGracePeriodFinalWarning,
    ThreadCreated,
    Reply,
    ApplicationCommand,
    ThreadStarterMessage,
    GuildInviteReminder,
}

impl MessageType {
    /// The number of the variant on the wire.
    pub open spec fn number(self) -> u64 {
        match self {
            MessageType::Default => 0,
            MessageType::RecipientAdd => 1,
            MessageType::RecipientRemove => 2,
            MessageType::Call => 3,
            MessageType::ChannelnameChange => 4,
            MessageType::ChannelIconChange => 5,
            MessageType::ChannePinnedMessage => 6,
            MessageType::GuildMemberJoin => 7,
            MessageType::UserPremiumGuildSubscription => 8,
            MessageType::UserPremiumGuildSubscriptionTier1 => 9,
            MessageType::UserPremiumGuildSubscriptionTier2 => 10,
            MessageType::UserPremiumGuildSubscriptionTier3 => 11,
            MessageType::ChannelFollowAdd => 12,
            MessageType::GuildDiscoveryDisqualified => 14,
            MessageType::GuildDiscoveryRequalified => 15,
            MessageType::GuildDiscoveryGracePeriodInitialWarning => 16,
            MessageType::GuildDiscoveryGracePeriodFinalWarning => 17,
            MessageType::ThreadCreated => 18,
            MessageType::Reply => 19,
            MessageType::ApplicationCommand => 20,
            MessageType::ThreadStarterMessage => 21,
            MessageType::GuildInviteReminder => 22,
        }
    }

    /// The variant with the given number on the wire, if there is one.
    pub open spec fn of_number(n: u64) -> Option<MessageType> {
        if n == 0 {
            Some(MessageType::Default)
        } else if n == 1 {
            Some(MessageType::RecipientAdd)
        } else if n == 2 {
            Some(MessageType::RecipientRemove)
        } else if n == 3 {
            Some(MessageType::Call)
        } else if n == 4 {
            Some(MessageType::ChannelnameChange)
        } else if n == 5 {
            Some(MessageType::ChannelIconChange)
        } else if n == 6 {
            Some(MessageType::ChannePinnedMessage)
        } else if n == 7 {
            Some(MessageType::GuildMemberJoin)
        } else if n == 8 {
            Some(MessageType::UserPremiumGuildSubscription)
        } else if n == 9 {
            Some(MessageType::UserPremiumGuildSubscriptionTier1)
        } else if n == 10 {
            Some(MessageType::UserPremiumGuildSubscriptionTier2)
        } else if n == 11 {
            Some(MessageType::UserPremiumGuildSubscriptionTier3)
        } else if n == 12 {
            Some(MessageType::ChannelFollowAdd)
        } else if n == 14 {
            Some(MessageType::GuildDiscoveryDisqualified)
        } else if n == 15 {
            Some(MessageType::GuildDiscoveryRequalified)
        } else if n == 16 {
            Some(MessageType::GuildDiscoveryGracePeriodInitialWarning)
        } else if n == 17 {
            Some(MessageType::GuildDiscoveryGracePeriodFinalWarning)
        } else if n == 18 {
            Some(MessageType::ThreadCreated)
        } else if n == 19 {
            Some(MessageType::Reply)
        } else if n == 20 {
            Some(MessageType::ApplicationCommand)
        } else if n == 21 {
            Some(MessageType::ThreadStarterMessage)
        } else if n == 22 {
            Some(MessageType::GuildInviteReminder)
        } else {
            None
        }
    }

    /// The number of the variant on the wire.
    pub fn to_number(&self) -> (r: u64)
        ensures
            r == self.number(),
    {
        match self {
            MessageType::Default => 0,
            MessageType::RecipientAdd => 1,
            MessageType::RecipientRemove => 2,
            MessageType::Call => 3,
            MessageType::ChannelnameChange => 4,
            MessageType::ChannelIconChange => 5,
            MessageType::ChannePinnedMessage => 6,
            MessageType::GuildMemberJoin => 7,
            MessageType::UserPremiumGuildSubscription => 8,
            MessageType::UserPremiumGuildSubscriptionTier1 => 9,
            MessageType::UserPremiumGuildSubscriptionTier2 => 10,
            MessageType::UserPremiumGuildSubscriptionTier3 => 11,
            MessageType::ChannelFollowAdd => 12,
            MessageType::GuildDiscoveryDisqualified => 14,
            MessageType::GuildDiscoveryRequalified => 15,
            MessageType::GuildDiscoveryGracePeriodInitialWarning => 16,
            MessageType::GuildDiscoveryGracePeriodFinalWarning => 17,
            MessageType::ThreadCreated => 18,
            MessageType::Reply => 19,
            MessageType::ApplicationCommand => 20,
            MessageType::ThreadStarterMessage => 21,
            MessageType::GuildInviteReminder => 22,
        }
    }

    /// The variant with the given number on the wire.
    pub fn from_number(n: u64) -> (r: Option<MessageType>)
        ensures
            r == MessageType::of_number(n),
    {
        if n == 0 {
            Some(MessageType::Default)
        } else if n == 1 {
            Some(MessageType::RecipientAdd)
        } else if n == 2 {
            Some(MessageType::RecipientRemove)
        } else if n == 3 {
            Some(MessageType::Call)
        } else if n == 4 {
            Some(MessageType::ChannelnameChange)
        } else if n == 5 {
            Some(MessageType::ChannelIconChange)
        } else if n == 6 {
            Some(MessageType::ChannePinnedMessage)
        } else if n == 7 {
            Some(MessageType::GuildMemberJoin)
        } else if n == 8 {
            Some(MessageType::UserPremiumGuildSubscription)
        } else if n == 9 {
            Some(MessageType::UserPremiumGuildSubscriptionTier1)
        } else if n == 10 {
            Some(MessageType::UserPremiumGuildSubscriptionTier2)
        } else if n == 11 {
            Some(MessageType::UserPremiumGuildSubscriptionTier3)
        } else if n == 12 {
            Some(MessageType::ChannelFollowAdd)
        } else if n == 14 {
            Some(MessageType::GuildDiscoveryDisqualified)
        } else if n == 15 {
            Some(MessageType::GuildDiscoveryRequalified)
        } else if n == 16 {
            Some(MessageType::GuildDiscoveryGracePeriodInitialWarning)
        } else if n == 17 {
            Some(MessageType::GuildDiscoveryGracePeriodFinalWarning)
        } else if n == 18 {
            Some(MessageType::ThreadCreated)
        } else if n == 19 {
            Some(MessageType::Reply)
        } else if n == 20 {
            Some(MessageType::ApplicationCommand)
        } else if n == 21 {
            Some(MessageType::ThreadStarterMessage)
        } else if n == 22 {
            Some(MessageType::GuildInviteReminder)
        } else {
            None
        }
    }
}

impl FromJson for MessageType {
    open spec fn readable(j: Json) -> bool {
        j.as_u64() is Some && MessageType::of_number(j.as_u64().unwrap()) is Some
    }

    open spec fn read_from(&self, j: Json) -> bool {
        j.as_u64() is Some && MessageType::of_number(j.as_u64().unwrap()) == Some(*self)
    }

    fn from_json(v: &serde_json::Value) -> (r: Option<MessageType>) {
        match json_as_u64(v) {
            Some(n) => MessageType::from_number(n),
            None => None,
        }
    }
}

/// Flags that say what an activity's payload includes.
#[derive(Debug, Clone, Copy, PartialEq, Eq, Structural)]
pub struct ActivityFlags {
    pub bits: u32,
}

impl ActivityFlags {
    pub const INSTANCE: u32 = 0x1;

    pub const JOIN: u32 = 0x2;

    pub const SPECTATE: u32 = 0x4;

    pub const JOIN_REQUEST: u32 = 0x8;

    pub const SYNC: u32 = 0x10;

    pub const PLAY: u32 = 0x20;

    /// Every flag that is defined.
    pub const ALL: u32 = 0x3F;

    /// The flags that a number writes; bits that stand for no flag are
    /// dropped.
    pub fn from_bits_truncate(bits: u32) -> (r: ActivityFlags)
        ensures
            r.bits == bits & ActivityFlags::ALL,
    {
        ActivityFlags { bits: bits & ActivityFlags::ALL }
    }

    /// The flags as a number.
    pub fn bits(&self) -> (r: u32)
        ensures
            r == self.bits,
    {
        self.bits
    }
}

impl FromJson for ActivityFlags {
    open spec fn readable(j: Json) -> bool {
        j.as_u64() is Some && j.as_u64().unwrap() <= u32::MAX
    }

    open spec fn read_from(&self, j: Json) -> bool {
        j.as_u64() is Some && j.as_u64().unwrap() <= u32::MAX && self.bits == (
        j.as_u64().unwrap() as u32) & ActivityFlags::ALL
    }

    fn from_json(v: &serde_json::Value) -> (r: Option<ActivityFlags>) {
        match json_as_u64(v) {
            Some(n) => if n <= u32::MAX as u64 {
                Some(ActivityFlags::from_bits_truncate(n as u32))
            } else {
                None
            },
            None => None,
        }
    }
}

/// Flags of a message.
#[derive(Debug, Clone, Copy, PartialEq, Eq, Structural)]
pub struct MessageFlags {
    pub bits: u32,
}

impl MessageFlags {
    /// The message has been published to subscribed channels.
    pub const CROSSPOSTED: u32 = 0x1;

    /// The message originated from a message in another channel.
    pub const IS_CROSSPOST: u32 = 0x2;

    /// Embeds are left out when the message is written.
    pub const SUPPRESS_EMBEDS: u32 = 0x4;

    /// The source message of this crosspost has been deleted.
    pub const SOURCE_MESSAGE_DELETED: u32 = 0x8;

    /// The message came from the urgent message system.
    pub const URGENT: u32 = 0x10;

    /// The message has a thread, with the same identifier as the message.
    pub const HAS_THREAD: u32 = 0x20;

    /// The message is only visible to the user who invoked the interaction.
    pub const EPHEMERAL: u32 = 0x40;

    /// The message is an answer to an interaction, and the bot is thinking.
    pub const LOADING: u32 = 0x80;

    /// Every flag that is defined.
    pub const ALL: u32 = 0xFF;

    /// The flags that a number writes; bits that stand for no flag are
    /// dropped.
    pub fn from_bits_truncate(bits: u32) -> (r: MessageFlags)
        ensures
            r.bits == bits & MessageFlags::ALL,
    {
        MessageFlags { bits: bits & MessageFlags::ALL }
    }

    /// The flags as a number.
    pub fn bits(&self) -> (r: u32)
        ensures
            r == self.bits,
    {
        self.bits
    }
}

impl FromJson for MessageFlags {
    open spec fn readable(j: Json) -> bool {
        j.as_u64() is Some && j.as_u64().unwrap() <= u32::MAX
    }

    open spec fn read_from(&self, j: Json) -> bool {
        j.as_u64() is Some && j.as_u64().unwrap() <= u32::MAX && self.bits == (
        j.as_u64().unwrap() as u32) & MessageFlags::ALL
    }

    fn from_json(v: &serde_json::Value) -> (r: Option<MessageFlags>) {
        match json_as_u64(v) {
            Some(n) => if n <= u32::MAX as u64 {
                Some(MessageFlags::from_bits_truncate(n as u32))
            } else {
                None
            },
            None => None,
        }
    }
}

/// Public flags of an application.
#[derive(Debug, Clone, Copy, PartialEq, Eq, Structural)]
pub struct ApplicationFlags {
    pub bits: u32,
}

impl ApplicationFlags {
    pub const GATEWAY_PRESENCE: u32 = 0x1000;

    pub const GATEWAY_PRESENCE_LIMITED: u32 = 0x2000;

    pub const GATEWAY_GUILD_MEMBERS: u32 = 0x4000;

    pub const GATEWAY_GUILD_MEMBERS_LIMITED: u32 = 0x8000;

    pub const VERIFICATION_PENDING_GUILD_LIMIT: u32 = 0x10000;

    pub const EMBEDDED: u32 = 0x20000;

    /// Every flag that is defined.
    pub const ALL: u32 = 0x3F000;

    /// The flags that a number writes; bits that stand for no flag are
    /// dropped.
    pub fn from_bits_truncate(bits: u32) -> (r: ApplicationFlags)
        ensures
            r.bits == bits & ApplicationFlags::ALL,
    {
        ApplicationFlags { bits: bits & ApplicationFlags::ALL }
    }

    /// The flags as a number.
    pub fn bits(&self) -> (r: u32)
        ensures
            r == self.bits,
    {
        self.bits
    }
}

impl FromJson for ApplicationFlags {
    open spec fn readable(j: Json) -> bool {
        j.as_u64() is Some && j.as_u64().unwrap() <= u32::MAX
    }

    open spec fn read_from(&self, j: Json) -> bool {
        j.as_u64() is Some && j.as_u64().unwrap() <= u32::MAX && self.bits == (
        j.as_u64().unwrap() as u32) & ApplicationFlags::ALL
    }

    fn from_json(v: &serde_json::Value) -> (r: Option<ApplicationFlags>) {
        match json_as_u64(v) {
            Some(n) => if n <= u32::MAX as u64 {
                Some(ApplicationFlags::from_bits_truncate(n as u32))
            } else {
                None
            },
            None => None,
        }
    }
}

/// A set of permissions. It travels as a decimal string.
#[derive(Debug, Clone, Copy, PartialEq, Eq, Structural)]
pub struct Permissions {
    pub bits: u64,
}

impl Permissions {
    /// Allows creation of instant invites.
    pub const CREATE_INSTANT_INVITE: u64 = 0x1;

    /// Allows kicking members.
    pub const KICK_MEMBERS: u64 = 0x2;

    /// Allows banning members.
    pub const BAN_MEMBERS: u64 = 0x4;

    /// Allows all permissions and bypasses channel permission overwrites.
    pub const ADMINISTRATOR: u64 = 0x8;

    /// Allows management and editing of channels.
    pub const MANAGE_CHANNELS: u64 = 0x10;

    /// Allows management and editing of the guild.
    pub const MANAGE_GUILD: u64 = 0x20;

    /// Allows for the addition of reactions to messages.
    pub const ADD_REACTIONS: u64 = 0x40;

    /// Allows for viewing of audit logs.
    pub const VIEW_AUDIT_LOG: u64 = 0x80;

    /// Allows for using priority speaker in a voice channel.
    pub const PRIORITY_SPEAKER: u64 = 0x100;

    /// Allows guild members to view a channel.
    pub const VIEW_CHANNEL: u64 = 0x400;

    /// Allows for sending messages in a channel.
    pub const SEND_MESSAGES: u64 = 0x800;

    /// Allows for sending of text-to-speech messages.
    pub const SEND_TTS_MESSAGES: u64 = 0x1000;

    /// Allows for deletion of the messages of other users.
    pub const MANAGE_MESSAGES: u64 = 0x2000;

    /// Links sent by users with this permission are embedded.
    pub const EMBED_LINKS: u64 = 0x4000;

    /// Allows for uploading images and files.
    pub const ATTACH_FILES: u64 = 0x8000;

    /// Allows for reading of message history.
    pub const READ_MESSAGE_HISTORY: u64 = 0x10000;

    /// Allows for notifying all users in a channel.
    pub const MENTION_EVERYONE: u64 = 0x20000;

    /// Allows the usage of custom emojis from other servers.
    pub const USE_EXTERNAL_EMOJIS: u64 = 0x40000;

    /// Allows for joining of a voice channel.
    pub const CONNECT: u64 = 0x100000;

    /// Allows for speaking in a voice channel.
    pub const SPEAK: u64 = 0x200000;

    /// Allows for muting members in a voice channel.
    pub const MUTE_MEMBERS: u64 = 0x400000;

    /// Allows for deafening of members in a voice channel.
    pub const DEAFEN_MEMBERS: u64 = 0x800000;

    /// Allows for moving of members between voice channels.
    pub const MOVE_MEMBERS: u64 = 0x1000000;

    /// Allows for using voice activity detection in a voice channel.
    pub const USE_VAD: u64 = 0x2000000;

    /// Allows for modification of the own nickname.
    pub const CHANGE_NICK_NAME: u64 = 0x4000000;

    /// Allows for modification of the nicknames of other users.
    pub const MANAGE_NICK_NAMES: u64 = 0x8000000;

    /// Allows management and editing of roles.
    pub const MANAGE_ROLES: u64 = 0x10000000;

    /// Allows management and editing of webhooks.
    pub const MANAGE_WEB_HOOKS: u64 = 0x20000000;

    /// Allows management and editing of emojis.
    pub const MANAGE_EMOJIS: u64 = 0x40000000;

    /// Every permission that is defined.
    pub const ALL: u64 = 0x7FF7FDFF;

    /// The permissions that a number writes; bits that stand for no
    /// permission are dropped.
    pub fn from_bits_truncate(bits: u64) -> (r: Permissions)
        ensures
            r.bits == bits & Permissions::ALL,
    {
        Permissions { bits: bits & Permissions::ALL }
    }

    /// The permissions as a number.
    pub fn bits(&self) -> (r: u64)
        ensures
            r == self.bits,
    {
        self.bits
    }
}

impl FromJson for Permissions {
    open spec fn readable(j: Json) -> bool {
        json_id(j) is Some
    }

    open spec fn read_from(&self, j: Json) -> bool {
        json_id(j) is Some && self.bits == json_id(j).unwrap() & Permissions::ALL
    }

    fn from_json(v: &serde_json::Value) -> (r: Option<Permissions>) {
        match id_of(v) {
            Some(n) => Some(Permissions::from_bits_truncate(n)),
            None => None,
        }
    }
}

/// The status that a name on the wire stands for.
pub open spec fn status_of(name: Seq<char>) -> Option<Status> {
    if name == "online"@ {
        Some(Status::Online)
    } else if name == "dnd"@ {
        Some(Status::DoNotDisturb)
    } else if name == "idle"@ {
        Some(Status::AFK)
    } else if name == "invisible"@ {
        Some(Status::Invisible)
    } else if name == "offline"@ {
        Some(Status::Offline)
    } else {
        None
    }
}

impl Status {
    /// The status that a name on the wire stands for.
    pub fn from_name(name: &str) -> (r: Option<Status>)
        ensures
            r == status_of(name@),
    {
        if str_eq(name, "online") {
            Some(Status::Online)
        } else if str_eq(name, "dnd") {
            Some(Status::DoNotDisturb)
        } else if str_eq(name, "idle") {
            Some(Status::AFK)
        } else if str_eq(name, "invisible") {
            Some(Status::Invisible)
        } else if str_eq(name, "offline") {
            Some(Status::Offline)
        } else {
            None
        }
    }
}

impl FromJson for Status {
    open spec fn readable(j: Json) -> bool {
        j.as_str() is Some && status_of(j.as_str().unwrap()) is Some
    }

    open spec fn read_from(&self, j: Json) -> bool {
        j.as_str() is Some && status_of(j.as_str().unwrap()) == Some(*self)
    }

    fn from_json(v: &serde_json::Value) -> (r: Option<Status>) {
        match json_as_str(v) {
            Some(name) => Status::from_name(name),
            None => None,
        }
    }
}

/// The size of a party: how many are in it, and how many it takes. It
/// travels as an array of two numbers.
impl FromJson for (u64, u64) {
    open spec fn readable(j: Json) -> bool {
        &&& j.as_array() is Some
        &&& j.as_array().unwrap().len() == 2
        &&& j.as_array().unwrap()[0].as_u64() is Some
        &&& j.as_array().unwrap()[1].as_u64() is Some
    }

    open spec fn read_from(&self, j: Json) -> bool {
        &&& j.as_array() is Some
        &&& j.as_array().unwrap().len() == 2
        &&& j.as_array().unwrap()[0].as_u64() == Some(self.0)
        &&& j.as_array().unwrap()[1].as_u64() == Some(self.1)
    }

    fn from_json(v: &serde_json::Value) -> (r: Option<(u64, u64)>) {
        match json_as_array(v) {
            Some(items) => {
                if items.len() != 2 {
                    return None;
                }
                assert(json_views(items@)[0] == json_view(items@[0]));
                assert(json_views(items@)[1] == json_view(items@[1]));
                match (json_as_u64(&items[0]), json_as_u64(&items[1])) {
                    (Some(a), Some(b)) => Some((a, b)),
                    _ => None,
                }
            },
            None => None,
        }
    }
}

impl FromJson for Timestamps {
    open spec fn readable(j: Json) -> bool {
        &&& j is Object
        &&& opt_field_readable::<u64>(j, "start"@)
        &&& opt_field_readable::<u64>(j, "end"@)
    }

    open spec fn read_from(&self, j: Json) -> bool {
        &&& j is Object
        &&& opt_field_read(self.start, j, "start"@)
        &&& opt_field_read(self.end, j, "end"@)
    }

    fn from_json(json: &serde_json::Value) -> (r: Option<Timestamps>) {
        if !json_is_object(json) {
            return None;
        }
        let start = get_opt_object::<u64>(json, "start")?;
        let end = get_opt_object::<u64>(json, "end")?;
        Some(Timestamps { start, end })
    }
}

impl FromJson for Party {
    open spec fn readable(j: Json) -> bool {
        &&& j is Object
        &&& opt_field_readable::<String>(j, "id"@)
        &&& opt_field_readable::<(u64, u64)>(j, "size"@)
    }

    open spec fn read_from(&self, j: Json) -> bool {
        &&& j is Object
        &&& opt_field_read(self.id, j, "id"@)
        &&& opt_field_read(self.size, j, "size"@)
    }

    fn from_json(json: &serde_json::Value) -> (r: Option<Party>) {
        if !json_is_object(json) {
            return None;
        }
        let id = get_opt_object::<String>(json, "id")?;
        let size = get_opt_object::<(u64, u64)>(json, "size")?;
        Some(Party { id, size })
    }
}

impl FromJson for Assets {
    open spec fn readable(j: Json) -> bool {
        &&& j is Object
        &&& opt_field_readable::<String>(j, "large_image"@)
        &&& opt_field_readable::<String>(j, "large_text"@)
        &&& opt_field_readable::<String>(j, "small_image"@)
        &&& opt_field_readable::<String>(j, "small_text"@)
    }

    open spec fn read_from(&self, j: Json) -> bool {
        &&& j is Object
        &&& opt_field_read(self.large_image, j, "large_image"@)
        &&& opt_field_read(self.large_text, j, "large_text"@)
        &&& opt_field_read(self.small_image, j, "small_image"@)
        &&& opt_field_read(self.small_text, j, "small_text"@)
    }

    fn from_json(json: &serde_json::Value) -> (r: Option<Assets>) {
        if !json_is_object(json) {
            return None;
        }
        let large_image = get_opt_object::<String>(json, "large_image")?;
        let large_text = get_opt_object::<String>(json, "large_text")?;
        let small_image = get_opt_object::<String>(json, "small_image")?;
        let small_text = get_opt_object::<String>(json, "small_text")?;
        Some(Assets { large_image, large_text, small_image, small_text })
    }
}

impl FromJson for ActivitySecrets {
    open spec fn readable(j: Json) -> bool {
        &&& j is Object
        &&& opt_field_readable::<String>(j, "join"@)
        &&& opt_field_readable::<String>(j, "spectate"@)
        &&& opt_field_readable::<String>(j, "match"@)
    }

    open spec fn read_from(&self, j: Json) -> bool {
        &&& j is Object
        &&& opt_field_read(self.join, j, "join"@)
        &&& opt_field_read(self.spectate, j, "spectate"@)
        &&& opt_field_read(self.match_secret, j, "match"@)
    }

    fn from_json(json: &serde_json::Value) -> (r: Option<ActivitySecrets>) {
        if !json_is_object(json) {
            return None;
        }
        let join = get_opt_object::<String>(json, "join")?;
        let spectate = get_opt_object::<String>(json, "spectate")?;
        let match_secret = get_opt_object::<String>(json, "match")?;
        Some(ActivitySecrets { join, spectate, match_secret })
    }
}

impl FromJson for Activity {
    open spec fn readable(j: Json) -> bool {
        &&& j is Object
        &&& field_readable::<String>(j, "name"@)
        &&& field_readable::<ActivityType>(j, "type"@)
        &&& opt_field_readable::<String>(j, "url"@)
        &&& opt_field_readable::<Timestamps>(j, "timestamps"@)
        &&& opt_field_readable::<ApplicationId>(j, "application_id"@)
        &&& opt_field_readable::<String>(j, "details"@)
        &&& opt_field_readable::<String>(j, "state"@)
        &&& opt_field_readable::<Party>(j, "party"@)
        &&& opt_field_readable::<Assets>(j, "assets"@)
        &&& opt_field_readable::<ActivitySecrets>(j, "secrets"@)
        &&& opt_field_readable::<bool>(j, "instance"@)
        &&& opt_field_readable::<ActivityFlags>(j, "flags"@)
    }

    open spec fn read_from(&self, j: Json) -> bool {
        &&& j is Object
        &&& field_read(self.name, j, "name"@)
        &&& field_read(self.typ, j, "type"@)
        &&& opt_field_read(self.url, j, "url"@)
        &&& opt_field_read(self.timestamps, j, "timestamps"@)
        &&& opt_field_read(self.application_id, j, "application_id"@)
        &&& opt_field_read(self.details, j, "details"@)
        &&& opt_field_read(self.state, j, "state"@)
        &&& opt_field_read(self.party, j, "party"@)
        &&& opt_field_read(self.assets, j, "assets"@)
        &&& opt_field_read(self.secrets, j, "secrets"@)
        &&& opt_field_read(self.instance, j, "instance"@)
        &&& opt_field_read(self.flags, j, "flags"@)
    }

    fn from_json(json: &serde_json::Value) -> (r: Option<Activity>) {
        if !json_is_object(json) {
            return None;
        }
        let name = get_object::<String>(json, "name")?;
        let typ = get_object::<ActivityType>(json, "type")?;
        let url = get_opt_object::<String>(json, "url")?;
        let timestamps = get_opt_object::<Timestamps>(json, "timestamps")?;
        let application_id = get_opt_object::<ApplicationId>(json, "application_id")?;
        let details = get_opt_object::<String>(json, "details")?;
        let state = get_opt_object::<String>(json, "state")?;
        let party = get_opt_object::<Party>(json, "party")?;
        let assets = get_opt_object::<Assets>(json, "assets")?;
        let secrets = get_opt_object::<ActivitySecrets>(json, "secrets")?;
        let instance = get_opt_object::<bool>(json, "instance")?;
        let flags = get_opt_object::<ActivityFlags>(json, "flags")?;
        Some(
            Activity {
                name,
                typ,
                url,
                timestamps,
                application_id,
                details,
                state,
                party,
                assets,
                secrets,
                instance,
                flags,
            },
        )
    }
}

/// A guild of which only the identifier is known yet.
#[derive(Debug, Clone, Copy, PartialEq, Eq, Structural)]
pub struct UnavailableGuild {
    pub id: GuildId,
    pub unavailable: bool,
}

impl FromJson for UnavailableGuild {
    open spec fn readable(j: Json) -> bool {
        &&& j is Object
        &&& field_readable::<GuildId>(j, "id"@)
        &&& field_readable::<bool>(j, "unavailable"@)
    }

    open spec fn read_from(&self, j: Json) -> bool {
        &&& j is Object
        &&& field_read(self.id, j, "id"@)
        &&& field_read(self.unavailable, j, "unavailable"@)
    }

    fn from_json(json: &serde_json::Value) -> (r: Option<UnavailableGuild>) {
        if !json_is_object(json) {
            return None;
        }
        let id = get_object::<GuildId>(json, "id")?;
        let unavailable = get_object::<bool>(json, "unavailable")?;
        Some(UnavailableGuild { id, unavailable })
    }
}

/// A user.
#[derive(Debug, Clone)]
pub struct User {
    pub id: UserId,
    /// The user's name, not unique across the platform.
    pub username: String,
    /// The user's four-digit tag.
    pub discriminator: String,
    /// The user's avatar hash.
    pub avatar: Option<String>,
    /// Whether the user belongs to an application.
    pub bot: Option<bool>,
    /// Whether the user has two factor authentication enabled.
    pub mfa_enabled: Option<bool>,
    /// Whether the email on this account has been verified.
    pub verified: Option<bool>,
    pub email: Option<String>,
}

impl FromJson for User {
    open spec fn readable(j: Json) -> bool {
        &&& j is Object
        &&& field_readable::<UserId>(j, "id"@)
        &&& field_readable::<String>(j, "username"@)
        &&& field_readable::<String>(j, "discriminator"@)
        &&& opt_field_readable::<String>(j, "avatar"@)
        &&& opt_field_readable::<bool>(j, "bot"@)
        &&& opt_field_readable::<bool>(j, "mfa_enabled"@)
        &&& opt_field_readable::<bool>(j, "verified"@)
        &&& opt_field_readable::<String>(j, "email"@)
    }

    open spec fn read_from(&self, j: Json) -> bool {
        &&& j is Object
        &&& field_read(self.id, j, "id"@)
        &&& field_read(self.username, j, "username"@)
        &&& field_read(self.discriminator, j, "discriminator"@)
        &&& opt_field_read(self.avatar, j, "avatar"@)
        &&& opt_field_read(self.bot, j, "bot"@)
        &&& opt_field_read(self.mfa_enabled, j, "mfa_enabled"@)
        &&& opt_field_read(self.verified, j, "verified"@)
        &&& opt_field_read(self.email, j, "email"@)
    }

    fn from_json(json: &serde_json::Value) -> (r: Option<User>) {
        if !json_is_object(json) {
            return None;
        }
        let id = get_object::<UserId>(json, "id")?;
        let username = get_object::<String>(json, "username")?;
        let discriminator = get_object::<String>(json, "discriminator")?;
        let avatar = get_opt_object::<String>(json, "avatar")?;
        let bot = get_opt_object::<bool>(json, "bot")?;
        let mfa_enabled = get_opt_object::<bool>(json, "mfa_enabled")?;
        let verified = get_opt_object::<bool>(json, "verified")?;
        let email = get_opt_object::<String>(json, "email")?;
        Some(User { id, username, discriminator, avatar, bot, mfa_enabled, verified, email })
    }
}

/// A user of whom only the identifier is sure to be known.
#[derive(Debug, Clone)]
pub struct PartialUser {
    pub id: UserId,
    pub username: Option<String>,
    pub discriminator: Option<String>,
    pub avatar: Option<String>,
    pub bot: Option<bool>,
    pub mfa_enabled: Option<bool>,
    pub verified: Option<bool>,
    pub email: Option<String>,
}

impl FromJson for PartialUser {
    open spec fn readable(j: Json) -> bool {
        &&& j is Object
        &&& field_readable::<UserId>(j, "id"@)
        &&& opt_field_readable::<String>(j, "username"@)
        &&& opt_field_readable::<String>(j, "discriminator"@)
        &&& opt_field_readable::<String>(j, "avatar"@)
        &&& opt_field_readable::<bool>(j, "bot"@)
        &&& opt_field_readable::<bool>(j, "mfa_enabled"@)
        &&& opt_field_readable::<bool>(j, "verified"@)
        &&& opt_field_readable::<String>(j, "email"@)
    }

    open spec fn read_from(&self, j: Json) -> bool {
        &&& j is Object
        &&& field_read(self.id, j, "id"@)
        &&& opt_field_read(self.username, j, "username"@)
        &&& opt_field_read(self.discriminator, j, "discriminator"@)
        &&& opt_field_read(self.avatar, j, "avatar"@)
        &&& opt_field_read(self.bot, j, "bot"@)
        &&& opt_field_read(self.mfa_enabled, j, "mfa_enabled"@)
        &&& opt_field_read(self.verified, j, "verified"@)
        &&& opt_field_read(self.email, j, "email"@)
    }

    fn from_json(json: &serde_json::Value) -> (r: Option<PartialUser>) {
        if !json_is_object(json) {
            return None;
        }
        let id = get_object::<UserId>(json, "id")?;
        let username = get_opt_object::<String>(json, "username")?;
        let discriminator = get_opt_object::<String>(json, "discriminator")?;
        let avatar = get_opt_object::<String>(json, "avatar")?;
        let bot = get_opt_object::<bool>(json, "bot")?;
        let mfa_enabled = get_opt_object::<bool>(json, "mfa_enabled")?;
        let verified = get_opt_object::<bool>(json, "verified")?;
        let email = get_opt_object::<String>(json, "email")?;
        Some(PartialUser { id, username, discriminator, avatar, bot, mfa_enabled, verified, email })
    }
}

/// A guild as the list of the guilds of a user shows it.
#[derive(Debug, Clone)]
pub struct PartialGuild {
    pub id: GuildId,
    /// Name of the guild, 2 to 100 characters.
    pub name: String,
    /// Icon hash.
    pub icon: Option<String>,
    /// Whether the user is the owner of the guild.
    pub owner: Option<bool>,
    /// Permissions of the user in the guild, without channel overwrites.
    pub permissions: Option<Permissions>,
}

impl FromJson for PartialGuild {
    open spec fn readable(j: Json) -> bool {
        &&& j is Object
        &&& field_readable::<GuildId>(j, "id"@)
        &&& field_readable::<String>(j, "name"@)
        &&& opt_field_readable::<String>(j, "icon"@)
        &&& opt_field_readable::<bool>(j, "owner"@)
        &&& opt_field_readable::<Permissions>(j, "permissions"@)
    }

    open spec fn read_from(&self, j: Json) -> bool {
        &&& j is Object
        &&& field_read(self.id, j, "id"@)
        &&& field_read(self.name, j, "name"@)
        &&& opt_field_read(self.icon, j, "icon"@)
        &&& opt_field_read(self.owner, j, "owner"@)
        &&& opt_field_read(self.permissions, j, "permissions"@)
    }

    fn from_json(json: &serde_json::Value) -> (r: Option<PartialGuild>) {
        if !json_is_object(json) {
            return None;
        }
        let id = get_object::<GuildId>(json, "id")?;
        let name = get_object::<String>(json, "name")?;
        let icon = get_opt_object::<String>(json, "icon")?;
        let owner = get_opt_object::<bool>(json, "owner")?;
        let permissions = get_opt_object::<Permissions>(json, "permissions")?;
        Some(PartialGuild { id, name, icon, owner, permissions })
    }
}

/// A permission overwrite of a channel.
#[derive(Debug, Clone, Copy, PartialEq, Eq, Structural)]
pub struct Overwrite {
    /// Role or user that the overwrite is for.
    pub id: Snowflake,
    pub typ: OverwriteType,
    /// The permissions that are granted; they travel as a decimal string.
    pub allow: u64,
    /// The permissions that are denied; they travel as a decimal string.
    pub deny: u64,
}

impl FromJson for Overwrite {
    open spec fn readable(j: Json) -> bool {
        &&& j is Object
        &&& field_readable::<Snowflake>(j, "id"@)
        &&& field_readable::<OverwriteType>(j, "type"@)
        &&& field_readable::<Decimal>(j, "allow"@)
        &&& field_readable::<Decimal>(j, "deny"@)
    }

    open spec fn read_from(&self, j: Json) -> bool {
        &&& j is Object
        &&& field_read(self.id, j, "id"@)
        &&& field_read(self.typ, j, "type"@)
        &&& field_read(Decimal(self.allow), j, "allow"@)
        &&& field_read(Decimal(self.deny), j, "deny"@)
    }

    fn from_json(json: &serde_json::Value) -> (r: Option<Overwrite>) {
        if !json_is_object(json) {
            return None;
        }
        let id = get_object::<Snowflake>(json, "id")?;
        let typ = get_object::<OverwriteType>(json, "type")?;
        let allow = get_object::<Decimal>(json, "allow")?.0;
        let deny = get_object::<Decimal>(json, "deny")?.0;
        Some(Overwrite { id, typ, allow, deny })
    }
}

/// A role of a guild.
#[derive(Debug, Clone)]
pub struct Role {
    pub id: RoleId,
    pub name: String,
    /// Colour code of the role.
    pub color: u32,
    /// Whether the role is shown apart in the list of users.
    pub hoist: bool,
    pub position: u64,
    pub permissions: Permissions,
    /// Whether the role is managed by an integration.
    pub managed: bool,
    pub mentionable: bool,
}

impl FromJson for Role {
    open spec fn readable(j: Json) -> bool {
        &&& j is Object
        &&& field_readable::<RoleId>(j, "id"@)
        &&& field_readable::<String>(j, "name"@)
        &&& field_readable::<u32>(j, "color"@)
        &&& field_readable::<bool>(j, "hoist"@)
        &&& field_readable::<u64>(j, "position"@)
        &&& field_readable::<Permissions>(j, "permissions"@)
        &&& field_readable::<bool>(j, "managed"@)
        &&& field_readable::<bool>(j, "mentionable"@)
    }

    open spec fn read_from(&self, j: Json) -> bool {
        &&& j is Object
        &&& field_read(self.id, j, "id"@)
        &&& field_read(self.name, j, "name"@)
        &&& field_read(self.color, j, "color"@)
        &&& field_read(self.hoist, j, "hoist"@)
        &&& field_read(self.position, j, "position"@)
        &&& field_read(self.permissions, j, "permissions"@)
        &&& field_read(self.managed, j, "managed"@)
        &&& field_read(self.mentionable, j, "mentionable"@)
    }

    fn from_json(json: &serde_json::Value) -> (r: Option<Role>) {
        if !json_is_object(json) {
            return None;
        }
        let id = get_object::<RoleId>(json, "id")?;
        let name = get_object::<String>(json, "name")?;
        let color = get_object::<u32>(json, "color")?;
        let hoist = get_object::<bool>(json, "hoist")?;
        let position = get_object::<u64>(json, "position")?;
        let permissions = get_object::<Permissions>(json, "permissions")?;
        let managed = get_object::<bool>(json, "managed")?;
        let mentionable = get_object::<bool>(json, "mentionable")?;
        Some(Role { id, name, color, hoist, position, permissions, managed, mentionable })
    }
}

/// An emoji.
#[derive(Debug, Clone)]
pub struct Emoji {
    pub id: Option<EmojiId>,
    /// Name of the emoji; missing only in reactions.
    pub name: Option<String>,
    /// Roles that may use the emoji.
    pub roles: Option<Vec<RoleId>>,
    /// The user that created the emoji.
    pub user: Option<User>,
    /// Whether the emoji must be wrapped in colons.
    pub require_colons: Option<bool>,
    pub managed: Option<bool>,
    pub animated: Option<bool>,
    /// Whether the emoji can be used.
    pub available: Option<bool>,
}

impl FromJson for Emoji {
    open spec fn readable(j: Json) -> bool {
        &&& j is Object
        &&& opt_field_readable::<EmojiId>(j, "id"@)
        &&& opt_field_readable::<String>(j, "name"@)
        &&& opt_list_field_readable::<RoleId>(j, "roles"@)
        &&& opt_field_readable::<User>(j, "user"@)
        &&& opt_field_readable::<bool>(j, "require_colons"@)
        &&& opt_field_readable::<bool>(j, "managed"@)
        &&& opt_field_readable::<bool>(j, "animated"@)
        &&& opt_field_readable::<bool>(j, "available"@)
    }

    open spec fn read_from(&self, j: Json) -> bool {
        &&& j is Object
        &&& opt_field_read(self.id, j, "id"@)
        &&& opt_field_read(self.name, j, "name"@)
        &&& opt_list_field_read(self.roles, j, "roles"@)
        &&& opt_field_read(self.user, j, "user"@)
        &&& opt_field_read(self.require_colons, j, "require_colons"@)
        &&& opt_field_read(self.managed, j, "managed"@)
        &&& opt_field_read(self.animated, j, "animated"@)
        &&& opt_field_read(self.available, j, "available"@)
    }

    fn from_json(json: &serde_json::Value) -> (r: Option<Emoji>) {
        if !json_is_object(json) {
            return None;
        }
        let id = get_opt_object::<EmojiId>(json, "id")?;
        let name = get_opt_object::<String>(json, "name")?;
        let roles = get_opt_objects::<RoleId>(json, "roles")?;
        let user = get_opt_object::<User>(json, "user")?;
        let require_colons = get_opt_object::<bool>(json, "require_colons")?;
        let managed = get_opt_object::<bool>(json, "managed")?;
        let animated = get_opt_object::<bool>(json, "animated")?;
        let available = get_opt_object::<bool>(json, "available")?;
        Some(Emoji { id, name, roles, user, require_colons, managed, animated, available })
    }
}

/// A user's status on each platform.
#[derive(Debug, Clone)]
pub struct ClientStatus {
    pub desktop: Option<String>,
    pub mobile: Option<String>,
    pub web: Option<String>,
}

impl FromJson for ClientStatus {
    open spec fn readable(j: Json) -> bool {
        &&& j is Object
        &&& opt_field_readable::<String>(j, "desktop"@)
        &&& opt_field_readable::<String>(j, "mobile"@)
        &&& opt_field_readable::<String>(j, "web"@)
    }

    open spec fn read_from(&self, j: Json) -> bool {
        &&& j is Object
        &&& opt_field_read(self.desktop, j, "desktop"@)
        &&& opt_field_read(self.mobile, j, "mobile"@)
        &&& opt_field_read(self.web, j, "web"@)
    }

    fn from_json(json: &serde_json::Value) -> (r: Option<ClientStatus>) {
        if !json_is_object(json) {
            return None;
        }
        let desktop = get_opt_object::<String>(json, "desktop")?;
        let mobile = get_opt_object::<String>(json, "mobile")?;
        let web = get_opt_object::<String>(json, "web")?;
        Some(ClientStatus { desktop, mobile, web })
    }
}

/// A user's presence was updated.
#[derive(Debug, Clone)]
pub struct PresenceUpdate {
    pub user: PartialUser,
    pub guild_id: Option<GuildId>,
    pub status: Status,
    /// The user's current activities.
    pub activities: Vec<Activity>,
    pub client_status: ClientStatus,
}

impl FromJson for PresenceUpdate {
    open spec fn readable(j: Json) -> bool {
        &&& j is Object
        &&& field_readable::<PartialUser>(j, "user"@)
        &&& opt_field_readable::<GuildId>(j, "guild_id"@)
        &&& field_readable::<Status>(j, "status"@)
        &&& list_field_readable::<Activity>(j, "activities"@)
        &&& field_readable::<ClientStatus>(j, "client_status"@)
    }

    open spec fn read_from(&self, j: Json) -> bool {
        &&& j is Object
        &&& field_read(self.user, j, "user"@)
        &&& opt_field_read(self.guild_id, j, "guild_id"@)
        &&& field_read(self.status, j, "status"@)
        &&& list_field_read(self.activities@, j, "activities"@)
        &&& field_read(self.client_status, j, "client_status"@)
    }

    fn from_json(json: &serde_json::Value) -> (r: Option<PresenceUpdate>) {
        if !json_is_object(json) {
            return None;
        }
        let user = get_object::<PartialUser>(json, "user")?;
        let guild_id = get_opt_object::<GuildId>(json, "guild_id")?;
        let status = get_object::<Status>(json, "status")?;
        let activities = get_objects::<Activity>(json, "activities")?;
        let client_status = get_object::<ClientStatus>(json, "client_status")?;
        Some(PresenceUpdate { user, guild_id, status, activities, client_status })
    }
}

/// Member properties that come with a message.
#[derive(Debug, Clone)]
pub struct PartialGuildMember {}

impl FromJson for PartialGuildMember {
    open spec fn readable(j: Json) -> bool {
        j is Object
    }

    open spec fn read_from(&self, j: Json) -> bool {
        j is Object
    }

    fn from_json(json: &serde_json::Value) -> (r: Option<PartialGuildMember>) {
        if !json_is_object(json) {
            return None;
        }
        Some(PartialGuildMember {})
    }
}

/// A user that a message mentions.
#[derive(Debug, Clone)]
pub struct Mention {}

impl FromJson for Mention {
    open spec fn readable(j: Json) -> bool {
        j is Object
    }

    open spec fn read_from(&self, j: Json) -> bool {
        j is Object
    }

    fn from_json(json: &serde_json::Value) -> (r: Option<Mention>) {
        if !json_is_object(json) {
            return None;
        }
        Some(Mention {})
    }
}

/// A reaction to a message.
#[derive(Debug, Clone)]
pub struct Reaction {
    /// How often the emoji was used to react.
    pub count: u64,
    /// Whether the current user reacted with the emoji.
    pub me: bool,
    pub emoji: Emoji,
}

impl FromJson for Reaction {
    open spec fn readable(j: Json) -> bool {
        &&& j is Object
        &&& field_readable::<u64>(j, "count"@)
        &&& field_readable::<bool>(j, "me"@)
        &&& field_readable::<Emoji>(j, "emoji"@)
    }

    open spec fn read_from(&self, j: Json) -> bool {
        &&& j is Object
        &&& field_read(self.count, j, "count"@)
        &&& field_read(self.me, j, "me"@)
        &&& field_read(self.emoji, j, "emoji"@)
    }

    fn from_json(json: &serde_json::Value) -> (r: Option<Reaction>) {
        if !json_is_object(json) {
            return None;
        }
        let count = get_object::<u64>(json, "count")?;
        let me = get_object::<bool>(json, "me")?;
        let emoji = get_object::<Emoji>(json, "emoji")?;
        Some(Reaction { count, me, emoji })
    }
}

/// A file attached to a message.
#[derive(Debug, Clone)]
pub struct Attachment {
    pub id: Snowflake,
    pub filename: String,
    /// Size of the file in bytes.
    pub size: u64,
    pub url: String,
    pub proxy_url: String,
    /// Height of the file, if it is an image.
    pub height: Option<u64>,
    /// Width of the file, if it is an image.
    pub width: Option<u64>,
}

impl FromJson for Attachment {
    open spec fn readable(j: Json) -> bool {
        &&& j is Object
        &&& field_readable::<Snowflake>(j, "id"@)
        &&& field_readable::<String>(j, "filename"@)
        &&& field_readable::<u64>(j, "size"@)
        &&& field_readable::<String>(j, "url"@)
        &&& field_readable::<String>(j, "proxy_url"@)
        &&& opt_field_readable::<u64>(j, "height"@)
        &&& opt_field_readable::<u64>(j, "width"@)
    }

    open spec fn read_from(&self, j: Json) -> bool {
        &&& j is Object
        &&& field_read(self.id, j, "id"@)
        &&& field_read(self.filename, j, "filename"@)
        &&& field_read(self.size, j, "size"@)
        &&& field_read(self.url, j, "url"@)
        &&& field_read(self.proxy_url, j, "proxy_url"@)
        &&& opt_field_read(self.height, j, "height"@)
        &&& opt_field_read(self.width, j, "width"@)
    }

    fn from_json(json: &serde_json::Value) -> (r: Option<Attachment>) {
        if !json_is_object(json) {
            return None;
        }
        let id = get_object::<Snowflake>(json, "id")?;
        let filename = get_object::<String>(json, "filename")?;
        let size = get_object::<u64>(json, "size")?;
        let url = get_object::<String>(json, "url")?;
        let proxy_url = get_object::<String>(json, "proxy_url")?;
        let height = get_opt_object::<u64>(json, "height")?;
        let width = get_opt_object::<u64>(json, "width")?;
        Some(Attachment { id, filename, size, url, proxy_url, height, width })
    }
}

/// An activity that was sent with a message.
#[derive(Debug, Clone)]
pub struct MessageActivity {
    pub activity_type: MessageActivityType,
    pub party_id: Option<String>,
}

impl FromJson for MessageActivity {
    open spec fn readable(j: Json) -> bool {
        &&& j is Object
        &&& field_readable::<MessageActivityType>(j, "type"@)
        &&& opt_field_readable::<String>(j, "party_id"@)
    }

    open spec fn read_from(&self, j: Json) -> bool {
        &&& j is Object
        &&& field_read(self.activity_type, j, "type"@)
        &&& opt_field_read(self.party_id, j, "party_id"@)
    }

    fn from_json(json: &serde_json::Value) -> (r: Option<MessageActivity>) {
        if !json_is_object(json) {
            return None;
        }
        let activity_type = get_object::<MessageActivityType>(json, "type")?;
        let party_id = get_opt_object::<String>(json, "party_id")?;
        Some(MessageActivity { activity_type, party_id })
    }
}

/// An application that was sent with a message.
#[derive(Debug, Clone)]
pub struct MessageApplication {
    pub id: ApplicationId,
    pub cover_image: String,
    pub description: String,
    pub icon: String,
    pub name: String,
}

impl FromJson for MessageApplication {
    open spec fn readable(j: Json) -> bool {
        &&& j is Object
        &&& field_readable::<ApplicationId>(j, "id"@)
        &&& field_readable::<String>(j, "cover_image"@)
        &&& field_readable::<String>(j, "description"@)
        &&& field_readable::<String>(j, "icon"@)
        &&& field_readable::<String>(j, "name"@)
    }

    open spec fn read_from(&self, j: Json) -> bool {
        &&& j is Object
        &&& field_read(self.id, j, "id"@)
        &&& field_read(self.cover_image, j, "cover_image"@)
        &&& field_read(self.description, j, "description"@)
        &&& field_read(self.icon, j, "icon"@)
        &&& field_read(self.name, j, "name"@)
    }

    fn from_json(json: &serde_json::Value) -> (r: Option<MessageApplication>) {
        if !json_is_object(json) {
            return None;
        }
        let id = get_object::<ApplicationId>(json, "id")?;
        let cover_image = get_object::<String>(json, "cover_image")?;
        let description = get_object::<String>(json, "description")?;
        let icon = get_object::<String>(json, "icon")?;
        let name = get_object::<String>(json, "name")?;
        Some(MessageApplication { id, cover_image, description, icon, name })
    }
}

/// Where a crosspost, a pin or a reply comes from.
#[derive(Debug, Clone, Copy, PartialEq, Eq, Structural)]
pub struct MessageReference {
    pub message_id: Option<MessageId>,
    pub channel_id: Option<ChannelId>,
    pub guild_id: Option<GuildId>,
    pub fail_if_not_exists: Option<bool>,
}

impl FromJson for MessageReference {
    open spec fn readable(j: Json) -> bool {
        &&& j is Object
        &&& opt_field_readable::<MessageId>(j, "message_id"@)
        &&& opt_field_readable::<ChannelId>(j, "channel_id"@)
        &&& opt_field_readable::<GuildId>(j, "guild_id"@)
        &&& opt_field_readable::<bool>(j, "fail_if_not_exists"@)
    }

    open spec fn read_from(&self, j: Json) -> bool {
        &&& j is Object
        &&& opt_field_read(self.message_id, j, "message_id"@)
        &&& opt_field_read(self.channel_id, j, "channel_id"@)
        &&& opt_field_read(self.guild_id, j, "guild_id"@)
        &&& opt_field_read(self.fail_if_not_exists, j, "fail_if_not_exists"@)
    }

    fn from_json(json: &serde_json::Value) -> (r: Option<MessageReference>) {
        if !json_is_object(json) {
            return None;
        }
        let message_id = get_opt_object::<MessageId>(json, "message_id")?;
        let channel_id = get_opt_object::<ChannelId>(json, "channel_id")?;
        let guild_id = get_opt_object::<GuildId>(json, "guild_id")?;
        let fail_if_not_exists = get_opt_object::<bool>(json, "fail_if_not_exists")?;
        Some(MessageReference { message_id, channel_id, guild_id, fail_if_not_exists })
    }
}

/// The interaction that a message answers.
#[derive(Debug, Clone)]
pub struct MessageInteraction {
    pub id: InteractionId,
    pub typ: InteractionType,
    /// Name of the command.
    pub name: String,
    /// The user who invoked the interaction.
    pub user: User,
}

impl FromJson for MessageInteraction {
    open spec fn readable(j: Json) -> bool {
        &&& j is Object
        &&& field_readable::<InteractionId>(j, "id"@)
        &&& field_readable::<InteractionType>(j, "type"@)
        &&& field_readable::<String>(j, "name"@)
        &&& field_readable::<User>(j, "user"@)
    }

    open spec fn read_from(&self, j: Json) -> bool {
        &&& j is Object
        &&& field_read(self.id, j, "id"@)
        &&& field_read(self.typ, j, "type"@)
        &&& field_read(self.name, j, "name"@)
        &&& field_read(self.user, j, "user"@)
    }

    fn from_json(json: &serde_json::Value) -> (r: Option<MessageInteraction>) {
        if !json_is_object(json) {
            return None;
        }
        let id = get_object::<InteractionId>(json, "id")?;
        let typ = get_object::<InteractionType>(json, "type")?;
        let name = get_object::<String>(json, "name")?;
        let user = get_object::<User>(json, "user")?;
        Some(MessageInteraction { id, typ, name, user })
    }
}

/// A component of a message, such as a button.
#[derive(Debug)]
pub struct MessageComponent {
    pub typ: Option<MessageComponentType>,
    pub style: Option<ButtonStyle>,
    /// Text on the button.
    pub label: Option<String>,
    pub emoji: Option<Emoji>,
    pub custom_id: Option<String>,
    pub url: Option<String>,
    pub disabled: Option<bool>,
    /// Child components, as they came.
    pub components: Option<Vec<serde_json::Value>>,
}

impl FromJson for MessageComponent {
    open spec fn readable(j: Json) -> bool {
        &&& j is Object
        &&& opt_field_readable::<MessageComponentType>(j, "type"@)
        &&& opt_field_readable::<ButtonStyle>(j, "style"@)
        &&& opt_field_readable::<String>(j, "label"@)
        &&& opt_field_readable::<Emoji>(j, "emoji"@)
        &&& opt_field_readable::<String>(j, "custom_id"@)
        &&& opt_field_readable::<String>(j, "url"@)
        &&& opt_field_readable::<bool>(j, "disabled"@)
        &&& opt_list_field_readable::<serde_json::Value>(j, "components"@)
    }

    open spec fn read_from(&self, j: Json) -> bool {
        &&& j is Object
        &&& opt_field_read(self.typ, j, "type"@)
        &&& opt_field_read(self.style, j, "style"@)
        &&& opt_field_read(self.label, j, "label"@)
        &&& opt_field_read(self.emoji, j, "emoji"@)
        &&& opt_field_read(self.custom_id, j, "custom_id"@)
        &&& opt_field_read(self.url, j, "url"@)
        &&& opt_field_read(self.disabled, j, "disabled"@)
        &&& opt_list_field_read(self.components, j, "components"@)
    }

    fn from_json(json: &serde_json::Value) -> (r: Option<MessageComponent>) {
        if !json_is_object(json) {
            return None;
        }
        let typ = get_opt_object::<MessageComponentType>(json, "type")?;
        let style = get_opt_object::<ButtonStyle>(json, "style")?;
        let label = get_opt_object::<String>(json, "label")?;
        let emoji = get_opt_object::<Emoji>(json, "emoji")?;
        let custom_id = get_opt_object::<String>(json, "custom_id")?;
        let url = get_opt_object::<String>(json, "url")?;
        let disabled = get_opt_object::<bool>(json, "disabled")?;
        let components = get_opt_objects::<serde_json::Value>(json, "components")?;
        Some(MessageComponent { typ, style, label, emoji, custom_id, url, disabled, components })
    }
}

/// A sticker sent with a message.
#[derive(Debug, Clone)]
pub struct MessageStickerItem {
    pub id: StickerId,
    pub name: String,
    pub format_type: u64,
}

impl FromJson for MessageStickerItem {
    open spec fn readable(j: Json) -> bool {
        &&& j is Object
        &&& field_readable::<StickerId>(j, "id"@)
        &&& field_readable::<String>(j, "name"@)
        &&& field_readable::<u64>(j, "format_type"@)
    }

    open spec fn read_from(&self, j: Json) -> bool {
        &&& j is Object
        &&& field_read(self.id, j, "id"@)
        &&& field_read(self.name, j, "name"@)
        &&& field_read(self.format_type, j, "format_type"@)
    }

    fn from_json(json: &serde_json::Value) -> (r: Option<MessageStickerItem>) {
        if !json_is_object(json) {
            return None;
        }
        let id = get_object::<StickerId>(json, "id")?;
        let name = get_object::<String>(json, "name")?;
        let format_type = get_object::<u64>(json, "format_type")?;
        Some(MessageStickerItem { id, name, format_type })
    }
}

/// A member of a team.
#[derive(Debug, Clone)]
pub struct TeamMember {
    pub membership_state: MembershipState,
    pub permissions: Vec<String>,
    pub team_id: TeamId,
    pub user: PartialUser,
}

impl FromJson for TeamMember {
    open spec fn readable(j: Json) -> bool {
        &&& j is Object
        &&& field_readable::<MembershipState>(j, "membership_state"@)
        &&& list_field_readable::<String>(j, "permissions"@)
        &&& field_readable::<TeamId>(j, "team_id"@)
        &&& field_readable::<PartialUser>(j, "user"@)
    }

    open spec fn read_from(&self, j: Json) -> bool {
        &&& j is Object
        &&& field_read(self.membership_state, j, "membership_state"@)
        &&& list_field_read(self.permissions@, j, "permissions"@)
        &&& field_read(self.team_id, j, "team_id"@)
        &&& field_read(self.user, j, "user"@)
    }

    fn from_json(json: &serde_json::Value) -> (r: Option<TeamMember>) {
        if !json_is_object(json) {
            return None;
        }
        let membership_state = get_object::<MembershipState>(json, "membership_state")?;
        let permissions = get_objects::<String>(json, "permissions")?;
        let team_id = get_object::<TeamId>(json, "team_id")?;
        let user = get_object::<PartialUser>(json, "user")?;
        Some(TeamMember { membership_state, permissions, team_id, user })
    }
}

/// A team that owns an application.
#[derive(Debug, Clone)]
pub struct Team {
    pub icon: Option<String>,
    pub id: TeamId,
    pub members: Vec<TeamMember>,
    pub name: String,
    pub owner_user_id: UserId,
}

impl FromJson for Team {
    open spec fn readable(j: Json) -> bool {
        &&& j is Object
        &&& opt_field_readable::<String>(j, "icon"@)
        &&& field_readable::<TeamId>(j, "id"@)
        &&& list_field_readable::<TeamMember>(j, "members"@)
        &&& field_readable::<String>(j, "name"@)
        &&& field_readable::<UserId>(j, "owner_user_id"@)
    }

    open spec fn read_from(&self, j: Json) -> bool {
        &&& j is Object
        &&& opt_field_read(self.icon, j, "icon"@)
        &&& field_read(self.id, j, "id"@)
        &&& list_field_read(self.members@, j, "members"@)
        &&& field_read(self.name, j, "name"@)
        &&& field_read(self.owner_user_id, j, "owner_user_id"@)
    }

    fn from_json(json: &serde_json::Value) -> (r: Option<Team>) {
        if !json_is_object(json) {
            return None;
        }
        let icon = get_opt_object::<String>(json, "icon")?;
        let id = get_object::<TeamId>(json, "id")?;
        let members = get_objects::<TeamMember>(json, "members")?;
        let name = get_object::<String>(json, "name")?;
        let owner_user_id = get_object::<UserId>(json, "owner_user_id")?;
        Some(Team { icon, id, members, name, owner_user_id })
    }
}

/// An application.
#[derive(Debug, Clone)]
pub struct Application {
    pub id: ApplicationId,
    pub name: String,
    pub icon: Option<String>,
    pub description: String,
    pub rpc_origins: Option<Vec<String>>,
    pub bot_public: bool,
    pub bot_require_code_grant: bool,
    pub terms_of_service_url: Option<String>,
    pub privacy_policy_url: Option<String>,
    pub owner: Option<PartialUser>,
    pub summary: String,
    pub verify_key: String,
    pub team: Option<Team>,
    pub guild_id: Option<GuildId>,
    pub primary_sku_id: Option<Snowflake>,
    pub slug: Option<String>,
    pub cover_image: Option<String>,
    pub flags: Option<ApplicationFlags>,
}

impl FromJson for Application {
    open spec fn readable(j: Json) -> bool {
        &&& j is Object
        &&& field_readable::<ApplicationId>(j, "id"@)
        &&& field_readable::<String>(j, "name"@)
        &&& opt_field_readable::<String>(j, "icon"@)
        &&& field_readable::<String>(j, "description"@)
        &&& opt_list_field_readable::<String>(j, "rpc_origins"@)
        &&& field_readable::<bool>(j, "bot_public"@)
        &&& field_readable::<bool>(j, "bot_require_code_grant"@)
        &&& opt_field_readable::<String>(j, "terms_of_service_url"@)
        &&& opt_field_readable::<String>(j, "privacy_policy_url"@)
        &&& opt_field_readable::<PartialUser>(j, "owner"@)
        &&& field_readable::<String>(j, "summary"@)
        &&& field_readable::<String>(j, "verify_key"@)
        &&& opt_field_readable::<Team>(j, "team"@)
        &&& opt_field_readable::<GuildId>(j, "guild_id"@)
        &&& opt_field_readable::<Snowflake>(j, "primary_sku_id"@)
        &&& opt_field_readable::<String>(j, "slug"@)
        &&& opt_field_readable::<String>(j, "cover_image"@)
        &&& opt_field_readable::<ApplicationFlags>(j, "flags"@)
    }

    open spec fn read_from(&self, j: Json) -> bool {
        &&& j is Object
        &&& field_read(self.id, j, "id"@)
        &&& field_read(self.name, j, "name"@)
        &&& opt_field_read(self.icon, j, "icon"@)
        &&& field_read(self.description, j, "description"@)
        &&& opt_list_field_read(self.rpc_origins, j, "rpc_origins"@)
        &&& field_read(self.bot_public, j, "bot_public"@)
        &&& field_read(self.bot_require_code_grant, j, "bot_require_code_grant"@)
        &&& opt_field_read(self.terms_of_service_url, j, "terms_of_service_url"@)
        &&& opt_field_read(self.privacy_policy_url, j, "privacy_policy_url"@)
        &&& opt_field_read(self.owner, j, "owner"@)
        &&& field_read(self.summary, j, "summary"@)
        &&& field_read(self.verify_key, j, "verify_key"@)
        &&& opt_field_read(self.team, j, "team"@)
        &&& opt_field_read(self.guild_id, j, "guild_id"@)
        &&& opt_field_read(self.primary_sku_id, j, "primary_sku_id"@)
        &&& opt_field_read(self.slug, j, "slug"@)
        &&& opt_field_read(self.cover_image, j, "cover_image"@)
        &&& opt_field_read(self.flags, j, "flags"@)
    }

    fn from_json(json: &serde_json::Value) -> (r: Option<Application>) {
        if !json_is_object(json) {
            return None;
        }
        let id = get_object::<ApplicationId>(json, "id")?;
        let name = get_object::<String>(json, "name")?;
        let icon = get_opt_object::<String>(json, "icon")?;
        let description = get_object::<String>(json, "description")?;
        let rpc_origins = get_opt_objects::<String>(json, "rpc_origins")?;
        let bot_public = get_object::<bool>(json, "bot_public")?;
        let bot_require_code_grant = get_object::<bool>(json, "bot_require_code_grant")?;
        let terms_of_service_url = get_opt_object::<String>(json, "terms_of_service_url")?;
        let privacy_policy_url = get_opt_object::<String>(json, "privacy_policy_url")?;
        let owner = get_opt_object::<PartialUser>(json, "owner")?;
        let summary = get_object::<String>(json, "summary")?;
        let verify_key = get_object::<String>(json, "verify_key")?;
        let team = get_opt_object::<Team>(json, "team")?;
        let guild_id = get_opt_object::<GuildId>(json, "guild_id")?;
        let primary_sku_id = get_opt_object::<Snowflake>(json, "primary_sku_id")?;
        let slug = get_opt_object::<String>(json, "slug")?;
        let cover_image = get_opt_object::<String>(json, "cover_image")?;
        let flags = get_opt_object::<ApplicationFlags>(json, "flags")?;
        Some(
            Application {
                id,
                name,
                icon,
                description,
                rpc_origins,
                bot_public,
                bot_require_code_grant,
                terms_of_service_url,
                privacy_policy_url,
                owner,
                summary,
                verify_key,
                team,
                guild_id,
                primary_sku_id,
                slug,
                cover_image,
                flags,
            },
        )
    }
}

/// A value that is a string or an integer.
#[derive(Debug, Clone)]
pub enum StringOrInt {
    String(String),
    Int(i64),
}

impl FromJson for StringOrInt {
    open spec fn readable(j: Json) -> bool {
        j.as_str() is Some || j.as_i64() is Some
    }

    open spec fn read_from(&self, j: Json) -> bool {
        match self {
            StringOrInt::String(s) => j.as_str() == Some(s@),
            StringOrInt::Int(n) => j.as_str() is None && j.as_i64() == Some(*n),
        }
    }

    fn from_json(v: &serde_json::Value) -> (r: Option<StringOrInt>) {
        match json_as_str(v) {
            Some(s) => Some(StringOrInt::String(s.to_owned())),
            None => match crate::json::json_as_i64(v) {
                Some(n) => Some(StringOrInt::Int(n)),
                None => None,
            },
        }
    }
}

/// A value that the user can pick for an option.
#[derive(Debug, Clone)]
pub struct ApplicationCommandOptionChoice {
    pub name: String,
    pub value: StringOrInt,
}

impl FromJson for ApplicationCommandOptionChoice {
    open spec fn readable(j: Json) -> bool {
        &&& j is Object
        &&& field_readable::<String>(j, "name"@)
        &&& field_readable::<StringOrInt>(j, "value"@)
    }

    open spec fn read_from(&self, j: Json) -> bool {
        &&& j is Object
        &&& field_read(self.name, j, "name"@)
        &&& field_read(self.value, j, "value"@)
    }

    fn from_json(json: &serde_json::Value) -> (r: Option<ApplicationCommandOptionChoice>) {
        if !json_is_object(json) {
            return None;
        }
        let name = get_object::<String>(json, "name")?;
        let value = get_object::<StringOrInt>(json, "value")?;
        Some(ApplicationCommandOptionChoice { name, value })
    }
}

/// A parameter of a command.
#[derive(Debug)]
pub struct ApplicationCommandOption {
    pub typ: ApplicationCommandOptionType,
    pub name: String,
    pub description: String,
    pub required: Option<bool>,
    pub choices: Option<Vec<ApplicationCommandOptionChoice>>,
    /// The parameters of a subcommand or group, as they came.
    pub options: Option<Vec<serde_json::Value>>,
}

impl FromJson for ApplicationCommandOption {
    open spec fn readable(j: Json) -> bool {
        &&& j is Object
        &&& field_readable::<ApplicationCommandOptionType>(j, "type"@)
        &&& field_readable::<String>(j, "name"@)
        &&& field_readable::<String>(j, "description"@)
        &&& opt_field_readable::<bool>(j, "required"@)
        &&& opt_list_field_readable::<ApplicationCommandOptionChoice>(j, "choices"@)
        &&& opt_list_field_readable::<serde_json::Value>(j, "options"@)
    }

    open spec fn read_from(&self, j: Json) -> bool {
        &&& j is Object
        &&& field_read(self.typ, j, "type"@)
        &&& field_read(self.name, j, "name"@)
        &&& field_read(self.description, j, "description"@)
        &&& opt_field_read(self.required, j, "required"@)
        &&& opt_list_field_read(self.choices, j, "choices"@)
        &&& opt_list_field_read(self.options, j, "options"@)
    }

    fn from_json(json: &serde_json::Value) -> (r: Option<ApplicationCommandOption>) {
        if !json_is_object(json) {
            return None;
        }
        let typ = get_object::<ApplicationCommandOptionType>(json, "type")?;
        let name = get_object::<String>(json, "name")?;
        let description = get_object::<String>(json, "description")?;
        let required = get_opt_object::<bool>(json, "required")?;
        let choices = get_opt_objects::<ApplicationCommandOptionChoice>(json, "choices")?;
        let options = get_opt_objects::<serde_json::Value>(json, "options")?;
        Some(ApplicationCommandOption { typ, name, description, required, choices, options })
    }
}

/// A command of an application.
#[derive(Debug)]
pub struct ApplicationCommand {
    pub id: ApplicationCommandId,
    pub application_id: ApplicationId,
    /// The guild of the command, if it is not global.
    pub guild_id: Option<GuildId>,
    pub name: String,
    pub description: String,
    pub options: Option<Vec<ApplicationCommandOption>>,
    pub default_permission: Option<bool>,
}

impl FromJson for ApplicationCommand {
    open spec fn readable(j: Json) -> bool {
        &&& j is Object
        &&& field_readable::<ApplicationCommandId>(j, "id"@)
        &&& field_readable::<ApplicationId>(j, "application_id"@)
        &&& opt_field_readable::<GuildId>(j, "guild_id"@)
        &&& field_readable::<String>(j, "name"@)
        &&& field_readable::<String>(j, "description"@)
        &&& opt_list_field_readable::<ApplicationCommandOption>(j, "options"@)
        &&& opt_field_readable::<bool>(j, "default_permission"@)
    }

    open spec fn read_from(&self, j: Json) -> bool {
        &&& j is Object
        &&& field_read(self.id, j, "id"@)
        &&& field_read(self.application_id, j, "application_id"@)
        &&& opt_field_read(self.guild_id, j, "guild_id"@)
        &&& field_read(self.name, j, "name"@)
        &&& field_read(self.description, j, "description"@)
        &&& opt_list_field_read(self.options, j, "options"@)
        &&& opt_field_read(self.default_permission, j, "default_permission"@)
    }

    fn from_json(json: &serde_json::Value) -> (r: Option<ApplicationCommand>) {
        if !json_is_object(json) {
            return None;
        }
        let id = get_object::<ApplicationCommandId>(json, "id")?;
        let application_id = get_object::<ApplicationId>(json, "application_id")?;
        let guild_id = get_opt_object::<GuildId>(json, "guild_id")?;
        let name = get_object::<String>(json, "name")?;
        let description = get_object::<String>(json, "description")?;
        let options = get_opt_objects::<ApplicationCommandOption>(json, "options")?;
        let default_permission = get_opt_object::<bool>(json, "default_permission")?;
        Some(
            ApplicationCommand {
                id,
                application_id,
                guild_id,
                name,
                description,
                options,
                default_permission,
            },
        )
    }
}

/// A parameter and the value that the user gave it.
#[derive(Debug)]
pub struct ApplicationCommandInteractionDataOption {
    pub name: String,
    pub typ: i64,
    pub value: Option<ApplicationCommandOptionType>,
    /// The parameters of a subcommand or group, as they came.
    pub options: Option<Vec<serde_json::Value>>,
}

impl FromJson for ApplicationCommandInteractionDataOption {
    open spec fn readable(j: Json) -> bool {
        &&& j is Object
        &&& field_readable::<String>(j, "name"@)
        &&& field_readable::<i64>(j, "type"@)
        &&& opt_field_readable::<ApplicationCommandOptionType>(j, "value"@)
        &&& opt_list_field_readable::<serde_json::Value>(j, "options"@)
    }

    open spec fn read_from(&self, j: Json) -> bool {
        &&& j is Object
        &&& field_read(self.name, j, "name"@)
        &&& field_read(self.typ, j, "type"@)
        &&& opt_field_read(self.value, j, "value"@)
        &&& opt_list_field_read(self.options, j, "options"@)
    }

    fn from_json(json: &serde_json::Value) -> (r: Option<ApplicationCommandInteractionDataOption>) {
        if !json_is_object(json) {
            return None;
        }
        let name = get_object::<String>(json, "name")?;
        let typ = get_object::<i64>(json, "type")?;
        let value = get_opt_object::<ApplicationCommandOptionType>(json, "value")?;
        let options = get_opt_objects::<serde_json::Value>(json, "options")?;
        Some(ApplicationCommandInteractionDataOption { name, typ, value, options })
    }
}

/// A live stage.
#[derive(Debug, Clone)]
pub struct StageInstance {
    pub id: StageInstanceId,
    pub guild_id: GuildId,
    pub channel_id: ChannelId,
    pub topic: String,
    pub privacy_level: PrivacyLevel,
    pub discoverable_disabled: bool,
}

impl FromJson for StageInstance {
    open spec fn readable(j: Json) -> bool {
        &&& j is Object
        &&& field_readable::<StageInstanceId>(j, "id"@)
        &&& field_readable::<GuildId>(j, "guild_id"@)
        &&& field_readable::<ChannelId>(j, "channel_id"@)
        &&& field_readable::<String>(j, "topic"@)
        &&& field_readable::<PrivacyLevel>(j, "privacy_level"@)
        &&& field_readable::<bool>(j, "discoverable_disabled"@)
    }

    open spec fn read_from(&self, j: Json) -> bool {
        &&& j is Object
        &&& field_read(self.id, j, "id"@)
        &&& field_read(self.guild_id, j, "guild_id"@)
        &&& field_read(self.channel_id, j, "channel_id"@)
        &&& field_read(self.topic, j, "topic"@)
        &&& field_read(self.privacy_level, j, "privacy_level"@)
        &&& field_read(self.discoverable_disabled, j, "discoverable_disabled"@)
    }

    fn from_json(json: &serde_json::Value) -> (r: Option<StageInstance>) {
        if !json_is_object(json) {
            return None;
        }
        let id = get_object::<StageInstanceId>(json, "id")?;
        let guild_id = get_object::<GuildId>(json, "guild_id")?;
        let channel_id = get_object::<ChannelId>(json, "channel_id")?;
        let topic = get_object::<String>(json, "topic")?;
        let privacy_level = get_object::<PrivacyLevel>(json, "privacy_level")?;
        let discoverable_disabled = get_object::<bool>(json, "discoverable_disabled")?;
        Some(
            StageInstance {
                id,
                guild_id,
                channel_id,
                topic,
                privacy_level,
                discoverable_disabled,
            },
        )
    }
}

/// A point in time, in ISO 8601 notation, as it came.
#[derive(Debug, Clone)]
pub struct Timestamp(pub String);

impl FromJson for Timestamp {
    open spec fn readable(j: Json) -> bool {
        j.as_str() is Some
    }

    open spec fn read_from(&self, j: Json) -> bool {
        j.as_str() == Some(self.0@)
    }

    fn from_json(json: &serde_json::Value) -> (r: Option<Timestamp>) {
        match json_as_str(json) {
            Some(text) => Some(Timestamp(text.to_owned())),
            None => None,
        }
    }
}

/// A member of a guild.
#[derive(Debug, Clone)]
pub struct GuildMember {
    /// The user that this guild member stands for.
    pub user: User,
    /// The user's nickname in the guild.
    pub nick: Option<String>,
    pub roles: Vec<RoleId>,
    /// When the user joined the guild.
    pub joined_at: Timestamp,
    /// Whether the user is deafened in voice channels.
    pub deaf: bool,
    /// Whether the user is muted in voice channels.
    pub mute: bool,
}

impl FromJson for GuildMember {
    open spec fn readable(j: Json) -> bool {
        &&& j is Object
        &&& field_readable::<User>(j, "user"@)
        &&& opt_field_readable::<String>(j, "nick"@)
        &&& list_field_readable::<RoleId>(j, "roles"@)
        &&& field_readable::<Timestamp>(j, "joined_at"@)
        &&& field_readable::<bool>(j, "deaf"@)
        &&& field_readable::<bool>(j, "mute"@)
    }

    open spec fn read_from(&self, j: Json) -> bool {
        &&& j is Object
        &&& field_read(self.user, j, "user"@)
        &&& opt_field_read(self.nick, j, "nick"@)
        &&& list_field_read(self.roles@, j, "roles"@)
        &&& field_read(self.joined_at, j, "joined_at"@)
        &&& field_read(self.deaf, j, "deaf"@)
        &&& field_read(self.mute, j, "mute"@)
    }

    fn from_json(json: &serde_json::Value) -> (r: Option<GuildMember>) {
        if !json_is_object(json) {
            return None;
        }
        let user = get_object::<User>(json, "user")?;
        let nick = get_opt_object::<String>(json, "nick")?;
        let roles = get_objects::<RoleId>(json, "roles")?;
        let joined_at = get_object::<Timestamp>(json, "joined_at")?;
        let deaf = get_object::<bool>(json, "deaf")?;
        let mute = get_object::<bool>(json, "mute")?;
        Some(GuildMember { user, nick, roles, joined_at, deaf, mute })
    }
}

/// What only threads have among channels.
#[derive(Debug, Clone)]
pub struct ThreadMetadata {
    pub archived: bool,
    /// Minutes without activity after which the thread is archived.
    pub auto_archive_duration: u64,
    /// When the archive status of the thread last changed.
    pub archive_timestamp: Timestamp,
    pub locked: Option<bool>,
}

impl FromJson for ThreadMetadata {
    open spec fn readable(j: Json) -> bool {
        &&& j is Object
        &&& field_readable::<bool>(j, "archived"@)
        &&& field_readable::<u64>(j, "auto_archive_duration"@)
        &&& field_readable::<Timestamp>(j, "archive_timestamp"@)
        &&& opt_field_readable::<bool>(j, "locked"@)
    }

    open spec fn read_from(&self, j: Json) -> bool {
        &&& j is Object
        &&& field_read(self.archived, j, "archived"@)
        &&& field_read(self.auto_archive_duration, j, "auto_archive_duration"@)
        &&& field_read(self.archive_timestamp, j, "archive_timestamp"@)
        &&& opt_field_read(self.locked, j, "locked"@)
    }

    fn from_json(json: &serde_json::Value) -> (r: Option<ThreadMetadata>) {
        if !json_is_object(json) {
            return None;
        }
        let archived = get_object::<bool>(json, "archived")?;
        let auto_archive_duration = get_object::<u64>(json, "auto_archive_duration")?;
        let archive_timestamp = get_object::<Timestamp>(json, "archive_timestamp")?;
        let locked = get_opt_object::<bool>(json, "locked")?;
        Some(ThreadMetadata { archived, auto_archive_duration, archive_timestamp, locked })
    }
}

/// The current user as a member of a thread.
#[derive(Debug, Clone)]
pub struct ThreadMember {
    pub archived: bool,
    /// Minutes without activity after which the thread is archived.
    pub auto_archive_duration: u64,
    /// When the archive status of the thread last changed.
    pub archive_timestamp: Timestamp,
    pub locked: Option<bool>,
}

impl FromJson for ThreadMember {
    open spec fn readable(j: Json) -> bool {
        &&& j is Object
        &&& field_readable::<bool>(j, "archived"@)
        &&& field_readable::<u64>(j, "auto_archive_duration"@)
        &&& field_readable::<Timestamp>(j, "archive_timestamp"@)
        &&& opt_field_readable::<bool>(j, "locked"@)
    }

    open spec fn read_from(&self, j: Json) -> bool {
        &&& j is Object
        &&& field_read(self.archived, j, "archived"@)
        &&& field_read(self.auto_archive_duration, j, "auto_archive_duration"@)
        &&& field_read(self.archive_timestamp, j, "archive_timestamp"@)
        &&& opt_field_read(self.locked, j, "locked"@)
    }

    fn from_json(json: &serde_json::Value) -> (r: Option<ThreadMember>) {
        if !json_is_object(json) {
            return None;
        }
        let archived = get_object::<bool>(json, "archived")?;
        let auto_archive_duration = get_object::<u64>(json, "auto_archive_duration")?;
        let archive_timestamp = get_object::<Timestamp>(json, "archive_timestamp")?;
        let locked = get_opt_object::<bool>(json, "locked")?;
        Some(ThreadMember { archived, auto_archive_duration, archive_timestamp, locked })
    }
}

/// A channel.
#[derive(Debug, Clone)]
pub struct Channel {
    pub id: ChannelId,
    pub typ: ChannelType,
    pub guild_id: Option<GuildId>,
    /// Sorting position of the channel.
    pub position: Option<u64>,
    /// Permission overwrites for members and roles.
    pub permission_overwrites: Vec<Overwrite>,
    /// Name of the channel, 2 to 100 characters.
    pub name: Option<String>,
    /// Topic of the channel, up to 1024 characters.
    pub topic: Option<String>,
    pub nsfw: Option<bool>,
    /// The last message sent in this channel; it may no longer be there.
    pub last_message_id: Option<MessageId>,
    /// Bitrate of the voice channel, in bits.
    pub bitrate: Option<u64>,
    /// User limit of the voice channel.
    pub user_limit: Option<u64>,
    /// The recipients of the direct message.
    pub recipients: Vec<User>,
    /// Icon hash.
    pub icon: Option<String>,
    /// The creator of the direct message.
    pub owner_id: Option<UserId>,
    /// The application that created the group, if a bot did.
    pub application_id: Option<ApplicationId>,
    /// The category that the channel is in.
    pub parent_id: Option<ChannelId>,
    /// When the last message was pinned.
    pub last_pin_timestamp: Option<Timestamp>,
    /// Voice region of the voice channel.
    pub rtc_region: Option<String>,
    pub video_quality_mode: Option<u64>,
    /// About how many messages a thread holds; counting stops at 50.
    pub message_count: Option<u64>,
    /// About how many users a thread holds; counting stops at 50.
    pub member_count: Option<u64>,
    pub thread_metadata: Option<ThreadMetadata>,
    pub member: Option<ThreadMember>,
    pub default_auto_archive_duration: Option<u64>,
}

impl FromJson for Channel {
    open spec fn readable(j: Json) -> bool {
        &&& j is Object
        &&& field_readable::<ChannelId>(j, "id"@)
        &&& field_readable::<ChannelType>(j, "type"@)
        &&& opt_field_readable::<GuildId>(j, "guild_id"@)
        &&& opt_field_readable::<u64>(j, "position"@)
        &&& opt_list_field_readable::<Overwrite>(j, "permission_overwrites"@)
        &&& opt_field_readable::<String>(j, "name"@)
        &&& opt_field_readable::<String>(j, "topic"@)
        &&& opt_field_readable::<bool>(j, "nsfw"@)
        &&& opt_field_readable::<MessageId>(j, "last_message_id"@)
        &&& opt_field_readable::<u64>(j, "bitrate"@)
        &&& opt_field_readable::<u64>(j, "user_limit"@)
        &&& opt_list_field_readable::<User>(j, "recipients"@)
        &&& opt_field_readable::<String>(j, "icon"@)
        &&& opt_field_readable::<UserId>(j, "owner_id"@)
        &&& opt_field_readable::<ApplicationId>(j, "application_id"@)
        &&& opt_field_readable::<ChannelId>(j, "parent_id"@)
        &&& opt_field_readable::<Timestamp>(j, "last_pin_timestamp"@)
        &&& opt_field_readable::<String>(j, "rtc_region"@)
        &&& opt_field_readable::<u64>(j, "video_quality_mode"@)
        &&& opt_field_readable::<u64>(j, "message_count"@)
        &&& opt_field_readable::<u64>(j, "member_count"@)
        &&& opt_field_readable::<ThreadMetadata>(j, "thread_metadata"@)
        &&& opt_field_readable::<ThreadMember>(j, "member"@)
        &&& opt_field_readable::<u64>(j, "default_auto_archive_duration"@)
    }

    open spec fn read_from(&self, j: Json) -> bool {
        &&& j is Object
        &&& field_read(self.id, j, "id"@)
        &&& field_read(self.typ, j, "type"@)
        &&& opt_field_read(self.guild_id, j, "guild_id"@)
        &&& opt_field_read(self.position, j, "position"@)
        &&& default_list_field_read(self.permission_overwrites@, j, "permission_overwrites"@)
        &&& opt_field_read(self.name, j, "name"@)
        &&& opt_field_read(self.topic, j, "topic"@)
        &&& opt_field_read(self.nsfw, j, "nsfw"@)
        &&& opt_field_read(self.last_message_id, j, "last_message_id"@)
        &&& opt_field_read(self.bitrate, j, "bitrate"@)
        &&& opt_field_read(self.user_limit, j, "user_limit"@)
        &&& default_list_field_read(self.recipients@, j, "recipients"@)
        &&& opt_field_read(self.icon, j, "icon"@)
        &&& opt_field_read(self.owner_id, j, "owner_id"@)
        &&& opt_field_read(self.application_id, j, "application_id"@)
        &&& opt_field_read(self.parent_id, j, "parent_id"@)
        &&& opt_field_read(self.last_pin_timestamp, j, "last_pin_timestamp"@)
        &&& opt_field_read(self.rtc_region, j, "rtc_region"@)
        &&& opt_field_read(self.video_quality_mode, j, "video_quality_mode"@)
        &&& opt_field_read(self.message_count, j, "message_count"@)
        &&& opt_field_read(self.member_count, j, "member_count"@)
        &&& opt_field_read(self.thread_metadata, j, "thread_metadata"@)
        &&& opt_field_read(self.member, j, "member"@)
        &&& opt_field_read(self.default_auto_archive_duration, j, "default_auto_archive_duration"@)
    }

    fn from_json(json: &serde_json::Value) -> (r: Option<Channel>) {
        if !json_is_object(json) {
            return None;
        }
        let id = get_object::<ChannelId>(json, "id")?;
        let typ = get_object::<ChannelType>(json, "type")?;
        let guild_id = get_opt_object::<GuildId>(json, "guild_id")?;
        let position = get_opt_object::<u64>(json, "position")?;
        let permission_overwrites = get_objects_or_empty::<Overwrite>(
            json,
            "permission_overwrites",
        )?;
        let name = get_opt_object::<String>(json, "name")?;
        let topic = get_opt_object::<String>(json, "topic")?;
        let nsfw = get_opt_object::<bool>(json, "nsfw")?;
        let last_message_id = get_opt_object::<MessageId>(json, "last_message_id")?;
        let bitrate = get_opt_object::<u64>(json, "bitrate")?;
        let user_limit = get_opt_object::<u64>(json, "user_limit")?;
        let recipients = get_objects_or_empty::<User>(json, "recipients")?;
        let icon = get_opt_object::<String>(json, "icon")?;
        let owner_id = get_opt_object::<UserId>(json, "owner_id")?;
        let application_id = get_opt_object::<ApplicationId>(json, "application_id")?;
        let parent_id = get_opt_object::<ChannelId>(json, "parent_id")?;
        let last_pin_timestamp = get_opt_object::<Timestamp>(json, "last_pin_timestamp")?;
        let rtc_region = get_opt_object::<String>(json, "rtc_region")?;
        let video_quality_mode = get_opt_object::<u64>(json, "video_quality_mode")?;
        let message_count = get_opt_object::<u64>(json, "message_count")?;
        let member_count = get_opt_object::<u64>(json, "member_count")?;
        let thread_metadata = get_opt_object::<ThreadMetadata>(json, "thread_metadata")?;
        let member = get_opt_object::<ThreadMember>(json, "member")?;
        let default_auto_archive_duration = get_opt_object::<u64>(
            json,
            "default_auto_archive_duration",
        )?;
        Some(
            Channel {
                id,
                typ,
                guild_id,
                position,
                permission_overwrites,
                name,
                topic,
                nsfw,
                last_message_id,
                bitrate,
                user_limit,
                recipients,
                icon,
                owner_id,
                application_id,
                parent_id,
                last_pin_timestamp,
                rtc_region,
                video_quality_mode,
                message_count,
                member_count,
                thread_metadata,
                member,
                default_auto_archive_duration,
            },
        )
    }
}

/// Where a user is connected to voice, and how.
#[derive(Debug, Clone)]
pub struct VoiceState {
    /// The guild that this voice state is for.
    pub guild_id: Option<GuildId>,
    /// The channel that the user is connected to.
    pub channel_id: Option<ChannelId>,
    pub user_id: UserId,
    /// The guild member that this voice state is for.
    pub member: Option<GuildMember>,
    pub session_id: String,
    /// Whether the user is deafened by the server.
    pub deaf: bool,
    /// Whether the user is muted by the server.
    pub mute: bool,
    /// Whether the user is locally deafened.
    pub self_deaf: bool,
    /// Whether the user is locally muted.
    pub self_mute: bool,
    /// Whether the user is muted by the current user.
    pub suppress: bool,
}

impl FromJson for VoiceState {
    open spec fn readable(j: Json) -> bool {
        &&& j is Object
        &&& opt_field_readable::<GuildId>(j, "guild_id"@)
        &&& opt_field_readable::<ChannelId>(j, "channel_id"@)
        &&& field_readable::<UserId>(j, "user_id"@)
        &&& opt_field_readable::<GuildMember>(j, "member"@)
        &&& field_readable::<String>(j, "session_id"@)
        &&& field_readable::<bool>(j, "deaf"@)
        &&& field_readable::<bool>(j, "mute"@)
        &&& field_readable::<bool>(j, "self_deaf"@)
        &&& field_readable::<bool>(j, "self_mute"@)
        &&& field_readable::<bool>(j, "suppress"@)
    }

    open spec fn read_from(&self, j: Json) -> bool {
        &&& j is Object
        &&& opt_field_read(self.guild_id, j, "guild_id"@)
        &&& opt_field_read(self.channel_id, j, "channel_id"@)
        &&& field_read(self.user_id, j, "user_id"@)
        &&& opt_field_read(self.member, j, "member"@)
        &&& field_read(self.session_id, j, "session_id"@)
        &&& field_read(self.deaf, j, "deaf"@)
        &&& field_read(self.mute, j, "mute"@)
        &&& field_read(self.self_deaf, j, "self_deaf"@)
        &&& field_read(self.self_mute, j, "self_mute"@)
        &&& field_read(self.suppress, j, "suppress"@)
    }

    fn from_json(json: &serde_json::Value) -> (r: Option<VoiceState>) {
        if !json_is_object(json) {
            return None;
        }
        let guild_id = get_opt_object::<GuildId>(json, "guild_id")?;
        let channel_id = get_opt_object::<ChannelId>(json, "channel_id")?;
        let user_id = get_object::<UserId>(json, "user_id")?;
        let member = get_opt_object::<GuildMember>(json, "member")?;
        let session_id = get_object::<String>(json, "session_id")?;
        let deaf = get_object::<bool>(json, "deaf")?;
        let mute = get_object::<bool>(json, "mute")?;
        let self_deaf = get_object::<bool>(json, "self_deaf")?;
        let self_mute = get_object::<bool>(json, "self_mute")?;
        let suppress = get_object::<bool>(json, "suppress")?;
        Some(
            VoiceState {
                guild_id,
                channel_id,
                user_id,
                member,
                session_id,
                deaf,
                mute,
                self_deaf,
                self_mute,
                suppress,
            },
        )
    }
}

/// A guild.
#[derive(Debug, Clone)]
pub struct Guild {
    pub id: GuildId,
    /// Name of the guild, 2 to 100 characters.
    pub name: String,
    /// Icon hash.
    pub icon: Option<String>,
    /// Splash hash.
    pub splash: Option<String>,
    /// Whether the user is the owner of the guild.
    pub owner: Option<bool>,
    pub owner_id: UserId,
    /// Permissions of the user in the guild, without channel overwrites.
    pub permissions: Option<Permissions>,
    /// Voice region of the guild.
    pub region: String,
    pub afk_channel_id: Option<ChannelId>,
    /// Seconds.
    pub afk_timeout: u64,
    pub verification_level: u64,
    pub default_message_notifications: u64,
    pub explicit_content_filter: u64,
    pub roles: Vec<Role>,
    pub emojis: Vec<Emoji>,
    pub features: Vec<String>,
    pub mfa_level: u64,
    /// The application that created the guild, if a bot did.
    pub application_id: Option<ApplicationId>,
    pub widget_enabled: Option<bool>,
    pub widget_channel_id: Option<ChannelId>,
    /// The channel to which system messages are sent.
    pub system_channel_id: Option<ChannelId>,
    /// When this guild was joined.
    pub joined_at: Option<Timestamp>,
    pub large: Option<bool>,
    pub unavailable: Option<bool>,
    pub member_count: Option<u64>,
    pub voice_states: Option<Vec<VoiceState>>,
    pub members: Option<Vec<GuildMember>>,
    pub channels: Option<Vec<Channel>>,
    pub presences: Option<Vec<PresenceUpdate>>,
}

impl FromJson for Guild {
    open spec fn readable(j: Json) -> bool {
        &&& j is Object
        &&& field_readable::<GuildId>(j, "id"@)
        &&& field_readable::<String>(j, "name"@)
        &&& opt_field_readable::<String>(j, "icon"@)
        &&& opt_field_readable::<String>(j, "splash"@)
        &&& opt_field_readable::<bool>(j, "owner"@)
        &&& field_readable::<UserId>(j, "owner_id"@)
        &&& opt_field_readable::<Permissions>(j, "permissions"@)
        &&& field_readable::<String>(j, "region"@)
        &&& opt_field_readable::<ChannelId>(j, "afk_channel_id"@)
        &&& field_readable::<u64>(j, "afk_timeout"@)
        &&& field_readable::<u64>(j, "verification_level"@)
        &&& field_readable::<u64>(j, "default_message_notifications"@)
        &&& field_readable::<u64>(j, "explicit_content_filter"@)
        &&& list_field_readable::<Role>(j, "roles"@)
        &&& list_field_readable::<Emoji>(j, "emojis"@)
        &&& list_field_readable::<String>(j, "features"@)
        &&& field_readable::<u64>(j, "mfa_level"@)
        &&& opt_field_readable::<ApplicationId>(j, "application_id"@)
        &&& opt_field_readable::<bool>(j, "widget_enabled"@)
        &&& opt_field_readable::<ChannelId>(j, "widget_channel_id"@)
        &&& opt_field_readable::<ChannelId>(j, "system_channel_id"@)
        &&& opt_field_readable::<Timestamp>(j, "joined_at"@)
        &&& opt_field_readable::<bool>(j, "large"@)
        &&& opt_field_readable::<bool>(j, "unavailable"@)
        &&& opt_field_readable::<u64>(j, "member_count"@)
        &&& opt_list_field_readable::<VoiceState>(j, "voice_states"@)
        &&& opt_list_field_readable::<GuildMember>(j, "members"@)
        &&& opt_list_field_readable::<Channel>(j, "channels"@)
        &&& opt_list_field_readable::<PresenceUpdate>(j, "presences"@)
    }

    open spec fn read_from(&self, j: Json) -> bool {
        &&& j is Object
        &&& field_read(self.id, j, "id"@)
        &&& field_read(self.name, j, "name"@)
        &&& opt_field_read(self.icon, j, "icon"@)
        &&& opt_field_read(self.splash, j, "splash"@)
        &&& opt_field_read(self.owner, j, "owner"@)
        &&& field_read(self.owner_id, j, "owner_id"@)
        &&& opt_field_read(self.permissions, j, "permissions"@)
        &&& field_read(self.region, j, "region"@)
        &&& opt_field_read(self.afk_channel_id, j, "afk_channel_id"@)
        &&& field_read(self.afk_timeout, j, "afk_timeout"@)
        &&& field_read(self.verification_level, j, "verification_level"@)
        &&& field_read(self.default_message_notifications, j, "default_message_notifications"@)
        &&& field_read(self.explicit_content_filter, j, "explicit_content_filter"@)
        &&& list_field_read(self.roles@, j, "roles"@)
        &&& list_field_read(self.emojis@, j, "emojis"@)
        &&& list_field_read(self.features@, j, "features"@)
        &&& field_read(self.mfa_level, j, "mfa_level"@)
        &&& opt_field_read(self.application_id, j, "application_id"@)
        &&& opt_field_read(self.widget_enabled, j, "widget_enabled"@)
        &&& opt_field_read(self.widget_channel_id, j, "widget_channel_id"@)
        &&& opt_field_read(self.system_channel_id, j, "system_channel_id"@)
        &&& opt_field_read(self.joined_at, j, "joined_at"@)
        &&& opt_field_read(self.large, j, "large"@)
        &&& opt_field_read(self.unavailable, j, "unavailable"@)
        &&& opt_field_read(self.member_count, j, "member_count"@)
        &&& opt_list_field_read(self.voice_states, j, "voice_states"@)
        &&& opt_list_field_read(self.members, j, "members"@)
        &&& opt_list_field_read(self.channels, j, "channels"@)
        &&& opt_list_field_read(self.presences, j, "presences"@)
    }

    fn from_json(json: &serde_json::Value) -> (r: Option<Guild>) {
        if !json_is_object(json) {
            return None;
        }
        let id = get_object::<GuildId>(json, "id")?;
        let name = get_object::<String>(json, "name")?;
        let icon = get_opt_object::<String>(json, "icon")?;
        let splash = get_opt_object::<String>(json, "splash")?;
        let owner = get_opt_object::<bool>(json, "owner")?;
        let owner_id = get_object::<UserId>(json, "owner_id")?;
        let permissions = get_opt_object::<Permissions>(json, "permissions")?;
        let region = get_object::<String>(json, "region")?;
        let afk_channel_id = get_opt_object::<ChannelId>(json, "afk_channel_id")?;
        let afk_timeout = get_object::<u64>(json, "afk_timeout")?;
        let verification_level = get_object::<u64>(json, "verification_level")?;
        let default_message_notifications = get_object::<u64>(
            json,
            "default_message_notifications",
        )?;
        let explicit_content_filter = get_object::<u64>(json, "explicit_content_filter")?;
        let roles = get_objects::<Role>(json, "roles")?;
        let emojis = get_objects::<Emoji>(json, "emojis")?;
        let features = get_objects::<String>(json, "features")?;
        let mfa_level = get_object::<u64>(json, "mfa_level")?;
        let application_id = get_opt_object::<ApplicationId>(json, "application_id")?;
        let widget_enabled = get_opt_object::<bool>(json, "widget_enabled")?;
        let widget_channel_id = get_opt_object::<ChannelId>(json, "widget_channel_id")?;
        let system_channel_id = get_opt_object::<ChannelId>(json, "system_channel_id")?;
        let joined_at = get_opt_object::<Timestamp>(json, "joined_at")?;
        let large = get_opt_object::<bool>(json, "large")?;
        let unavailable = get_opt_object::<bool>(json, "unavailable")?;
        let member_count = get_opt_object::<u64>(json, "member_count")?;
        let voice_states = get_opt_objects::<VoiceState>(json, "voice_states")?;
        let members = get_opt_objects::<GuildMember>(json, "members")?;
        let channels = get_opt_objects::<Channel>(json, "channels")?;
        let presences = get_opt_objects::<PresenceUpdate>(json, "presences")?;
        Some(
            Guild {
                id,
                name,
                icon,
                splash,
                owner,
                owner_id,
                permissions,
                region,
                afk_channel_id,
                afk_timeout,
                verification_level,
                default_message_notifications,
                explicit_content_filter,
                roles,
                emojis,
                features,
                mfa_level,
                application_id,
                widget_enabled,
                widget_channel_id,
                system_channel_id,
                joined_at,
                large,
                unavailable,
                member_count,
                voice_states,
                members,
                channels,
                presences,
            },
        )
    }
}

/// A message.
#[derive(Debug)]
pub struct Message {
    pub id: MessageId,
    pub channel_id: ChannelId,
    pub guild_id: Option<GuildId>,
    /// The author of the message; no real user if a webhook sent it.
    pub author: User,
    /// Member properties of the message's author.
    pub member: Option<PartialGuildMember>,
    pub content: String,
    /// When the message was sent.
    pub timestamp: Timestamp,
    /// When the message was edited, if it ever was.
    pub edited_timestamp: Option<Timestamp>,
    pub tts: bool,
    pub mention_everyone: bool,
    pub mentions: Vec<Mention>,
    pub mention_roles: Vec<RoleId>,
    pub attachments: Vec<Attachment>,
    /// Embedded content, as it came.
    pub embeds: Vec<serde_json::Value>,
    pub reactions: Option<Vec<Reaction>>,
    /// Used for validating that a message was sent.
    pub nonce: Option<Snowflake>,
    pub pinned: bool,
    /// The webhook that sent the message, if one did.
    pub webhook_id: Option<WebhookId>,
    pub msg_type: MessageType,
    pub activity: Option<MessageActivity>,
    pub application: Option<Application>,
    pub application_id: Option<ApplicationId>,
    pub message_reference: Option<MessageReference>,
    pub flags: Option<MessageFlags>,
    /// The message that this one refers to, as it came.
    pub referenced_message: Option<serde_json::Value>,
    pub interaction: Option<MessageInteraction>,
    /// The thread that was started from this message.
    pub thread: Option<Channel>,
    pub components: Option<Vec<MessageComponent>>,
    pub sticker_items: Option<Vec<MessageStickerItem>>,
}

impl FromJson for Message {
    open spec fn readable(j: Json) -> bool {
        &&& j is Object
        &&& field_readable::<MessageId>(j, "id"@)
        &&& field_readable::<ChannelId>(j, "channel_id"@)
        &&& opt_field_readable::<GuildId>(j, "guild_id"@)
        &&& field_readable::<User>(j, "author"@)
        &&& opt_field_readable::<PartialGuildMember>(j, "member"@)
        &&& field_readable::<String>(j, "content"@)
        &&& field_readable::<Timestamp>(j, "timestamp"@)
        &&& opt_field_readable::<Timestamp>(j, "edited_timestamp"@)
        &&& field_readable::<bool>(j, "tts"@)
        &&& field_readable::<bool>(j, "mention_everyone"@)
        &&& list_field_readable::<Mention>(j, "mentions"@)
        &&& list_field_readable::<RoleId>(j, "mention_roles"@)
        &&& list_field_readable::<Attachment>(j, "attachments"@)
        &&& list_field_readable::<serde_json::Value>(j, "embeds"@)
        &&& opt_list_field_readable::<Reaction>(j, "reactions"@)
        &&& opt_field_readable::<Snowflake>(j, "nonce"@)
        &&& field_readable::<bool>(j, "pinned"@)
        &&& opt_field_readable::<WebhookId>(j, "webhook_id"@)
        &&& field_readable::<MessageType>(j, "type"@)
        &&& opt_field_readable::<MessageActivity>(j, "activity"@)
        &&& opt_field_readable::<Application>(j, "application"@)
        &&& opt_field_readable::<ApplicationId>(j, "application_id"@)
        &&& opt_field_readable::<MessageReference>(j, "message_reference"@)
        &&& opt_field_readable::<MessageFlags>(j, "flags"@)
        &&& opt_field_readable::<serde_json::Value>(j, "referenced_message"@)
        &&& opt_field_readable::<MessageInteraction>(j, "interaction"@)
        &&& opt_field_readable::<Channel>(j, "thread"@)
        &&& opt_list_field_readable::<MessageComponent>(j, "components"@)
        &&& opt_list_field_readable::<MessageStickerItem>(j, "sticker_items"@)
    }

    open spec fn read_from(&self, j: Json) -> bool {
        &&& j is Object
        &&& field_read(self.id, j, "id"@)
        &&& field_read(self.channel_id, j, "channel_id"@)
        &&& opt_field_read(self.guild_id, j, "guild_id"@)
        &&& field_read(self.author, j, "author"@)
        &&& opt_field_read(self.member, j, "member"@)
        &&& field_read(self.content, j, "content"@)
        &&& field_read(self.timestamp, j, "timestamp"@)
        &&& opt_field_read(self.edited_timestamp, j, "edited_timestamp"@)
        &&& field_read(self.tts, j, "tts"@)
        &&& field_read(self.mention_everyone, j, "mention_everyone"@)
        &&& list_field_read(self.mentions@, j, "mentions"@)
        &&& list_field_read(self.mention_roles@, j, "mention_roles"@)
        &&& list_field_read(self.attachments@, j, "attachments"@)
        &&& list_field_read(self.embeds@, j, "embeds"@)
        &&& opt_list_field_read(self.reactions, j, "reactions"@)
        &&& opt_field_read(self.nonce, j, "nonce"@)
        &&& field_read(self.pinned, j, "pinned"@)
        &&& opt_field_read(self.webhook_id, j, "webhook_id"@)
        &&& field_read(self.msg_type, j, "type"@)
        &&& opt_field_read(self.activity, j, "activity"@)
        &&& opt_field_read(self.application, j, "application"@)
        &&& opt_field_read(self.application_id, j, "application_id"@)
        &&& opt_field_read(self.message_reference, j, "message_reference"@)
        &&& opt_field_read(self.flags, j, "flags"@)
        &&& opt_field_read(self.referenced_message, j, "referenced_message"@)
        &&& opt_field_read(self.interaction, j, "interaction"@)
        &&& opt_field_read(self.thread, j, "thread"@)
        &&& opt_list_field_read(self.components, j, "components"@)
        &&& opt_list_field_read(self.sticker_items, j, "sticker_items"@)
    }

    fn from_json(json: &serde_json::Value) -> (r: Option<Message>) {
        if !json_is_object(json) {
            return None;
        }
        let id = get_object::<MessageId>(json, "id")?;
        let channel_id = get_object::<ChannelId>(json, "channel_id")?;
        let guild_id = get_opt_object::<GuildId>(json, "guild_id")?;
        let author = get_object::<User>(json, "author")?;
        let member = get_opt_object::<PartialGuildMember>(json, "member")?;
        let content = get_object::<String>(json, "content")?;
        let timestamp = get_object::<Timestamp>(json, "timestamp")?;
        let edited_timestamp = get_opt_object::<Timestamp>(json, "edited_timestamp")?;
        let tts = get_object::<bool>(json, "tts")?;
        let mention_everyone = get_object::<bool>(json, "mention_everyone")?;
        let mentions = get_objects::<Mention>(json, "mentions")?;
        let mention_roles = get_objects::<RoleId>(json, "mention_roles")?;
        let attachments = get_objects::<Attachment>(json, "attachments")?;
        let embeds = get_objects::<serde_json::Value>(json, "embeds")?;
        let reactions = get_opt_objects::<Reaction>(json, "reactions")?;
        let nonce = get_opt_object::<Snowflake>(json, "nonce")?;
        let pinned = get_object::<bool>(json, "pinned")?;
        let webhook_id = get_opt_object::<WebhookId>(json, "webhook_id")?;
        let msg_type = get_object::<MessageType>(json, "type")?;
        let activity = get_opt_object::<MessageActivity>(json, "activity")?;
        let application = get_opt_object::<Application>(json, "application")?;
        let application_id = get_opt_object::<ApplicationId>(json, "application_id")?;
        let message_reference = get_opt_object::<MessageReference>(json, "message_reference")?;
        let flags = get_opt_object::<MessageFlags>(json, "flags")?;
        let referenced_message = get_opt_object::<serde_json::Value>(json, "referenced_message")?;
        let interaction = get_opt_object::<MessageInteraction>(json, "interaction")?;
        let thread = get_opt_object::<Channel>(json, "thread")?;
        let components = get_opt_objects::<MessageComponent>(json, "components")?;
        let sticker_items = get_opt_objects::<MessageStickerItem>(json, "sticker_items")?;
        Some(
            Message {
                id,
                channel_id,
                guild_id,
                author,
                member,
                content,
                timestamp,
                edited_timestamp,
                tts,
                mention_everyone,
                mentions,
                mention_roles,
                attachments,
                embeds,
                reactions,
                nonce,
                pinned,
                webhook_id,
                msg_type,
                activity,
                application,
                application_id,
                message_reference,
                flags,
                referenced_message,
                interaction,
                thread,
                components,
                sticker_items,
            },
        )
    }
}

/// The command that an interaction invokes.
#[derive(Debug)]
pub struct ApplicationCommandInteractionData {
    pub id: ApplicationCommandId,
    pub name: String,
    /// The users, members, roles and channels that the values stand for, as they came.
    pub resolved: Option<serde_json::Value>,
    pub options: Option<Vec<ApplicationCommandInteractionDataOption>>,
    pub custom_id: String,
    pub component_type: MessageComponentType,
}

impl FromJson for ApplicationCommandInteractionData {
    open spec fn readable(j: Json) -> bool {
        &&& j is Object
        &&& field_readable::<ApplicationCommandId>(j, "id"@)
        &&& field_readable::<String>(j, "name"@)
        &&& opt_field_readable::<serde_json::Value>(j, "resolved"@)
        &&& opt_list_field_readable::<ApplicationCommandInteractionDataOption>(j, "options"@)
        &&& field_readable::<String>(j, "custom_id"@)
        &&& field_readable::<MessageComponentType>(j, "component_type"@)
    }

    open spec fn read_from(&self, j: Json) -> bool {
        &&& j is Object
        &&& field_read(self.id, j, "id"@)
        &&& field_read(self.name, j, "name"@)
        &&& opt_field_read(self.resolved, j, "resolved"@)
        &&& opt_list_field_read(self.options, j, "options"@)
        &&& field_read(self.custom_id, j, "custom_id"@)
        &&& field_read(self.component_type, j, "component_type"@)
    }

    fn from_json(json: &serde_json::Value) -> (r: Option<ApplicationCommandInteractionData>) {
        if !json_is_object(json) {
            return None;
        }
        let id = get_object::<ApplicationCommandId>(json, "id")?;
        let name = get_object::<String>(json, "name")?;
        let resolved = get_opt_object::<serde_json::Value>(json, "resolved")?;
        let options = get_opt_objects::<ApplicationCommandInteractionDataOption>(json, "options")?;
        let custom_id = get_object::<String>(json, "custom_id")?;
        let component_type = get_object::<MessageComponentType>(json, "component_type")?;
        Some(
            ApplicationCommandInteractionData {
                id,
                name,
                resolved,
                options,
                custom_id,
                component_type,
            },
        )
    }
}

/// An interaction of a user with an application.
#[derive(Debug)]
pub struct Interaction {
    pub id: InteractionId,
    pub application_id: ApplicationId,
    pub typ: InteractionType,
    pub data: Option<ApplicationCommandInteractionData>,
    pub guild_id: Option<GuildId>,
    pub channel_id: Option<ChannelId>,
    /// The invoking user as a member of the guild.
    pub member: Option<GuildMember>,
    /// The invoking user, if the interaction began in a direct message.
    pub user: Option<User>,
    /// A token for answering the interaction.
    pub token: String,
    pub version: u64,
    /// The message that the component was attached to.
    pub message: Option<Message>,
}

impl FromJson for Interaction {
    open spec fn readable(j: Json) -> bool {
        &&& j is Object
        &&& field_readable::<InteractionId>(j, "id"@)
        &&& field_readable::<ApplicationId>(j, "application_id"@)
        &&& field_readable::<InteractionType>(j, "type"@)
        &&& opt_field_readable::<ApplicationCommandInteractionData>(j, "data"@)
        &&& opt_field_readable::<GuildId>(j, "guild_id"@)
        &&& opt_field_readable::<ChannelId>(j, "channel_id"@)
        &&& opt_field_readable::<GuildMember>(j, "member"@)
        &&& opt_field_readable::<User>(j, "user"@)
        &&& field_readable::<String>(j, "token"@)
        &&& field_readable::<u64>(j, "version"@)
        &&& opt_field_readable::<Message>(j, "message"@)
    }

    open spec fn read_from(&self, j: Json) -> bool {
        &&& j is Object
        &&& field_read(self.id, j, "id"@)
        &&& field_read(self.application_id, j, "application_id"@)
        &&& field_read(self.typ, j, "type"@)
        &&& opt_field_read(self.data, j, "data"@)
        &&& opt_field_read(self.guild_id, j, "guild_id"@)
        &&& opt_field_read(self.channel_id, j, "channel_id"@)
        &&& opt_field_read(self.member, j, "member"@)
        &&& opt_field_read(self.user, j, "user"@)
        &&& field_read(self.token, j, "token"@)
        &&& field_read(self.version, j, "version"@)
        &&& opt_field_read(self.message, j, "message"@)
    }

    fn from_json(json: &serde_json::Value) -> (r: Option<Interaction>) {
        if !json_is_object(json) {
            return None;
        }
        let id = get_object::<InteractionId>(json, "id")?;
        let application_id = get_object::<ApplicationId>(json, "application_id")?;
        let typ = get_object::<InteractionType>(json, "type")?;
        let data = get_opt_object::<ApplicationCommandInteractionData>(json, "data")?;
        let guild_id = get_opt_object::<GuildId>(json, "guild_id")?;
        let channel_id = get_opt_object::<ChannelId>(json, "channel_id")?;
        let member = get_opt_object::<GuildMember>(json, "member")?;
        let user = get_opt_object::<User>(json, "user")?;
        let token = get_object::<String>(json, "token")?;
        let version = get_object::<u64>(json, "version")?;
        let message = get_opt_object::<Message>(json, "message")?;
        Some(
            Interaction {
                id,
                application_id,
                typ,
                data,
                guild_id,
                channel_id,
                member,
                user,
                token,
                version,
                message,
            },
        )
    }
}

} // verus!
