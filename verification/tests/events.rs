use discord_next::decode::{Decimal, FromJson};
use discord_next::gateway::{GatewayEvent, ReceivableEvent};
use discord_next::ids::{ChannelId, EmojiId, GuildId, MessageId, RoleId, Snowflake, UserId};
use discord_next::model::{
    Activity, ActivityFlags, ActivityType, Application, ApplicationCommand,
    ApplicationCommandOptionChoice, ApplicationFlags, Attachment, ButtonStyle, Channel,
    ChannelType, Emoji, Guild, GuildMember, Interaction, MembershipState, Message, MessageActivity, MessageActivityType, MessageComponent, MessageReference,
    MessageType, Overwrite, OverwriteType, PartialGuild, Party, Permissions, PresenceUpdate,
    Reaction, Role, StageInstance, Status, StringOrInt, Team, UnavailableGuild, User,
};
use discord_next::payload::{FromPayloadError, Payload};
use serde_json::Value;

fn json(text: &str) -> Value {
    serde_json::from_str(text).unwrap()
}

fn dispatch(name: &str, d: &str) -> Result<ReceivableEvent, FromPayloadError> {
    let text = format!(r#"{{"op":0,"t":"{}","s":1,"d":{}}}"#, name, d);
    match GatewayEvent::try_from(Payload::parse_gateway(&text).unwrap()) {
        Ok(GatewayEvent::ReceivableEvent(event)) => Ok(event),
        Ok(other) => panic!("{:?}", other),
        Err(e) => Err(e),
    }
}

const USER: &str = r#"{"id":"80351110224678912","username":"Nelly","discriminator":"1337"}"#;

#[test]
fn user_is_read() {
    let user = User::from_json(&json(
        r#"{"id":"80351110224678912","username":"Nelly","discriminator":"1337",
            "avatar":"8342729096ea3675442027381ff50dfe","verified":true,
            "email":"nelly@example.net","mfa_enabled":null}"#,
    ))
    .unwrap();
    assert_eq!(user.id, UserId(Snowflake(80351110224678912)));
    assert_eq!(user.username, "Nelly");
    assert_eq!(user.discriminator, "1337");
    assert_eq!(
        user.avatar.as_deref(),
        Some("8342729096ea3675442027381ff50dfe")
    );
    assert_eq!(user.bot, None);
    assert_eq!(user.mfa_enabled, None);
    assert_eq!(user.verified, Some(true));
    assert_eq!(user.email.as_deref(), Some("nelly@example.net"));
    for bad in [
        "null",
        "[]",
        r#""x""#,
        r#"{"id":80351110224678912,"username":"Nelly","discriminator":"1337"}"#,
        r#"{"id":"1","discriminator":"1337"}"#,
        r#"{"id":"1","username":"Nelly","discriminator":1337}"#,
        r#"{"id":"1","username":"Nelly","discriminator":"1337","bot":1}"#,
    ] {
        assert!(User::from_json(&json(bad)).is_none(), "{}", bad);
    }
}

#[test]
fn values_of_plain_kinds_are_read() {
    assert_eq!(u64::from_json(&json("7")), Some(7));
    assert_eq!(u64::from_json(&json("-7")), None);
    assert_eq!(u64::from_json(&json("7.0")), None);
    assert_eq!(u32::from_json(&json("4294967295")), Some(u32::MAX));
    assert_eq!(u32::from_json(&json("4294967296")), None);
    assert_eq!(i64::from_json(&json("-7")), Some(-7));
    assert_eq!(i64::from_json(&json("9223372036854775808")), None);
    assert_eq!(bool::from_json(&json("true")), Some(true));
    assert_eq!(bool::from_json(&json("1")), None);
    assert_eq!(String::from_json(&json(r#""a""#)), Some("a".to_owned()));
    assert_eq!(String::from_json(&json("null")), None);
    assert_eq!(Decimal::from_json(&json(r#""12""#)), Some(Decimal(12)));
    assert_eq!(Decimal::from_json(&json("12")), None);
    assert_eq!(
        GuildId::from_json(&json(r#""12""#)),
        Some(GuildId(Snowflake(12)))
    );
    assert_eq!(Snowflake::from_json(&json(r#""x""#)), None);
    assert_eq!(Value::from_json(&json("[1]")), Some(json("[1]")));
    assert_eq!(<(u64, u64)>::from_json(&json("[1,5]")), Some((1, 5)));
    assert_eq!(<(u64, u64)>::from_json(&json("[1]")), None);
    assert_eq!(<(u64, u64)>::from_json(&json("[1,2,3]")), None);
    assert_eq!(<(u64, u64)>::from_json(&json(r#"[1,"2"]"#)), None);
}

#[test]
fn numbered_kinds_are_read() {
    assert_eq!(ActivityType::from_json(&json("0")), Some(ActivityType::Game));
    assert_eq!(
        ActivityType::from_json(&json("2")),
        Some(ActivityType::Listening)
    );
    assert_eq!(ActivityType::from_json(&json("3")), None);
    assert_eq!(ActivityType::Streaming.to_number(), 1);
    assert_eq!(OverwriteType::from_number(1), Some(OverwriteType::Member));
    assert_eq!(
        MessageActivityType::from_number(5),
        Some(MessageActivityType::JoinRequest)
    );
    assert_eq!(MessageActivityType::from_number(4), None);
    assert_eq!(ButtonStyle::Link.to_number(), 5);
    assert_eq!(MembershipState::from_number(0), None);
    assert_eq!(
        ChannelType::from_number(13),
        Some(ChannelType::GuildStageVoice)
    );
    assert_eq!(ChannelType::from_number(7), None);
    assert_eq!(MessageType::from_number(19), Some(MessageType::Reply));
    assert_eq!(MessageType::from_number(13), None);
    assert_eq!(MessageType::GuildInviteReminder.to_number(), 22);
    for n in 0..30 {
        if let Some(kind) = MessageType::from_number(n) {
            assert_eq!(kind.to_number(), n);
        }
    }
    assert_eq!(Status::from_json(&json(r#""dnd""#)), Some(Status::DoNotDisturb));
    assert_eq!(Status::from_name("idle"), Some(Status::AFK));
    assert_eq!(Status::from_name("away"), None);
    for status in [
        Status::Online,
        Status::DoNotDisturb,
        Status::AFK,
        Status::Invisible,
        Status::Offline,
    ] {
        assert_eq!(Status::from_name(status.as_str()), Some(status));
    }
}

#[test]
fn flags_drop_unknown_bits() {
    assert_eq!(ActivityFlags::from_json(&json("63")).unwrap().bits(), 63);
    assert_eq!(ActivityFlags::from_json(&json("65")).unwrap().bits(), 1);
    assert_eq!(ActivityFlags::ALL, 63);
    assert_eq!(
        ApplicationFlags::from_bits_truncate(u32::MAX).bits(),
        0x3F000
    );
    assert_eq!(
        Permissions::from_json(&json(r#""2147483647""#)).unwrap().bits(),
        0x7FF7_FDFF
    );
    assert_eq!(Permissions::from_json(&json(r#""8""#)).unwrap().bits(), 8);
    assert_eq!(Permissions::from_json(&json(r#""512""#)).unwrap().bits(), 0);
    assert!(Permissions::from_json(&json("8")).is_none());
    assert_eq!(Permissions::ADMINISTRATOR, 8);
}

#[test]
fn role_and_emoji_are_read() {
    let role = Role::from_json(&json(
        r#"{"id":"41771983423143936","name":"WE DEM BOYZZ!!!!!!","color":3447003,"hoist":true,
            "position":1,"permissions":"66321471","managed":false,"mentionable":false}"#,
    ))
    .unwrap();
    assert_eq!(role.id, RoleId(Snowflake(41771983423143936)));
    assert_eq!(role.color, 3447003);
    assert!(role.hoist && !role.managed && !role.mentionable);
    assert_eq!(role.position, 1);
    assert_eq!(role.permissions.bits(), 66321471);
    let emoji = Emoji::from_json(&json(
        r#"{"id":"41771983429993937","name":"LUL","roles":["41771983429993000","41771983429993111"],
            "user":{"id":"1","username":"a","discriminator":"0001"},"require_colons":true,
            "managed":false,"animated":false}"#,
    ))
    .unwrap();
    assert_eq!(emoji.id, Some(EmojiId(Snowflake(41771983429993937))));
    assert_eq!(emoji.name.as_deref(), Some("LUL"));
    assert_eq!(
        emoji.roles,
        Some(vec![
            RoleId(Snowflake(41771983429993000)),
            RoleId(Snowflake(41771983429993111))
        ])
    );
    assert_eq!(emoji.user.unwrap().username, "a");
    assert_eq!(emoji.available, None);
    let plain = Emoji::from_json(&json(r#"{"id":null,"name":"🔥"}"#)).unwrap();
    assert_eq!(plain.id, None);
    assert_eq!(plain.name.as_deref(), Some("🔥"));
    assert!(Emoji::from_json(&json("{}")).is_some());
    assert!(Emoji::from_json(&json("5")).is_none());
    assert!(Emoji::from_json(&json(r#"{"roles":["x"]}"#)).is_none());
}

#[test]
fn other_objects_are_read() {
    let overwrite =
        Overwrite::from_json(&json(r#"{"id":"5","type":1,"allow":"1024","deny":"0"}"#)).unwrap();
    assert_eq!(overwrite.id, Snowflake(5));
    assert_eq!(overwrite.typ, OverwriteType::Member);
    assert_eq!(overwrite.allow, 1024);
    assert_eq!(overwrite.deny, 0);
    assert!(Overwrite::from_json(&json(r#"{"id":"5","type":2,"allow":"1","deny":"0"}"#)).is_none());
    let attachment = Attachment::from_json(&json(
        r#"{"id":"9","filename":"a.png","size":12,"url":"u","proxy_url":"p","height":null,"width":3}"#,
    ))
    .unwrap();
    assert_eq!(attachment.size, 12);
    assert_eq!(attachment.height, None);
    assert_eq!(attachment.width, Some(3));
    let reaction =
        Reaction::from_json(&json(r#"{"count":2,"me":false,"emoji":{"name":"x"}}"#)).unwrap();
    assert_eq!(reaction.count, 2);
    assert_eq!(reaction.emoji.name.as_deref(), Some("x"));
    let activity = MessageActivity::from_json(&json(r#"{"type":3}"#)).unwrap();
    assert_eq!(activity.activity_type, MessageActivityType::Listen);
    let reference = MessageReference::from_json(&json(r#"{"channel_id":"7"}"#)).unwrap();
    assert_eq!(reference.channel_id, Some(ChannelId(Snowflake(7))));
    assert_eq!(reference.message_id, None);
    let guild = PartialGuild::from_json(&json(
        r#"{"id":"1","name":"g","icon":null,"owner":true,"permissions":"36953089"}"#,
    ))
    .unwrap();
    assert_eq!(guild.icon, None);
    assert_eq!(guild.permissions.unwrap().bits(), 36953089);
    let component = MessageComponent::from_json(&json(
        r#"{"type":1,"components":[{"type":2,"style":1,"label":"go","custom_id":"x"}]}"#,
    ))
    .unwrap();
    assert_eq!(
        component.components,
        Some(vec![json(
            r#"{"type":2,"style":1,"label":"go","custom_id":"x"}"#
        )])
    );
    let stage = StageInstance::from_json(&json(
        r#"{"id":"1","guild_id":"2","channel_id":"3","topic":"t","privacy_level":2,"discoverable_disabled":false}"#,
    ))
    .unwrap();
    assert_eq!(stage.channel_id, ChannelId(Snowflake(3)));
    let choice =
        ApplicationCommandOptionChoice::from_json(&json(r#"{"name":"n","value":-3}"#)).unwrap();
    assert!(matches!(choice.value, StringOrInt::Int(-3)));
    let choice =
        ApplicationCommandOptionChoice::from_json(&json(r#"{"name":"n","value":"v"}"#)).unwrap();
    assert!(matches!(choice.value, StringOrInt::String(ref s) if s == "v"));
    assert!(ApplicationCommandOptionChoice::from_json(&json(r#"{"name":"n","value":1.5}"#))
        .is_none());
    let command = ApplicationCommand::from_json(&json(
        r#"{"id":"1","application_id":"2","name":"ping","description":"d",
            "options":[{"type":3,"name":"o","description":"d","required":true,
                        "choices":[{"name":"a","value":1}]}]}"#,
    ))
    .unwrap();
    assert_eq!(command.options.as_ref().unwrap().len(), 1);
    assert_eq!(command.options.unwrap()[0].required, Some(true));
}

#[test]
fn application_with_team_is_read() {
    let application = Application::from_json(&json(
        r#"{"id":"172150183260323840","name":"Baba O-Riley","icon":null,"description":"Test",
            "rpc_origins":["a","b"],"bot_public":true,"bot_require_code_grant":false,
            "summary":"","verify_key":"1e0a","flags":69632,
            "owner":{"id":"1"},
            "team":{"icon":"dd","id":"531992624043786253","name":"t","owner_user_id":"5",
                    "members":[{"membership_state":2,"permissions":["*"],"team_id":"531992624043786253",
                                "user":{"id":"5","username":"u"}}]}}"#,
    ))
    .unwrap();
    assert_eq!(application.name, "Baba O-Riley");
    assert_eq!(
        application.rpc_origins,
        Some(vec!["a".to_owned(), "b".to_owned()])
    );
    assert_eq!(application.flags.unwrap().bits(), 69632);
    let team: Team = application.team.unwrap();
    assert_eq!(team.members.len(), 1);
    assert_eq!(team.members[0].membership_state, MembershipState::Accepted);
    assert_eq!(team.members[0].user.username.as_deref(), Some("u"));
}

#[test]
fn activity_is_read_as_it_is_written() {
    let text = r#"{"name":"chess","type":1,"url":"https://example.net","timestamps":{"start":1},
        "application_id":"7","state":"thinking","party":{"id":"p","size":[1,5]},
        "assets":{"large_text":"L"},"secrets":{"match":"m"},"instance":true,"flags":3}"#;
    let activity = Activity::from_json(&json(text)).unwrap();
    assert_eq!(activity.name, "chess");
    assert_eq!(activity.typ, ActivityType::Streaming);
    assert_eq!(activity.timestamps.unwrap().start, Some(1));
    let party: &Party = activity.party.as_ref().unwrap();
    assert_eq!(party.size, Some((1, 5)));
    assert_eq!(activity.secrets.as_ref().unwrap().match_secret.as_deref(), Some("m"));
    assert_eq!(activity.to_json(), json(text));
}

#[test]
fn typed_events_are_read() {
    match dispatch("RESUMED", r#"{"_trace":["x"]}"#).unwrap() {
        ReceivableEvent::Resumed(resumed) => assert_eq!(resumed._trace, vec!["x".to_owned()]),
        other => panic!("{:?}", other),
    }
    match dispatch(
        "CHANNEL_PINS_UPDATE",
        r#"{"channel_id":"3","last_pin_timestamp":"2021-01-01T00:00:00+00:00"}"#,
    )
    .unwrap()
    {
        ReceivableEvent::ChannelPinsUpdate(update) => {
            assert_eq!(update.channel_id, ChannelId(Snowflake(3)));
            assert_eq!(
                update.last_pin_timestamp.as_deref(),
                Some("2021-01-01T00:00:00+00:00")
            );
        }
        other => panic!("{:?}", other),
    }
    match dispatch("GUILD_DELETE", r#"{"id":"3","unavailable":true}"#).unwrap() {
        ReceivableEvent::GuildDelete(guild) => assert_eq!(
            guild,
            UnavailableGuild {
                id: GuildId(Snowflake(3)),
                unavailable: true
            }
        ),
        other => panic!("{:?}", other),
    }
    match dispatch("GUILD_BAN_ADD", &format!(r#"{{"guild_id":"3","user":{}}}"#, USER)).unwrap() {
        ReceivableEvent::GuildBanAdd(ban) => {
            assert_eq!(ban.guild_id, GuildId(Snowflake(3)));
            assert_eq!(ban.user.username, "Nelly");
        }
        other => panic!("{:?}", other),
    }
    assert!(matches!(
        dispatch("GUILD_BAN_REMOVE", &format!(r#"{{"guild_id":"3","user":{}}}"#, USER)),
        Ok(ReceivableEvent::GuildBanRemove(_))
    ));
    match dispatch(
        "GUILD_EMOJIS_UPDATE",
        r#"{"guild_id":"3","emojis":[{"name":"a"},{"name":"b"}]}"#,
    )
    .unwrap()
    {
        ReceivableEvent::GuildEmojisUpdate(update) => assert_eq!(update.emojis.len(), 2),
        other => panic!("{:?}", other),
    }
    assert!(matches!(
        dispatch("GUILD_INTEGRATIONS_UPDATE", r#"{"guild_id":"3"}"#),
        Ok(ReceivableEvent::GuildIntegrationsUpdate(_))
    ));
    assert!(matches!(
        dispatch(
            "GUILD_MEMBER_REMOVE",
            &format!(r#"{{"guild_id":"3","user":{}}}"#, USER)
        ),
        Ok(ReceivableEvent::GuildMemberRemove(_))
    ));
    match dispatch(
        "GUILD_MEMBER_UPDATE",
        &format!(
            r#"{{"guild_id":"3","roles":["4","5"],"user":{},"nick":"n"}}"#,
            USER
        ),
    )
    .unwrap()
    {
        ReceivableEvent::GuildMemberUpdate(update) => {
            assert_eq!(
                update.roles,
                vec![RoleId(Snowflake(4)), RoleId(Snowflake(5))]
            );
            assert_eq!(update.nick, "n");
        }
        other => panic!("{:?}", other),
    }
    let role = r#"{"id":"4","name":"r","color":0,"hoist":false,"position":2,"permissions":"0","managed":false,"mentionable":true}"#;
    assert!(matches!(
        dispatch("GUILD_ROLE_CREATE", &format!(r#"{{"guild_id":"3","role":{}}}"#, role)),
        Ok(ReceivableEvent::GuildRoleCreate(_))
    ));
    assert!(matches!(
        dispatch("GUILD_ROLE_UPDATE", &format!(r#"{{"guild_id":"3","role":{}}}"#, role)),
        Ok(ReceivableEvent::GuildRoleUpdate(_))
    ));
    match dispatch("GUILD_ROLE_DELETE", r#"{"guild_id":"3","role_id":"4"}"#).unwrap() {
        ReceivableEvent::GuildRoleDelete(delete) => {
            assert_eq!(delete.role_id, RoleId(Snowflake(4)))
        }
        other => panic!("{:?}", other),
    }
    assert!(matches!(
        dispatch("MESSAGE_UPDATE", r#"{"id":"1","content":"x"}"#),
        Ok(ReceivableEvent::MessageUpdate(_))
    ));
    match dispatch("MESSAGE_DELETE", r#"{"id":"1","channel_id":"2"}"#).unwrap() {
        ReceivableEvent::MessageDelete(delete) => {
            assert_eq!(delete.id, MessageId(Snowflake(1)));
            assert_eq!(delete.channel_id, ChannelId(Snowflake(2)));
            assert_eq!(delete.guild_id, None);
        }
        other => panic!("{:?}", other),
    }
    match dispatch(
        "MESSAGE_DELETE_BULK",
        r#"{"ids":["1","2","3"],"channel_id":"2","guild_id":"9"}"#,
    )
    .unwrap()
    {
        ReceivableEvent::MessageDeleteBulk(delete) => {
            assert_eq!(delete.ids.len(), 3);
            assert_eq!(delete.ids[2], MessageId(Snowflake(3)));
            assert_eq!(delete.guild_id, Some(GuildId(Snowflake(9))));
        }
        other => panic!("{:?}", other),
    }
    let reaction = r#"{"user_id":"1","channel_id":"2","message_id":"3","emoji":{"id":null,"name":"x"}}"#;
    match dispatch("MESSAGE_REACTION_ADD", reaction).unwrap() {
        ReceivableEvent::MessageReactionAdd(add) => {
            assert_eq!(add.user_id, UserId(Snowflake(1)));
            assert_eq!(add.emoji.name.as_deref(), Some("x"));
        }
        other => panic!("{:?}", other),
    }
    assert!(matches!(
        dispatch("MESSAGE_REACTION_REMOVE", reaction),
        Ok(ReceivableEvent::MessageReactionRemove(_))
    ));
    assert!(matches!(
        dispatch(
            "MESSAGE_REACTION_REMOVE_ALL",
            r#"{"channel_id":"2","message_id":"3"}"#
        ),
        Ok(ReceivableEvent::MessageReactionRemoveAll(_))
    ));
    match dispatch(
        "TYPING_START",
        r#"{"channel_id":"2","user_id":"1","timestamp":1600000000}"#,
    )
    .unwrap()
    {
        ReceivableEvent::TypingStart(typing) => {
            assert_eq!(typing.timestamp, 1600000000);
            assert_eq!(typing.guild_id, None);
        }
        other => panic!("{:?}", other),
    }
    match dispatch("USER_UPDATE", USER).unwrap() {
        ReceivableEvent::UserUpdate(user) => assert_eq!(user.discriminator, "1337"),
        other => panic!("{:?}", other),
    }
    assert!(matches!(
        dispatch("WEBHOOKS_UPDATE", r#"{"guild_id":"3","channel_id":"2"}"#),
        Ok(ReceivableEvent::WebhooksUpdate(_))
    ));
}

#[test]
fn voice_state_is_read() {
    let d = r#"{"guild_id":"3","channel_id":null,"user_id":"1",
        "session_id":"s","deaf":false,"mute":true,"self_deaf":false,"self_mute":true,"suppress":false}"#;
    match dispatch("VOICE_STATE_UPDATE", d).unwrap() {
        ReceivableEvent::VoiceStateUpdate(state) => {
            assert_eq!(state.guild_id, Some(GuildId(Snowflake(3))));
            assert_eq!(state.channel_id, None);
            assert_eq!(state.user_id, UserId(Snowflake(1)));
            assert!(state.member.is_none());
            assert_eq!(state.session_id, "s");
            assert!(state.mute && state.self_mute);
            assert!(!state.deaf && !state.self_deaf && !state.suppress);
        }
        other => panic!("{:?}", other),
    }
    assert!(matches!(
        dispatch("VOICE_STATE_UPDATE", r#"{"user_id":"1"}"#),
        Err(FromPayloadError::Json(_))
    ));
}

#[test]
fn presence_update_is_read() {
    let d = r#"{"user":{"id":"1"},"guild_id":"2","status":"idle",
        "activities":[{"name":"a","type":0},{"name":"b","type":2,"flags":1}],
        "client_status":{"desktop":"idle"}}"#;
    match dispatch("PRESENCE_UPDATE", d).unwrap() {
        ReceivableEvent::PresenceUpdate(update) => {
            let update: PresenceUpdate = update;
            assert_eq!(update.user.id, UserId(Snowflake(1)));
            assert_eq!(update.status, Status::AFK);
            assert_eq!(update.activities.len(), 2);
            assert_eq!(update.activities[1].typ, ActivityType::Listening);
            assert_eq!(update.client_status.desktop.as_deref(), Some("idle"));
            assert_eq!(update.client_status.web, None);
        }
        other => panic!("{:?}", other),
    }
    let bad = r#"{"user":{"id":"1"},"status":"idle","activities":[{"name":"a","type":9}],"client_status":{}}"#;
    assert!(matches!(
        dispatch("PRESENCE_UPDATE", bad),
        Err(FromPayloadError::Json(_))
    ));
}

#[test]
fn typed_events_that_lack_something_are_malformed() {
    for (name, d) in [
        ("RESUMED", r#"{"_trace":"x"}"#),
        ("RESUMED", "null"),
        ("CHANNEL_PINS_UPDATE", "{}"),
        ("GUILD_DELETE", r#"{"id":"3"}"#),
        ("GUILD_BAN_ADD", r#"{"guild_id":"3"}"#),
        ("GUILD_EMOJIS_UPDATE", r#"{"guild_id":"3","emojis":{}}"#),
        ("GUILD_MEMBER_UPDATE", r#"{"guild_id":"3","roles":[],"user":{"id":"1","username":"a","discriminator":"b"}}"#),
        ("GUILD_ROLE_DELETE", r#"{"guild_id":"3","role_id":4}"#),
        ("MESSAGE_UPDATE", "[]"),
        ("MESSAGE_DELETE", r#"{"id":"1"}"#),
        ("MESSAGE_DELETE_BULK", r#"{"ids":["1",2],"channel_id":"2"}"#),
        ("MESSAGE_REACTION_ADD", r#"{"user_id":"1","channel_id":"2","message_id":"3"}"#),
        ("TYPING_START", r#"{"channel_id":"2","user_id":"1","timestamp":"now"}"#),
        ("USER_UPDATE", "{}"),
        ("WEBHOOKS_UPDATE", r#"{"guild_id":"3"}"#),
    ] {
        assert!(
            matches!(dispatch(name, d), Err(FromPayloadError::Json(_))),
            "{} {}",
            name,
            d
        );
    }
}

#[test]
fn channel_is_read() {
    let channel = Channel::from_json(&json(
        r#"{"id":"41771983423143937","guild_id":"41771983423143937","name":"general","type":0,
            "position":6,"permission_overwrites":[{"id":"5","type":0,"allow":"1","deny":"2"}],
            "nsfw":true,"topic":"24/7 chat","last_message_id":"155117677105512449",
            "parent_id":"399942396007890945","last_pin_timestamp":"2021-01-01T00:00:00+00:00"}"#,
    ))
    .unwrap();
    assert_eq!(channel.id, ChannelId(Snowflake(41771983423143937)));
    assert_eq!(channel.typ, ChannelType::GuildText);
    assert_eq!(channel.name.as_deref(), Some("general"));
    assert_eq!(channel.permission_overwrites.len(), 1);
    assert!(channel.recipients.is_empty());
    assert_eq!(
        channel.last_pin_timestamp.unwrap().0,
        "2021-01-01T00:00:00+00:00"
    );
    assert!(Channel::from_json(&json(r#"{"id":"1","type":9}"#)).is_none());
    assert!(matches!(
        dispatch("CHANNEL_CREATE", r#"{"id":"1","type":2}"#),
        Ok(ReceivableEvent::ChannelCreate(_))
    ));
    assert!(matches!(
        dispatch("CHANNEL_UPDATE", r#"{"id":"1","type":2}"#),
        Ok(ReceivableEvent::ChannelUpdate(_))
    ));
    assert!(matches!(
        dispatch("CHANNEL_DELETE", r#"{"id":"1","type":2}"#),
        Ok(ReceivableEvent::ChannelDelete(_))
    ));
    assert!(matches!(
        dispatch("CHANNEL_DELETE", r#"{"id":"1"}"#),
        Err(FromPayloadError::Json(_))
    ));
}

const MEMBER: &str = r#"{"user":{"id":"1","username":"a","discriminator":"0001"},"nick":"NOT API SUPPORT",
    "roles":["5"],"joined_at":"2015-04-26T06:26:56.936000+00:00","deaf":false,"mute":false}"#;

#[test]
fn members_are_read() {
    let member = GuildMember::from_json(&json(MEMBER)).unwrap();
    assert_eq!(member.nick.as_deref(), Some("NOT API SUPPORT"));
    assert_eq!(member.roles, vec![RoleId(Snowflake(5))]);
    assert_eq!(member.joined_at.0, "2015-04-26T06:26:56.936000+00:00");
    let added = format!(r#"{{"guild_id":"3",{}"#, &MEMBER[1..]);
    match dispatch("GUILD_MEMBER_ADD", &added).unwrap() {
        ReceivableEvent::GuildMemberAdd(add) => {
            assert_eq!(add.guild_id, GuildId(Snowflake(3)));
            assert_eq!(add.member.user.username, "a");
        }
        other => panic!("{:?}", other),
    }
    assert!(matches!(
        dispatch("GUILD_MEMBER_ADD", MEMBER),
        Err(FromPayloadError::Json(_))
    ));
    let chunk = format!(r#"{{"guild_id":"3","members":[{},{}]}}"#, MEMBER, MEMBER);
    match dispatch("GUILD_MEMBERS_CHUNK", &chunk).unwrap() {
        ReceivableEvent::GuildMembersChunk(chunk) => assert_eq!(chunk.members.len(), 2),
        other => panic!("{:?}", other),
    }
}

#[test]
fn guild_is_read() {
    let d = format!(
        r#"{{"id":"2909267986263572999","name":"Mason's Test Server","icon":null,"splash":null,
            "owner_id":"53908099506183680","region":"us-east","afk_channel_id":null,"afk_timeout":300,
            "verification_level":0,"default_message_notifications":1,"explicit_content_filter":0,
            "roles":[],"emojis":[{{"name":"x"}}],"features":["NEWS"],"mfa_level":0,
            "application_id":null,"system_channel_id":null,"large":false,"member_count":2,
            "members":[{}],"channels":[{{"id":"1","type":0}}],
            "voice_states":[{{"channel_id":"1","user_id":"1","session_id":"s","deaf":false,
                              "mute":false,"self_deaf":false,"self_mute":false,"suppress":false}}],
            "presences":[]}}"#,
        MEMBER
    );
    match dispatch("GUILD_CREATE", &d).unwrap() {
        ReceivableEvent::GuildCreate(guild) => {
            let guild: Guild = guild;
            assert_eq!(guild.name, "Mason's Test Server");
            assert_eq!(guild.afk_timeout, 300);
            assert_eq!(guild.features, vec!["NEWS".to_owned()]);
            assert_eq!(guild.members.unwrap().len(), 1);
            assert_eq!(guild.channels.unwrap()[0].typ, ChannelType::GuildText);
            assert_eq!(guild.voice_states.unwrap()[0].guild_id, None);
            assert_eq!(guild.large, Some(false));
            assert_eq!(guild.joined_at.is_none(), true);
        }
        other => panic!("{:?}", other),
    }
    assert!(matches!(
        dispatch("GUILD_UPDATE", &d),
        Ok(ReceivableEvent::GuildUpdate(_))
    ));
    assert!(matches!(
        dispatch("GUILD_UPDATE", r#"{"id":"1","name":"g"}"#),
        Err(FromPayloadError::Json(_))
    ));
}

#[test]
fn message_is_read() {
    let d = r#"{"id":"334385199974967042","channel_id":"290926798999357250","guild_id":"1",
        "author":{"id":"53908099506183680","username":"Mason","discriminator":"9999"},
        "member":{"nick":"x"},"content":"Supa Hot","timestamp":"2017-07-11T17:27:07.299000+00:00",
        "edited_timestamp":null,"tts":false,"mention_everyone":false,"mentions":[{"id":"1"}],
        "mention_roles":["7"],
        "attachments":[{"id":"9","filename":"a.png","size":12,"url":"u","proxy_url":"p"}],
        "embeds":[{"title":"t"}],"reactions":[{"count":1,"me":false,"emoji":{"id":null,"name":"🔥"}}],
        "nonce":"12","pinned":false,"webhook_id":"3","type":19,
        "activity":{"type":1,"party_id":"p"},"message_reference":{"message_id":"5"},"flags":65,
        "referenced_message":{"id":"5"},
        "interaction":{"id":"1","type":2,"name":"ping","user":{"id":"1","username":"a","discriminator":"b"}},
        "thread":{"id":"8","type":11},
        "components":[{"type":1,"components":[{"type":2}]}],
        "sticker_items":[{"id":"1","name":"s","format_type":1}]}"#;
    match dispatch("MESSAGE_CREATE", d).unwrap() {
        ReceivableEvent::MessageCreate(message) => {
            let message: Message = message;
            assert_eq!(message.id, MessageId(Snowflake(334385199974967042)));
            assert_eq!(message.content, "Supa Hot");
            assert_eq!(message.timestamp.0, "2017-07-11T17:27:07.299000+00:00");
            assert!(message.edited_timestamp.is_none());
            assert_eq!(message.mentions.len(), 1);
            assert_eq!(message.mention_roles, vec![RoleId(Snowflake(7))]);
            assert_eq!(message.attachments[0].filename, "a.png");
            assert_eq!(message.embeds, vec![json(r#"{"title":"t"}"#)]);
            assert_eq!(message.reactions.unwrap()[0].count, 1);
            assert_eq!(message.nonce, Some(Snowflake(12)));
            assert_eq!(message.msg_type, MessageType::Reply);
            assert_eq!(message.flags.unwrap().bits(), 65);
            assert_eq!(message.referenced_message, Some(json(r#"{"id":"5"}"#)));
            assert_eq!(message.interaction.unwrap().name, "ping");
            assert_eq!(message.thread.unwrap().typ, ChannelType::GuildPublicThread);
            assert_eq!(message.components.unwrap().len(), 1);
            assert_eq!(message.sticker_items.unwrap()[0].format_type, 1);
        }
        other => panic!("{:?}", other),
    }
}

#[test]
fn interaction_is_read() {
    let interaction = Interaction::from_json(&json(
        r#"{"id":"786008729715212338","application_id":"5","type":2,"token":"A_UNIQUE_TOKEN",
            "version":1,"guild_id":"290926798626357999","channel_id":"645027906669510667",
            "data":{"id":"771825006014889984","name":"cardsearch","custom_id":"c","component_type":2,
                    "resolved":{"users":{}},
                    "options":[{"name":"cardname","type":3,"value":3}]}}"#,
    ))
    .unwrap();
    assert_eq!(interaction.token, "A_UNIQUE_TOKEN");
    let data = interaction.data.unwrap();
    assert_eq!(data.name, "cardsearch");
    assert_eq!(data.resolved, Some(json(r#"{"users":{}}"#)));
    assert_eq!(data.options.unwrap()[0].typ, 3);
    assert!(interaction.member.is_none() && interaction.message.is_none());
}
