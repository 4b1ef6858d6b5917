use discord_next::gateway::{
    known_opcode, opcode, opcode_name, CloseCode, GatewayCommand, GatewayEvent, Heartbeat,
    Identify, ReceivableEvent, RequestGuildMembers, Resume, StatusUpdate, VoiceStateUpdate,
};
use discord_next::gateway::event_kind::EventKind;
use discord_next::ids::{ChannelId, GuildId, Snowflake};
use discord_next::model::{
    Activity, ActivityType, ConnectionProperties, IntentFlags, Status, Timestamps, UpdateStatus,
};
use discord_next::payload::{FromPayloadError, Payload};
use serde_json::Value;

fn json(text: &str) -> Value {
    serde_json::from_str(text).unwrap()
}

#[test]
fn envelope_is_read_from_text() {
    let p = Payload::parse(r#"{"op":0,"t":"FUTURE_EVENT","s":5,"d":{"x":1}}"#).unwrap();
    assert_eq!(p.op, 0);
    assert_eq!(p.s, Some(5));
    assert_eq!(p.t.as_deref(), Some("FUTURE_EVENT"));
    assert_eq!(p.d, json(r#"{"x":1}"#));
}

#[test]
fn envelope_without_data_has_null_data() {
    let p = Payload::parse(r#"{"op":11}"#).unwrap();
    assert_eq!(p.op, 11);
    assert_eq!(p.d, Value::Null);
    assert_eq!(p.s, None);
    assert_eq!(p.t, None);
    let p = Payload::parse(r#"{"op":11,"d":null,"s":null,"t":null}"#).unwrap();
    assert_eq!(p.d, Value::Null);
    assert_eq!(p.s, None);
    assert_eq!(p.t, None);
}

#[test]
fn text_that_is_no_json_is_a_json_error() {
    assert!(matches!(
        Payload::parse("{not json"),
        Err(FromPayloadError::Json(_))
    ));
    assert!(matches!(
        Payload::parse_gateway(""),
        Err(FromPayloadError::Json(_))
    ));
}

#[test]
fn json_that_is_no_envelope_is_malformed() {
    for text in [
        "[]",
        "1",
        "{}",
        r#"{"op":"0"}"#,
        r#"{"op":-1}"#,
        r#"{"op":1.5}"#,
        r#"{"op":1,"s":"x"}"#,
        r#"{"op":1,"t":5}"#,
    ] {
        assert!(
            matches!(Payload::parse(text), Err(FromPayloadError::Json(_))),
            "{}",
            text
        );
    }
}

#[test]
fn every_parsed_dispatch_has_a_name() {
    assert!(matches!(
        Payload::parse_gateway(r#"{"op":0,"d":{}}"#),
        Err(FromPayloadError::MissingEventName)
    ));
    assert!(matches!(
        Payload::parse_gateway(r#"{"op":0,"d":{},"t":null}"#),
        Err(FromPayloadError::MissingEventName)
    ));
    let p = Payload::parse_gateway(r#"{"op":0,"d":{},"t":"X"}"#).unwrap();
    assert!(p.t.is_some());
    // the voice protocol numbers its opcodes differently: no name is asked for
    assert!(Payload::parse(r#"{"op":0,"d":{}}"#).is_ok());
}

#[test]
fn envelope_is_written_without_what_is_not_set() {
    let p = Payload {
        op: 1,
        d: Value::Null,
        s: None,
        t: None,
    };
    assert_eq!(p.to_json(), json(r#"{"op":1,"d":null}"#));
    assert_eq!(json(&p.to_text().unwrap()), json(r#"{"op":1,"d":null}"#));
    let p = Payload {
        op: 0,
        d: json(r#"{"a":[1,2]}"#),
        s: Some(3),
        t: Some("X".to_owned()),
    };
    assert_eq!(
        json(&p.to_text().unwrap()),
        json(r#"{"op":0,"d":{"a":[1,2]},"s":3,"t":"X"}"#)
    );
    let back = Payload::parse(&p.to_text().unwrap()).unwrap();
    assert_eq!(back.op, 0);
    assert_eq!(back.d, p.d);
    assert_eq!(back.s, Some(3));
    assert_eq!(back.t.as_deref(), Some("X"));
}

#[test]
fn opcode_table_of_the_gateway() {
    let names = [
        (0u64, "DISPATCH"),
        (1, "HEARTBEAT"),
        (2, "IDENTIFY"),
        (3, "STATUS_UPDATE"),
        (4, "VOICE_STATE_UPDATE"),
        (6, "RESUME"),
        (7, "RECONNECT"),
        (8, "REQUEST_GUILD_MEMBERS"),
        (9, "INVALID_SESSION"),
        (10, "HELLO"),
        (11, "HEARTBEAT_ACK"),
    ];
    for (op, name) in names {
        assert!(known_opcode(op));
        assert_eq!(opcode_name(op), name);
    }
    for op in [5u64, 12, 13, 100, u64::MAX] {
        assert!(!known_opcode(op));
        assert_eq!(opcode_name(op), "unknown");
    }
    assert_eq!(opcode::DISPATCH, 0);
    assert_eq!(opcode::HEARTBEAT_ACK, 11);
}

#[test]
fn heartbeat_carries_the_last_sequence_number_or_null() {
    let p = Payload::try_from_command(GatewayCommand::Heartbeat(Heartbeat { last_seq: None }))
        .unwrap();
    assert_eq!(p.op, 1);
    assert_eq!(p.d, Value::Null);
    assert_eq!(p.s, None);
    assert_eq!(p.t, None);
    let p = Payload::try_from_command(GatewayCommand::Heartbeat(Heartbeat {
        last_seq: Some(42),
    }))
    .unwrap();
    assert_eq!(p.d, json("42"));
}

#[test]
fn identify_carries_token_and_properties() {
    let identify = Identify::new(
        "secret".to_owned(),
        ConnectionProperties::for_os("linux".to_owned()),
    );
    let p = Payload::try_from_command(GatewayCommand::Identify(identify)).unwrap();
    assert_eq!(p.op, 2);
    assert_eq!(
        p.d,
        json(
            r#"{"token":"secret","properties":{"$os":"linux","$browser":"discord-next-rust","$device":"discord-next-rust"}}"#
        )
    );
}

#[test]
fn identify_carries_what_is_set() {
    let mut identify = Identify::new(
        "t".to_owned(),
        ConnectionProperties {
            os: "a".to_owned(),
            browser: "b".to_owned(),
            device: "c".to_owned(),
        },
    );
    identify.compress = Some(false);
    identify.large_threshold = Some(250);
    identify.shard = Some([1, 4]);
    identify.presence = Some(UpdateStatus::new_basic(Status::DoNotDisturb, true));
    let p = Payload::try_from_command(GatewayCommand::Identify(identify)).unwrap();
    assert_eq!(
        p.d,
        json(
            r#"{"token":"t","properties":{"$os":"a","$browser":"b","$device":"c"},
                "compress":false,"large_threshold":250,"shard":[1,4],
                "presence":{"status":"dnd","afk":true}}"#
        )
    );
}

#[test]
fn presence_carries_its_activity() {
    let status = UpdateStatus {
        since: Some(9),
        game: Some(Activity {
            name: "chess".to_owned(),
            typ: ActivityType::Streaming,
            url: Some("https://example.net".to_owned()),
            timestamps: Some(Timestamps {
                start: Some(1),
                end: None,
            }),
            application_id: None,
            details: None,
            state: Some("thinking".to_owned()),
            party: None,
            assets: None,
            secrets: None,
            instance: Some(true),
            flags: None,
        }),
        status: Status::AFK,
        afk: false,
    };
    assert_eq!(
        status.to_json(),
        json(
            r#"{"since":9,"game":{"name":"chess","type":1,"url":"https://example.net",
                "timestamps":{"start":1},"state":"thinking","instance":true},
                "status":"idle","afk":false}"#
        )
    );
    assert_eq!(Status::Online.as_str(), "online");
    assert_eq!(Status::Invisible.as_str(), "invisible");
    assert_eq!(Status::Offline.as_str(), "offline");
}

#[test]
fn voice_state_update_writes_identifiers_as_strings() {
    let update = VoiceStateUpdate {
        guild_id: GuildId(Snowflake(41771983423143937)),
        channel_id: Some(ChannelId(Snowflake(127121515262115840))),
        self_mute: false,
        self_deaf: true,
    };
    let p = Payload::try_from_command(GatewayCommand::VoiceStateUpdate(update)).unwrap();
    assert_eq!(p.op, 4);
    assert_eq!(
        p.d,
        json(
            r#"{"guild_id":"41771983423143937","channel_id":"127121515262115840","self_mute":false,"self_deaf":true}"#
        )
    );
    let leave = VoiceStateUpdate {
        guild_id: GuildId(Snowflake(1)),
        channel_id: None,
        self_mute: false,
        self_deaf: false,
    };
    assert_eq!(
        leave.to_json(),
        json(r#"{"guild_id":"1","channel_id":null,"self_mute":false,"self_deaf":false}"#)
    );
}

#[test]
fn other_commands_have_their_opcodes() {
    let p = Payload::try_from_command(GatewayCommand::Resume(Resume {
        token: "t".to_owned(),
        session_id: "s".to_owned(),
        seq: 12,
    }))
    .unwrap();
    assert_eq!(p.op, 6);
    assert_eq!(p.d, json(r#"{"token":"t","session_id":"s","seq":12}"#));
    let p = Payload::try_from_command(GatewayCommand::RequestGuildMembers(RequestGuildMembers {
        guild_id: vec![GuildId(Snowflake(1)), GuildId(Snowflake(22))],
        query: "".to_owned(),
        limit: 0,
    }))
    .unwrap();
    assert_eq!(p.op, 8);
    assert_eq!(p.d, json(r#"{"guild_id":["1","22"],"query":"","limit":0}"#));
    let p = Payload::try_from_command(GatewayCommand::StatusUpdate(StatusUpdate {
        since: None,
        game: None,
        status: "online".to_owned(),
        afk: false,
    }))
    .unwrap();
    assert_eq!(p.op, 3);
    assert_eq!(
        p.d,
        json(r#"{"since":null,"game":null,"status":"online","afk":false}"#)
    );
}

#[test]
fn every_command_is_sent_under_an_opcode_of_the_table() {
    let commands = vec![
        GatewayCommand::Heartbeat(Heartbeat { last_seq: None }),
        GatewayCommand::Identify(Identify::new(
            "t".to_owned(),
            ConnectionProperties::for_os("x".to_owned()),
        )),
        GatewayCommand::Resume(Resume {
            token: "t".to_owned(),
            session_id: "s".to_owned(),
            seq: 1,
        }),
    ];
    for command in commands {
        let p = Payload::try_from_command(command).unwrap();
        assert!(known_opcode(p.op));
        assert_eq!(p.s, None);
        assert_eq!(p.t, None);
    }
}

fn event(text: &str) -> Result<GatewayEvent, FromPayloadError> {
    GatewayEvent::try_from(Payload::parse(text).unwrap())
}

#[test]
fn hello_is_read() {
    match event(r#"{"op":10,"d":{"heartbeat_interval":45000,"_trace":["a","b"]}}"#).unwrap() {
        GatewayEvent::Hello(hello) => {
            assert_eq!(hello.heartbeat_interval, 45000);
            assert_eq!(hello._trace, vec!["a".to_owned(), "b".to_owned()]);
        }
        other => panic!("{:?}", other),
    }
    match event(r#"{"op":10,"d":{"heartbeat_interval":1}}"#).unwrap() {
        GatewayEvent::Hello(hello) => assert!(hello._trace.is_empty()),
        other => panic!("{:?}", other),
    }
    assert!(matches!(
        event(r#"{"op":10,"d":{}}"#),
        Err(FromPayloadError::Json(_))
    ));
    assert!(matches!(
        event(r#"{"op":10,"d":{"heartbeat_interval":1,"_trace":[1]}}"#),
        Err(FromPayloadError::Json(_))
    ));
}

#[test]
fn events_without_data_are_read() {
    assert!(matches!(
        event(r#"{"op":11}"#),
        Ok(GatewayEvent::HeartbeatAck)
    ));
    assert!(matches!(
        event(r#"{"op":1,"d":null}"#),
        Ok(GatewayEvent::HeartbeatRequest)
    ));
    assert!(matches!(event(r#"{"op":7}"#), Ok(GatewayEvent::Reconnect)));
}

#[test]
fn invalid_session_says_whether_it_can_be_resumed() {
    match event(r#"{"op":9,"d":true}"#).unwrap() {
        GatewayEvent::InvalidSession(invalid) => assert!(invalid.resumable),
        other => panic!("{:?}", other),
    }
    match event(r#"{"op":9,"d":false}"#).unwrap() {
        GatewayEvent::InvalidSession(invalid) => assert!(!invalid.resumable),
        other => panic!("{:?}", other),
    }
    assert!(matches!(
        event(r#"{"op":9,"d":null}"#),
        Err(FromPayloadError::Json(_))
    ));
}

#[test]
fn opcodes_that_only_clients_send_are_unexpected() {
    for op in [2u64, 3, 4, 6, 8] {
        let text = format!(r#"{{"op":{}}}"#, op);
        match event(&text) {
            Err(FromPayloadError::UnexpectedOpcode(got)) => assert_eq!(got, op),
            other => panic!("{:?}", other),
        }
    }
}

#[test]
fn opcodes_outside_the_table_are_unknown() {
    for op in [5u64, 12, 4000] {
        let text = format!(r#"{{"op":{}}}"#, op);
        match event(&text) {
            Err(FromPayloadError::UnknownOpcode(got)) => assert_eq!(got, op),
            other => panic!("{:?}", other),
        }
    }
}

#[test]
fn dispatch_without_a_name_is_refused() {
    assert!(matches!(
        event(r#"{"op":0,"d":{}}"#),
        Err(FromPayloadError::MissingEventName)
    ));
}

#[test]
fn unknown_dispatch_keeps_name_and_data() {
    match event(r#"{"op":0,"t":"FUTURE_EVENT","s":5,"d":{"x":1}}"#).unwrap() {
        GatewayEvent::ReceivableEvent(ReceivableEvent::Unknown { name, value }) => {
            assert_eq!(name, "FUTURE_EVENT");
            assert_eq!(value, json(r#"{"x":1}"#));
        }
        other => panic!("{:?}", other),
    }
}

#[test]
fn known_dispatch_is_read() {
    let text = r#"{"op":0,"t":"MESSAGE_CREATE","s":6,"d":{"id":"334385199974967042","channel_id":"290926798999357250","author":{"id":"53908099506183680","username":"Mason","discriminator":"9999"},"content":"hi","timestamp":"2017-07-11T17:27:07.299000+00:00","edited_timestamp":null,"tts":false,"mention_everyone":false,"mentions":[],"mention_roles":[],"attachments":[],"embeds":[],"pinned":false,"type":0}}"#;
    match event(text).unwrap() {
        GatewayEvent::ReceivableEvent(ReceivableEvent::MessageCreate(message)) => {
            assert_eq!(message.content, "hi");
            assert_eq!(message.author.username, "Mason");
            assert_eq!(message.channel_id, ChannelId(Snowflake(290926798999357250)));
        }
        other => panic!("{:?}", other),
    }
    assert!(matches!(
        event(r#"{"op":0,"t":"MESSAGE_CREATE","s":6,"d":{"content":"hi"}}"#),
        Err(FromPayloadError::Json(_))
    ));
}

#[test]
fn ready_is_read() {
    let text = r#"{"op":0,"t":"READY","s":1,"d":{"v":8,
        "user":{"id":"80351110224678912","username":"Nelly","discriminator":"1337","avatar":null,"bot":true},
        "session_id":"abc","private_channels":[{"id":"5","type":1}],
        "guilds":[{"id":"41771983423143937","unavailable":true}],"_trace":[]}}"#;
    match event(text).unwrap() {
        GatewayEvent::ReceivableEvent(ReceivableEvent::Ready(ready)) => {
            assert_eq!(ready.v, 8);
            assert_eq!(ready.session_id, "abc");
            assert_eq!((ready.user.id.0).0, 80351110224678912);
            assert_eq!(ready.user.username, "Nelly");
            assert_eq!(ready.user.discriminator, "1337");
            assert_eq!(ready.user.avatar, None);
            assert_eq!(ready.user.bot, Some(true));
            assert_eq!(ready.user.email, None);
            assert_eq!(ready.private_channels.len(), 1);
            assert_eq!(ready.private_channels[0].id, ChannelId(Snowflake(5)));
            assert_eq!(ready.guilds.len(), 1);
            assert_eq!(ready.guilds[0].id, GuildId(Snowflake(41771983423143937)));
            assert!(ready.guilds[0].unavailable);
        }
        other => panic!("{:?}", other),
    }
}

#[test]
fn ready_that_lacks_something_is_malformed() {
    for d in [
        r#"{"user":{"id":"1","username":"a","discriminator":"b"},"session_id":"abc","private_channels":[],"guilds":[]}"#,
        r#"{"v":8,"session_id":"abc","private_channels":[],"guilds":[]}"#,
        r#"{"v":8,"user":{"id":1,"username":"a","discriminator":"b"},"session_id":"abc","private_channels":[],"guilds":[]}"#,
        r#"{"v":8,"user":{"id":"1","username":"a","discriminator":"b"},"private_channels":[],"guilds":[]}"#,
        r#"{"v":8,"user":{"id":"1","username":"a","discriminator":"b"},"session_id":"abc","private_channels":[]}"#,
        r#"{"v":8,"user":{"id":"1","username":"a","discriminator":"b"},"session_id":"abc","guilds":[]}"#,
        r#"{"v":8,"user":{"id":"1","username":"a","discriminator":"b"},"session_id":"abc","private_channels":[{"id":"5"}],"guilds":[]}"#,
        r#"{"v":8,"user":{"id":"1","username":"a","discriminator":"b"},"session_id":"abc","private_channels":[],"guilds":[{"id":"1"}]}"#,
        r#"{"v":8,"user":{"id":"1","username":"a","discriminator":"b","bot":"yes"},"session_id":"abc","private_channels":[],"guilds":[]}"#,
    ] {
        let text = format!(r#"{{"op":0,"t":"READY","d":{}}}"#, d);
        assert!(
            matches!(event(&text), Err(FromPayloadError::Json(_))),
            "{}",
            d
        );
    }
}

#[test]
fn voice_server_update_is_read() {
    let text = r#"{"op":0,"t":"VOICE_SERVER_UPDATE","s":2,
        "d":{"token":"my_token","guild_id":"41771983423143937","endpoint":"smart.loyal.discord.gg:80"}}"#;
    match event(text).unwrap() {
        GatewayEvent::ReceivableEvent(ReceivableEvent::VoiceServerUpdate(update)) => {
            assert_eq!(update.token, "my_token");
            assert_eq!(update.guild_id, GuildId(Snowflake(41771983423143937)));
            assert_eq!(update.endpoint, "smart.loyal.discord.gg:80");
        }
        other => panic!("{:?}", other),
    }
    assert!(matches!(
        event(r#"{"op":0,"t":"VOICE_SERVER_UPDATE","d":{"token":"t","guild_id":"x","endpoint":"e"}}"#),
        Err(FromPayloadError::Json(_))
    ));
}

#[test]
fn event_names_and_kinds_match() {
    let kinds = [
        (EventKind::Ready, "READY"),
        (EventKind::Resumed, "RESUMED"),
        (EventKind::ChannelCreate, "CHANNEL_CREATE"),
        (EventKind::GuildMembersChunk, "GUILD_MEMBERS_CHUNK"),
        (EventKind::MessageReactionRemoveAll, "MESSAGE_REACTION_REMOVE_ALL"),
        (EventKind::VoiceStateUpdate, "VOICE_STATE_UPDATE"),
        (EventKind::VoiceServerUpdate, "VOICE_SERVER_UPDATE"),
        (EventKind::WebhooksUpdate, "WEBHOOKS_UPDATE"),
    ];
    for (kind, name) in kinds {
        assert_eq!(kind.as_str(), name);
        assert_eq!(EventKind::from_name(name), Some(kind));
    }
    assert_eq!(EventKind::from_name("ready"), None);
    assert_eq!(EventKind::from_name("READY "), None);
    assert_eq!(EventKind::from_name(""), None);
}

#[test]
fn close_codes_of_the_gateway() {
    assert_eq!(CloseCode::try_from(4000), Ok(CloseCode::UnknownError));
    assert_eq!(CloseCode::try_from(4001), Ok(CloseCode::UnknownOpcode));
    assert_eq!(CloseCode::try_from(4002), Ok(CloseCode::DecodeError));
    assert_eq!(CloseCode::try_from(4003), Ok(CloseCode::NotAuthenticated));
    assert_eq!(CloseCode::try_from(4004), Ok(CloseCode::AuthenticationFailed));
    assert_eq!(CloseCode::try_from(4005), Ok(CloseCode::AlreadyAuthenticated));
    assert_eq!(CloseCode::try_from(4007), Ok(CloseCode::InvalidSeq));
    assert_eq!(CloseCode::try_from(4008), Ok(CloseCode::RateLimited));
    assert_eq!(CloseCode::try_from(4009), Ok(CloseCode::SessionTimeout));
    assert_eq!(CloseCode::try_from(4010), Ok(CloseCode::InvalidShard));
    assert_eq!(CloseCode::try_from(4011), Ok(CloseCode::ShardingRequired));
    for code in [0u16, 1000, 3999, 4006, 4012, u16::MAX] {
        assert_eq!(CloseCode::try_from(code), Err(()));
    }
}

#[test]
fn default_intents_leave_out_the_privileged_ones() {
    let intents = IntentFlags::default();
    assert_eq!(intents.bits(), 0x7EFD);
    assert!(!intents.contains(IntentFlags {
        bits: discord_next::model::GUILD_MEMBERS
    }));
    assert!(!intents.contains(IntentFlags {
        bits: discord_next::model::GUILD_PRESENCES
    }));
    assert!(intents.contains(IntentFlags {
        bits: discord_next::model::GUILDS | discord_next::model::DIRECT_MESSAGE_TYPING
    }));
    assert_eq!(IntentFlags::all().bits(), 0x7FFF);
    assert_eq!(IntentFlags::from_bits_truncate(u32::MAX).bits(), 0x7FFF);
    assert_eq!(IntentFlags::from_bits_truncate(0x1_0003).bits(), 3);
}

#[test]
fn shape_errors_say_what_is_wrong() {
    match Payload::parse("{}") {
        Err(FromPayloadError::Json(e)) => assert!(e.to_string().contains("opcode"), "{}", e),
        _ => panic!("an envelope without an opcode was read"),
    }
    match Payload::parse(r#"{"op":1,"s":"x"}"#) {
        Err(FromPayloadError::Json(e)) => {
            assert!(e.to_string().contains("sequence number"), "{}", e)
        }
        _ => panic!("an envelope with a text as sequence number was read"),
    }
    match event(r#"{"op":9,"d":"yes"}"#) {
        Err(FromPayloadError::Json(e)) => assert!(e.to_string().contains("boolean"), "{}", e),
        other => panic!("{:?}", other),
    }
}
