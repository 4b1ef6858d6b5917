use discord_next::connection::Incoming;
use discord_next::endpoint::{strip_port_suffix, voice_url};
use discord_next::gateway::GatewayCommand;
use discord_next::ids::{ChannelId, GuildId, Snowflake, UserId};
use discord_next::net::IpAddress;
use discord_next::payload::{FromPayloadError, Payload};
use discord_next::router::{EventRouter, VoiceInfo, VoiceLocation, VoiceStates};
use discord_next::voice::connection::{
    heartbeat_interval, keepalive_turn, read_voice_message, Handshake, HandshakeInput,
    HandshakeOutput, KeepaliveInput, KeepaliveOutput, Stage, VoiceError, VOICE_INFO_TIMEOUT_SECS,
};
use discord_next::voice::udp::DiscoveryPacketError;
use discord_next::voice::{
    opcode, CloseCode, Identify, Resume, SelectProtocol, SetSpeaking, UdpProtocolData,
    VoiceCommand, VoiceEvent,
};
use serde_json::Value;

fn json(text: &str) -> Value {
    serde_json::from_str(text).unwrap()
}

fn payload(text: &str) -> Payload {
    read_voice_message(Incoming::Text(text.to_owned())).unwrap()
}

fn event(text: &str) -> Result<VoiceEvent, FromPayloadError> {
    VoiceEvent::try_from(payload(text))
}

#[test]
fn voice_commands_have_their_opcodes_and_data() {
    let p = Payload::try_from_voice_command(VoiceCommand::Identify(Identify {
        server_id: GuildId(Snowflake(41771983423143937)),
        user_id: UserId(Snowflake(104694319306248192)),
        session_id: "my_session_id".to_owned(),
        token: "my_token".to_owned(),
    }))
    .unwrap();
    assert_eq!(p.op, 0);
    assert_eq!(
        p.d,
        json(
            r#"{"server_id":"41771983423143937","user_id":"104694319306248192",
                "session_id":"my_session_id","token":"my_token"}"#
        )
    );
    assert_eq!((p.s, p.t), (None, None));
    let data = UdpProtocolData {
        address: IpAddress::V4(127, 0, 0, 1),
        port: 1337,
        mode: "xsalsa20_poly1305".to_owned(),
    };
    let p = Payload::try_from_voice_command(VoiceCommand::SelectProtocol(SelectProtocol::udp(
        &data,
    )))
    .unwrap();
    assert_eq!(p.op, 1);
    assert_eq!(
        p.d,
        json(
            r#"{"protocol":"udp","data":{"address":"127.0.0.1","port":1337,"mode":"xsalsa20_poly1305"}}"#
        )
    );
    let p = Payload::try_from_voice_command(VoiceCommand::Heartbeat(1501184119561)).unwrap();
    assert_eq!(p.op, 3);
    assert_eq!(p.d, json("1501184119561"));
    let p = Payload::try_from_voice_command(VoiceCommand::SetSpeaking(SetSpeaking {
        speaking: true,
        delay: 0,
        ssrc: 1,
    }))
    .unwrap();
    assert_eq!(p.op, 5);
    assert_eq!(p.d, json(r#"{"speaking":true,"delay":0,"ssrc":1}"#));
    let p = Payload::try_from_voice_command(VoiceCommand::Resume(Resume {
        server_id: GuildId(Snowflake(4)),
        session_id: "s".to_owned(),
        token: "t".to_owned(),
    }))
    .unwrap();
    assert_eq!(p.op, 7);
    assert_eq!(
        p.d,
        json(r#"{"server_id":"4","session_id":"s","token":"t"}"#)
    );
}

#[test]
fn voice_opcode_table() {
    assert_eq!(opcode::IDENTIFY, 0);
    assert_eq!(opcode::SELECT_PROTOCOL, 1);
    assert_eq!(opcode::READY, 2);
    assert_eq!(opcode::HEARTBEAT, 3);
    assert_eq!(opcode::SESSION_DESCRIPTION, 4);
    assert_eq!(opcode::SPEAKING, 5);
    assert_eq!(opcode::HEARTBEAT_ACK, 6);
    assert_eq!(opcode::RESUME, 7);
    assert_eq!(opcode::HELLO, 8);
    assert_eq!(opcode::RESUMED, 9);
    assert_eq!(opcode::CLIENT_DISCONNECT, 13);
}

#[test]
fn voice_events_are_read() {
    match event(r#"{"op":8,"d":{"heartbeat_interval":41250}}"#).unwrap() {
        VoiceEvent::Hello(hello) => assert_eq!(hello.heartbeat_interval, 41250),
        other => panic!("{:?}", other),
    }
    match event(
        r#"{"op":2,"d":{"ssrc":66,"ip":"192.0.2.7","port":5000,
            "modes":["plain","xsalsa20_poly1305"],"heartbeat_interval":1}}"#,
    )
    .unwrap()
    {
        VoiceEvent::Ready(ready) => {
            assert_eq!(ready.ssrc, 66);
            assert_eq!(ready.ip, IpAddress::V4(192, 0, 2, 7));
            assert_eq!(ready.port, 5000);
            assert_eq!(
                ready.modes,
                vec!["plain".to_owned(), "xsalsa20_poly1305".to_owned()]
            );
        }
        other => panic!("{:?}", other),
    }
    let key: Vec<String> = (0..32).map(|i| format!("{}", i * 8)).collect();
    let text = format!(
        r#"{{"op":4,"d":{{"mode":"xsalsa20_poly1305","secret_key":[{}]}}}}"#,
        key.join(",")
    );
    match event(&text).unwrap() {
        VoiceEvent::SessionDescription(description) => {
            assert_eq!(description.mode, "xsalsa20_poly1305");
            for i in 0..32 {
                assert_eq!(description.secret_key[i], (i * 8) as u8);
            }
        }
        other => panic!("{:?}", other),
    }
    match event(r#"{"op":5,"d":{"speaking":true,"user_id":"9","ssrc":3}}"#).unwrap() {
        VoiceEvent::Speaking(speaking) => {
            assert!(speaking.speaking);
            assert_eq!(speaking.user_id, UserId(Snowflake(9)));
            assert_eq!(speaking.ssrc, 3);
        }
        other => panic!("{:?}", other),
    }
    assert!(matches!(event(r#"{"op":6}"#), Ok(VoiceEvent::HeartbeatACK)));
    assert!(matches!(event(r#"{"op":9}"#), Ok(VoiceEvent::Resumed)));
    assert!(matches!(
        event(r#"{"op":13,"d":{"user_id":"1"}}"#),
        Ok(VoiceEvent::ClientDisconnect)
    ));
}

#[test]
fn voice_events_that_are_malformed_are_refused() {
    let short_key = r#"{"op":4,"d":{"mode":"m","secret_key":[1,2,3]}}"#;
    let big_byte: Vec<String> = (0..32).map(|i| format!("{}", i + 230)).collect();
    let big_key = format!(
        r#"{{"op":4,"d":{{"mode":"m","secret_key":[{}]}}}}"#,
        big_byte.join(",")
    );
    for text in [
        r#"{"op":8,"d":{}}"#,
        r#"{"op":8,"d":{"heartbeat_interval":41250.5}}"#,
        r#"{"op":2,"d":{"ssrc":66,"ip":"localhost","port":5000,"modes":[]}}"#,
        r#"{"op":2,"d":{"ssrc":4294967296,"ip":"1.2.3.4","port":5000,"modes":[]}}"#,
        r#"{"op":2,"d":{"ssrc":1,"ip":"1.2.3.4","port":65536,"modes":[]}}"#,
        r#"{"op":2,"d":{"ssrc":1,"ip":"1.2.3.4","port":1,"modes":[1]}}"#,
        r#"{"op":2,"d":{"ssrc":1,"ip":"1.2.3.4","port":1}}"#,
        short_key,
        big_key.as_str(),
        r#"{"op":4,"d":{"secret_key":[]}}"#,
        r#"{"op":5,"d":{"speaking":1,"user_id":"9","ssrc":3}}"#,
    ] {
        assert!(
            matches!(event(text), Err(FromPayloadError::Json(_))),
            "{}",
            text
        );
    }
}

#[test]
fn voice_opcodes_that_are_not_received() {
    for op in [0u64, 1, 3, 7, 10, 11, 12, 14, 99] {
        match event(&format!(r#"{{"op":{}}}"#, op)) {
            Err(FromPayloadError::UnknownOpcode(got)) => assert_eq!(got, op),
            other => panic!("{:?}", other),
        }
    }
}

#[test]
fn close_codes_of_the_voice_server() {
    assert_eq!(CloseCode::try_from(4001), Ok(CloseCode::UnknownOpcode));
    assert_eq!(CloseCode::try_from(4003), Ok(CloseCode::NotAuthenticated));
    assert_eq!(CloseCode::try_from(4004), Ok(CloseCode::AuthenticationFailed));
    assert_eq!(CloseCode::try_from(4005), Ok(CloseCode::AlreadyAuthenticated));
    assert_eq!(CloseCode::try_from(4006), Ok(CloseCode::SessionNoLongerValid));
    assert_eq!(CloseCode::try_from(4009), Ok(CloseCode::SessionTimeout));
    assert_eq!(CloseCode::try_from(4011), Ok(CloseCode::ServerNotFound));
    assert_eq!(CloseCode::try_from(4012), Ok(CloseCode::UnknownProtocol));
    assert_eq!(CloseCode::try_from(4014), Ok(CloseCode::Disconnected));
    assert_eq!(CloseCode::try_from(4015), Ok(CloseCode::VoiceServerCrashed));
    assert_eq!(CloseCode::try_from(4016), Ok(CloseCode::UnknownEncryptionMode));
    for code in [4000u16, 4002, 4007, 4008, 4010, 4013, 4017, 1000] {
        assert_eq!(CloseCode::try_from(code), Err(()));
    }
    assert!(matches!(
        read_voice_message(Incoming::Close(Some(4014))),
        Err(VoiceError::VoiceConnectionClosed(Some(
            CloseCode::Disconnected
        )))
    ));
    assert!(matches!(
        read_voice_message(Incoming::Close(Some(4000))),
        Err(VoiceError::VoiceConnectionClosed(None))
    ));
    assert!(matches!(
        read_voice_message(Incoming::Close(None)),
        Err(VoiceError::VoiceConnectionClosed(None))
    ));
}

#[test]
fn endpoint_loses_its_port_80() {
    assert_eq!(strip_port_suffix("example.net:80"), "example.net");
    assert_eq!(strip_port_suffix("example.net"), "example.net");
    assert_eq!(strip_port_suffix("example.net:8080"), "example.net:8080");
    assert_eq!(strip_port_suffix("example.net:80:80"), "example.net");
    assert_eq!(strip_port_suffix(":80"), "");
    assert_eq!(strip_port_suffix("80"), "80");
    assert_eq!(strip_port_suffix(""), "");
    assert_eq!(strip_port_suffix("é:80"), "é");
    assert_eq!(
        voice_url("smart.loyal.discord.gg:80"),
        Some("wss://smart.loyal.discord.gg/?v=3".to_owned())
    );
    assert_eq!(
        voice_url("smart.loyal.discord.gg:443"),
        Some("wss://smart.loyal.discord.gg/?v=3".to_owned())
    );
    assert_eq!(voice_url("exa mple"), None);
}

#[test]
fn heartbeats_go_out_at_three_quarters_of_the_interval() {
    assert_eq!(heartbeat_interval(41250), 30937);
    assert_eq!(heartbeat_interval(0), 0);
    assert_eq!(heartbeat_interval(1), 0);
    assert_eq!(heartbeat_interval(4), 3);
    assert_eq!(heartbeat_interval(u64::MAX), 13835058055282163711);
}

const SESSION: &str = r#"{"op":4,"d":{"mode":"xsalsa20_poly1305","secret_key":
    [1,2,3,4,5,6,7,8,9,10,11,12,13,14,15,16,17,18,19,20,21,22,23,24,25,26,27,28,29,30,31,32]}}"#;

fn discovery(ip: &[u8], port: [u8; 2]) -> [u8; 70] {
    let mut buf = [0u8; 70];
    buf[4..4 + ip.len()].copy_from_slice(ip);
    buf[68] = port[0];
    buf[69] = port[1];
    buf
}

fn start(router: &mut EventRouter) -> Handshake {
    Handshake::start(
        router,
        UserId(Snowflake(2)),
        "session".to_owned(),
        GuildId(Snowflake(1)),
        Some(ChannelId(Snowflake(3))),
    )
    .0
}

#[test]
fn voice_handshake_happy_path() {
    let mut router = EventRouter::new();
    let (mut handshake, command) = Handshake::start(
        &mut router,
        UserId(Snowflake(2)),
        "session".to_owned(),
        GuildId(Snowflake(1)),
        Some(ChannelId(Snowflake(3))),
    );
    assert_eq!(VOICE_INFO_TIMEOUT_SECS, 5);
    assert_eq!(handshake.stage, Stage::AwaitVoiceInfo);
    assert_eq!(
        router.send_event(&GuildId(Snowflake(1))),
        Some(handshake.receiver)
    );
    match command {
        GatewayCommand::VoiceStateUpdate(update) => {
            assert_eq!(update.guild_id, GuildId(Snowflake(1)));
            assert_eq!(update.channel_id, Some(ChannelId(Snowflake(3))));
            assert!(!update.self_mute && !update.self_deaf);
        }
        other => panic!("{:?}", other),
    }
    let info = VoiceInfo {
        token: "voice-token".to_owned(),
        endpoint: "voice.example.net:80".to_owned(),
    };
    match handshake.on_input(HandshakeInput::VoiceInfo(info)).unwrap() {
        HandshakeOutput::Connect { url } => assert_eq!(url, "wss://voice.example.net/?v=3"),
        _ => panic!("no connect"),
    }
    assert_eq!(handshake.stage, Stage::AwaitHello);
    match handshake
        .on_input(HandshakeInput::Payload(payload(
            r#"{"op":8,"d":{"heartbeat_interval":40000}}"#,
        )))
        .unwrap()
    {
        HandshakeOutput::Send(VoiceCommand::Identify(identify)) => {
            assert_eq!(identify.server_id, GuildId(Snowflake(1)));
            assert_eq!(identify.user_id, UserId(Snowflake(2)));
            assert_eq!(identify.session_id, "session");
            assert_eq!(identify.token, "voice-token");
        }
        _ => panic!("no identify"),
    }
    assert_eq!(handshake.stage, Stage::AwaitReady);
    match handshake
        .on_input(HandshakeInput::Payload(payload(
            r#"{"op":2,"d":{"ssrc":66,"ip":"192.0.2.7","port":5000,"modes":["xsalsa20_poly1305"]}}"#,
        )))
        .unwrap()
    {
        HandshakeOutput::Discover { ip, port, packet } => {
            assert_eq!(ip, IpAddress::V4(192, 0, 2, 7));
            assert_eq!(port, 5000);
            assert_eq!(&packet[..4], &[0, 0, 0, 66]);
            assert!(packet[4..].iter().all(|b| *b == 0));
        }
        _ => panic!("no discovery"),
    }
    assert_eq!(handshake.stage, Stage::AwaitDiscovery);
    match handshake
        .on_input(HandshakeInput::Discovery(discovery(
            b"203.0.113.9\0",
            [0xC0, 0x13],
        )))
        .unwrap()
    {
        HandshakeOutput::Send(VoiceCommand::SelectProtocol(select)) => {
            assert_eq!(select.protocol, "udp");
            assert_eq!(
                select.data,
                json(r#"{"address":"203.0.113.9","port":5056,"mode":"xsalsa20_poly1305"}"#)
            );
        }
        _ => panic!("no select protocol"),
    }
    assert_eq!(handshake.stage, Stage::AwaitSessionDescription);
    // other events are passed over until the session description comes
    assert!(matches!(
        handshake.on_input(HandshakeInput::Payload(payload(r#"{"op":6}"#))),
        Ok(HandshakeOutput::Wait)
    ));
    assert!(matches!(
        handshake.on_input(HandshakeInput::Payload(payload(
            r#"{"op":5,"d":{"speaking":true,"user_id":"9","ssrc":3}}"#
        ))),
        Ok(HandshakeOutput::Wait)
    ));
    match handshake
        .on_input(HandshakeInput::Payload(payload(SESSION)))
        .unwrap()
    {
        HandshakeOutput::Done(session) => {
            assert_eq!(session.guild_id, GuildId(Snowflake(1)));
            assert_eq!(session.ssrc, 66);
            assert_eq!(session.ip, IpAddress::V4(192, 0, 2, 7));
            assert_eq!(session.port, 5000);
            assert_eq!(session.heartbeat_interval, 30000);
            let expected: Vec<u8> = (1..=32).collect();
            assert_eq!(&session.secret_key[..], &expected[..]);
        }
        _ => panic!("not done"),
    }
}

#[test]
fn voice_handshake_times_out() {
    let mut router = EventRouter::new();
    let mut handshake = start(&mut router);
    assert!(matches!(
        handshake.on_input(HandshakeInput::Timeout),
        Err(VoiceError::Timeout)
    ));
}

#[test]
fn voice_handshake_refuses_what_comes_out_of_turn() {
    let mut router = EventRouter::new();
    let mut handshake = start(&mut router);
    assert!(matches!(
        handshake.on_input(HandshakeInput::Discovery([0u8; 70])),
        Err(VoiceError::OutOfOrder)
    ));
    assert!(matches!(
        handshake.on_input(HandshakeInput::Payload(payload(r#"{"op":6}"#))),
        Err(VoiceError::OutOfOrder)
    ));
    let info = VoiceInfo {
        token: "t".to_owned(),
        endpoint: "e.example".to_owned(),
    };
    assert!(handshake.on_input(HandshakeInput::VoiceInfo(info)).is_ok());
    let again = VoiceInfo {
        token: "t".to_owned(),
        endpoint: "e.example".to_owned(),
    };
    assert!(matches!(
        handshake.on_input(HandshakeInput::VoiceInfo(again)),
        Err(VoiceError::OutOfOrder)
    ));
}

#[test]
fn voice_handshake_needs_hello_then_ready() {
    let mut router = EventRouter::new();
    let mut handshake = start(&mut router);
    let info = VoiceInfo {
        token: "t".to_owned(),
        endpoint: "e.example".to_owned(),
    };
    handshake.on_input(HandshakeInput::VoiceInfo(info)).unwrap();
    assert!(matches!(
        handshake.on_input(HandshakeInput::Payload(payload(r#"{"op":6}"#))),
        Err(VoiceError::ExpectedHello)
    ));
    handshake
        .on_input(HandshakeInput::Payload(payload(
            r#"{"op":8,"d":{"heartbeat_interval":1}}"#,
        )))
        .unwrap();
    assert!(matches!(
        handshake.on_input(HandshakeInput::Payload(payload(
            r#"{"op":8,"d":{"heartbeat_interval":1}}"#
        ))),
        Err(VoiceError::ExpectedReady)
    ));
    assert!(matches!(
        handshake.on_input(HandshakeInput::Payload(payload(r#"{"op":2,"d":{}}"#))),
        Err(VoiceError::FromPayload(FromPayloadError::Json(_)))
    ));
    assert!(matches!(
        handshake.on_input(HandshakeInput::Payload(payload(r#"{"op":55}"#))),
        Err(VoiceError::FromPayload(FromPayloadError::UnknownOpcode(
            55
        )))
    ));
}

#[test]
fn voice_handshake_reports_bad_endpoints_and_answers() {
    let mut router = EventRouter::new();
    let mut handshake = start(&mut router);
    let info = VoiceInfo {
        token: "t".to_owned(),
        endpoint: "not a host".to_owned(),
    };
    assert!(matches!(
        handshake.on_input(HandshakeInput::VoiceInfo(info)),
        Err(VoiceError::BadUrl)
    ));
    let mut handshake = start(&mut router);
    let info = VoiceInfo {
        token: "t".to_owned(),
        endpoint: "e.example".to_owned(),
    };
    handshake.on_input(HandshakeInput::VoiceInfo(info)).unwrap();
    handshake
        .on_input(HandshakeInput::Payload(payload(
            r#"{"op":8,"d":{"heartbeat_interval":1}}"#,
        )))
        .unwrap();
    handshake
        .on_input(HandshakeInput::Payload(payload(
            r#"{"op":2,"d":{"ssrc":1,"ip":"1.2.3.4","port":1,"modes":[]}}"#,
        )))
        .unwrap();
    assert!(matches!(
        handshake.on_input(HandshakeInput::Discovery([1u8; 70])),
        Err(VoiceError::IpDiscovery(
            DiscoveryPacketError::BadPacketFormat
        ))
    ));
    assert!(matches!(
        handshake.on_input(HandshakeInput::Discovery(discovery(b"nope\0", [0, 0]))),
        Err(VoiceError::IpDiscovery(DiscoveryPacketError::BadIp))
    ));
    assert!(matches!(
        handshake.on_input(HandshakeInput::Discovery(discovery(&[0xC0, 0], [0, 0]))),
        Err(VoiceError::IpDiscovery(DiscoveryPacketError::IpNotUtf8))
    ));
}

#[test]
fn keepalive_turns() {
    assert!(matches!(
        keepalive_turn(KeepaliveInput::Complete),
        Ok(KeepaliveOutput::Stop)
    ));
    assert!(matches!(
        keepalive_turn(KeepaliveInput::Tick),
        Ok(KeepaliveOutput::Send(VoiceCommand::Heartbeat(0)))
    ));
    assert!(matches!(
        keepalive_turn(KeepaliveInput::Ended),
        Ok(KeepaliveOutput::Continue)
    ));
    for text in [
        r#"{"op":6}"#,
        r#"{"op":8,"d":{"heartbeat_interval":1}}"#,
        r#"{"op":2,"d":{"ssrc":1,"ip":"1.2.3.4","port":1,"modes":[]}}"#,
        r#"{"op":99}"#,
    ] {
        assert!(
            matches!(
                keepalive_turn(KeepaliveInput::Payload(payload(text))),
                Ok(KeepaliveOutput::Continue)
            ),
            "{}",
            text
        );
    }
    assert!(matches!(
        keepalive_turn(KeepaliveInput::Payload(payload(SESSION))),
        Ok(KeepaliveOutput::Unhandled(VoiceEvent::SessionDescription(_)))
    ));
    assert!(matches!(
        keepalive_turn(KeepaliveInput::Payload(payload(
            r#"{"op":5,"d":{"speaking":true,"user_id":"9","ssrc":3}}"#
        ))),
        Ok(KeepaliveOutput::Unhandled(VoiceEvent::Speaking(_)))
    ));
    assert!(matches!(
        keepalive_turn(KeepaliveInput::Payload(payload(r#"{"op":9}"#))),
        Ok(KeepaliveOutput::Unhandled(VoiceEvent::Resumed))
    ));
    assert!(matches!(
        keepalive_turn(KeepaliveInput::Payload(payload(r#"{"op":13}"#))),
        Ok(KeepaliveOutput::Unhandled(VoiceEvent::ClientDisconnect))
    ));
    for op in [0u64, 1, 3, 7, 10, 99] {
        assert!(
            matches!(
                keepalive_turn(KeepaliveInput::Payload(payload(&format!(
                    r#"{{"op":{},"d":{{"x":1}}}}"#,
                    op
                )))),
                Ok(KeepaliveOutput::Continue)
            ),
            "{}",
            op
        );
    }
    assert!(matches!(
        keepalive_turn(KeepaliveInput::Payload(payload(r#"{"op":4,"d":{}}"#))),
        Err(VoiceError::FromPayload(FromPayloadError::Json(_)))
    ));
}

#[test]
fn router_hands_out_fresh_receivers() {
    let mut router = EventRouter::new();
    assert!(router.can_register());
    let guild = GuildId(Snowflake(10));
    assert_eq!(router.send_event(&guild), None);
    let first = router.register(guild);
    assert_eq!(router.send_event(&guild), Some(first));
    let other = router.register(GuildId(Snowflake(11)));
    assert_ne!(first, other);
    let second = router.register(guild);
    assert_ne!(first, second);
    assert_ne!(other, second);
    assert_eq!(router.send_event(&guild), Some(second));
    assert_eq!(router.send_event(&GuildId(Snowflake(11))), Some(other));
    assert_eq!(router.send_event(&GuildId(Snowflake(12))), None);
}

#[test]
fn users_are_joined_where_their_voice_state_says() {
    let mut states = VoiceStates::new();
    let user = UserId(Snowflake(1));
    assert_eq!(states.connect_to_user(user), None);
    states.observe(
        user,
        VoiceLocation {
            guild_id: None,
            channel_id: Some(ChannelId(Snowflake(3))),
        },
    );
    assert_eq!(states.connect_to_user(user), None);
    states.observe(
        user,
        VoiceLocation {
            guild_id: Some(GuildId(Snowflake(2))),
            channel_id: Some(ChannelId(Snowflake(3))),
        },
    );
    assert_eq!(
        states.connect_to_user(user),
        Some((GuildId(Snowflake(2)), Some(ChannelId(Snowflake(3)))))
    );
    states.observe(
        user,
        VoiceLocation {
            guild_id: Some(GuildId(Snowflake(2))),
            channel_id: None,
        },
    );
    assert_eq!(
        states.connect_to_user(user),
        Some((GuildId(Snowflake(2)), None))
    );
    assert_eq!(states.connect_to_user(UserId(Snowflake(9))), None);
}
