use discord_next::connection::{
    read_message, update_seq_num, Connection, Handshake, HandshakeStep, Incoming, ResumeSignal,
    TurnInput, TurnOutput,
};
use discord_next::error::GatewayError;
use discord_next::gateway::{CloseCode, GatewayCommand, ReceivableEvent};
use discord_next::ids::{GuildId, Snowflake};
use discord_next::model::ConnectionProperties;
use discord_next::payload::{FromPayloadError, Payload};
use serde_json::Value;

fn json(text: &str) -> Value {
    serde_json::from_str(text).unwrap()
}

fn payload(text: &str) -> Payload {
    read_message(Incoming::Text(text.to_owned())).unwrap()
}

const HELLO: &str = r#"{"op":10,"d":{"heartbeat_interval":45000,"_trace":[]}}"#;
const READY: &str = r#"{"op":0,"t":"READY","s":1,"d":{"v":8,
    "user":{"id":"80351110224678912","username":"Nelly","discriminator":"1337"},
    "session_id":"abc","private_channels":[],"guilds":[],"_trace":[]}}"#;

fn connect(hello: &str) -> Connection {
    let handshake = Handshake::new(
        "token".to_owned(),
        ConnectionProperties::for_os("linux".to_owned()),
    );
    let handshake = match handshake.on_payload(payload(hello)).unwrap() {
        HandshakeStep::Identify { handshake, .. } => handshake,
        HandshakeStep::Connected(_) => panic!("connected before identifying"),
    };
    match handshake.on_payload(payload(READY)).unwrap() {
        HandshakeStep::Connected(connection) => connection,
        HandshakeStep::Identify { .. } => panic!("identified twice"),
    }
}

#[test]
fn handshake_happy_path() {
    let handshake = Handshake::new(
        "token".to_owned(),
        ConnectionProperties::for_os("linux".to_owned()),
    );
    let (handshake, command) = match handshake.on_payload(payload(HELLO)).unwrap() {
        HandshakeStep::Identify { handshake, command } => (handshake, command),
        HandshakeStep::Connected(_) => panic!("connected before identifying"),
    };
    assert_eq!(handshake.heartbeat_interval, Some(45000));
    let sent = Payload::try_from_command(command).unwrap();
    assert_eq!(sent.op, 2);
    assert_eq!(sent.d["token"], json(r#""token""#));
    assert_eq!(sent.d["properties"]["$os"], json(r#""linux""#));
    assert_eq!(
        sent.d["properties"]["$browser"],
        sent.d["properties"]["$device"]
    );
    match handshake.on_payload(payload(READY)).unwrap() {
        HandshakeStep::Connected(connection) => {
            assert_eq!(connection.session_id, "abc");
            assert_eq!(connection.seq_num, Some(1));
            assert_eq!(connection.heartbeat_interval, 45000);
            assert_eq!(connection.token, "token");
            assert_eq!((connection.user.id.0).0, 80351110224678912);
        }
        HandshakeStep::Identify { .. } => panic!("identified twice"),
    }
}

#[test]
fn handshake_needs_hello_first() {
    let handshake = Handshake::new(
        "token".to_owned(),
        ConnectionProperties::for_os("linux".to_owned()),
    );
    assert!(matches!(
        handshake.on_payload(payload(READY)),
        Err(GatewayError::ExpectedHello)
    ));
    let handshake = Handshake::new(
        "token".to_owned(),
        ConnectionProperties::for_os("linux".to_owned()),
    );
    assert!(matches!(
        handshake.on_payload(payload(r#"{"op":11}"#)),
        Err(GatewayError::ExpectedHello)
    ));
}

#[test]
fn handshake_needs_ready_second() {
    for second in [
        HELLO,
        r#"{"op":11}"#,
        r#"{"op":0,"t":"TYPING_START","d":{"channel_id":"2","user_id":"1","timestamp":1}}"#,
    ] {
        let handshake = Handshake::new(
            "token".to_owned(),
            ConnectionProperties::for_os("linux".to_owned()),
        );
        let handshake = match handshake.on_payload(payload(HELLO)).unwrap() {
            HandshakeStep::Identify { handshake, .. } => handshake,
            HandshakeStep::Connected(_) => panic!("connected before identifying"),
        };
        assert!(matches!(
            handshake.on_payload(payload(second)),
            Err(GatewayError::ExpectedReady)
        ));
    }
}

#[test]
fn handshake_reports_what_it_cannot_read() {
    let handshake = Handshake::new(
        "token".to_owned(),
        ConnectionProperties::for_os("linux".to_owned()),
    );
    assert!(matches!(
        handshake.on_payload(payload(r#"{"op":10,"d":{}}"#)),
        Err(GatewayError::FromPayload(FromPayloadError::Json(_)))
    ));
    let handshake = Handshake::new(
        "token".to_owned(),
        ConnectionProperties::for_os("linux".to_owned()),
    );
    assert!(matches!(
        handshake.on_payload(payload(r#"{"op":77}"#)),
        Err(GatewayError::FromPayload(FromPayloadError::UnknownOpcode(
            77
        )))
    ));
}

#[test]
fn heartbeat_cadence() {
    let mut connection = connect(r#"{"op":10,"d":{"heartbeat_interval":100}}"#);
    assert_eq!(connection.heartbeat_interval, 100);
    connection.seq_num = None;
    for _ in 0..2 {
        match connection.turn(TurnInput::Tick).unwrap() {
            TurnOutput::Send(command) => {
                let sent = Payload::try_from_command(command).unwrap();
                assert_eq!(
                    json(&sent.to_text().unwrap()),
                    json(r#"{"op":1,"d":null}"#)
                );
            }
            _ => panic!("no heartbeat on a tick"),
        }
        assert!(matches!(
            connection.turn(TurnInput::Payload(payload(r#"{"op":11}"#))),
            Ok(TurnOutput::Continue)
        ));
    }
}

#[test]
fn heartbeat_carries_the_last_sequence_number() {
    let mut connection = connect(HELLO);
    assert_eq!(connection.seq_num, Some(1));
    assert!(matches!(
        connection.turn(TurnInput::Payload(payload(
            r#"{"op":0,"t":"TYPING_START","s":17,"d":{"channel_id":"2","user_id":"1","timestamp":1600000000}}"#
        ))),
        Ok(TurnOutput::Dispatch(_))
    ));
    match connection.turn(TurnInput::Tick).unwrap() {
        TurnOutput::Send(GatewayCommand::Heartbeat(heartbeat)) => {
            assert_eq!(heartbeat.last_seq, Some(17))
        }
        _ => panic!("no heartbeat on a tick"),
    }
    match connection
        .turn(TurnInput::Payload(payload(r#"{"op":1,"d":null}"#)))
        .unwrap()
    {
        TurnOutput::Send(GatewayCommand::Heartbeat(heartbeat)) => {
            assert_eq!(heartbeat.last_seq, Some(17))
        }
        _ => panic!("no heartbeat on request"),
    }
}

#[test]
fn unknown_dispatch() {
    let mut connection = connect(HELLO);
    let output = connection
        .turn(TurnInput::Payload(payload(
            r#"{"op":0,"t":"FUTURE_EVENT","s":5,"d":{"x":1}}"#,
        )))
        .unwrap();
    match output {
        TurnOutput::Dispatch(ReceivableEvent::Unknown { name, value }) => {
            assert_eq!(name, "FUTURE_EVENT");
            assert_eq!(value, json(r#"{"x":1}"#));
        }
        _ => panic!("not dispatched as unknown"),
    }
    assert_eq!(connection.seq_num, Some(5));
}

#[test]
fn sequence_number_never_goes_back() {
    assert_eq!(update_seq_num(None, None), None);
    assert_eq!(update_seq_num(None, Some(3)), Some(3));
    assert_eq!(update_seq_num(Some(3), None), Some(3));
    assert_eq!(update_seq_num(Some(3), Some(4)), Some(4));
    assert_eq!(update_seq_num(Some(3), Some(3)), Some(3));
    assert_eq!(update_seq_num(Some(3), Some(2)), Some(3));
    let mut connection = connect(HELLO);
    connection.seq_num = Some(9);
    let _ = connection.turn(TurnInput::Payload(payload(
        r#"{"op":0,"t":"X","s":4,"d":null}"#,
    )));
    assert_eq!(connection.seq_num, Some(9));
    let _ = connection.turn(TurnInput::Payload(payload(r#"{"op":11}"#)));
    assert_eq!(connection.seq_num, Some(9));
}

#[test]
fn known_dispatch_goes_to_the_handler() {
    let mut connection = connect(HELLO);
    match connection
        .turn(TurnInput::Payload(payload(
            r#"{"op":0,"t":"MESSAGE_CREATE","s":2,"d":{"id":"334385199974967042","channel_id":"290926798999357250","author":{"id":"53908099506183680","username":"Mason","discriminator":"9999"},"content":"hi","timestamp":"2017-07-11T17:27:07.299000+00:00","edited_timestamp":null,"tts":false,"mention_everyone":false,"mentions":[],"mention_roles":[],"attachments":[],"embeds":[],"pinned":false,"type":0}}"#,
        )))
        .unwrap()
    {
        TurnOutput::Dispatch(ReceivableEvent::MessageCreate(message)) => {
            assert_eq!(message.content, "hi");
        }
        _ => panic!("not dispatched"),
    }
    assert_eq!(connection.seq_num, Some(2));
}

#[test]
fn voice_server_update_goes_to_the_waiter_of_its_guild() {
    let update = r#"{"op":0,"t":"VOICE_SERVER_UPDATE","s":3,
        "d":{"token":"voice-token","guild_id":"7","endpoint":"example.net:80"}}"#;
    let mut connection = connect(HELLO);
    // nobody waits: the event goes to the handler
    match connection.turn(TurnInput::Payload(payload(update))).unwrap() {
        TurnOutput::Dispatch(ReceivableEvent::VoiceServerUpdate(got)) => {
            assert_eq!(got.guild_id, GuildId(Snowflake(7)))
        }
        _ => panic!("not dispatched"),
    }
    let other = connection
        .voice_update_store
        .register(GuildId(Snowflake(8)));
    let receiver = connection
        .voice_update_store
        .register(GuildId(Snowflake(7)));
    assert_ne!(other, receiver);
    match connection.turn(TurnInput::Payload(payload(update))).unwrap() {
        TurnOutput::Route { receiver: to, info } => {
            assert_eq!(to, receiver);
            assert_eq!(info.token, "voice-token");
            assert_eq!(info.endpoint, "example.net:80");
        }
        _ => panic!("not routed"),
    }
}

#[test]
fn voice_states_are_noted() {
    let mut connection = connect(HELLO);
    let user = discord_next::ids::UserId(Snowflake(1));
    assert_eq!(connection.voice_state.connect_to_user(user), None);
    let state = r#"{"op":0,"t":"VOICE_STATE_UPDATE","s":3,"d":{"guild_id":"3","channel_id":"4",
        "user_id":"1","session_id":"s","deaf":false,"mute":false,"self_deaf":false,
        "self_mute":false,"suppress":false}}"#;
    assert!(matches!(
        connection.turn(TurnInput::Payload(payload(state))),
        Ok(TurnOutput::Dispatch(ReceivableEvent::VoiceStateUpdate(_)))
    ));
    assert_eq!(
        connection.voice_state.connect_to_user(user),
        Some((
            GuildId(Snowflake(3)),
            Some(discord_next::ids::ChannelId(Snowflake(4)))
        ))
    );
    let left = r#"{"op":0,"t":"VOICE_STATE_UPDATE","s":4,"d":{"guild_id":"3","channel_id":null,
        "user_id":"1","session_id":"s","deaf":false,"mute":false,"self_deaf":false,
        "self_mute":false,"suppress":false}}"#;
    let _ = connection.turn(TurnInput::Payload(payload(left)));
    assert_eq!(
        connection.voice_state.connect_to_user(user),
        Some((GuildId(Snowflake(3)), None))
    );
}

#[test]
fn resume_requests_are_handed_on() {
    let mut connection = connect(HELLO);
    assert!(matches!(
        connection.turn(TurnInput::Payload(payload(r#"{"op":7}"#))),
        Ok(TurnOutput::Signal(ResumeSignal::Reconnect))
    ));
    match connection
        .turn(TurnInput::Payload(payload(r#"{"op":9,"d":true}"#)))
        .unwrap()
    {
        TurnOutput::Signal(ResumeSignal::InvalidSession(invalid)) => assert!(invalid.resumable),
        _ => panic!("no signal"),
    }
}

#[test]
fn turn_passes_over_what_needs_no_answer() {
    let mut connection = connect(HELLO);
    assert!(matches!(
        connection.turn(TurnInput::Payload(payload(HELLO))),
        Ok(TurnOutput::Continue)
    ));
    assert!(matches!(
        connection.turn(TurnInput::Payload(payload(r#"{"op":42}"#))),
        Ok(TurnOutput::Continue)
    ));
    assert!(matches!(
        connection.turn(TurnInput::Ended),
        Ok(TurnOutput::Stop)
    ));
}

#[test]
fn turn_fails_on_what_it_cannot_read() {
    let mut connection = connect(HELLO);
    assert!(matches!(
        connection.turn(TurnInput::Payload(payload(r#"{"op":2}"#))),
        Err(GatewayError::FromPayload(
            FromPayloadError::UnexpectedOpcode(2)
        ))
    ));
    assert!(matches!(
        connection.turn(TurnInput::Payload(payload(
            r#"{"op":0,"t":"READY","d":{}}"#
        ))),
        Err(GatewayError::FromPayload(FromPayloadError::Json(_)))
    ));
}

#[test]
fn close_frames_end_the_connection() {
    assert!(matches!(
        read_message(Incoming::Close(Some(4004))),
        Err(GatewayError::ConnectionClosed(Some(
            CloseCode::AuthenticationFailed
        )))
    ));
    assert!(matches!(
        read_message(Incoming::Close(Some(1000))),
        Err(GatewayError::ConnectionClosed(None))
    ));
    assert!(matches!(
        read_message(Incoming::Close(None)),
        Err(GatewayError::ConnectionClosed(None))
    ));
}

#[test]
fn messages_that_are_no_envelope_are_errors() {
    assert!(matches!(
        read_message(Incoming::Text("nonsense".to_owned())),
        Err(GatewayError::FromPayload(FromPayloadError::Json(_)))
    ));
    assert!(matches!(
        read_message(Incoming::Text("[1]".to_owned())),
        Err(GatewayError::FromPayload(FromPayloadError::Json(_)))
    ));
    assert!(matches!(
        read_message(Incoming::Text(r#"{"op":0,"d":1}"#.to_owned())),
        Err(GatewayError::FromPayload(
            FromPayloadError::MissingEventName
        ))
    ));
}

#[test]
fn only_websocket_and_timer_errors_are_fatal() {
    assert!(!GatewayError::Ws("x".to_owned()).is_recoverable());
    assert!(!GatewayError::HeartbeatTimer("x".to_owned()).is_recoverable());
    for e in [
        GatewayError::Url("x".to_owned()),
        GatewayError::Json("x".to_owned()),
        GatewayError::RestError("x".to_owned()),
        GatewayError::ConnectionClosed(None),
        GatewayError::SendError("x".to_owned()),
        GatewayError::Io("x".to_owned()),
        GatewayError::FromPayload(FromPayloadError::MissingEventName),
        GatewayError::ExpectedHello,
        GatewayError::ExpectedReady,
        GatewayError::Generic("x".to_owned()),
    ] {
        assert!(e.is_recoverable());
    }
}
