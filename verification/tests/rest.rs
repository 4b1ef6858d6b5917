use discord_next::embed::{Embed, EmbedField, EmbedTooBigError};
use discord_next::ids::{
    ApplicationCommandId, ApplicationId, ChannelId, GuildId, InteractionId, MessageId, Snowflake,
    UserId,
};
use discord_next::rest::client::{
    messages_query_string, Client, GetMessages, Method, Request, RestError, Verdict,
    DEFAULT_MAX_RETRIES,
};
use discord_next::rest::message::{EditMessage, NewMessage};
use discord_next::rest::ratelimiter::{Enforcement, RateLimitHeaders};
use serde_json::Value;

fn json(text: &str) -> Value {
    serde_json::from_str(text).unwrap()
}

fn channel(n: u64) -> ChannelId {
    ChannelId(Snowflake(n))
}

fn message(n: u64) -> MessageId {
    MessageId(Snowflake(n))
}

fn no_headers() -> RateLimitHeaders {
    RateLimitHeaders {
        global: false,
        limit: None,
        remaining: None,
        reset: None,
    }
}

fn check(request: &Request, method: Method, limit_url: &str, path: &str) {
    assert_eq!(request.method, method);
    assert_eq!(request.limit_url, limit_url);
    assert_eq!(request.path, path);
    assert_eq!(
        request.url,
        format!("https://discordapp.com/api/v6{}", path)
    );
    assert_eq!(request.authorization, "Bot abc");
    assert_eq!(
        request.user_agent,
        "discord-next-rs (github.com/Eroc33, 0.0.1-prototype)"
    );
    assert_eq!(request.json_content, !request.body.is_empty());
}

#[test]
fn new_client_has_the_default_ceiling() {
    let client = Client::new("abc".to_owned());
    assert_eq!(client.max_retries, 5);
    assert_eq!(DEFAULT_MAX_RETRIES, 5);
    assert_eq!(client.bot_token, "abc");
    assert_eq!(client.authorization(), "Bot abc");
}

#[test]
fn requests_without_body() {
    let client = Client::new("abc".to_owned());
    let r = client.get_gateway();
    check(&r, Method::Get, "/gateway", "/gateway");
    assert_eq!(r.body, "");
    assert!(!r.json_content);
    let r = client.get_guilds();
    check(&r, Method::Get, "/users/@me/guilds", "/users/@me/guilds");
    let r = client.get_guild_channels(GuildId(Snowflake(12)));
    check(&r, Method::Get, "/guilds/12/channels", "/guilds/12/channels");
    let r = client.get_application_commands(ApplicationId(Snowflake(3)));
    check(
        &r,
        Method::Get,
        "/applications/3/commands",
        "/applications/3/commands",
    );
    let r = client.delete_application_command(
        ApplicationId(Snowflake(3)),
        ApplicationCommandId(Snowflake(4)),
    );
    check(
        &r,
        Method::Delete,
        "/applications/3/commands/4",
        "/applications/3/commands/4",
    );
    assert_eq!(r.body, "");
}

#[test]
fn deletions_fall_under_buckets_of_their_own() {
    let client = Client::new("abc".to_owned());
    let r = client.delete_message(channel(5), message(6));
    check(
        &r,
        Method::Delete,
        "DELETE /channels/5/messages/{}",
        "/channels/5/messages/6",
    );
    let r = client
        .delete_messages(channel(5), &vec![message(6), message(7)])
        .unwrap();
    check(
        &r,
        Method::Post,
        "DELETE /channels/5/messages/bulk_delete",
        "/channels/5/messages/bulk_delete",
    );
    assert_eq!(json(&r.body), json(r#"{"messages":["6","7"]}"#));
    assert!(r.json_content);
    let get = client.get_messages(channel(5), GetMessages::MostRecent, None);
    assert_ne!(get.limit_url, r.limit_url);
}

#[test]
fn messages_are_asked_for_by_position_and_limit() {
    let client = Client::new("abc".to_owned());
    let r = client.get_messages(channel(5), GetMessages::MostRecent, None);
    check(&r, Method::Get, "/channels/5/messages", "/channels/5/messages");
    let r = client.get_messages(channel(5), GetMessages::Around(message(9)), None);
    check(
        &r,
        Method::Get,
        "/channels/5/messages",
        "/channels/5/messages?around=9",
    );
    let r = client.get_messages(channel(5), GetMessages::Before(message(9)), Some(50));
    check(
        &r,
        Method::Get,
        "/channels/5/messages",
        "/channels/5/messages?before=9&limit=50",
    );
    let r = client.get_messages(channel(5), GetMessages::After(message(9)), Some(1));
    check(
        &r,
        Method::Get,
        "/channels/5/messages",
        "/channels/5/messages?after=9&limit=1",
    );
    assert_eq!(
        messages_query_string(GetMessages::MostRecent, Some(7)),
        "?limit=7"
    );
    assert_eq!(messages_query_string(GetMessages::MostRecent, None), "");
    assert_eq!(GetMessages::MostRecent.to_query(), None);
    assert_eq!(
        GetMessages::Around(message(1)).to_query(),
        Some("around=1".to_owned())
    );
}

#[test]
fn message_is_sent_as_json() {
    let client = Client::new("abc".to_owned());
    let r = client
        .send_message(channel(5), &NewMessage::text("hello".to_owned()))
        .unwrap();
    check(&r, Method::Post, "/channels/5/messages", "/channels/5/messages");
    assert!(r.json_content);
    assert_eq!(json(&r.body), json(r#"{"content":"hello"}"#));
    let mut m = NewMessage::text("x".to_owned());
    m.nonce = Some("n".to_owned());
    m.tts = Some(false);
    m = m.with_embed(|mut e: Embed| {
        e.set_title("T".to_owned());
        e.set_color(0xFF00FF);
        e.push_field(EmbedField::inline("a".to_owned(), "b".to_owned()));
        e.push_field(EmbedField::new("c".to_owned(), "d".to_owned()));
        e
    });
    let r = client.send_message(channel(5), &m).unwrap();
    assert_eq!(
        json(&r.body),
        json(
            r#"{"content":"x","nonce":"n","tts":false,"embed":{"title":"T","color":16711935,
                "fields":[{"name":"a","value":"b","inline":true},{"name":"c","value":"d"}]}}"#
        )
    );
}

#[test]
fn message_is_edited_as_json() {
    let client = Client::new("abc".to_owned());
    let r = client
        .update_message(channel(5), message(6), &EditMessage::text("new".to_owned()))
        .unwrap();
    check(
        &r,
        Method::Patch,
        "/channels/5/messages/6",
        "/channels/5/messages/6",
    );
    assert_eq!(json(&r.body), json(r#"{"content":"new"}"#));
    let edit = EditMessage {
        content: None,
        embed: None,
    }
    .with_embed(|mut e: Embed| {
        e.set_description("d".to_owned());
        e
    });
    let r = client.update_message(channel(5), message(6), &edit).unwrap();
    assert_eq!(
        json(&r.body),
        json(r#"{"content":null,"embed":{"description":"d"}}"#)
    );
}

#[test]
fn text_is_created_or_updated() {
    let client = Client::new("abc".to_owned());
    let r = client
        .create_or_update_text(None, "t".to_owned(), channel(1))
        .unwrap();
    check(&r, Method::Post, "/channels/1/messages", "/channels/1/messages");
    assert_eq!(json(&r.body), json(r#"{"content":"t"}"#));
    let r = client
        .create_or_update_text(Some(message(2)), "t".to_owned(), channel(1))
        .unwrap();
    check(
        &r,
        Method::Patch,
        "/channels/1/messages/2",
        "/channels/1/messages/2",
    );
    assert_eq!(json(&r.body), json(r#"{"content":"t"}"#));
}

#[test]
fn embeds_beyond_the_limits_are_not_sent() {
    let client = Client::new("abc".to_owned());
    let m = NewMessage::text("x".to_owned()).with_embed(|mut e: Embed| {
        e.set_title("t".repeat(257));
        e
    });
    match client.send_message(channel(5), &m) {
        Err(RestError::EmbedTooBig(EmbedTooBigError::FieldTooBig { field, length, max })) => {
            assert_eq!(field, "title");
            assert_eq!(length, 257);
            assert_eq!(max, 256);
        }
        other => panic!("{:?}", other),
    }
    let edit = EditMessage::text("x".to_owned()).with_embed(|mut e: Embed| {
        e.set_description("d".repeat(2049));
        e
    });
    assert!(matches!(
        client.update_message(channel(5), message(1), &edit),
        Err(RestError::EmbedTooBig(EmbedTooBigError::FieldTooBig {
            field: "description",
            length: 2049,
            max: 2048
        }))
    ));
}

#[test]
fn other_requests_with_body() {
    let client = Client::new("abc".to_owned());
    let r = client
        .create_private_channel(UserId(Snowflake(77)))
        .unwrap();
    check(
        &r,
        Method::Post,
        "/users/@me/channels",
        "/users/@me/channels",
    );
    assert_eq!(json(&r.body), json(r#"{"recipient_id":"77"}"#));
    let command = json(r#"{"name":"ping","description":"pong"}"#);
    let r = client
        .create_application_command(ApplicationId(Snowflake(3)), &command)
        .unwrap();
    check(
        &r,
        Method::Post,
        "/applications/3/commands",
        "/applications/3/commands",
    );
    assert_eq!(json(&r.body), command);
    let response = json(r#"{"type":4,"data":{"content":"hi"}}"#);
    let r = client
        .create_interaction_response(InteractionId(Snowflake(8)), "tok", &response)
        .unwrap();
    check(
        &r,
        Method::Post,
        "/interactions/8/tok/callback",
        "/interactions/8/tok/callback",
    );
    assert_eq!(json(&r.body), response);
    let r = client
        .edit_original_interaction_response(ApplicationId(Snowflake(3)), "tok", &response)
        .unwrap();
    check(
        &r,
        Method::Patch,
        "/webhooks/3/tok/messages/@original",
        "/webhooks/3/tok/messages/@original",
    );
}

#[test]
fn gateway_url_gets_version_and_encoding() {
    assert_eq!(
        Client::gateway_url("wss://gateway.discord.gg", 8).unwrap(),
        "wss://gateway.discord.gg/?v=8&encoding=json"
    );
    assert_eq!(
        Client::gateway_url("wss://gateway.discord.gg/", 6).unwrap(),
        "wss://gateway.discord.gg/?v=6&encoding=json"
    );
    assert!(matches!(
        Client::gateway_url("not a url", 8),
        Err(RestError::BadUrl)
    ));
}

#[test]
fn gateway_url_is_read_from_the_response() {
    assert_eq!(
        Client::gateway_url_from(r#"{"url":"wss://gateway.discord.gg"}"#, 8).unwrap(),
        "wss://gateway.discord.gg/?v=8&encoding=json"
    );
    assert!(matches!(
        Client::gateway_url_from(r#"{"url":"nowhere"}"#, 8),
        Err(RestError::BadUrl)
    ));
    for bad in ["", "[]", "{}", r#"{"url":5}"#, r#"{"url":null}"#] {
        assert!(
            matches!(Client::gateway_url_from(bad, 8), Err(RestError::Json(_))),
            "{}",
            bad
        );
    }
}

#[test]
fn responses_are_read() {
    let guilds = Client::read_list_response::<discord_next::model::PartialGuild>(
        r#"[{"id":"1","name":"a","icon":null},{"id":"2","name":"b","owner":true}]"#,
    )
    .unwrap();
    assert_eq!(guilds.len(), 2);
    assert_eq!(guilds[1].owner, Some(true));
    assert!(matches!(
        Client::read_list_response::<discord_next::model::PartialGuild>(r#"[{"id":"1"}]"#),
        Err(RestError::Json(_))
    ));
    assert!(matches!(
        Client::read_list_response::<u64>(r#"{"a":1}"#),
        Err(RestError::Json(_))
    ));
    assert_eq!(Client::read_list_response::<u64>("[]").unwrap(), Vec::<u64>::new());
    assert_eq!(Client::read_response::<u64>("7").unwrap(), 7);
    assert_eq!(Client::read_response::<Value>("[1]").unwrap(), json("[1]"));
    assert!(matches!(
        Client::read_response::<u64>("seven"),
        Err(RestError::Json(_))
    ));
    assert!(matches!(
        Client::read_response::<u64>(r#""7""#),
        Err(RestError::Json(_))
    ));
}

#[test]
fn rate_limit_429() {
    let mut client = Client::new("abc".to_owned());
    let request = client
        .send_message(channel(5), &NewMessage::text("x".to_owned()))
        .unwrap();
    let mut attempt = Client::attempt(request);
    let now = 1_000_000;
    assert_eq!(client.before_send(&attempt, now), Enforcement::Granted);
    let limited = RateLimitHeaders {
        global: false,
        limit: Some(b"5".to_vec()),
        remaining: Some(b"0".to_vec()),
        reset: Some(format!("{}", now + 1).into_bytes()),
    };
    assert!(matches!(
        client.on_response(&mut attempt, 429, &limited),
        Verdict::Retry
    ));
    assert_eq!(attempt.retries, 1);
    assert_eq!(
        client.before_send(&attempt, now),
        Enforcement::WaitUntil(now + 1)
    );
    assert_eq!(client.before_send(&attempt, now + 1), Enforcement::Granted);
    assert!(matches!(
        client.on_response(&mut attempt, 200, &no_headers()),
        Verdict::Success
    ));
    assert_eq!(attempt.retries, 1);
}

#[test]
fn rate_limit_429_without_reset_retries_up_to_the_ceiling() {
    let mut client = Client::new("abc".to_owned());
    let request = client
        .send_message(channel(5), &NewMessage::text("x".to_owned()))
        .unwrap();
    let mut attempt = Client::attempt(request);
    for retries in 1..=5u16 {
        assert_eq!(client.before_send(&attempt, 0), Enforcement::Granted);
        assert!(matches!(
            client.on_response(&mut attempt, 429, &no_headers()),
            Verdict::Retry
        ));
        assert_eq!(attempt.retries, retries);
    }
    assert_eq!(client.before_send(&attempt, 0), Enforcement::Granted);
    match client.on_response(&mut attempt, 429, &no_headers()) {
        Verdict::Fail(RestError::TooManyRetries(max, path)) => {
            assert_eq!(max, 5);
            assert_eq!(path, "/channels/5/messages");
        }
        other => panic!("{:?}", other),
    }
    assert_eq!(attempt.retries, 5);
}

#[test]
fn statuses_other_than_success_fail() {
    let mut client = Client::new("abc".to_owned());
    for status in [100u16, 199, 300, 404, 500] {
        let mut attempt = Client::attempt(client.get_gateway());
        match client.on_response(&mut attempt, status, &no_headers()) {
            Verdict::Fail(RestError::UnsuccessfulHttp(got)) => assert_eq!(got, status),
            other => panic!("{:?}", other),
        }
        assert_eq!(attempt.retries, 0);
    }
    for status in [200u16, 201, 204, 299] {
        let mut attempt = Client::attempt(client.get_gateway());
        assert!(matches!(
            client.on_response(&mut attempt, status, &no_headers()),
            Verdict::Success
        ));
    }
}

#[test]
fn ceiling_can_be_changed() {
    let mut client = Client::new("abc".to_owned());
    client.max_retries = 0;
    let mut attempt = Client::attempt(client.get_gateway());
    assert!(matches!(
        client.on_response(&mut attempt, 429, &no_headers()),
        Verdict::Fail(RestError::TooManyRetries(0, _))
    ));
}
