//! The REST client: which request each operation makes, and what to do with
//! each response.
//!
//! The functions here plan requests and judge responses; sending is left to
//! whoever runs the client. Before each send the caller asks
//! [`Client::before_send`], after each response [`Client::on_response`].

use vstd::prelude::*;
use vstd::string::*;
use crate::decode::{field_str, get_string, list_read, list_readable, objects_of, string_views, FromJson};
use crate::embed::EmbedTooBigError;
use crate::encode::{id_json, id_to_json};
use crate::endpoint::{gateway_url, gateway_url_text, parsed_url};
use crate::ids::{
    ApplicationCommandId, ApplicationId, ChannelId, GuildId, InteractionId, MessageId, UserId,
};
use crate::json::{
    json_from_array, json_from_map, json_map_insert, json_map_new, json_parse, json_text,
    json_to_text, json_view, json_views, no_members, parse_json, Json,
};
use crate::rest::message::{embed_check, EditMessage, NewMessage};
use crate::rest::ratelimiter::{enforced, updated, Enforcement, RateLimitHeaders, RateLimiter};
use crate::text::{decimal_chars, u64_to_decimal};

verus! {

/// How often a request is sent again after the service said that there were
/// too many, unless the client is told otherwise.
pub const DEFAULT_MAX_RETRIES: u16 = 5;

/// The status with which the service says that there were too many requests.
pub const TOO_MANY_REQUESTS: u16 = 429;

/// The start of every url of the service.
pub open spec fn api_base() -> Seq<char> {
    "https://discordapp.com/api/v6"@
}

/// The value of the `User-Agent` header of every request.
pub open spec fn user_agent() -> Seq<char> {
    "discord-next-rs (github.com/Eroc33, 0.0.1-prototype)"@
}

/// What can go wrong with a REST operation. Errors of the transport carry
/// the message of the library that reported them.
#[derive(Debug)]
pub enum RestError {
    /// An http error occurred.
    Http(String),
    /// The service reported something that is no url.
    BadUrl,
    /// A value could not be written or read as JSON.
    Json(String),
    /// An embed was too big.
    EmbedTooBig(EmbedTooBigError),
    /// The service said too often that there were too many requests: how
    /// often the request may be repeated, and its path.
    TooManyRetries(u16, String),
    /// The timer that waits for a rate limit failed.
    Timer(String),
    /// The service answered with a status that is no success.
    UnsuccessfulHttp(u16),
    /// A request could not be built.
    HttpBuilderError(String),
}

/// The verb of a request.
#[derive(Debug, Clone, Copy, PartialEq, Eq, Structural)]
pub enum Method {
    Get,
    Post,
    Patch,
    Delete,
}

/// A request to the service.
#[derive(Debug)]
pub struct Request {
    pub method: Method,
    /// The key of the rate-limit bucket that the request falls under.
    pub limit_url: String,
    /// The path of the request, behind the base of the service's urls.
    pub path: String,
    /// The whole url of the request.
    pub url: String,
    /// The value of the `Authorization` header.
    pub authorization: String,
    /// The value of the `User-Agent` header.
    pub user_agent: String,
    /// Whether the request carries the header `Content-Type:
    /// application/json`: it does when it has a body.
    pub json_content: bool,
    /// The body; empty for none.
    pub body: String,
}

/// Where in a channel's history to look for messages.
#[derive(Debug, Clone, Copy, PartialEq, Eq, Structural)]
pub enum GetMessages {
    Around(MessageId),
    Before(MessageId),
    After(MessageId),
    MostRecent,
}

impl GetMessages {
    /// The query parameter that selects the position; none for the most
    /// recent messages.
    pub open spec fn query(self) -> Option<Seq<char>> {
        match self {
            GetMessages::Around(id) => Some("around="@ + decimal_chars(id.0.0 as nat)),
            GetMessages::Before(id) => Some("before="@ + decimal_chars(id.0.0 as nat)),
            GetMessages::After(id) => Some("after="@ + decimal_chars(id.0.0 as nat)),
            GetMessages::MostRecent => None,
        }
    }

    /// The query parameter that selects the position.
    pub fn to_query(&self) -> (r: Option<String>)
        ensures
            match r {
                Some(q) => self.query() == Some(q@),
                None => self.query() is None,
            },
    {
        match self {
            GetMessages::Around(id) => Some(prefixed("around=", id.0.0)),
            GetMessages::Before(id) => Some(prefixed("before=", id.0.0)),
            GetMessages::After(id) => Some(prefixed("after=", id.0.0)),
            GetMessages::MostRecent => None,
        }
    }
}

/// A text around the decimal notation of a number.
fn with_id(prefix: &str, id: u64, suffix: &str) -> (r: String)
    ensures
        r@ == prefix@ + decimal_chars(id as nat) + suffix@,
{
    let mut s = String::from_str(prefix);
    s.append(u64_to_decimal(id).as_str());
    s.append(suffix);
    s
}

/// A text in front of the decimal notation of a number.
fn prefixed(prefix: &str, id: u64) -> (r: String)
    ensures
        r@ == prefix@ + decimal_chars(id as nat),
{
    let mut s = String::from_str(prefix);
    s.append(u64_to_decimal(id).as_str());
    s
}

/// The texts of `parts` with `sep` between every two of them.
pub open spec fn joined(parts: Seq<Seq<char>>, sep: Seq<char>) -> Seq<char>
    decreases parts.len(),
{
    if parts.len() == 0 {
        Seq::empty()
    } else if parts.len() == 1 {
        parts[0]
    } else {
        joined(parts.drop_last(), sep) + sep + parts.last()
    }
}

/// `itertools::Itertools::join` on the strings of a vector. Trusted: the
/// result is the strings in order, with `sep` between every two of them.
#[verifier::external_body]
fn join_with(parts: &Vec<String>, sep: &str) -> (r: String)
    ensures
        r@ == joined(string_views(parts@), sep@),
{
    itertools::Itertools::join(&mut parts.iter(), sep)
}

/// The query of a request for messages: the position, then the limit, each
/// where it is given.
pub open spec fn messages_query(position: GetMessages, limit: Option<u32>) -> Seq<char> {
    let parts = match position.query() {
        Some(q) => seq![q],
        None => Seq::empty(),
    };
    let parts = match limit {
        Some(n) => parts.push("limit="@ + decimal_chars(n as nat)),
        None => parts,
    };
    if parts.len() == 0 {
        Seq::empty()
    } else {
        "?"@ + joined(parts, "&"@)
    }
}

/// The query of a request for messages.
pub fn messages_query_string(position: GetMessages, limit: Option<u32>) -> (r: String)
    ensures
        r@ == messages_query(position, limit),
{
    let mut parts: Vec<String> = Vec::new();
    match position.to_query() {
        Some(q) => {
            parts.push(q);
        },
        None => {},
    }
    match limit {
        Some(n) => {
            parts.push(prefixed("limit=", n as u64));
        },
        None => {},
    }
    proof {
        let spec_parts = match position.query() {
            Some(q) => seq![q],
            None => Seq::empty(),
        };
        let spec_parts = match limit {
            Some(n) => spec_parts.push("limit="@ + decimal_chars(n as nat)),
            None => spec_parts,
        };
        assert(string_views(parts@) =~= spec_parts);
    }
    if parts.len() == 0 {
        String::new()
    } else {
        let mut s = String::from_str("?");
        s.append(join_with(&parts, "&").as_str());
        s
    }
}

/// The JSON forms of a list of message identifiers.
pub open spec fn message_ids_json(ids: Seq<MessageId>) -> Seq<Json> {
    Seq::new(ids.len(), |i: int| id_json(ids[i].0.0))
}

/// A REST client: the bot's token, the rate limits that the service has
/// reported, and how often to repeat a request.
pub struct Client {
    pub bot_token: String,
    pub rate_limiter: RateLimiter,
    pub max_retries: u16,
}

/// A request that is being carried out, and how often it was repeated.
#[derive(Debug)]
pub struct Attempt {
    pub request: Request,
    pub retries: u16,
}

/// What to do after a response.
#[derive(Debug)]
pub enum Verdict {
    /// Send the request again.
    Retry,
    /// The response is the result of the operation.
    Success,
    /// The operation has failed.
    Fail(RestError),
}

impl Request {
    /// Whether `self` is the request that a client with the token `token`
    /// makes with these parts.
    pub open spec fn is(
        self,
        token: Seq<char>,
        method: Method,
        limit_url: Seq<char>,
        path: Seq<char>,
        body: Seq<char>,
    ) -> bool {
        &&& self.method == method
        &&& self.limit_url@ == limit_url
        &&& self.path@ == path
        &&& self.url@ == api_base() + path
        &&& self.authorization@ == "Bot "@ + token
        &&& self.user_agent@ == user_agent()
        &&& self.json_content == (body.len() > 0)
        &&& self.body@ == body
    }

    /// Whether `r` is the outcome of planning a request with a JSON body
    /// `body`: the request with the text of the body. Writing a body never
    /// fails.
    pub open spec fn planned(
        r: Result<Request, RestError>,
        token: Seq<char>,
        method: Method,
        limit_url: Seq<char>,
        path: Seq<char>,
        body: Json,
    ) -> bool {
        r matches Ok(request) && request.is(token, method, limit_url, path, json_text(body))
    }
}

impl Client {
    /// A client for the bot with the given token, without rate limits yet.
    pub fn new(bot_token: String) -> (r: Client)
        ensures
            r.bot_token == bot_token,
            r.max_retries == DEFAULT_MAX_RETRIES,
            r.rate_limiter@ == Map::<Seq<char>, crate::rest::ratelimiter::RateLimitState>::empty(),
    {
        Client { bot_token, rate_limiter: RateLimiter::new(), max_retries: DEFAULT_MAX_RETRIES }
    }

    /// The value of the `Authorization` header.
    pub fn authorization(&self) -> (r: String)
        ensures
            r@ == "Bot "@ + self.bot_token@,
    {
        let mut s = String::from_str("Bot ");
        s.append(self.bot_token.as_str());
        s
    }

    /// The request with the given parts. Where no key of a rate-limit bucket
    /// is given, the path is the key.
    pub fn request(&self, method: Method, limit_url: Option<String>, path: String, body: String) -> (r:
        Request)
        ensures
            r.is(
                self.bot_token@,
                method,
                match limit_url {
                    Some(key) => key@,
                    None => path@,
                },
                path@,
                body@,
            ),
    {
        let limit_url = match limit_url {
            Some(key) => key,
            None => path.clone(),
        };
        let mut url = String::from_str("https://discordapp.com/api/v6");
        url.append(path.as_str());
        let json_content = body.as_str().unicode_len() > 0;
        Request {
            method,
            limit_url,
            path,
            url,
            authorization: self.authorization(),
            user_agent: String::from_str("discord-next-rs (github.com/Eroc33, 0.0.1-prototype)"),
            json_content,
            body,
        }
    }

    /// The request with the given parts and a JSON value as its body.
    fn json_request(
        &self,
        method: Method,
        limit_url: Option<String>,
        path: String,
        body: &serde_json::Value,
    ) -> (r: Result<Request, RestError>)
        ensures
            Request::planned(
                r,
                self.bot_token@,
                method,
                match limit_url {
                    Some(key) => key@,
                    None => path@,
                },
                path@,
                json_view(*body),
            ),
    {
        match json_to_text(body) {
            Ok(text) => Ok(self.request(method, limit_url, path, text)),
            Err(_) => Err(RestError::Json(String::from_str("the body could not be written"))),
        }
    }

    /// The request that edits a message. An embed beyond the limits of the
    /// service is refused.
    pub fn update_message(
        &self,
        channel_id: ChannelId,
        message_id: MessageId,
        edit_message: &EditMessage,
    ) -> (r: Result<Request, RestError>)
        ensures
            match embed_check(edit_message.embed) {
                Err(e) => r == Err::<Request, RestError>(RestError::EmbedTooBig(e)),
                Ok(_) => Request::planned(
                    r,
                    self.bot_token@,
                    Method::Patch,
                    "/channels/"@ + decimal_chars(channel_id.0.0 as nat) + "/messages/"@
                        + decimal_chars(message_id.0.0 as nat),
                    "/channels/"@ + decimal_chars(channel_id.0.0 as nat) + "/messages/"@
                        + decimal_chars(message_id.0.0 as nat),
                    edit_message.json(),
                ),
            },
    {
        match edit_message.enforce_embed_limits() {
            Err(e) => {
                return Err(RestError::EmbedTooBig(e));
            },
            Ok(_) => {},
        }
        let mut path = with_id("/channels/", channel_id.0.0, "/messages/");
        path.append(u64_to_decimal(message_id.0.0).as_str());
        self.json_request(Method::Patch, None, path, &edit_message.to_json())
    }

    /// The request that creates a message. An embed beyond the limits of the
    /// service is refused.
    pub fn send_message(&self, channel_id: ChannelId, new_message: &NewMessage) -> (r: Result<
        Request,
        RestError,
    >)
        ensures
            match embed_check(new_message.embed) {
                Err(e) => r == Err::<Request, RestError>(RestError::EmbedTooBig(e)),
                Ok(_) => Request::planned(
                    r,
                    self.bot_token@,
                    Method::Post,
                    "/channels/"@ + decimal_chars(channel_id.0.0 as nat) + "/messages"@,
                    "/channels/"@ + decimal_chars(channel_id.0.0 as nat) + "/messages"@,
                    new_message.json(),
                ),
            },
    {
        match new_message.enforce_embed_limits() {
            Err(e) => {
                return Err(RestError::EmbedTooBig(e));
            },
            Ok(_) => {},
        }
        let path = with_id("/channels/", channel_id.0.0, "/messages");
        self.json_request(Method::Post, None, path, &new_message.to_json())
    }

    /// The request that sets the text of a message: an edit of the message
    /// `existing` if there is one, else a new message with that text.
    pub fn create_or_update_text(
        &self,
        existing: Option<MessageId>,
        text: String,
        channel_id: ChannelId,
    ) -> (r: Result<Request, RestError>)
        ensures
            match existing {
                Some(message_id) => Request::planned(
                    r,
                    self.bot_token@,
                    Method::Patch,
                    "/channels/"@ + decimal_chars(channel_id.0.0 as nat) + "/messages/"@
                        + decimal_chars(message_id.0.0 as nat),
                    "/channels/"@ + decimal_chars(channel_id.0.0 as nat) + "/messages/"@
                        + decimal_chars(message_id.0.0 as nat),
                    (EditMessage { content: Some(text), embed: None }).json(),
                ),
                None => Request::planned(
                    r,
                    self.bot_token@,
                    Method::Post,
                    "/channels/"@ + decimal_chars(channel_id.0.0 as nat) + "/messages"@,
                    "/channels/"@ + decimal_chars(channel_id.0.0 as nat) + "/messages"@,
                    (NewMessage { content: text, nonce: None, tts: None, embed: None }).json(),
                ),
            },
    {
        match existing {
            Some(message_id) => self.update_message(
                channel_id,
                message_id,
                &EditMessage::text(text),
            ),
            None => self.send_message(channel_id, &NewMessage::text(text)),
        }
    }

    /// The request for the guilds that the bot is in.
    pub fn get_guilds(&self) -> (r: Request)
        ensures
            r.is(
                self.bot_token@,
                Method::Get,
                "/users/@me/guilds"@,
                "/users/@me/guilds"@,
                Seq::empty(),
            ),
    {
        self.request(Method::Get, None, String::from_str("/users/@me/guilds"), String::new())
    }

    /// The request for the channels of a guild.
    pub fn get_guild_channels(&self, guild_id: GuildId) -> (r: Request)
        ensures
            r.is(
                self.bot_token@,
                Method::Get,
                "/guilds/"@ + decimal_chars(guild_id.0.0 as nat) + "/channels"@,
                "/guilds/"@ + decimal_chars(guild_id.0.0 as nat) + "/channels"@,
                Seq::empty(),
            ),
    {
        self.request(
            Method::Get,
            None,
            with_id("/guilds/", guild_id.0.0, "/channels"),
            String::new(),
        )
    }

    /// The request that opens a private channel with a user.
    pub fn create_private_channel(&self, recipient_id: UserId) -> (r: Result<Request, RestError>)
        ensures
            Request::planned(
                r,
                self.bot_token@,
                Method::Post,
                "/users/@me/channels"@,
                "/users/@me/channels"@,
                Json::Object(no_members().insert("recipient_id"@, id_json(recipient_id.0.0))),
            ),
    {
        let mut m = json_map_new();
        json_map_insert(&mut m, "recipient_id", id_to_json(recipient_id.0.0));
        self.json_request(
            Method::Post,
            None,
            String::from_str("/users/@me/channels"),
            &json_from_map(m),
        )
    }

    /// The request for messages of a channel. All such requests on one
    /// channel fall under one rate-limit bucket, whatever their query.
    pub fn get_messages(&self, channel_id: ChannelId, position: GetMessages, limit: Option<u32>) -> (r:
        Request)
        ensures
            r.is(
                self.bot_token@,
                Method::Get,
                "/channels/"@ + decimal_chars(channel_id.0.0 as nat) + "/messages"@,
                "/channels/"@ + decimal_chars(channel_id.0.0 as nat) + "/messages"@
                    + messages_query(position, limit),
                Seq::empty(),
            ),
    {
        let limit_url = with_id("/channels/", channel_id.0.0, "/messages");
        let mut path = limit_url.clone();
        path.append(messages_query_string(position, limit).as_str());
        self.request(Method::Get, Some(limit_url), path, String::new())
    }

    /// The request that deletes a message. Deletions fall under a bucket of
    /// their own: the key of the bucket starts with the verb.
    pub fn delete_message(&self, channel_id: ChannelId, message_id: MessageId) -> (r: Request)
        ensures
            r.is(
                self.bot_token@,
                Method::Delete,
                "DELETE /channels/"@ + decimal_chars(channel_id.0.0 as nat) + "/messages/{}"@,
                "/channels/"@ + decimal_chars(channel_id.0.0 as nat) + "/messages/"@
                    + decimal_chars(message_id.0.0 as nat),
                Seq::empty(),
            ),
    {
        let limit_url = with_id("DELETE /channels/", channel_id.0.0, "/messages/{}");
        let mut path = with_id("/channels/", channel_id.0.0, "/messages/");
        path.append(u64_to_decimal(message_id.0.0).as_str());
        self.request(Method::Delete, Some(limit_url), path, String::new())
    }

    /// The request that deletes several messages at once. It falls under a
    /// bucket of its own: the key of the bucket starts with `DELETE`.
    pub fn delete_messages(&self, channel_id: ChannelId, message_ids: &Vec<MessageId>) -> (r: Result<
        Request,
        RestError,
    >)
        ensures
            Request::planned(
                r,
                self.bot_token@,
                Method::Post,
                "DELETE /channels/"@ + decimal_chars(channel_id.0.0 as nat)
                    + "/messages/bulk_delete"@,
                "/channels/"@ + decimal_chars(channel_id.0.0 as nat) + "/messages/bulk_delete"@,
                Json::Object(
                    no_members().insert("messages"@, Json::Array(message_ids_json(message_ids@))),
                ),
            ),
    {
        let mut items: Vec<serde_json::Value> = Vec::new();
        let mut i: usize = 0;
        while i < message_ids.len()
            invariant
                i <= message_ids@.len(),
                items@.len() == i,
                forall|k: int|
                    0 <= k < i ==> json_view(#[trigger] items@[k]) == id_json(message_ids@[k].0.0),
            decreases message_ids@.len() - i,
        {
            items.push(id_to_json(message_ids[i].0.0));
            i = i + 1;
        }
        assert(json_views(items@) =~= message_ids_json(message_ids@));
        let mut m = json_map_new();
        json_map_insert(&mut m, "messages", json_from_array(items));
        let limit_url = with_id("DELETE /channels/", channel_id.0.0, "/messages/bulk_delete");
        let path = with_id("/channels/", channel_id.0.0, "/messages/bulk_delete");
        self.json_request(Method::Post, Some(limit_url), path, &json_from_map(m))
    }

    /// The request for the url of the gateway.
    pub fn get_gateway(&self) -> (r: Request)
        ensures
            r.is(self.bot_token@, Method::Get, "/gateway"@, "/gateway"@, Seq::empty()),
    {
        self.request(Method::Get, None, String::from_str("/gateway"), String::new())
    }

    /// The url to open the gateway at, from the url that the service
    /// reported: the protocol version and JSON encoding become its query.
    pub fn gateway_url(reported: &str, version: u8) -> (r: Result<String, RestError>)
        ensures
            match parsed_url(gateway_url_text(reported@, version)) {
                Some(url) => r is Ok && r->Ok_0@ == url,
                None => r == Err::<String, RestError>(RestError::BadUrl),
            },
    {
        match gateway_url(reported, version) {
            Some(url) => Ok(url),
            None => Err(RestError::BadUrl),
        }
    }

    /// The url to open the gateway at, from the answer to the request for
    /// it: the answer is a JSON object with the string `url`.
    pub fn gateway_url_from(response: &str, version: u8) -> (r: Result<String, RestError>)
        ensures
            match json_parse(response@) {
                Some(j) => match field_str(j, "url"@) {
                    Some(reported) => match parsed_url(gateway_url_text(reported, version)) {
                        Some(url) => r is Ok && r->Ok_0@ == url,
                        None => r == Err::<String, RestError>(RestError::BadUrl),
                    },
                    None => r matches Err(RestError::Json(_)),
                },
                None => r matches Err(RestError::Json(_)),
            },
    {
        let value = match parse_json(response) {
            Ok(value) => value,
            Err(_) => {
                return Err(RestError::Json(String::from_str("the response is no JSON")));
            },
        };
        match get_string(&value, "url") {
            Some(reported) => Client::gateway_url(reported.as_str(), version),
            None => Err(RestError::Json(String::from_str("the response holds no url"))),
        }
    }

    /// Reads the body of a response as a value of type `T`.
    pub fn read_response<T: FromJson>(response: &str) -> (r: Result<T, RestError>)
        ensures
            match json_parse(response@) {
                Some(j) => if T::readable(j) {
                    r is Ok && r->Ok_0.read_from(j)
                } else {
                    r matches Err(RestError::Json(_))
                },
                None => r matches Err(RestError::Json(_)),
            },
    {
        let value = match parse_json(response) {
            Ok(value) => value,
            Err(_) => {
                return Err(RestError::Json(String::from_str("the response is no JSON")));
            },
        };
        match T::from_json(&value) {
            Some(read) => Ok(read),
            None => Err(RestError::Json(String::from_str("the response has another shape"))),
        }
    }

    /// Reads the body of a response as a list of values of type `T`.
    pub fn read_list_response<T: FromJson>(response: &str) -> (r: Result<Vec<T>, RestError>)
        ensures
            match json_parse(response@) {
                Some(j) => if list_readable::<T>(j) {
                    r is Ok && list_read(r->Ok_0@, j)
                } else {
                    r matches Err(RestError::Json(_))
                },
                None => r matches Err(RestError::Json(_)),
            },
    {
        let value = match parse_json(response) {
            Ok(value) => value,
            Err(_) => {
                return Err(RestError::Json(String::from_str("the response is no JSON")));
            },
        };
        match objects_of::<T>(&value) {
            Some(read) => Ok(read),
            None => Err(RestError::Json(String::from_str("the response has another shape"))),
        }
    }

    /// The request for the commands of an application.
    pub fn get_application_commands(&self, application_id: ApplicationId) -> (r: Request)
        ensures
            r.is(
                self.bot_token@,
                Method::Get,
                "/applications/"@ + decimal_chars(application_id.0.0 as nat) + "/commands"@,
                "/applications/"@ + decimal_chars(application_id.0.0 as nat) + "/commands"@,
                Seq::empty(),
            ),
    {
        self.request(
            Method::Get,
            None,
            with_id("/applications/", application_id.0.0, "/commands"),
            String::new(),
        )
    }

    /// The request that creates a command of an application.
    pub fn create_application_command(
        &self,
        application_id: ApplicationId,
        command: &serde_json::Value,
    ) -> (r: Result<Request, RestError>)
        ensures
            Request::planned(
                r,
                self.bot_token@,
                Method::Post,
                "/applications/"@ + decimal_chars(application_id.0.0 as nat) + "/commands"@,
                "/applications/"@ + decimal_chars(application_id.0.0 as nat) + "/commands"@,
                json_view(*command),
            ),
    {
        self.json_request(
            Method::Post,
            None,
            with_id("/applications/", application_id.0.0, "/commands"),
            command,
        )
    }

    /// The request that deletes a command of an application.
    pub fn delete_application_command(
        &self,
        application_id: ApplicationId,
        command_id: ApplicationCommandId,
    ) -> (r: Request)
        ensures
            r.is(
                self.bot_token@,
                Method::Delete,
                "/applications/"@ + decimal_chars(application_id.0.0 as nat) + "/commands/"@
                    + decimal_chars(command_id.0.0 as nat),
                "/applications/"@ + decimal_chars(application_id.0.0 as nat) + "/commands/"@
                    + decimal_chars(command_id.0.0 as nat),
                Seq::empty(),
            ),
    {
        let mut path = with_id("/applications/", application_id.0.0, "/commands/");
        path.append(u64_to_decimal(command_id.0.0).as_str());
        self.request(Method::Delete, None, path, String::new())
    }

    /// The request that answers an interaction.
    pub fn create_interaction_response(
        &self,
        interaction_id: InteractionId,
        interaction_token: &str,
        response: &serde_json::Value,
    ) -> (r: Result<Request, RestError>)
        ensures
            Request::planned(
                r,
                self.bot_token@,
                Method::Post,
                "/interactions/"@ + decimal_chars(interaction_id.0.0 as nat) + "/"@
                    + interaction_token@ + "/callback"@,
                "/interactions/"@ + decimal_chars(interaction_id.0.0 as nat) + "/"@
                    + interaction_token@ + "/callback"@,
                json_view(*response),
            ),
    {
        let mut path = with_id("/interactions/", interaction_id.0.0, "/");
        path.append(interaction_token);
        path.append("/callback");
        self.json_request(Method::Post, None, path, response)
    }

    /// The request that edits the first answer to an interaction.
    pub fn edit_original_interaction_response(
        &self,
        application_id: ApplicationId,
        interaction_token: &str,
        response: &serde_json::Value,
    ) -> (r: Result<Request, RestError>)
        ensures
            Request::planned(
                r,
                self.bot_token@,
                Method::Patch,
                "/webhooks/"@ + decimal_chars(application_id.0.0 as nat) + "/"@ + interaction_token@
                    + "/messages/@original"@,
                "/webhooks/"@ + decimal_chars(application_id.0.0 as nat) + "/"@ + interaction_token@
                    + "/messages/@original"@,
                json_view(*response),
            ),
    {
        let mut path = with_id("/webhooks/", application_id.0.0, "/");
        path.append(interaction_token);
        path.append("/messages/@original");
        self.json_request(Method::Patch, None, path, response)
    }

    /// Starts carrying out a request.
    pub fn attempt(request: Request) -> (r: Attempt)
        ensures
            r.request == request,
            r.retries == 0,
    {
        Attempt { request, retries: 0 }
    }

    /// What to do before the request of `attempt` is sent at the time `now`:
    /// send, wait, or ask again. See [`RateLimiter::enforce_limit`].
    pub fn before_send(&mut self, attempt: &Attempt, now: i64) -> (r: Enforcement)
        ensures
            (final(self).rate_limiter@, r) == enforced(
                old(self).rate_limiter@,
                attempt.request.limit_url@,
                now,
            ),
            final(self).bot_token == old(self).bot_token,
            final(self).max_retries == old(self).max_retries,
    {
        self.rate_limiter.enforce_limit(attempt.request.limit_url.as_str(), now)
    }

    /// Takes in a response: its rate-limit headers update the buckets, and
    /// its status decides what comes next. After the status 429 the request
    /// is sent again, unless it was repeated as often as the client allows:
    /// then the operation fails. Any other status that is no success fails
    /// the operation with that status.
    pub fn on_response(
        &mut self,
        attempt: &mut Attempt,
        status: u16,
        headers: &RateLimitHeaders,
    ) -> (r: Verdict)
        ensures
            final(self).rate_limiter@ == updated(
                old(self).rate_limiter@,
                old(attempt).request.limit_url@,
                *headers,
            ),
            final(self).bot_token == old(self).bot_token,
            final(self).max_retries == old(self).max_retries,
            final(attempt).request == old(attempt).request,
            if status == TOO_MANY_REQUESTS {
                if old(attempt).retries >= old(self).max_retries {
                    &&& final(attempt).retries == old(attempt).retries
                    &&& r matches Verdict::Fail(RestError::TooManyRetries(max, path))
                    &&& max == old(self).max_retries
                    &&& path@ == old(attempt).request.path@
                } else {
                    r is Retry && final(attempt).retries == old(attempt).retries + 1
                }
            } else {
                &&& final(attempt).retries == old(attempt).retries
                &&& if 200 <= status < 300 {
                    r is Success
                } else {
                    r matches Verdict::Fail(RestError::UnsuccessfulHttp(s)) && s == status
                }
            },
    {
        self.rate_limiter.update_limits(attempt.request.limit_url.clone(), headers);
        if status == TOO_MANY_REQUESTS {
            if attempt.retries >= self.max_retries {
                return Verdict::Fail(
                    RestError::TooManyRetries(self.max_retries, attempt.request.path.clone()),
                );
            }
            attempt.retries = attempt.retries + 1;
            return Verdict::Retry;
        }
        if !(200 <= status && status < 300) {
            return Verdict::Fail(RestError::UnsuccessfulHttp(status));
        }
        Verdict::Success
    }
}

} // verus!
