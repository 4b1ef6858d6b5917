//! Identifiers. Every identifier is a 64-bit number that travels as a decimal
//! string; each kind of identifier is a type of its own, so that one kind
//! cannot stand where another is expected.

use vstd::prelude::*;
use crate::decode::{id_of, json_id, FromJson};
use crate::json::Json;
use crate::text::{
    chars_of, decimal_chars, lemma_decimal_chars_value, parse_u64, parse_u64_spec, u64_to_decimal,
};

verus! {

/// A 64-bit identifier, written on the wire as a decimal string.
#[derive(Clone, Copy, Debug, Hash, PartialEq, Eq, Structural)]
pub struct Snowflake(pub u64);

#[derive(Clone, Copy, Debug, Hash, PartialEq, Eq, Structural)]
pub struct ChannelId(pub Snowflake);

#[derive(Clone, Copy, Debug, Hash, PartialEq, Eq, Structural)]
pub struct RoleId(pub Snowflake);

#[derive(Clone, Copy, Debug, Hash, PartialEq, Eq, Structural)]
pub struct GuildId(pub Snowflake);

#[derive(Clone, Copy, Debug, Hash, PartialEq, Eq, Structural)]
pub struct MessageId(pub Snowflake);

#[derive(Clone, Copy, Debug, Hash, PartialEq, Eq, Structural)]
pub struct UserId(pub Snowflake);

#[derive(Clone, Copy, Debug, Hash, PartialEq, Eq, Structural)]
pub struct ApplicationId(pub Snowflake);

#[derive(Clone, Copy, Debug, Hash, PartialEq, Eq, Structural)]
pub struct StickerId(pub Snowflake);

#[derive(Clone, Copy, Debug, Hash, PartialEq, Eq, Structural)]
pub struct EmojiId(pub Snowflake);

#[derive(Clone, Copy, Debug, Hash, PartialEq, Eq, Structural)]
pub struct TeamId(pub Snowflake);

#[derive(Clone, Copy, Debug, Hash, PartialEq, Eq, Structural)]
pub struct ApplicationCommandId(pub Snowflake);

#[derive(Clone, Copy, Debug, Hash, PartialEq, Eq, Structural)]
pub struct StageInstanceId(pub Snowflake);

#[derive(Clone, Copy, Debug, Hash, PartialEq, Eq, Structural)]
pub struct WebhookId(pub Snowflake);

#[derive(Clone, Copy, Debug, Hash, PartialEq, Eq, Structural)]
pub struct InteractionId(pub Snowflake);

impl FromJson for Snowflake {
    open spec fn readable(j: Json) -> bool {
        json_id(j) is Some
    }

    open spec fn read_from(&self, j: Json) -> bool {
        json_id(j) == Some(self.0)
    }

    fn from_json(v: &serde_json::Value) -> (r: Option<Snowflake>) {
        match id_of(v) {
            Some(n) => Some(Snowflake(n)),
            None => None,
        }
    }
}

impl FromJson for ChannelId {
    open spec fn readable(j: Json) -> bool {
        json_id(j) is Some
    }

    open spec fn read_from(&self, j: Json) -> bool {
        json_id(j) == Some(self.0.0)
    }

    fn from_json(v: &serde_json::Value) -> (r: Option<ChannelId>) {
        match id_of(v) {
            Some(n) => Some(ChannelId(Snowflake(n))),
            None => None,
        }
    }
}

impl FromJson for RoleId {
    open spec fn readable(j: Json) -> bool {
        json_id(j) is Some
    }

    open spec fn read_from(&self, j: Json) -> bool {
        json_id(j) == Some(self.0.0)
    }

    fn from_json(v: &serde_json::Value) -> (r: Option<RoleId>) {
        match id_of(v) {
            Some(n) => Some(RoleId(Snowflake(n))),
            None => None,
        }
    }
}

impl FromJson for GuildId {
    open spec fn readable(j: Json) -> bool {
        json_id(j) is Some
    }

    open spec fn read_from(&self, j: Json) -> bool {
        json_id(j) == Some(self.0.0)
    }

    fn from_json(v: &serde_json::Value) -> (r: Option<GuildId>) {
        match id_of(v) {
            Some(n) => Some(GuildId(Snowflake(n))),
            None => None,
        }
    }
}

impl FromJson for MessageId {
    open spec fn readable(j: Json) -> bool {
        json_id(j) is Some
    }

    open spec fn read_from(&self, j: Json) -> bool {
        json_id(j) == Some(self.0.0)
    }

    fn from_json(v: &serde_json::Value) -> (r: Option<MessageId>) {
        match id_of(v) {
            Some(n) => Some(MessageId(Snowflake(n))),
            None => None,
        }
    }
}

impl FromJson for UserId {
    open spec fn readable(j: Json) -> bool {
        json_id(j) is Some
    }

    open spec fn read_from(&self, j: Json) -> bool {
        json_id(j) == Some(self.0.0)
    }

    fn from_json(v: &serde_json::Value) -> (r: Option<UserId>) {
        match id_of(v) {
            Some(n) => Some(UserId(Snowflake(n))),
            None => None,
        }
    }
}

impl FromJson for ApplicationId {
    open spec fn readable(j: Json) -> bool {
        json_id(j) is Some
    }

    open spec fn read_from(&self, j: Json) -> bool {
        json_id(j) == Some(self.0.0)
    }

    fn from_json(v: &serde_json::Value) -> (r: Option<ApplicationId>) {
        match id_of(v) {
            Some(n) => Some(ApplicationId(Snowflake(n))),
            None => None,
        }
    }
}

impl FromJson for StickerId {
    open spec fn readable(j: Json) -> bool {
        json_id(j) is Some
    }

    open spec fn read_from(&self, j: Json) -> bool {
        json_id(j) == Some(self.0.0)
    }

    fn from_json(v: &serde_json::Value) -> (r: Option<StickerId>) {
        match id_of(v) {
            Some(n) => Some(StickerId(Snowflake(n))),
            None => None,
        }
    }
}

impl FromJson for EmojiId {
    open spec fn readable(j: Json) -> bool {
        json_id(j) is Some
    }

    open spec fn read_from(&self, j: Json) -> bool {
        json_id(j) == Some(self.0.0)
    }

    fn from_json(v: &serde_json::Value) -> (r: Option<EmojiId>) {
        match id_of(v) {
            Some(n) => Some(EmojiId(Snowflake(n))),
            None => None,
        }
    }
}

impl FromJson for TeamId {
    open spec fn readable(j: Json) -> bool {
        json_id(j) is Some
    }

    open spec fn read_from(&self, j: Json) -> bool {
        json_id(j) == Some(self.0.0)
    }

    fn from_json(v: &serde_json::Value) -> (r: Option<TeamId>) {
        match id_of(v) {
            Some(n) => Some(TeamId(Snowflake(n))),
            None => None,
        }
    }
}

impl FromJson for ApplicationCommandId {
    open spec fn readable(j: Json) -> bool {
        json_id(j) is Some
    }

    open spec fn read_from(&self, j: Json) -> bool {
        json_id(j) == Some(self.0.0)
    }

    fn from_json(v: &serde_json::Value) -> (r: Option<ApplicationCommandId>) {
        match id_of(v) {
            Some(n) => Some(ApplicationCommandId(Snowflake(n))),
            None => None,
        }
    }
}

impl FromJson for StageInstanceId {
    open spec fn readable(j: Json) -> bool {
        json_id(j) is Some
    }

    open spec fn read_from(&self, j: Json) -> bool {
        json_id(j) == Some(self.0.0)
    }

    fn from_json(v: &serde_json::Value) -> (r: Option<StageInstanceId>) {
        match id_of(v) {
            Some(n) => Some(StageInstanceId(Snowflake(n))),
            None => None,
        }
    }
}

impl FromJson for WebhookId {
    open spec fn readable(j: Json) -> bool {
        json_id(j) is Some
    }

    open spec fn read_from(&self, j: Json) -> bool {
        json_id(j) == Some(self.0.0)
    }

    fn from_json(v: &serde_json::Value) -> (r: Option<WebhookId>) {
        match id_of(v) {
            Some(n) => Some(WebhookId(Snowflake(n))),
            None => None,
        }
    }
}

impl FromJson for InteractionId {
    open spec fn readable(j: Json) -> bool {
        json_id(j) is Some
    }

    open spec fn read_from(&self, j: Json) -> bool {
        json_id(j) == Some(self.0.0)
    }

    fn from_json(v: &serde_json::Value) -> (r: Option<InteractionId>) {
        match id_of(v) {
            Some(n) => Some(InteractionId(Snowflake(n))),
            None => None,
        }
    }
}

/// The identifier that a wire string writes, if it writes one.
pub open spec fn snowflake_of(text: Seq<char>) -> Option<Snowflake> {
    match parse_u64_spec(text) {
        Some(n) => Some(Snowflake(n)),
        None => None,
    }
}

/// Reads a 64-bit number from its decimal string: an optional `+`, then
/// digits only, with a value that fits.
pub fn u64_from_string(s: &str) -> (r: Option<u64>)
    ensures
        r == parse_u64_spec(s@),
{
    let chars = chars_of(s);
    parse_u64(&chars)
}

impl Snowflake {
    /// The wire string of this identifier: its decimal notation.
    pub fn encode(&self) -> (r: String)
        ensures
            r@ == decimal_chars(self.0 as nat),
    {
        u64_to_decimal(self.0)
    }

    /// The identifier that a wire string writes.
    pub fn decode(text: &str) -> (r: Option<Snowflake>)
        ensures
            r == snowflake_of(text@),
    {
        match u64_from_string(text) {
            Some(n) => Some(Snowflake(n)),
            None => None,
        }
    }
}

/// Decoding the wire string of an identifier gives the identifier back.
pub proof fn lemma_snowflake_round_trip(n: u64)
    ensures
        parse_u64_spec(decimal_chars(n as nat)) == Some(n),
        snowflake_of(decimal_chars(n as nat)) == Some(Snowflake(n)),
{
    lemma_decimal_chars_value(n as nat);
}

} // verus!
