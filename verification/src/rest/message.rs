//! What a bot sends when it creates or edits a message.

use vstd::prelude::*;
use crate::embed::{Embed, EmbedTooBigError};
use crate::encode::{opt_bool_json, opt_str_json, put_opt_bool, put_opt_str, put_str, with_member};
use crate::json::{
    json_from_map, json_from_str, json_map_insert, json_map_new, json_null, json_view, no_members,
    Json,
};

verus! {

/// A message to create.
#[derive(Debug, Clone)]
pub struct NewMessage {
    /// The message contents, up to 2000 characters.
    pub content: String,
    /// A nonce that can be used for optimistic message sending.
    pub nonce: Option<String>,
    /// Whether this is a text-to-speech message.
    pub tts: Option<bool>,
    /// Embedded rich content.
    pub embed: Option<Embed>,
}

/// What [`NewMessage::enforce_embed_limits`] and
/// [`EditMessage::enforce_embed_limits`] answer for a message with the
/// given embed.
pub open spec fn embed_check(embed: Option<Embed>) -> Result<(), EmbedTooBigError> {
    match embed {
        Some(embed) => embed.check(),
        None => Ok(()),
    }
}

/// The embed of a message, or the empty embed if it has none.
pub open spec fn embed_or_empty(embed: Option<Embed>) -> Embed {
    match embed {
        Some(embed) => embed,
        None => Embed::empty(),
    }
}

impl NewMessage {
    /// A message that holds a text and nothing else.
    pub fn text(s: String) -> (r: NewMessage)
        ensures
            r == (NewMessage { content: s, nonce: None, tts: None, embed: None }),
    {
        NewMessage { content: s, nonce: None, tts: None, embed: None }
    }

    /// The message with its embed changed by `f`; a message without an embed
    /// gets an empty one first.
    pub fn with_embed<F: FnOnce(Embed) -> Embed>(self, f: F) -> (r: NewMessage)
        requires
            f.requires((embed_or_empty(self.embed),)),
        ensures
            r.embed is Some,
            f.ensures((embed_or_empty(self.embed),), r.embed.unwrap()),
            r.content == self.content,
            r.nonce == self.nonce,
            r.tts == self.tts,
    {
        let NewMessage { content, nonce, tts, embed } = self;
        let embed = match embed {
            Some(embed) => embed,
            None => Embed::default(),
        };
        NewMessage { content, nonce, tts, embed: Some(f(embed)) }
    }

    /// Checks the embed of the message, if it has one, against the limits of
    /// the service.
    pub fn enforce_embed_limits(&self) -> (r: Result<(), EmbedTooBigError>)
        ensures
            r == embed_check(self.embed),
            r is Ok <==> (self.embed matches Some(embed) ==> embed.within_limits()),
    {
        match &self.embed {
            Some(embed) => embed.enforce_embed_limits(),
            None => Ok(()),
        }
    }

    /// The JSON object that the message is sent as.
    pub open spec fn json(self) -> Json {
        let m = no_members().insert("content"@, Json::Str(self.content@));
        let m = with_member(m, "nonce"@, opt_str_json(self.nonce));
        let m = with_member(m, "tts"@, opt_bool_json(self.tts));
        let m = with_member(
            m,
            "embed"@,
            match self.embed {
                Some(embed) => Some(embed.json()),
                None => None,
            },
        );
        Json::Object(m)
    }

    pub fn to_json(&self) -> (r: serde_json::Value)
        ensures
            json_view(r) == self.json(),
    {
        let mut m = json_map_new();
        put_str(&mut m, "content", self.content.as_str());
        put_opt_str(&mut m, "nonce", &self.nonce);
        put_opt_bool(&mut m, "tts", self.tts);
        match &self.embed {
            Some(embed) => {
                json_map_insert(&mut m, "embed", embed.to_json());
            },
            None => {},
        }
        json_from_map(m)
    }
}

/// The changes to make to a message.
#[derive(Debug, Clone)]
pub struct EditMessage {
    /// The new message contents, up to 2000 characters.
    pub content: Option<String>,
    /// Embedded rich content.
    pub embed: Option<Embed>,
}

impl EditMessage {
    /// An edit that sets the text and nothing else.
    pub fn text(s: String) -> (r: EditMessage)
        ensures
            r == (EditMessage { content: Some(s), embed: None }),
    {
        EditMessage { content: Some(s), embed: None }
    }

    /// The edit with its embed changed by `f`; an edit without an embed gets
    /// an empty one first.
    pub fn with_embed<F: FnOnce(Embed) -> Embed>(self, f: F) -> (r: EditMessage)
        requires
            f.requires((embed_or_empty(self.embed),)),
        ensures
            r.embed is Some,
            f.ensures((embed_or_empty(self.embed),), r.embed.unwrap()),
            r.content == self.content,
    {
        let EditMessage { content, embed } = self;
        let embed = match embed {
            Some(embed) => embed,
            None => Embed::default(),
        };
        EditMessage { content, embed: Some(f(embed)) }
    }

    /// Checks the embed of the edit, if it has one, against the limits of
    /// the service.
    pub fn enforce_embed_limits(&self) -> (r: Result<(), EmbedTooBigError>)
        ensures
            r == embed_check(self.embed),
            r is Ok <==> (self.embed matches Some(embed) ==> embed.within_limits()),
    {
        match &self.embed {
            Some(embed) => embed.enforce_embed_limits(),
            None => Ok(()),
        }
    }

    /// The JSON object that the edit is sent as: the content always, `null`
    /// where it is not set; the embed where there is one.
    pub open spec fn json(self) -> Json {
        let m = no_members().insert(
            "content"@,
            match self.content {
                Some(s) => Json::Str(s@),
                None => Json::Null,
            },
        );
        let m = with_member(
            m,
            "embed"@,
            match self.embed {
                Some(embed) => Some(embed.json()),
                None => None,
            },
        );
        Json::Object(m)
    }

    pub fn to_json(&self) -> (r: serde_json::Value)
        ensures
            json_view(r) == self.json(),
    {
        let mut m = json_map_new();
        json_map_insert(
            &mut m,
            "content",
            match &self.content {
                Some(s) => json_from_str(s.as_str()),
                None => json_null(),
            },
        );
        match &self.embed {
            Some(embed) => {
                json_map_insert(&mut m, "embed", embed.to_json());
            },
            None => {},
        }
        json_from_map(m)
    }
}

} // verus!
