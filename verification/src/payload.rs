//! The payload envelope `{op, d, s, t}` that the gateway and the voice
//! protocol share.

use vstd::prelude::*;
use crate::decode::{get_opt_string, get_opt_u64, get_u64, opt_field_str, opt_field_u64, field_u64};
use crate::encode::with_member;
use crate::gateway::opcode::DISPATCH;
use crate::json::{
    json_clone, json_from_map, json_from_str, json_from_u64, json_get, json_map_insert,
    json_map_new, json_null, json_parse, json_shape_error, json_text, json_to_text, json_view,
    no_members, parse_json, Json,
};

verus! {

/// One message of the gateway or of the voice protocol.
pub struct Payload {
    /// Opcode of the payload.
    pub op: u64,
    /// Event data.
    pub d: serde_json::Value,
    /// Sequence number; dispatches carry one.
    pub s: Option<u64>,
    /// Event name; dispatches carry one.
    pub t: Option<String>,
}

/// The mathematical form of a [`Payload`].
pub struct PayloadView {
    pub op: u64,
    pub d: Json,
    pub s: Option<u64>,
    pub t: Option<Seq<char>>,
}

impl View for Payload {
    type V = PayloadView;

    open spec fn view(&self) -> PayloadView {
        PayloadView {
            op: self.op,
            d: json_view(self.d),
            s: self.s,
            t: match self.t {
                Some(name) => Some(name@),
                None => None,
            },
        }
    }
}

/// Why a payload could not be turned into an event.
#[derive(Debug)]
pub enum FromPayloadError {
    /// The text is not JSON, the JSON is no envelope, or the data does not
    /// have the shape that its opcode or event name asks for. The error of
    /// the JSON library says which.
    Json(serde_json::Error),
    /// A dispatch came without an event name.
    MissingEventName,
    /// An opcode of the gateway that only the client sends was received.
    UnexpectedOpcode(u64),
    /// The opcode is not one under which an event comes.
    UnknownOpcode(u64),
}

/// What is wrong with a payload: a [`FromPayloadError`] without the details
/// that the JSON library gives.
pub enum Fault {
    /// The text, the envelope or the data is not what it has to be.
    Json,
    /// A dispatch came without an event name.
    MissingEventName,
    /// An opcode of the gateway that only the client sends was received.
    UnexpectedOpcode(u64),
    /// The opcode is not one under which an event comes.
    UnknownOpcode(u64),
}

impl FromPayloadError {
    /// What this error says is wrong.
    pub open spec fn fault(self) -> Fault {
        match self {
            FromPayloadError::Json(_) => Fault::Json,
            FromPayloadError::MissingEventName => Fault::MissingEventName,
            FromPayloadError::UnexpectedOpcode(op) => Fault::UnexpectedOpcode(op),
            FromPayloadError::UnknownOpcode(op) => Fault::UnknownOpcode(op),
        }
    }

    /// The error for data that has not the shape that is asked of it;
    /// `what` says what is wrong, for whoever reads the error.
    pub(crate) fn bad_shape(what: &str) -> (r: FromPayloadError)
        ensures
            r is Json,
    {
        FromPayloadError::Json(json_shape_error(what))
    }
}

/// Whether `r` is the refusal of a payload for what `fault` names.
pub open spec fn refused<T>(r: Result<T, FromPayloadError>, fault: Fault) -> bool {
    r matches Err(e) && e.fault() == fault
}

/// The envelope that a JSON value holds: an object with a numeric `op`, any
/// `d` (`null` where there is none), an `s` that is a number, `null` or
/// missing, and a `t` that is a string, `null` or missing.
pub open spec fn envelope_of(j: Json) -> Option<PayloadView> {
    match (field_u64(j, "op"@), opt_field_u64(j, "s"@), opt_field_str(j, "t"@)) {
        (Some(op), Some(s), Some(t)) => Some(
            PayloadView {
                op,
                d: match j.member("d"@) {
                    Some(d) => d,
                    None => Json::Null,
                },
                s,
                t,
            },
        ),
        _ => None,
    }
}

/// The JSON object that an envelope is written as: `op` and `d` always, `s`
/// and `t` where they are set.
pub open spec fn envelope_json(p: PayloadView) -> Json {
    Json::Object(
        with_member(
            with_member(
                no_members().insert("op"@, Json::PosInt(p.op)).insert("d"@, p.d),
                "s"@,
                match p.s {
                    Some(n) => Some(Json::PosInt(n)),
                    None => None,
                },
            ),
            "t"@,
            match p.t {
                Some(name) => Some(Json::Str(name)),
                None => None,
            },
        ),
    )
}

/// An envelope is read back from the JSON object that it is written as.
pub proof fn lemma_envelope_round_trip(p: PayloadView)
    ensures
        envelope_of(envelope_json(p)) == Some(p),
{
    reveal_strlit("op");
    reveal_strlit("d");
    reveal_strlit("s");
    reveal_strlit("t");
    assert("op"@.len() == 2);
    assert("d"@.len() == 1);
    assert("s"@.len() == 1);
    assert("t"@.len() == 1);
    assert("d"@[0] == 'd');
    assert("s"@[0] == 's');
    assert("t"@[0] == 't');
    let j = envelope_json(p);
    assert(j.member("op"@) == Some(Json::PosInt(p.op)));
    assert(j.member("d"@) == Some(p.d));
    assert(crate::decode::present(j, "s"@) == (p.s is Some));
    assert(crate::decode::present(j, "t"@) == (p.t is Some));
}

impl PayloadView {
    /// A dispatch carries its event name.
    pub open spec fn dispatch_named(self) -> bool {
        self.op == DISPATCH ==> self.t is Some
    }
}

impl Payload {
    /// Reads an envelope from a JSON value.
    pub fn from_json(v: &serde_json::Value) -> (r: Result<Payload, FromPayloadError>)
        ensures
            match envelope_of(json_view(*v)) {
                Some(p) => r is Ok && r->Ok_0@ == p,
                None => r matches Err(FromPayloadError::Json(_)),
            },
    {
        let op = match get_u64(v, "op") {
            Some(op) => op,
            None => {
                return Err(FromPayloadError::bad_shape("the envelope has no opcode"));
            },
        };
        let s = match get_opt_u64(v, "s") {
            Some(s) => s,
            None => {
                return Err(FromPayloadError::bad_shape("the sequence number is no number"));
            },
        };
        let t = match get_opt_string(v, "t") {
            Some(t) => t,
            None => {
                return Err(FromPayloadError::bad_shape("the event name is no text"));
            },
        };
        let d = match json_get(v, "d") {
            Some(d) => json_clone(d),
            None => json_null(),
        };
        Ok(Payload { op, d, s, t })
    }

    /// Reads an envelope from its JSON text.
    pub fn parse(text: &str) -> (r: Result<Payload, FromPayloadError>)
        ensures
            match json_parse(text@) {
                None => r matches Err(FromPayloadError::Json(_)),
                Some(j) => match envelope_of(j) {
                    Some(p) => r is Ok && r->Ok_0@ == p,
                    None => r matches Err(FromPayloadError::Json(_)),
                },
            },
    {
        match parse_json(text) {
            Ok(v) => Payload::from_json(&v),
            Err(e) => Err(FromPayloadError::Json(e)),
        }
    }

    /// Reads an envelope that came over the gateway: as [`Payload::parse`],
    /// and a dispatch without an event name is refused.
    pub fn parse_gateway(text: &str) -> (r: Result<Payload, FromPayloadError>)
        ensures
            match json_parse(text@) {
                None => r matches Err(FromPayloadError::Json(_)),
                Some(j) => match envelope_of(j) {
                    Some(p) => if p.dispatch_named() {
                        r is Ok && r->Ok_0@ == p
                    } else {
                        r == Err::<Payload, FromPayloadError>(FromPayloadError::MissingEventName)
                    },
                    None => r matches Err(FromPayloadError::Json(_)),
                },
            },
            r matches Ok(p) ==> p@.dispatch_named(),
    {
        match Payload::parse(text) {
            Ok(p) => {
                if p.op == DISPATCH && p.t.is_none() {
                    Err(FromPayloadError::MissingEventName)
                } else {
                    Ok(p)
                }
            },
            Err(e) => Err(e),
        }
    }

    /// The JSON object that this envelope is written as.
    pub fn to_json(&self) -> (r: serde_json::Value)
        ensures
            json_view(r) == envelope_json(self@),
    {
        let mut m = json_map_new();
        json_map_insert(&mut m, "op", json_from_u64(self.op));
        json_map_insert(&mut m, "d", json_clone(&self.d));
        match self.s {
            Some(n) => {
                json_map_insert(&mut m, "s", json_from_u64(n));
            },
            None => {},
        }
        match &self.t {
            Some(name) => {
                json_map_insert(&mut m, "t", json_from_str(name.as_str()));
            },
            None => {},
        }
        json_from_map(m)
    }

    /// The JSON text that this envelope is sent as. Every envelope can be
    /// written.
    pub fn to_text(&self) -> (r: Result<String, FromPayloadError>)
        ensures
            r matches Ok(text) && text@ == json_text(envelope_json(self@)),
    {
        let v = self.to_json();
        match json_to_text(&v) {
            Ok(text) => Ok(text),
            Err(e) => Err(FromPayloadError::Json(e)),
        }
    }
}

} // verus!
