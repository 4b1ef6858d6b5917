//! JSON values as the gateway and voice protocols carry them.
//!
//! The values are `serde_json::Value`. Verified code sees one through
//! [`json_view`], a mathematical tree, and builds and reads it through the small
//! functions of this module. Each of those functions makes one call into
//! `serde_json`; what it states of the call is taken on trust.

use vstd::prelude::*;

verus! {

/// The mathematical form of a JSON value.
pub enum Json {
    Null,
    Bool(bool),
    /// A non-negative integer.
    PosInt(u64),
    /// A negative integer.
    NegInt(i64),
    /// A number with a fraction or an exponent, kept by its bit pattern.
    Float(u64),
    Str(Seq<char>),
    Array(Seq<Json>),
    Object(Map<Seq<char>, Json>),
}

impl Json {
    /// The member `key` of an object: `None` for a key that is not there, and
    /// for a value that is no object.
    pub open spec fn member(self, key: Seq<char>) -> Option<Json> {
        match self {
            Json::Object(m) => if m.dom().contains(key) {
                Some(m[key])
            } else {
                None
            },
            _ => None,
        }
    }

    /// The number, where the value is a non-negative integer.
    pub open spec fn as_u64(self) -> Option<u64> {
        match self {
            Json::PosInt(n) => Some(n),
            _ => None,
        }
    }

    /// The number, where the value is an integer that fits 64 bits with a
    /// sign.
    pub open spec fn as_i64(self) -> Option<i64> {
        match self {
            Json::PosInt(n) => if n <= i64::MAX {
                Some(n as i64)
            } else {
                None
            },
            Json::NegInt(n) => Some(n),
            _ => None,
        }
    }

    /// The characters, where the value is a string.
    pub open spec fn as_str(self) -> Option<Seq<char>> {
        match self {
            Json::Str(s) => Some(s),
            _ => None,
        }
    }

    /// The truth value, where the value is a boolean.
    pub open spec fn as_bool(self) -> Option<bool> {
        match self {
            Json::Bool(b) => Some(b),
            _ => None,
        }
    }

    /// The items, where the value is an array.
    pub open spec fn as_array(self) -> Option<Seq<Json>> {
        match self {
            Json::Array(items) => Some(items),
            _ => None,
        }
    }
}

/// `serde_json::Value`, carried through verified code as an opaque value.
#[verifier::external_type_specification]
#[verifier::external_body]
pub struct ExValue(serde_json::Value);

/// `serde_json::Error`, carried through verified code as an opaque value.
#[verifier::external_type_specification]
#[verifier::external_body]
pub struct ExJsonError(serde_json::Error);

/// `serde_json::Map`, the members of an object under construction.
#[verifier::external_type_specification]
#[verifier::external_body]
#[verifier::reject_recursive_types(K)]
#[verifier::reject_recursive_types(V)]
pub struct ExJsonMap<K, V>(serde_json::Map<K, V>);

/// The members of a JSON object under construction.
pub type JsonMap = serde_json::Map<String, serde_json::Value>;

/// The tree that a `serde_json::Value` holds.
pub uninterp spec fn json_view(v: serde_json::Value) -> Json;

/// The members that a `serde_json::Map` holds, by key.
pub uninterp spec fn json_map_view(m: JsonMap) -> Map<Seq<char>, Json>;

/// What `serde_json::from_str` makes of a text: the tree of the value that it
/// parses to, or `None` where it reports an error.
pub uninterp spec fn json_parse(text: Seq<char>) -> Option<Json>;

/// The text that `serde_json::to_string` writes for a value with a given tree.
pub uninterp spec fn json_text(j: Json) -> Seq<char>;

/// The members of an object that has none.
pub open spec fn no_members() -> Map<Seq<char>, Json> {
    Map::empty()
}

/// The trees of a vector of values, item by item.
pub open spec fn json_views(items: Seq<serde_json::Value>) -> Seq<Json> {
    Seq::new(items.len(), |i: int| json_view(items[i]))
}

/// `serde_json::from_str` at type `Value`: parses a whole text as one JSON
/// value. Trusted: the outcome is the function [`json_parse`] of the text.
#[verifier::external_body]
pub(crate) fn parse_json(text: &str) -> (r: Result<serde_json::Value, serde_json::Error>)
    ensures
        match r {
            Ok(v) => json_parse(text@) == Some(json_view(v)),
            Err(_) => json_parse(text@) is None,
        },
{
    serde_json::from_str::<serde_json::Value>(text)
}

/// `serde::de::Error::custom` at `serde_json::Error`: the error with which
/// the JSON library refuses data that has not the shape that a type asks
/// for, with the given message. Nothing is claimed of it.
#[verifier::external_body]
pub(crate) fn json_shape_error(message: &str) -> (r: serde_json::Error) {
    serde::de::Error::custom(message)
}

/// `serde_json::to_string` on a `Value`: writes the value as compact JSON
/// text. Trusted: the call succeeds, and the text is the function
/// [`json_text`] of the value's tree. It writes into a vector of bytes, which
/// takes every write; the keys of an object are strings, and a number that
/// is not finite is written as `null`, so nothing in a value is refused.
#[verifier::external_body]
pub(crate) fn json_to_text(v: &serde_json::Value) -> (r: Result<String, serde_json::Error>)
    ensures
        r is Ok,
        r matches Ok(s) ==> s@ == json_text(json_view(*v)),
{
    serde_json::to_string(v)
}

/// `Value::get` with a string index. Trusted: it returns the member of an
/// object under `key`, and `None` for a missing key or a value of another kind.
#[verifier::external_body]
pub(crate) fn json_get<'a>(v: &'a serde_json::Value, key: &str) -> (r: Option<
    &'a serde_json::Value,
>)
    ensures
        match r {
            Some(m) => json_view(*v).member(key@) == Some(json_view(*m)),
            None => json_view(*v).member(key@) is None,
        },
{
    v.get(key)
}

/// `Value::as_u64`. Trusted: it returns the number exactly where the value is
/// a non-negative integer.
#[verifier::external_body]
pub(crate) fn json_as_u64(v: &serde_json::Value) -> (r: Option<u64>)
    ensures
        r == json_view(*v).as_u64(),
{
    v.as_u64()
}

/// `Value::as_i64`. Trusted: it returns the number exactly where the value is
/// an integer in the range of `i64`.
#[verifier::external_body]
pub(crate) fn json_as_i64(v: &serde_json::Value) -> (r: Option<i64>)
    ensures
        r == json_view(*v).as_i64(),
{
    v.as_i64()
}

/// `Value::as_str`. Trusted: it returns the characters exactly where the
/// value is a string.
#[verifier::external_body]
pub(crate) fn json_as_str<'a>(v: &'a serde_json::Value) -> (r: Option<&'a str>)
    ensures
        match r {
            Some(s) => json_view(*v).as_str() == Some(s@),
            None => json_view(*v).as_str() is None,
        },
{
    v.as_str()
}

/// `Value::as_bool`. Trusted: it returns the truth value exactly where the
/// value is a boolean.
#[verifier::external_body]
pub(crate) fn json_as_bool(v: &serde_json::Value) -> (r: Option<bool>)
    ensures
        r == json_view(*v).as_bool(),
{
    v.as_bool()
}

/// `Value::is_null`. Trusted: it tells whether the value is `null`.
#[verifier::external_body]
pub(crate) fn json_is_null(v: &serde_json::Value) -> (r: bool)
    ensures
        r == (json_view(*v) is Null),
{
    v.is_null()
}

/// `Value::is_object`. Trusted: it tells whether the value is an object.
#[verifier::external_body]
pub(crate) fn json_is_object(v: &serde_json::Value) -> (r: bool)
    ensures
        r == (json_view(*v) is Object),
{
    v.is_object()
}

/// `Value::as_array`. Trusted: it returns the items exactly where the value
/// is an array.
#[verifier::external_body]
pub(crate) fn json_as_array<'a>(v: &'a serde_json::Value) -> (r: Option<
    &'a Vec<serde_json::Value>,
>)
    ensures
        match r {
            Some(items) => json_view(*v).as_array() == Some(json_views(items@)),
            None => json_view(*v).as_array() is None,
        },
{
    v.as_array()
}

/// `Value::clone`. Trusted: the copy holds the same tree.
#[verifier::external_body]
pub(crate) fn json_clone(v: &serde_json::Value) -> (r: serde_json::Value)
    ensures
        json_view(r) == json_view(*v),
{
    v.clone()
}

/// The variant `Value::Null`.
#[verifier::external_body]
pub(crate) fn json_null() -> (r: serde_json::Value)
    ensures
        json_view(r) == Json::Null,
{
    serde_json::Value::Null
}

/// `Value::from` on a `bool`. Trusted: it makes the boolean value.
#[verifier::external_body]
pub(crate) fn json_from_bool(b: bool) -> (r: serde_json::Value)
    ensures
        json_view(r) == Json::Bool(b),
{
    serde_json::Value::from(b)
}

/// `Value::from` on a `u64`. Trusted: it makes the non-negative integer.
#[verifier::external_body]
pub(crate) fn json_from_u64(n: u64) -> (r: serde_json::Value)
    ensures
        json_view(r) == Json::PosInt(n),
{
    serde_json::Value::from(n)
}

/// `Value::from` on a string slice. Trusted: it makes the string value.
#[verifier::external_body]
pub(crate) fn json_from_str(s: &str) -> (r: serde_json::Value)
    ensures
        json_view(r) == Json::Str(s@),
{
    serde_json::Value::from(s)
}

/// The variant `Value::Array` around a vector of values.
#[verifier::external_body]
pub(crate) fn json_from_array(items: Vec<serde_json::Value>) -> (r: serde_json::Value)
    ensures
        json_view(r) == Json::Array(json_views(items@)),
{
    serde_json::Value::Array(items)
}

/// `Map::new`. Trusted: the new map holds no member.
#[verifier::external_body]
pub(crate) fn json_map_new() -> (r: JsonMap)
    ensures
        json_map_view(r) == no_members(),
{
    serde_json::Map::new()
}

/// `Map::insert`. Trusted: afterwards the map holds `value` under `key`, in
/// place of what it held there, and every other member as before.
#[verifier::external_body]
pub(crate) fn json_map_insert(m: &mut JsonMap, key: &str, value: serde_json::Value)
    ensures
        json_map_view(*final(m)) == json_map_view(*old(m)).insert(key@, json_view(value)),
{
    m.insert(key.to_owned(), value);
}

/// `Value::from` on a `Map`. Trusted: it makes the object with the members of
/// the map.
#[verifier::external_body]
pub(crate) fn json_from_map(m: JsonMap) -> (r: serde_json::Value)
    ensures
        json_view(r) == Json::Object(json_map_view(m)),
{
    serde_json::Value::from(m)
}

} // verus!
