//! Writing the members of a JSON object. Optional members are left out where
//! there is nothing to write.

use vstd::prelude::*;
use crate::json::{
    json_from_array, json_from_bool, json_from_str, json_from_u64, json_map_insert, json_map_view,
    json_view, json_views, Json, JsonMap,
};
use crate::text::{decimal_chars, u64_to_decimal};

verus! {

/// An object's members with one more member, where there is one to add.
pub open spec fn with_member(m: Map<Seq<char>, Json>, key: Seq<char>, value: Option<Json>) -> Map<
    Seq<char>,
    Json,
> {
    match value {
        Some(v) => m.insert(key, v),
        None => m,
    }
}

/// The JSON form of an identifier: its decimal notation, as a string.
pub open spec fn id_json(id: u64) -> Json {
    Json::Str(decimal_chars(id as nat))
}

pub open spec fn opt_u64_json(v: Option<u64>) -> Option<Json> {
    match v {
        Some(n) => Some(Json::PosInt(n)),
        None => None,
    }
}

pub open spec fn opt_bool_json(v: Option<bool>) -> Option<Json> {
    match v {
        Some(b) => Some(Json::Bool(b)),
        None => None,
    }
}

pub open spec fn opt_str_json(v: Option<String>) -> Option<Json> {
    match v {
        Some(s) => Some(Json::Str(s@)),
        None => None,
    }
}

/// The JSON form of an identifier.
pub fn id_to_json(id: u64) -> (r: serde_json::Value)
    ensures
        json_view(r) == id_json(id),
{
    let text = u64_to_decimal(id);
    json_from_str(text.as_str())
}

pub fn put_u64(m: &mut JsonMap, key: &str, value: u64)
    ensures
        json_map_view(*final(m)) == json_map_view(*old(m)).insert(key@, Json::PosInt(value)),
{
    json_map_insert(m, key, json_from_u64(value));
}

pub fn put_bool(m: &mut JsonMap, key: &str, value: bool)
    ensures
        json_map_view(*final(m)) == json_map_view(*old(m)).insert(key@, Json::Bool(value)),
{
    json_map_insert(m, key, json_from_bool(value));
}

pub fn put_str(m: &mut JsonMap, key: &str, value: &str)
    ensures
        json_map_view(*final(m)) == json_map_view(*old(m)).insert(key@, Json::Str(value@)),
{
    json_map_insert(m, key, json_from_str(value));
}

pub fn put_id(m: &mut JsonMap, key: &str, id: u64)
    ensures
        json_map_view(*final(m)) == json_map_view(*old(m)).insert(key@, id_json(id)),
{
    json_map_insert(m, key, id_to_json(id));
}

pub fn put_opt_u64(m: &mut JsonMap, key: &str, value: Option<u64>)
    ensures
        json_map_view(*final(m)) == with_member(json_map_view(*old(m)), key@, opt_u64_json(value)),
{
    match value {
        Some(n) => put_u64(m, key, n),
        None => {},
    }
}

pub fn put_opt_bool(m: &mut JsonMap, key: &str, value: Option<bool>)
    ensures
        json_map_view(*final(m)) == with_member(json_map_view(*old(m)), key@, opt_bool_json(value)),
{
    match value {
        Some(b) => put_bool(m, key, b),
        None => {},
    }
}

pub fn put_opt_str(m: &mut JsonMap, key: &str, value: &Option<String>)
    ensures
        json_map_view(*final(m)) == with_member(json_map_view(*old(m)), key@, opt_str_json(*value)),
{
    match value {
        Some(s) => put_str(m, key, s.as_str()),
        None => {},
    }
}

/// The JSON array of two numbers.
pub open spec fn pair_json(a: u64, b: u64) -> Json {
    Json::Array(seq![Json::PosInt(a), Json::PosInt(b)])
}

/// The JSON array of two numbers.
pub fn pair_to_json(a: u64, b: u64) -> (r: serde_json::Value)
    ensures
        json_view(r) == pair_json(a, b),
{
    let mut items: Vec<serde_json::Value> = Vec::new();
    items.push(json_from_u64(a));
    items.push(json_from_u64(b));
    assert(json_views(items@) =~= seq![Json::PosInt(a), Json::PosInt(b)]);
    json_from_array(items)
}

} // verus!
