//! Reading values from JSON.
//!
//! A type that is read from JSON implements [`FromJson`]: it says which JSON
//! values write one of its values, and which value each of them writes.
//! Structured types are read member by member. A required member must be
//! there and write a value of its type; an optional member may be missing or
//! `null`.
//!
//! The envelope's own members are plain numbers and strings; they are read
//! by the functions at the head of this module, each of which has a
//! mathematical counterpart on [`Json`] that says exactly what it returns.

use vstd::prelude::*;
use crate::json::{
    json_as_array, json_as_bool, json_as_i64, json_as_str, json_as_u64, json_clone, json_get,
    json_is_null, json_view, json_views, Json,
};
use crate::text::{chars_of, parse_u64, parse_u64_spec};

verus! {

/// A required member that is a non-negative integer.
pub open spec fn field_u64(j: Json, key: Seq<char>) -> Option<u64> {
    match j.member(key) {
        Some(m) => m.as_u64(),
        None => None,
    }
}

/// A required member that is a string.
pub open spec fn field_str(j: Json, key: Seq<char>) -> Option<Seq<char>> {
    match j.member(key) {
        Some(m) => m.as_str(),
        None => None,
    }
}

/// The identifier that a JSON value writes: a string in decimal notation.
pub open spec fn json_id(j: Json) -> Option<u64> {
    match j {
        Json::Str(s) => parse_u64_spec(s),
        _ => None,
    }
}

/// A required member that is an identifier.
pub open spec fn field_id(j: Json, key: Seq<char>) -> Option<u64> {
    match j.member(key) {
        Some(m) => json_id(m),
        None => None,
    }
}

/// Whether a member is there at all: neither missing nor `null`.
pub open spec fn present(j: Json, key: Seq<char>) -> bool {
    match j.member(key) {
        Some(m) => !(m is Null),
        None => false,
    }
}

/// An optional member that is a non-negative integer.
pub open spec fn opt_field_u64(j: Json, key: Seq<char>) -> Option<Option<u64>> {
    if present(j, key) {
        match field_u64(j, key) {
            Some(n) => Some(Some(n)),
            None => None,
        }
    } else {
        Some(None)
    }
}

/// An optional member that is a string.
pub open spec fn opt_field_str(j: Json, key: Seq<char>) -> Option<Option<Seq<char>>> {
    if present(j, key) {
        match field_str(j, key) {
            Some(s) => Some(Some(s)),
            None => None,
        }
    } else {
        Some(None)
    }
}

/// An optional member that is an identifier.
pub open spec fn opt_field_id(j: Json, key: Seq<char>) -> Option<Option<u64>> {
    if present(j, key) {
        match field_id(j, key) {
            Some(n) => Some(Some(n)),
            None => None,
        }
    } else {
        Some(None)
    }
}

/// The views of a vector of strings.
pub open spec fn string_views(v: Seq<String>) -> Seq<Seq<char>> {
    Seq::new(v.len(), |i: int| v[i]@)
}

pub fn get_u64(v: &serde_json::Value, key: &str) -> (r: Option<u64>)
    ensures
        r == field_u64(json_view(*v), key@),
{
    match json_get(v, key) {
        Some(m) => json_as_u64(m),
        None => None,
    }
}

pub fn get_string(v: &serde_json::Value, key: &str) -> (r: Option<String>)
    ensures
        match r {
            Some(s) => field_str(json_view(*v), key@) == Some(s@),
            None => field_str(json_view(*v), key@) is None,
        },
{
    match json_get(v, key) {
        Some(m) => match json_as_str(m) {
            Some(s) => Some(s.to_owned()),
            None => None,
        },
        None => None,
    }
}

/// The identifier that a value writes.
pub fn id_of(v: &serde_json::Value) -> (r: Option<u64>)
    ensures
        r == json_id(json_view(*v)),
{
    match json_as_str(v) {
        Some(s) => {
            let chars = chars_of(s);
            parse_u64(&chars)
        },
        None => None,
    }
}

/// Whether the member under `key` is neither missing nor `null`.
pub fn has(v: &serde_json::Value, key: &str) -> (r: bool)
    ensures
        r == present(json_view(*v), key@),
{
    match json_get(v, key) {
        Some(m) => !json_is_null(m),
        None => false,
    }
}

pub fn get_opt_u64(v: &serde_json::Value, key: &str) -> (r: Option<Option<u64>>)
    ensures
        r == opt_field_u64(json_view(*v), key@),
{
    if has(v, key) {
        match get_u64(v, key) {
            Some(n) => Some(Some(n)),
            None => None,
        }
    } else {
        Some(None)
    }
}

pub fn get_opt_string(v: &serde_json::Value, key: &str) -> (r: Option<Option<String>>)
    ensures
        match r {
            Some(Some(s)) => opt_field_str(json_view(*v), key@) == Some(Some(s@)),
            Some(None) => opt_field_str(json_view(*v), key@) == Some(None::<Seq<char>>),
            None => opt_field_str(json_view(*v), key@) is None,
        },
{
    if has(v, key) {
        match get_string(v, key) {
            Some(s) => Some(Some(s)),
            None => None,
        }
    } else {
        Some(None)
    }
}

/// A type whose values are read from JSON.
///
/// What a value looks like in JSON is said twice over: `readable` says which
/// JSON values write a value of the type, `read_from` says which value a JSON
/// value writes. Reading gives a value exactly for the readable JSON values.
pub trait FromJson: Sized {
    /// Whether `j` writes a value of the type.
    spec fn readable(j: Json) -> bool;

    /// Whether `self` is the value that `j` writes.
    spec fn read_from(&self, j: Json) -> bool;

    /// The value that `v` writes.
    fn from_json(v: &serde_json::Value) -> (r: Option<Self>)
        ensures
            r is Some <==> Self::readable(json_view(*v)),
            r matches Some(value) ==> value.read_from(json_view(*v)),
    ;
}

/// Whether the member under `key` is there and writes a `T`.
pub open spec fn field_readable<T: FromJson>(j: Json, key: Seq<char>) -> bool {
    j.member(key) is Some && T::readable(j.member(key).unwrap())
}

/// Whether `value` is what the member under `key` writes.
pub open spec fn field_read<T: FromJson>(value: T, j: Json, key: Seq<char>) -> bool {
    j.member(key) is Some && value.read_from(j.member(key).unwrap())
}

/// Whether the member under `key` is missing or `null`, or writes a `T`.
pub open spec fn opt_field_readable<T: FromJson>(j: Json, key: Seq<char>) -> bool {
    present(j, key) ==> T::readable(j.member(key).unwrap())
}

/// Whether `value` is what the optional member under `key` writes.
pub open spec fn opt_field_read<T: FromJson>(value: Option<T>, j: Json, key: Seq<char>) -> bool {
    match value {
        Some(value) => present(j, key) && value.read_from(j.member(key).unwrap()),
        None => !present(j, key),
    }
}

/// Whether every item writes a `T`.
pub open spec fn all_readable<T: FromJson>(items: Seq<Json>) -> bool {
    forall|i: int| 0 <= i < items.len() ==> T::readable(#[trigger] items[i])
}

/// Whether `values` are what the items write, in order.
pub open spec fn all_read<T: FromJson>(values: Seq<T>, items: Seq<Json>) -> bool {
    values.len() == items.len() && forall|i: int|
        0 <= i < values.len() ==> (#[trigger] values[i]).read_from(items[i])
}

/// Whether `j` is an array of which every item writes a `T`.
pub open spec fn list_readable<T: FromJson>(j: Json) -> bool {
    j.as_array() is Some && all_readable::<T>(j.as_array().unwrap())
}

/// Whether `values` are what the items of the array `j` write, in order.
pub open spec fn list_read<T: FromJson>(values: Seq<T>, j: Json) -> bool {
    j.as_array() is Some && all_read(values, j.as_array().unwrap())
}

/// Whether the member under `key` is there and is an array of `T`.
pub open spec fn list_field_readable<T: FromJson>(j: Json, key: Seq<char>) -> bool {
    j.member(key) is Some && list_readable::<T>(j.member(key).unwrap())
}

/// Whether `values` are what the array under `key` writes.
pub open spec fn list_field_read<T: FromJson>(values: Seq<T>, j: Json, key: Seq<char>) -> bool {
    j.member(key) is Some && list_read(values, j.member(key).unwrap())
}

/// Reads a required member that writes a `T`.
pub fn get_object<T: FromJson>(v: &serde_json::Value, key: &str) -> (r: Option<T>)
    ensures
        r is Some <==> field_readable::<T>(json_view(*v), key@),
        r matches Some(value) ==> field_read(value, json_view(*v), key@),
{
    match json_get(v, key) {
        Some(m) => T::from_json(m),
        None => None,
    }
}

/// Reads an optional member that writes a `T`.
pub fn get_opt_object<T: FromJson>(v: &serde_json::Value, key: &str) -> (r: Option<Option<T>>)
    ensures
        r is Some <==> opt_field_readable::<T>(json_view(*v), key@),
        r matches Some(value) ==> opt_field_read(value, json_view(*v), key@),
{
    if has(v, key) {
        match json_get(v, key) {
            Some(m) => match T::from_json(m) {
                Some(value) => Some(Some(value)),
                None => None,
            },
            None => None,
        }
    } else {
        Some(None)
    }
}

/// Reads an array of which every item writes a `T`.
pub fn objects_of<T: FromJson>(v: &serde_json::Value) -> (r: Option<Vec<T>>)
    ensures
        r is Some <==> list_readable::<T>(json_view(*v)),
        r matches Some(values) ==> list_read(values@, json_view(*v)),
{
    match json_as_array(v) {
        None => None,
        Some(items) => {
            let ghost trees = json_views(items@);
            let mut out: Vec<T> = Vec::new();
            let mut i: usize = 0;
            while i < items.len()
                invariant
                    i <= items@.len(),
                    trees == json_views(items@),
                    json_view(*v).as_array() == Some(trees),
                    out@.len() == i,
                    forall|k: int| 0 <= k < i ==> (#[trigger] out@[k]).read_from(trees[k]),
                    forall|k: int| 0 <= k < i ==> T::readable(#[trigger] trees[k]),
                decreases items@.len() - i,
            {
                match T::from_json(&items[i]) {
                    Some(value) => {
                        out.push(value);
                    },
                    None => {
                        assert(!T::readable(trees[i as int]));
                        assert(!all_readable::<T>(trees));
                        return None;
                    },
                }
                i = i + 1;
            }
            assert(all_readable::<T>(trees));
            Some(out)
        },
    }
}

/// Reads a required member that is an array of `T`.
pub fn get_objects<T: FromJson>(v: &serde_json::Value, key: &str) -> (r: Option<Vec<T>>)
    ensures
        r is Some <==> list_field_readable::<T>(json_view(*v), key@),
        r matches Some(values) ==> list_field_read(values@, json_view(*v), key@),
{
    match json_get(v, key) {
        Some(m) => objects_of(m),
        None => None,
    }
}

/// Whether the member under `key` is missing or `null`, or an array of `T`.
pub open spec fn opt_list_field_readable<T: FromJson>(j: Json, key: Seq<char>) -> bool {
    present(j, key) ==> list_readable::<T>(j.member(key).unwrap())
}

/// Whether `values` are what the optional array under `key` writes.
pub open spec fn opt_list_field_read<T: FromJson>(
    values: Option<Vec<T>>,
    j: Json,
    key: Seq<char>,
) -> bool {
    match values {
        Some(values) => present(j, key) && list_read(values@, j.member(key).unwrap()),
        None => !present(j, key),
    }
}

/// Reads an optional member that is an array of `T`.
pub fn get_opt_objects<T: FromJson>(v: &serde_json::Value, key: &str) -> (r: Option<
    Option<Vec<T>>,
>)
    ensures
        r is Some <==> opt_list_field_readable::<T>(json_view(*v), key@),
        r matches Some(values) ==> opt_list_field_read(values, json_view(*v), key@),
{
    if has(v, key) {
        match get_objects(v, key) {
            Some(values) => Some(Some(values)),
            None => None,
        }
    } else {
        Some(None)
    }
}

/// Whether `values` are what the array under `key` writes, where a missing
/// array writes no values.
pub open spec fn default_list_field_read<T: FromJson>(values: Seq<T>, j: Json, key: Seq<char>) -> bool {
    if present(j, key) {
        list_read(values, j.member(key).unwrap())
    } else {
        values.len() == 0
    }
}

/// Reads a member that is an array of `T`; a missing array gives no values.
pub fn get_objects_or_empty<T: FromJson>(v: &serde_json::Value, key: &str) -> (r: Option<Vec<T>>)
    ensures
        r is Some <==> opt_list_field_readable::<T>(json_view(*v), key@),
        r matches Some(values) ==> default_list_field_read(values@, json_view(*v), key@),
{
    if has(v, key) {
        get_objects(v, key)
    } else {
        Some(Vec::new())
    }
}

impl FromJson for String {
    open spec fn readable(j: Json) -> bool {
        j.as_str() is Some
    }

    open spec fn read_from(&self, j: Json) -> bool {
        j.as_str() == Some(self@)
    }

    fn from_json(v: &serde_json::Value) -> (r: Option<String>) {
        match json_as_str(v) {
            Some(s) => Some(s.to_owned()),
            None => None,
        }
    }
}

impl FromJson for bool {
    open spec fn readable(j: Json) -> bool {
        j.as_bool() is Some
    }

    open spec fn read_from(&self, j: Json) -> bool {
        j.as_bool() == Some(*self)
    }

    fn from_json(v: &serde_json::Value) -> (r: Option<bool>) {
        json_as_bool(v)
    }
}

impl FromJson for u64 {
    open spec fn readable(j: Json) -> bool {
        j.as_u64() is Some
    }

    open spec fn read_from(&self, j: Json) -> bool {
        j.as_u64() == Some(*self)
    }

    fn from_json(v: &serde_json::Value) -> (r: Option<u64>) {
        json_as_u64(v)
    }
}

impl FromJson for i64 {
    open spec fn readable(j: Json) -> bool {
        j.as_i64() is Some
    }

    open spec fn read_from(&self, j: Json) -> bool {
        j.as_i64() == Some(*self)
    }

    fn from_json(v: &serde_json::Value) -> (r: Option<i64>) {
        json_as_i64(v)
    }
}

impl FromJson for u32 {
    open spec fn readable(j: Json) -> bool {
        j.as_u64() is Some && j.as_u64().unwrap() <= u32::MAX
    }

    open spec fn read_from(&self, j: Json) -> bool {
        j.as_u64() == Some(*self as u64)
    }

    fn from_json(v: &serde_json::Value) -> (r: Option<u32>) {
        match json_as_u64(v) {
            Some(n) => if n <= u32::MAX as u64 {
                Some(n as u32)
            } else {
                None
            },
            None => None,
        }
    }
}

impl FromJson for u16 {
    open spec fn readable(j: Json) -> bool {
        j.as_u64() is Some && j.as_u64().unwrap() <= u16::MAX
    }

    open spec fn read_from(&self, j: Json) -> bool {
        j.as_u64() == Some(*self as u64)
    }

    fn from_json(v: &serde_json::Value) -> (r: Option<u16>) {
        match json_as_u64(v) {
            Some(n) => if n <= u16::MAX as u64 {
                Some(n as u16)
            } else {
                None
            },
            None => None,
        }
    }
}

impl FromJson for serde_json::Value {
    /// Every JSON value is kept as it is.
    open spec fn readable(j: Json) -> bool {
        true
    }

    open spec fn read_from(&self, j: Json) -> bool {
        json_view(*self) == j
    }

    fn from_json(v: &serde_json::Value) -> (r: Option<serde_json::Value>) {
        Some(json_clone(v))
    }
}

/// A 64-bit number that travels as a decimal string.
#[derive(Debug, Clone, Copy, PartialEq, Eq, Structural)]
pub struct Decimal(pub u64);

impl FromJson for Decimal {
    open spec fn readable(j: Json) -> bool {
        json_id(j) is Some
    }

    open spec fn read_from(&self, j: Json) -> bool {
        json_id(j) == Some(self.0)
    }

    fn from_json(v: &serde_json::Value) -> (r: Option<Decimal>) {
        match id_of(v) {
            Some(n) => Some(Decimal(n)),
            None => None,
        }
    }
}

} // verus!
