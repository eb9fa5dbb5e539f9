//! JSON values.
//!
//! `serde_json::Value` carries floating-point numbers, which this library does
//! not compute with. Logic that inspects the structure of a model's output
//! works on `Json`, a mirror of a `serde_json::Value` in which a floating-point
//! number is kept as its IEEE-754 bit pattern.

use vstd::prelude::*;

use crate::text::str_eq;

verus! {

/// A JSON value as produced by `serde_json`.
#[verifier::external_type_specification]
#[verifier::external_body]
pub struct ExJsonValue(serde_json::Value);

pub type JsonValue = serde_json::Value;

/// `serde_json::Value` derives `Clone`; nothing is stated of the copy.
pub assume_specification[ <serde_json::Value as core::clone::Clone>::clone ](v: &serde_json::Value) -> serde_json::Value;

/// What `serde_json::to_string_pretty` returns for a value: its indented JSON
/// text, or `None` where it returns an error.
pub uninterp spec fn pretty_json(v: JsonValue) -> Option<Seq<char>>;

/// What `serde_json::Value`'s `Display` writes: the compact JSON text.
pub uninterp spec fn compact_json(v: JsonValue) -> Seq<char>;

/// The indented JSON text of a value, or its compact text where indenting fails.
pub open spec fn json_text(v: JsonValue) -> Seq<char> {
    match pretty_json(v) {
        Some(t) => t,
        None => compact_json(v),
    }
}

/// Wraps `serde_json::to_string_pretty` on a value, mapping its error to `None`.
#[verifier::external_body]
fn to_string_pretty(v: &JsonValue) -> (r: Option<String>)
    ensures
        r matches Some(t) ==> pretty_json(*v) == Some(t@),
        r is None ==> pretty_json(*v) is None,
{
    match serde_json::to_string_pretty(v) {
        Ok(t) => Some(t),
        Err(_) => None,
    }
}

/// Wraps `ToString::to_string` on a value, which writes it through its
/// `Display` impl as compact JSON.
#[verifier::external_body]
fn value_to_string(v: &JsonValue) -> (r: String)
    ensures
        r@ == compact_json(*v),
{
    v.to_string()
}

/// The indented JSON text of a value, falling back to its compact text.
pub fn json_display_text(v: &JsonValue) -> (r: String)
    ensures
        r@ == json_text(*v),
{
    match to_string_pretty(v) {
        Some(t) => t,
        None => value_to_string(v),
    }
}

/// A JSON number, as `serde_json` stores it.
#[derive(Clone, Copy, Debug, PartialEq, Eq, Structural)]
pub enum JsonNumber {
    /// A non-negative integer.
    PosInt(u64),
    /// A negative integer.
    NegInt(i64),
    /// A floating-point number, by its IEEE-754 bit pattern.
    Float(u64),
}

/// A JSON value. Object entries keep the order in which `serde_json` lists
/// them; keys are unique.
#[derive(Debug)]
pub enum Json {
    Null,
    Bool(bool),
    Number(JsonNumber),
    Str(String),
    Array(Vec<Json>),
    Object(Vec<(String, Json)>),
}

/// The value of the first entry named `key`.
pub open spec fn entries_get(entries: Seq<(String, Json)>, key: Seq<char>) -> Option<Json>
    decreases entries.len(),
{
    if entries.len() == 0 {
        None
    } else if entries[0].0@ == key {
        Some(entries[0].1)
    } else {
        entries_get(entries.drop_first(), key)
    }
}

/// `value[key]` for an object; `None` for anything else.
pub open spec fn json_get(j: Json, key: Seq<char>) -> Option<Json> {
    match j {
        Json::Object(entries) => entries_get(entries@, key),
        _ => None,
    }
}

/// The text of a string value.
pub open spec fn json_str(j: Option<Json>) -> Option<Seq<char>> {
    match j {
        Some(Json::Str(s)) => Some(s@),
        _ => None,
    }
}

/// Whether a value is a number.
pub open spec fn json_is_number(j: Json) -> bool {
    j is Number
}

/// The number of entries of an object.
pub open spec fn object_len(j: Json) -> Option<nat> {
    match j {
        Json::Object(entries) => Some(entries@.len()),
        _ => None,
    }
}

impl Json {
    /// `value.get(key)`: the value of the first entry named `key` of an object.
    pub fn get(&self, key: &str) -> (r: Option<&Json>)
        ensures
            r matches Some(v) ==> json_get(*self, key@) == Some(*v),
            r is None ==> json_get(*self, key@) is None,
    {
        match self {
            Json::Object(entries) => {
                let mut i: usize = 0;
                assert(entries@.subrange(0, entries@.len() as int) == entries@);
                while i < entries.len()
                    invariant
                        i <= entries@.len(),
                        json_get(*self, key@) == entries_get(entries@, key@),
                        entries_get(entries@, key@) == entries_get(entries@.subrange(i as int, entries@.len() as int), key@),
                    decreases entries.len() - i,
                {
                    let ghost rest = entries@.subrange(i as int, entries@.len() as int);
                    assert(rest[0] == entries@[i as int]);
                    if str_eq(entries[i].0.as_str(), key) {
                        assert(rest[0].0@ == key@);
                        assert(entries_get(rest, key@) == Some(rest[0].1));
                        return Some(&entries[i].1);
                    }
                    assert(rest.drop_first() == entries@.subrange(i + 1, entries@.len() as int));
                    i = i + 1;
                }
                None
            },
            _ => None,
        }
    }

    /// `value.as_str()`.
    pub fn as_str(&self) -> (r: Option<&str>)
        ensures
            r matches Some(s) ==> json_str(Some(*self)) == Some(s@),
            r is None ==> json_str(Some(*self)) is None,
    {
        match self {
            Json::Str(s) => Some(s.as_str()),
            _ => None,
        }
    }

    /// `value.is_number()`.
    pub fn is_number(&self) -> (r: bool)
        ensures
            r == json_is_number(*self),
    {
        match self {
            Json::Number(_) => true,
            _ => false,
        }
    }

    /// The number of entries, for an object.
    pub fn object_len(&self) -> (r: Option<usize>)
        ensures
            r matches Some(n) ==> object_len(*self) == Some(n as nat),
            r is None ==> object_len(*self) is None,
    {
        match self {
            Json::Object(entries) => Some(entries.len()),
            _ => None,
        }
    }
}

} // verus!
