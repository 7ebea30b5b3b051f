//! A mathematical model of parsed JSON documents, and trusted wrappers
//! around the JSON library that parses and reads them.
//!
//! A parsed document is held in an opaque `serde_json::Value`; its content is
//! named by the uninterpreted `json_view`, a `JsonData` tree over plain
//! values.  What a given text parses to is named by `json_of`: parsing is a
//! function of the text alone.  The wrappers below relate the two, and every
//! verified reader of a document goes through them.

use vstd::prelude::*;

verus! {

/// The content of a parsed JSON document.  A number carries the integer the
/// library would report for it, if it is representable as a 64-bit signed
/// integer, and nothing otherwise (other numbers are never read here).
pub ghost enum JsonData {
    JNull,
    JBool(bool),
    JNum(Option<int>),
    JStr(Seq<char>),
    JArr(Seq<JsonData>),
    JObj(Map<Seq<char>, JsonData>),
}

#[verifier::external_type_specification]
#[verifier::external_body]
pub struct ExValue(serde_json::Value);

/// The content of a `serde_json::Value`.
pub uninterp spec fn json_view(v: serde_json::Value) -> JsonData;

/// What a text parses to as one JSON document, if it parses at all.
pub uninterp spec fn json_of(s: Seq<char>) -> Option<JsonData>;

/// Relies on `serde_json::from_str::<Value>`: whether a text parses as one
/// JSON document, and as which, depends on the text alone.
#[verifier::external_body]
pub fn json_parse(s: &str) -> (r: Option<serde_json::Value>)
    ensures
        match r {
            Some(v) => json_of(s@) == Some(json_view(v)),
            None => json_of(s@) is None,
        },
{
    serde_json::from_str::<serde_json::Value>(s).ok()
}

/// Relies on `serde_json::Value::get` with a string index: on an object it
/// looks the key up in the map, on anything else it returns nothing.
#[verifier::external_body]
pub fn json_get<'a>(v: &'a serde_json::Value, key: &str) -> (r: Option<&'a serde_json::Value>)
    ensures
        match json_view(*v) {
            JsonData::JObj(m) => match r {
                Some(f) => m.contains_key(key@) && json_view(*f) == m[key@],
                None => !m.contains_key(key@),
            },
            _ => r is None,
        },
{
    v.get(key)
}

/// Relies on `serde_json::Value::as_str`: the string content of a string
/// value, and nothing for any other value.
#[verifier::external_body]
pub fn json_as_str<'a>(v: &'a serde_json::Value) -> (r: Option<&'a str>)
    ensures
        match json_view(*v) {
            JsonData::JStr(s) => r matches Some(t) && t@ == s,
            _ => r is None,
        },
{
    v.as_str()
}

/// Relies on `serde_json::Value::as_i64`: the value of a number if it is
/// representable as an `i64`, and nothing for any other value.
#[verifier::external_body]
pub fn json_as_i64(v: &serde_json::Value) -> (r: Option<i64>)
    ensures
        match json_view(*v) {
            JsonData::JNum(oi) => match r {
                Some(n) => oi == Some(n as int),
                None => oi is None,
            },
            _ => r is None,
        },
{
    v.as_i64()
}

/// Relies on `serde_json::Value::is_null`: whether the value is the JSON
/// null.
#[verifier::external_body]
pub fn json_is_null(v: &serde_json::Value) -> (r: bool)
    ensures
        r == (json_view(*v) is JNull),
{
    v.is_null()
}

} // verus!
