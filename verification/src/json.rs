//! The JSON documents that the decoder reads.
//!
//! Parsing and the accessors of a parsed value belong to `serde_json`. This
//! module declares its types, gives a parsed value a mathematical model and
//! states, for each call that the decoder makes, what the call returns in
//! terms of that model. Nothing here is proved: these contracts are the
//! assumptions on which the rest of the library stands.

use serde_json::Value;
use vstd::prelude::*;

verus! {

/// `serde_json::Value`, a parsed JSON value. Its inside is not visible to
/// proofs; [`json_model`] stands for what it holds.
#[verifier::external_type_specification]
#[verifier::external_body]
pub struct ExValue(serde_json::Value);

/// `serde_json::Error`, the reason why a text was not accepted as JSON.
#[verifier::external_type_specification]
#[verifier::external_body]
pub struct ExJsonError(serde_json::Error);

/// The mathematical content of a JSON value, one variant for each variant of
/// `serde_json::Value`.
pub enum Json {
    /// `null`.
    Null,
    /// `true` or `false`.
    Flag(bool),
    /// A number, as the bit pattern of the IEEE 754 double that
    /// `Value::as_f64` reports for it.
    Number(u64),
    /// A string.
    Text(Seq<char>),
    /// An array.
    Array(Seq<Json>),
    /// An object: its members by key.
    Object(Map<Seq<char>, Json>),
}

/// What a `serde_json::Value` holds.
pub uninterp spec fn json_model(value: Value) -> Json;

/// What `serde_json::from_str::<Value>` makes of a text: the content of the
/// parsed value, or `None` where the text is not one JSON document.
pub uninterp spec fn json_parsed(text: Seq<char>) -> Option<Json>;

/// The member of `doc` under `key`: present only where `doc` is an object
/// that has the key.
pub open spec fn json_member(doc: Json, key: Seq<char>) -> Option<Json> {
    match doc {
        Json::Object(members) => if members.contains_key(key) {
            Some(members[key])
        } else {
            None
        },
        _ => None,
    }
}

/// The string that `doc` is, if it is one.
pub open spec fn json_text(doc: Json) -> Option<Seq<char>> {
    match doc {
        Json::Text(text) => Some(text),
        _ => None,
    }
}

/// The boolean that `doc` is, if it is one.
pub open spec fn json_flag(doc: Json) -> Option<bool> {
    match doc {
        Json::Flag(flag) => Some(flag),
        _ => None,
    }
}

/// The bit pattern of the number that `doc` is, if it is one.
pub open spec fn json_number(doc: Json) -> Option<u64> {
    match doc {
        Json::Number(bits) => Some(bits),
        _ => None,
    }
}

/// Calls `serde_json::from_str::<Value>`. Assumed: the call succeeds exactly
/// on the texts for which [`json_parsed`] is `Some`, the value returned then
/// holds that content, and the same text always parses alike.
#[verifier::external_body]
pub(crate) fn parse(text: &str) -> (r: Result<Value, serde_json::Error>)
    ensures
        match r {
            Ok(value) => json_parsed(text@) == Some(json_model(value)),
            Err(_) => json_parsed(text@) is None,
        },
{
    serde_json::from_str::<Value>(text)
}

/// Calls `Value::get` with a string index. Assumed: the call returns the
/// member under `key` where `json` is an object that has the key, and `None`
/// for a missing key and for a value that is not an object.
#[verifier::external_body]
pub(crate) fn member<'a>(json: &'a Value, key: &str) -> (r: Option<&'a Value>)
    ensures
        match r {
            Some(value) => json_member(json_model(*json), key@) == Some(json_model(*value)),
            None => json_member(json_model(*json), key@) is None,
        },
{
    json.get(key)
}

/// Calls `Value::as_str`. Assumed: the call returns the string where `json`
/// is a JSON string, and `None` for every other kind of value.
#[verifier::external_body]
pub(crate) fn text_of<'a>(json: &'a Value) -> (r: Option<&'a str>)
    ensures
        match r {
            Some(text) => json_text(json_model(*json)) == Some(text@),
            None => json_text(json_model(*json)) is None,
        },
{
    json.as_str()
}

/// Calls `Value::as_bool`. Assumed: the call returns the boolean where `json`
/// is a JSON boolean, and `None` for every other kind of value.
#[verifier::external_body]
pub(crate) fn flag_of(json: &Value) -> (r: Option<bool>)
    ensures
        r == json_flag(json_model(*json)),
{
    json.as_bool()
}

/// Calls `Value::as_f64`, and hands the double out as its bit pattern.
/// Assumed: the call returns the number where `json` is a JSON number, and
/// `None` for every other kind of value.
#[verifier::external_body]
pub(crate) fn number_of(json: &Value) -> (r: Option<u64>)
    ensures
        r == json_number(json_model(*json)),
{
    match json.as_f64() {
        Some(number) => Some(number.to_bits()),
        None => None,
    }
}

} // verus!
