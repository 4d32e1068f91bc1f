//! Lookups of one named member of a document, by the kind of value wanted.

use crate::json::{flag_of, json_flag, json_member, json_model, json_number, json_text, member, number_of, text_of, Json};
use serde_json::Value;
use vstd::prelude::*;

verus! {

/// The string under `key`: present exactly where `doc` is an object that has
/// the key with a string as its value.
pub open spec fn text_at(doc: Json, key: Seq<char>) -> Option<Seq<char>> {
    match json_member(doc, key) {
        Some(value) => json_text(value),
        None => None,
    }
}

/// The boolean under `key`, and `false` where the key is missing or its
/// value is no boolean.
pub open spec fn flag_at(doc: Json, key: Seq<char>) -> bool {
    match json_member(doc, key) {
        Some(value) => match json_flag(value) {
            Some(flag) => flag,
            None => false,
        },
        None => false,
    }
}

/// The number under `key`, as the bit pattern of a double: present exactly
/// where `doc` is an object that has the key with a number as its value.
pub open spec fn number_at(doc: Json, key: Seq<char>) -> Option<u64> {
    match json_member(doc, key) {
        Some(value) => json_number(value),
        None => None,
    }
}

/// The content of an optional string.
pub open spec fn text_view(text: Option<String>) -> Option<Seq<char>> {
    match text {
        Some(text) => Some(text@),
        None => None,
    }
}

/// Reads the string under `index`, copied as it stands.
pub fn get_string(json: &Value, index: &str) -> (r: Option<String>)
    ensures
        text_view(r) == text_at(json_model(*json), index@),
{
    match member(json, index) {
        Some(value) => match text_of(value) {
            Some(text) => Some(text.to_owned()),
            None => None,
        },
        None => None,
    }
}

/// Reads the boolean under `index`; a missing key and a value of another
/// kind both read as `false`.
pub fn get_bool(json: &Value, index: &str) -> (r: bool)
    ensures
        r == flag_at(json_model(*json), index@),
{
    match member(json, index) {
        Some(value) => match flag_of(value) {
            Some(flag) => flag,
            None => false,
        },
        None => false,
    }
}

/// Reads the number under `index` as the bit pattern of a double.
pub fn get_number(json: &Value, index: &str) -> (r: Option<u64>)
    ensures
        r == number_at(json_model(*json), index@),
{
    match member(json, index) {
        Some(value) => number_of(value),
        None => None,
    }
}

} // verus!
