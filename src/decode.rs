//! Field readers shared by the payload decoders.
use vstd::prelude::*;
use crate::json::{get_member, key_is, member, JsonValue};

verus! {

/// Why a request body could not be turned into a payload.
#[derive(Debug)]
pub struct DecodeError {
    pub message: String,
}

impl DecodeError {
    pub fn new(message: &str) -> (r: DecodeError)
        ensures
            r.message@ == message@,
    {
        DecodeError { message: String::from_str(message) }
    }

    /// An error whose message names the field it is about.
    pub fn about(what: &str, key: &str) -> (r: DecodeError)
        ensures
            r.message@ == what@ + key@,
    {
        DecodeError { message: String::from_str(what).concat(key) }
    }
}

/// The text held by a JSON value, if it is a string.
pub open spec fn text_of(j: JsonValue) -> Option<Seq<char>> {
    match j {
        JsonValue::Text(s) => Some(s@),
        _ => None,
    }
}

/// A required string member.
pub open spec fn required_text(fields: Seq<(String, JsonValue)>, key: Seq<char>) -> Option<Seq<char>> {
    match member(fields, key) {
        Some(j) => text_of(j),
        None => None,
    }
}

/// An optional boolean member: absent or `null` give `None`.
pub open spec fn optional_bool(fields: Seq<(String, JsonValue)>, key: Seq<char>) -> Option<Option<bool>> {
    match member(fields, key) {
        None => Some(None),
        Some(JsonValue::Null) => Some(None),
        Some(JsonValue::Bool(b)) => Some(Some(b)),
        _ => None,
    }
}

/// Every member's key is `a` or `b`.
pub open spec fn keys_within(fields: Seq<(String, JsonValue)>, a: Seq<char>, b: Seq<char>) -> bool {
    forall|i: int| 0 <= i < fields.len() ==> #[trigger] fields[i].0@ == a || fields[i].0@ == b
}

pub fn read_required_text(fields: &Vec<(String, JsonValue)>, key: &str) -> (r: Result<String, DecodeError>)
    ensures
        match r {
            Ok(s) => required_text(fields@, key@) == Some(s@),
            Err(_) => required_text(fields@, key@) is None,
        },
{
    match get_member(fields, key) {
        Some(JsonValue::Text(s)) => Ok(s.clone()),
        Some(_) => Err(DecodeError::about("invalid type, expected a string: ", key)),
        None => Err(DecodeError::about("missing field: ", key)),
    }
}

pub fn read_optional_bool(fields: &Vec<(String, JsonValue)>, key: &str) -> (r: Result<Option<bool>, DecodeError>)
    ensures
        match r {
            Ok(b) => optional_bool(fields@, key@) == Some(b),
            Err(_) => optional_bool(fields@, key@) is None,
        },
{
    match get_member(fields, key) {
        None => Ok(None),
        Some(JsonValue::Null) => Ok(None),
        Some(JsonValue::Bool(b)) => Ok(Some(*b)),
        Some(_) => Err(DecodeError::about("invalid type, expected a boolean: ", key)),
    }
}

pub fn check_keys_within(fields: &Vec<(String, JsonValue)>, a: &str, b: &str) -> (r: bool)
    ensures
        r == keys_within(fields@, a@, b@),
{
    let mut i: usize = 0;
    while i < fields.len()
        invariant
            i <= fields.len(),
            forall|k: int| 0 <= k < i ==> #[trigger] fields@[k].0@ == a@ || fields@[k].0@ == b@,
        decreases fields.len() - i,
    {
        if !key_is(&fields[i].0, a) && !key_is(&fields[i].0, b) {
            return false;
        }
        i = i + 1;
    }
    true
}

} // verus!
