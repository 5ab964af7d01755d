//! The boundary to the JSON reader.
//!
//! Records arrive as JSON text, which `serde_json` reads. Nothing in this
//! module is proved: each function states what the reader's source shows of
//! one of its functions, over a model of the values that it hands out.

use vstd::prelude::*;

verus! {

/// What a JSON value holds, as far as this library reads it: a string, a
/// whole number from 0 to `u64::MAX`, or an object with its members. Every
/// other value (null, a boolean, a negative or fractional number, an array)
/// is `Other`.
pub enum Json {
    Text(Seq<char>),
    Unsigned(u64),
    Object(Map<Seq<char>, Json>),
    Other,
}

impl Json {
    /// The member of an object under `key`; `None` where `self` is no
    /// object or has no such member.
    pub open spec fn member(self, key: Seq<char>) -> Option<Json> {
        match self {
            Json::Object(members) => if members.contains_key(key) {
                Some(members[key])
            } else {
                None
            },
            _ => None,
        }
    }

    /// The string that `self` is, if it is one.
    pub open spec fn text(self) -> Option<Seq<char>> {
        match self {
            Json::Text(s) => Some(s),
            _ => None,
        }
    }

    /// The whole number that `self` is, if it is one.
    pub open spec fn unsigned(self) -> Option<u64> {
        match self {
            Json::Unsigned(n) => Some(n),
            _ => None,
        }
    }
}

/// `serde_json::Value`, a JSON value as the reader holds it. It is opaque
/// here: what it holds is known through `json_of` alone.
#[verifier::external_type_specification]
#[verifier::external_body]
pub struct ExValue(serde_json::Value);

/// `serde_json::Error`, the reader's reason to reject a text; nothing is
/// read from it.
#[verifier::external_type_specification]
#[verifier::external_body]
pub struct ExError(serde_json::Error);

/// The model of a `serde_json::Value`: a `Value::String` is `Text` of its
/// characters, a `Value::Number` that holds an unsigned integer is
/// `Unsigned` of it, a `Value::Object` is `Object` of its members under
/// their keys, and every other value is `Other`.
pub uninterp spec fn json_of(value: serde_json::Value) -> Json;

/// What `serde_json::from_str` reads from `text` as a `serde_json::Value`:
/// the model of the value, or `None` where the reader rejects the text.
pub uninterp spec fn json_read(text: Seq<char>) -> Option<Json>;

/// Calls `serde_json::from_str` for a `serde_json::Value`. The reader is a
/// function of the text alone; the contract gives its outcome the name
/// `json_read` and says that a value is returned exactly where it is `Some`.
#[verifier::external_body]
pub(crate) fn read_value(text: &str) -> (r: Result<serde_json::Value, serde_json::Error>)
    ensures
        match r {
            Ok(value) => json_read(text@) == Some(json_of(value)),
            Err(_) => json_read(text@) is None,
        },
{
    serde_json::from_str::<serde_json::Value>(text)
}

/// Calls `serde_json::Value::get` with a string key: the member under that
/// key where the value is an object that has one, else `None`.
#[verifier::external_body]
pub(crate) fn value_member<'a>(value: &'a serde_json::Value, key: &str) -> (r: Option<
    &'a serde_json::Value,
>)
    ensures
        match r {
            Some(found) => json_of(*value).member(key@) == Some(json_of(*found)),
            None => json_of(*value).member(key@) is None,
        },
{
    value.get(key)
}

/// Calls `serde_json::Value::as_str`: the string where the value is one,
/// else `None`.
#[verifier::external_body]
pub(crate) fn value_text<'a>(value: &'a serde_json::Value) -> (r: Option<&'a str>)
    ensures
        match r {
            Some(s) => json_of(*value).text() == Some(s@),
            None => json_of(*value).text() is None,
        },
{
    value.as_str()
}

/// Calls `serde_json::Value::as_u64`: the integer where the value is a
/// number that holds an unsigned integer, else `None`.
#[verifier::external_body]
pub(crate) fn value_unsigned(value: &serde_json::Value) -> (r: Option<u64>)
    ensures
        r == json_of(*value).unsigned(),
{
    value.as_u64()
}

} // verus!
