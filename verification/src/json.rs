//! JSON values as the Node sends and takes them.
//!
//! The values themselves are those of `serde_json`. What one holds is named by [`json`], and each
//! function here says over that name what the crate's own function reads or builds.

use vstd::prelude::*;

use crate::text::decimal_of;

verus! {

/// A value of `serde_json`, which is carried through as it is.
#[verifier::external_type_specification]
#[verifier::external_body]
pub struct ExValue(serde_json::Value);

/// What a JSON value holds.
pub enum Json {
    Null,
    Bool(bool),
    /// A number as it is written, and its value where it is an integer.
    Number { written: Seq<char>, integer: Option<int> },
    Text(Seq<char>),
    List(Seq<Json>),
    Members(Map<Seq<char>, Json>),
}

/// What a value of `serde_json` holds.
pub uninterp spec fn json(value: serde_json::Value) -> Json;

/// What `serde_json` reads from bytes: nothing where they are not one JSON value.
pub uninterp spec fn json_read(bytes: Seq<u8>) -> Option<Json>;

/// What each value of a list holds.
pub open spec fn jsons(values: Seq<serde_json::Value>) -> Seq<Json> {
    values.map_values(|value: serde_json::Value| json(value))
}

/// What an optional value holds.
pub open spec fn optional_json(value: Option<serde_json::Value>) -> Option<Json> {
    match value {
        Some(value) => Some(json(value)),
        None => None,
    }
}

/// The member of an object under a key.
pub open spec fn member_of(value: Json, key: Seq<char>) -> Option<Json> {
    match value {
        Json::Members(members) => if members.contains_key(key) {
            Some(members[key])
        } else {
            None
        },
        _ => None,
    }
}

/// The text of a string value.
pub open spec fn text_of(value: Json) -> Option<Seq<char>> {
    match value {
        Json::Text(text) => Some(text),
        _ => None,
    }
}

/// The text of the string under a key of an object.
pub open spec fn text_member_of(value: Json, key: Seq<char>) -> Option<Seq<char>> {
    match member_of(value, key) {
        Some(member) => text_of(member),
        None => None,
    }
}

/// The value of an integer that fits in 64 signed bits.
pub open spec fn signed_of(value: Json) -> Option<i64> {
    match value {
        Json::Number { integer: Some(n), .. } => if i64::MIN <= n <= i64::MAX {
            Some(n as i64)
        } else {
            None
        },
        _ => None,
    }
}

/// `serde_json::from_slice` into a `Value`: its result is a function of the bytes alone.
#[verifier::external_body]
pub(crate) fn parse(bytes: &[u8]) -> (value: Option<serde_json::Value>)
    ensures
        optional_json(value) == json_read(bytes@),
{
    serde_json::from_slice::<serde_json::Value>(bytes).ok()
}

/// `Value::get` with a string key: the member of an object under that key, and nothing for any
/// other value.
#[verifier::external_body]
pub(crate) fn member<'a>(value: &'a serde_json::Value, key: &str) -> (found: Option<
    &'a serde_json::Value,
>)
    ensures
        match found {
            Some(found) => member_of(json(*value), key@) == Some(json(*found)),
            None => member_of(json(*value), key@) is None,
        },
{
    value.get(key)
}

/// `Value::as_str`: the text of a string value, and nothing for any other.
#[verifier::external_body]
pub(crate) fn as_text(value: &serde_json::Value) -> (text: Option<&str>)
    ensures
        match text {
            Some(text) => text_of(json(*value)) == Some(text@),
            None => text_of(json(*value)) is None,
        },
{
    value.as_str()
}

/// `Value::as_i64`: the value of an integer that fits, and nothing for any other.
#[verifier::external_body]
pub(crate) fn as_signed(value: &serde_json::Value) -> (number: Option<i64>)
    ensures
        number == signed_of(json(*value)),
{
    value.as_i64()
}

/// `Number::to_string`: a number as `serde_json` writes it.
#[verifier::external_body]
pub(crate) fn written_number(value: &serde_json::Value) -> (text: Option<String>)
    ensures
        match (json(*value), text) {
            (Json::Number { written, .. }, Some(text)) => text@ == written,
            (Json::Number { .. }, None) => false,
            (_, text) => text is None,
        },
{
    match value {
        serde_json::Value::Number(number) => Some(number.to_string()),
        _ => None,
    }
}

/// `Value::clone` holds what the value holds.
pub assume_specification[ <serde_json::Value as Clone>::clone ](value: &serde_json::Value) -> (same:
    serde_json::Value)
    ensures
        json(same) == json(*value),
;

/// `Value::Null`.
#[verifier::external_body]
pub(crate) fn null() -> (value: serde_json::Value)
    ensures
        json(value) == Json::Null,
{
    serde_json::Value::Null
}

/// What stands under the keys of an object; nothing where there is no value yet.
pub open spec fn members_of(value: Json) -> Map<Seq<char>, Json> {
    match value {
        Json::Members(members) => members,
        _ => Map::empty(),
    }
}

/// Indexing a `Value` by a key to assign to it: an object gets the member, and a null value first
/// becomes an empty object. Any other value panics there.
#[verifier::external_body]
pub(crate) fn set_member(value: &mut serde_json::Value, key: &str, member: serde_json::Value)
    requires
        json(*old(value)) is Members || json(*old(value)) is Null,
    ensures
        json(*final(value)) == Json::Members(
            members_of(json(*old(value))).insert(key@, json(member)),
        ),
{
    value[key] = member;
}

/// `Value::String`.
#[verifier::external_body]
pub(crate) fn text_value(text: &str) -> (value: serde_json::Value)
    ensures
        json(value) == Json::Text(text@),
{
    serde_json::Value::String(text.to_owned())
}

/// A whole number as JSON holds it.
pub open spec fn number_json(number: u64) -> Json {
    Json::Number { written: decimal_of(number as nat), integer: Some(number as int) }
}

/// `Value::from` on an unsigned number: an integer, which is written in decimal.
#[verifier::external_body]
pub(crate) fn number_value(number: u64) -> (value: serde_json::Value)
    ensures
        json(value) == number_json(number),
{
    serde_json::Value::from(number)
}

/// `Value::Bool`.
#[verifier::external_body]
pub(crate) fn bool_value(yes: bool) -> (value: serde_json::Value)
    ensures
        json(value) == Json::Bool(yes),
{
    serde_json::Value::Bool(yes)
}

/// `Value::Array`.
#[verifier::external_body]
pub(crate) fn list_value(values: Vec<serde_json::Value>) -> (value: serde_json::Value)
    ensures
        json(value) == Json::List(jsons(values@)),
{
    serde_json::Value::Array(values)
}

/// The bytes that `serde_json` writes for a value, or the words of its error.
pub uninterp spec fn json_written(value: Json) -> Result<Seq<u8>, Seq<char>>;

/// `serde_json::to_vec` on a `Value`: its result is a function of what the value holds.
#[verifier::external_body]
pub(crate) fn encode(value: &serde_json::Value) -> (bytes: Result<Vec<u8>, String>)
    ensures
        match bytes {
            Ok(bytes) => json_written(json(*value)) == Ok::<Seq<u8>, Seq<char>>(bytes@),
            Err(error) => json_written(json(*value)) == Err::<Seq<u8>, Seq<char>>(error@),
        },
{
    serde_json::to_vec(value).map_err(|error| error.to_string())
}

/// The bytes that `serde_json` writes for a value with line breaks and indentation, or the words of
/// its error.
pub uninterp spec fn json_pretty(value: Json) -> Result<Seq<u8>, Seq<char>>;

/// `serde_json::to_vec_pretty` on a `Value`: its result is a function of what the value holds.
#[verifier::external_body]
pub(crate) fn encode_pretty(value: &serde_json::Value) -> (bytes: Result<Vec<u8>, String>)
    ensures
        match bytes {
            Ok(bytes) => json_pretty(json(*value)) == Ok::<Seq<u8>, Seq<char>>(bytes@),
            Err(error) => json_pretty(json(*value)) == Err::<Seq<u8>, Seq<char>>(error@),
        },
{
    serde_json::to_vec_pretty(value).map_err(|error| error.to_string())
}

/// The text of the string under a key of an object.
pub fn text_member<'a>(value: &'a serde_json::Value, key: &str) -> (text: Option<&'a str>)
    ensures
        match text {
            Some(text) => text_member_of(json(*value), key@) == Some(text@),
            None => text_member_of(json(*value), key@) is None,
        },
{
    match member(value, key) {
        Some(found) => as_text(found),
        None => None,
    }
}

} // verus!
