//! JSON documents as `serde_json` parses them, and the readers that the
//! response schemas are built from.

use crate::decimal::{double_micros, Decimal};
use vstd::prelude::*;

verus! {

/// `serde_json::Value`, a JSON document. What it holds is seen through the
/// readers below only.
#[verifier::external_type_specification]
#[verifier::external_body]
pub struct ExValue(serde_json::Value);

/// The document that `serde_json` finds in a text, if the text is JSON.
pub uninterp spec fn json_document(text: Seq<char>) -> Option<serde_json::Value>;

/// The members of a document that is an object, by their keys.
pub uninterp spec fn json_members(value: serde_json::Value) -> Option<
    Map<Seq<char>, serde_json::Value>,
>;

/// The items of a document that is an array, in their order.
pub uninterp spec fn json_items(value: serde_json::Value) -> Option<Seq<serde_json::Value>>;

/// The characters of a document that is a string.
pub uninterp spec fn json_text(value: serde_json::Value) -> Option<Seq<char>>;

/// The value of a document that is an integer of the range of `u64`.
pub uninterp spec fn json_unsigned(value: serde_json::Value) -> Option<u64>;

/// The binary64 bit pattern of a document that is a number.
pub uninterp spec fn json_double(value: serde_json::Value) -> Option<u64>;

/// The member of an object under a key; none where the document is no object
/// or has no such member.
pub open spec fn json_member(value: serde_json::Value, key: Seq<char>) -> Option<
    serde_json::Value,
> {
    match json_members(value) {
        Some(members) => if members.contains_key(key) {
            Some(members[key])
        } else {
            None
        },
        None => None,
    }
}

/// The string member of an object under a key.
pub open spec fn member_text(value: serde_json::Value, key: Seq<char>) -> Option<Seq<char>> {
    match json_member(value, key) {
        Some(member) => json_text(member),
        None => None,
    }
}

/// The integer member of an object under a key, where it is at most `max`.
pub open spec fn member_unsigned(value: serde_json::Value, key: Seq<char>, max: u64) -> Option<
    u64,
> {
    match json_member(value, key) {
        Some(member) => match json_unsigned(member) {
            Some(number) => if number <= max {
                Some(number)
            } else {
                None
            },
            None => None,
        },
        None => None,
    }
}

/// The items of the array member of an object under a key.
pub open spec fn member_items(value: serde_json::Value, key: Seq<char>) -> Option<
    Seq<serde_json::Value>,
> {
    match json_member(value, key) {
        Some(member) => json_items(member),
        None => None,
    }
}

/// The decimal that a number stands for, where it has one.
pub open spec fn json_decimal(value: serde_json::Value) -> Option<Decimal> {
    match json_double(value) {
        Some(bits) => match double_micros(bits) {
            Some(micros) => Some(Decimal { micros: micros as i64 }),
            None => None,
        },
        None => None,
    }
}

/// The number member of an object under a key, as a decimal.
pub open spec fn member_decimal(value: serde_json::Value, key: Seq<char>) -> Option<Decimal> {
    match json_member(value, key) {
        Some(member) => json_decimal(member),
        None => None,
    }
}

/// `serde_json::from_str` for a `serde_json::Value`: the document of a text that
/// is JSON, and nothing for any other text. What the document is goes by the
/// name `json_document`: one text always gives the same.
#[verifier::external_body]
pub(crate) fn parse_document(text: &str) -> (r: Option<serde_json::Value>)
    ensures
        r == json_document(text@),
{
    match serde_json::from_str::<serde_json::Value>(text) {
        Ok(value) => Some(value),
        Err(_) => None,
    }
}

/// `serde_json::Value::get` with a string key: the member of an object under
/// that key; nothing where the document is no object or holds no such member.
#[verifier::external_body]
pub(crate) fn member<'a>(value: &'a serde_json::Value, key: &str) -> (r: Option<
    &'a serde_json::Value,
>)
    ensures
        match json_members(*value) {
            Some(members) => if members.contains_key(key@) {
                r == Some(&members[key@])
            } else {
                r is None
            },
            None => r is None,
        },
{
    value.get(key)
}

/// `serde_json::Value::as_array`: the items of an array, and nothing for any
/// other document.
#[verifier::external_body]
pub(crate) fn items<'a>(value: &'a serde_json::Value) -> (r: Option<&'a Vec<serde_json::Value>>)
    ensures
        match json_items(*value) {
            Some(listed) => r matches Some(found) && found@ == listed,
            None => r is None,
        },
{
    value.as_array()
}

/// `serde_json::Value::as_str`: the characters of a string, and nothing for any
/// other document.
#[verifier::external_body]
pub(crate) fn text<'a>(value: &'a serde_json::Value) -> (r: Option<&'a str>)
    ensures
        match json_text(*value) {
            Some(characters) => r matches Some(found) && found@ == characters,
            None => r is None,
        },
{
    value.as_str()
}

/// `serde_json::Value::as_u64`: the value of a number that was written as an
/// integer and fits in a `u64`, and nothing for any other document.
#[verifier::external_body]
pub(crate) fn unsigned(value: &serde_json::Value) -> (r: Option<u64>)
    ensures
        r == json_unsigned(*value),
{
    value.as_u64()
}

/// `serde_json::Value::as_f64`: the binary64 number of a document that is a
/// number, handed over as its bit pattern, and nothing for any other document.
#[verifier::external_body]
pub(crate) fn double_bits(value: &serde_json::Value) -> (r: Option<u64>)
    ensures
        r == json_double(*value),
{
    value.as_f64().map(|number| number.to_bits())
}

/// Reads a document as a decimal number.
pub fn read_decimal(value: &serde_json::Value) -> (r: Option<Decimal>)
    ensures
        r == json_decimal(*value),
{
    match double_bits(value) {
        Some(bits) => Decimal::from_double_bits(bits),
        None => None,
    }
}

/// Reads the string member of an object under a key.
pub fn read_member_text(value: &serde_json::Value, key: &str) -> (r: Option<String>)
    ensures
        match member_text(*value, key@) {
            Some(characters) => r matches Some(found) && found@ == characters,
            None => r is None,
        },
{
    match member(value, key) {
        Some(found) => match text(found) {
            Some(characters) => Some(characters.to_owned()),
            None => None,
        },
        None => None,
    }
}

/// Reads the integer member of an object under a key, where it is at most
/// `max`.
pub fn read_member_unsigned(value: &serde_json::Value, key: &str, max: u64) -> (r: Option<u64>)
    ensures
        r == member_unsigned(*value, key@, max),
{
    match member(value, key) {
        Some(found) => match unsigned(found) {
            Some(number) => if number <= max {
                Some(number)
            } else {
                None
            },
            None => None,
        },
        None => None,
    }
}

/// Reads the items of the array member of an object under a key.
pub fn read_member_items<'a>(value: &'a serde_json::Value, key: &str) -> (r: Option<
    &'a Vec<serde_json::Value>,
>)
    ensures
        match member_items(*value, key@) {
            Some(listed) => r matches Some(found) && found@ == listed,
            None => r is None,
        },
{
    match member(value, key) {
        Some(found) => items(found),
        None => None,
    }
}

/// Reads the number member of an object under a key as a decimal.
pub fn read_member_decimal(value: &serde_json::Value, key: &str) -> (r: Option<Decimal>)
    ensures
        r == member_decimal(*value, key@),
{
    match member(value, key) {
        Some(found) => read_decimal(found),
        None => None,
    }
}

} // verus!
