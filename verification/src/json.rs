//! JSON records, read with `serde_json`.
//!
//! A parsed value stays opaque. What the supervisors read of it are the
//! members of an object whose values are strings, and those have a name.

use vstd::prelude::*;

verus! {

#[verifier::external_type_specification]
#[verifier::external_body]
pub struct ExJsonValue(serde_json::Value);

#[verifier::external_type_specification]
#[verifier::external_body]
pub struct ExJsonError(serde_json::Error);

/// The members of a JSON object whose values are strings, by key. A value
/// that is no object has none.
pub uninterp spec fn string_members(value: serde_json::Value) -> Map<Seq<char>, Seq<char>>;

/// The text that a JSON value holds, if the value is a string.
pub uninterp spec fn string_content(value: serde_json::Value) -> Option<Seq<char>>;

/// What `serde_json::from_str` makes of a text: `None` where the text is no
/// JSON document, else the string members of the value it stands for.
pub uninterp spec fn parsed_members(text: Seq<char>) -> Option<Map<Seq<char>, Seq<char>>>;

/// The string member of `value` under `key`, if there is one.
pub open spec fn string_member_of(value: serde_json::Value, key: Seq<char>) -> Option<Seq<char>> {
    if string_members(value).contains_key(key) {
        Some(string_members(value)[key])
    } else {
        None
    }
}

/// Calls `serde_json::from_str` for a `serde_json::Value`. The outcome
/// depends on the text alone: a value whose string members are those the
/// text is said to have, or an error where the text is no JSON document.
#[verifier::external_body]
pub(crate) fn parse(text: &str) -> (out: Result<serde_json::Value, serde_json::Error>)
    ensures
        match out {
            Ok(value) => parsed_members(text@) == Some(string_members(value)),
            Err(_) => parsed_members(text@) is None,
        },
{
    serde_json::from_str::<serde_json::Value>(text)
}

/// Indexes a value by a key, as `value[key]` does. The result is the member
/// under the key where the value is an object that has one, and `null`
/// otherwise: so it holds a text exactly when the value has a string member
/// under the key, and then that text.
#[verifier::external_body]
pub(crate) fn member<'a>(value: &'a serde_json::Value, key: &str) -> (out: &'a serde_json::Value)
    ensures
        string_content(*out) == string_member_of(*value, key@),
{
    &value[key]
}

/// Calls `serde_json::Value::as_str`, which gives the text of a value that
/// is a string and `None` for every other value.
#[verifier::external_body]
pub(crate) fn as_text(value: &serde_json::Value) -> (out: Option<String>)
    ensures
        out.deep_view() == string_content(*value),
{
    value.as_str().map(|s| s.to_string())
}

/// The string member of `value` under `key`, if there is one.
pub(crate) fn string_member(value: &serde_json::Value, key: &str) -> (out: Option<String>)
    ensures
        out.deep_view() == string_member_of(*value, key@),
{
    as_text(member(value, key))
}

} // verus!
