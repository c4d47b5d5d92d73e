//! Reading flags out of JSON values.

use vstd::prelude::*;

verus! {

/// Opaque: a JSON value of `serde_json`.
#[verifier::external_type_specification]
#[verifier::external_body]
pub struct ExJsonValue(serde_json::Value);

/// The members of a JSON object; of any other JSON value, nothing.
pub uninterp spec fn json_members(value: serde_json::Value) -> Map<Seq<char>, serde_json::Value>;

/// The boolean that a JSON value is; of any other JSON value, nothing.
pub uninterp spec fn json_boolean(value: serde_json::Value) -> Option<bool>;

/// `serde_json::Value::get` with a string index: the member of that name of a
/// JSON object. A value that is no object has no members.
#[verifier::external_body]
fn json_get<'a>(value: &'a serde_json::Value, key: &str) -> (member: Option<&'a serde_json::Value>)
    ensures
        match member {
            Some(found) => json_members(*value).contains_key(key@)
                && *found == json_members(*value)[key@],
            None => !json_members(*value).contains_key(key@),
        },
{
    value.get(key)
}

/// `serde_json::Value::as_bool`: the boolean that the JSON value is, and nothing
/// for any other JSON value.
pub assume_specification[ serde_json::Value::as_bool ](value: &serde_json::Value) -> (flag:
    Option<bool>)
    ensures
        flag == json_boolean(*value),
;

/// The JSON value is the boolean `true`.
pub open spec fn is_true(value: serde_json::Value) -> bool {
    json_boolean(value) == Some(true)
}

/// The JSON value is an object whose member `key` is the boolean `true`.
pub open spec fn has_true_member(value: serde_json::Value, key: Seq<char>) -> bool {
    json_members(value).contains_key(key) && is_true(json_members(value)[key])
}

/// Whether the JSON value is the boolean `true`.
pub fn json_is_true(value: &serde_json::Value) -> (flag: bool)
    ensures
        flag == is_true(*value),
{
    match value.as_bool() {
        Some(flag) => flag,
        None => false,
    }
}

/// Whether the JSON value is an object whose member `key` is `true`.
pub fn json_flag(value: &serde_json::Value, key: &str) -> (flag: bool)
    ensures
        flag == has_true_member(*value, key@),
{
    match json_get(value, key) {
        Some(member) => json_is_true(member),
        None => false,
    }
}

} // verus!
