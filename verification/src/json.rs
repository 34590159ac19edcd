use vstd::prelude::*;
use serde_json::Value;

verus! {

/// The JSON value type of `serde_json`, carried through opaquely where a field
/// of the service's answers may hold any JSON (or `null`).
#[verifier::external_type_specification]
#[verifier::external_body]
pub struct ExJsonValue(Value);

/// The text of the string member `key` of the JSON object written in `text`, as
/// `serde_json` reads it: `None` where `text` is not valid JSON, is not an object,
/// has no member `key`, or that member is not a string.
pub uninterp spec fn json_string_member_of(text: Seq<char>, key: Seq<char>) -> Option<Seq<char>>;

/// The boolean member `key` of the JSON object written in `text`, as `serde_json`
/// reads it: `None` where `text` is not valid JSON, is not an object, has no member
/// `key`, or that member is not a boolean.
pub uninterp spec fn json_bool_member_of(text: Seq<char>, key: Seq<char>) -> Option<bool>;

/// Parses `text` with `serde_json::from_str::<serde_json::Value>` and reads the
/// member `key` with `Value::get`, keeping it where it is a JSON string. The
/// contract ties the result to `json_string_member_of(text, key)` and says no more
/// of it: what that is on given texts is `serde_json`'s parser.
#[verifier::external_body]
pub(crate) fn json_string_member(text: &str, key: &str) -> (r: Option<String>)
    ensures
        r is Some <==> json_string_member_of(text@, key@) is Some,
        r matches Some(s) ==> json_string_member_of(text@, key@) == Some(s@),
{
    match serde_json::from_str::<Value>(text) {
        Ok(v) => match v.get(key) {
            Some(Value::String(s)) => Some(s.clone()),
            _ => None,
        },
        Err(_) => None,
    }
}

/// Parses `text` with `serde_json::from_str::<serde_json::Value>` and reads the
/// member `key` with `Value::get`, keeping it where it is a JSON boolean. The
/// contract ties the result to `json_bool_member_of(text, key)` and says no more
/// of it.
#[verifier::external_body]
pub(crate) fn json_bool_member(text: &str, key: &str) -> (r: Option<bool>)
    ensures
        r == json_bool_member_of(text@, key@),
{
    match serde_json::from_str::<Value>(text) {
        Ok(v) => match v.get(key) {
            Some(Value::Bool(b)) => Some(*b),
            _ => None,
        },
        Err(_) => None,
    }
}

} // verus!
