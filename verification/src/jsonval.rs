//! Reading and updating the persisted GUI settings document through
//! `serde_json`. A `serde_json::Value` is opaque here: the member lookups
//! are trusted calls into `serde_json`, the handling around them is
//! verified.

use vstd::prelude::*;
use vstd::string::StringExecFns;
use crate::textutil::is_blank;

verus! {

/// Declares `serde_json::Value`, a parsed JSON document; opaque here.
#[verifier::external_type_specification]
#[verifier::external_body]
pub struct ExJsonValue(serde_json::Value);

/// Declares `serde_json::Map`, a JSON object; opaque here.
#[verifier::external_type_specification]
#[verifier::external_body]
#[verifier::reject_recursive_types(K)]
#[verifier::reject_recursive_types(V)]
pub struct ExJsonMap<K, V>(serde_json::Map<K, V>);

/// Relies on `serde_json::from_str::<Value>`: parses a JSON document.
#[verifier::external_body]
fn json_parse(s: &str) -> (r: Option<serde_json::Value>) {
    serde_json::from_str::<serde_json::Value>(s).ok()
}

/// Relies on `serde_json::Value::get` with a key: the object member.
#[verifier::external_body]
fn json_get<'a>(v: &'a serde_json::Value, key: &str) -> (r: Option<&'a serde_json::Value>) {
    v.get(key)
}

/// Relies on `serde_json::Value::as_str`: the text when the value is a
/// string.
#[verifier::external_body]
fn json_as_str<'a>(v: &'a serde_json::Value) -> (r: Option<&'a str>) {
    v.as_str()
}

/// Relies on `serde_json::from_str::<Map>`: parses a JSON document that is
/// an object.
#[verifier::external_body]
fn json_parse_object(s: &str) -> (r: Option<serde_json::Map<String, serde_json::Value>>) {
    serde_json::from_str::<serde_json::Map<String, serde_json::Value>>(s).ok()
}

/// Relies on `serde_json::Map::new`: an object with no members.
#[verifier::external_body]
fn json_empty_object() -> (r: serde_json::Map<String, serde_json::Value>) {
    serde_json::Map::new()
}

/// Relies on `serde_json::Map::insert`: sets the member to the given string.
#[verifier::external_body]
fn json_object_set_string(
    m: &mut serde_json::Map<String, serde_json::Value>,
    key: &str,
    value: &str,
) {
    m.insert(key.to_string(), serde_json::Value::String(value.to_string()));
}

/// Relies on `serde_json::Map::insert`: sets the member to JSON `null`.
#[verifier::external_body]
fn json_object_set_null(m: &mut serde_json::Map<String, serde_json::Value>, key: &str) {
    m.insert(key.to_string(), serde_json::Value::Null);
}

/// Relies on the `Display` rendering of `serde_json::Value::Object`: the
/// object serialized as one JSON document.
#[verifier::external_body]
fn json_object_render(m: serde_json::Map<String, serde_json::Value>) -> (r: String) {
    serde_json::Value::Object(m).to_string()
}

/// The persisted environment-file choice in the settings document: the
/// `snailerEnvFile` member when it is a non-blank string.
pub fn settings_env_file(text: &str) -> (r: Option<String>)
    ensures
        (r matches Some(p) ==> !crate::textutil::spec_is_blank(p@)),
{
    settings_string_member(text, "snailerEnvFile")
}

/// The persisted auth-service address in the settings document: the
/// `authAddr` member when it is a non-blank string.
pub fn settings_auth_addr(text: &str) -> (r: Option<String>)
    ensures
        (r matches Some(p) ==> !crate::textutil::spec_is_blank(p@)),
{
    settings_string_member(text, "authAddr")
}

fn settings_string_member(text: &str, key: &str) -> (r: Option<String>)
    ensures
        (r matches Some(p) ==> !crate::textutil::spec_is_blank(p@)),
{
    let parsed = json_parse(text);
    let root = match &parsed {
        Option::Some(v) => v,
        Option::None => {
            return None;
        },
    };
    let member = match json_get(root, key) {
        Option::Some(m) => m,
        Option::None => {
            return None;
        },
    };
    match json_as_str(member) {
        Option::Some(s) => {
            if is_blank(s) {
                None
            } else {
                Some(String::from_str(s))
            }
        },
        Option::None => None,
    }
}

/// The settings document with one member set to the given string, or to
/// `null` to clear it; members the document already had are kept.
pub fn settings_with_member(text: &str, key: &str, value: Option<&str>) -> (r: String) {
    let mut obj = match json_parse_object(text) {
        Option::Some(m) => m,
        Option::None => json_empty_object(),
    };
    match value {
        Option::Some(v) => json_object_set_string(&mut obj, key, v),
        Option::None => json_object_set_null(&mut obj, key),
    }
    json_object_render(obj)
}

} // verus!
