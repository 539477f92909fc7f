//! The JSON documents that travel through the worker.
//!
//! Documents are `serde_json::Value`s, built and read by `serde_json` itself.
//! The verifier cannot look inside one, so this module names what the
//! accessors of `serde_json` return and states, for the few constructors and
//! accessors that the worker calls, how they relate. Those statements, on the
//! items marked `external_body`, are taken from the source of `serde_json`
//! and believed, not proved. What the worker makes of documents — reading the
//! key of an event, assembling the payload of a batch — is proved from them.

use serde_json::Value;
use vstd::prelude::*;

verus! {

/// `serde_json::Value`, a JSON document. Opaque to the verifier.
#[verifier::external_type_specification]
#[verifier::external_body]
pub struct ExValue(serde_json::Value);

/// `serde_json::Map`, the members of a JSON object. Opaque to the verifier.
#[verifier::external_type_specification]
#[verifier::external_body]
#[verifier::reject_recursive_types(K)]
#[verifier::reject_recursive_types(V)]
pub struct ExMap<K, V>(serde_json::Map<K, V>);

/// What `Value::is_null` returns: whether the document is JSON `null`.
pub uninterp spec fn json_is_null(value: Value) -> bool;

/// What `Value::as_str` returns: the text of a JSON string, `None` for any
/// other kind of document.
pub uninterp spec fn json_as_str(value: Value) -> Option<Seq<char>>;

/// What `Value::as_array` returns: the elements of a JSON array in order,
/// `None` for any other kind of document.
pub uninterp spec fn json_as_array(value: Value) -> Option<Seq<Value>>;

/// What `Value::as_object` returns: the members of a JSON object by key,
/// `None` for any other kind of document.
pub uninterp spec fn json_as_object(value: Value) -> Option<Map<Seq<char>, Value>>;

/// The members that a `serde_json::Map` holds, by key.
pub uninterp spec fn map_entries(map: serde_json::Map<String, Value>) -> Map<Seq<char>, Value>;

/// What `serde_json::from_slice` makes of a byte string at type `Value`: the
/// document that the bytes encode, or the text of the parser's error.
pub uninterp spec fn json_from_slice(bytes: Seq<u8>) -> Result<Value, Seq<char>>;

/// The member of an object stored under `key`; `None` where the document is
/// no object or has no such member.
pub open spec fn json_member(value: Value, key: Seq<char>) -> Option<Value> {
    match json_as_object(value) {
        Some(members) => if members.contains_key(key) {
            Some(members[key])
        } else {
            None
        },
        None => None,
    }
}

/// `Value::Null`: the document is JSON `null`.
#[verifier::external_body]
pub(crate) fn null_value() -> (value: Value)
    ensures
        json_is_null(value),
{
    Value::Null
}

/// `Value::String`: a JSON string with exactly the given text.
#[verifier::external_body]
pub(crate) fn string_value(text: String) -> (value: Value)
    ensures
        json_as_str(value) == Some(text@),
{
    Value::String(text)
}

/// `Value::Array`: a JSON array holding the given documents in the given order.
#[verifier::external_body]
pub(crate) fn array_value(items: Vec<Value>) -> (value: Value)
    ensures
        json_as_array(value) == Some(items@),
{
    Value::Array(items)
}

/// `Value::Object`: a JSON object whose members are those of the map.
#[verifier::external_body]
pub(crate) fn object_value(members: serde_json::Map<String, Value>) -> (value: Value)
    ensures
        json_as_object(value) == Some(map_entries(members)),
{
    Value::Object(members)
}

/// `serde_json::Map::new`: a map without members.
#[verifier::external_body]
pub(crate) fn new_map() -> (members: serde_json::Map<String, Value>)
    ensures
        map_entries(members) =~= Map::empty(),
{
    serde_json::Map::new()
}

/// `serde_json::Map::insert`: afterwards the map holds `value` under `key`,
/// in place of what it held there before; other members are untouched.
#[verifier::external_body]
pub(crate) fn map_insert(members: &mut serde_json::Map<String, Value>, key: &str, value: Value)
    ensures
        map_entries(*final(members)) == map_entries(*old(members)).insert(key@, value),
{
    members.insert(key.to_owned(), value);
}

/// `Value::get` with a string index: the member under `key` where the
/// document is an object that has one, else `None`.
#[verifier::external_body]
pub(crate) fn value_get<'a>(value: &'a Value, key: &str) -> (member: Option<&'a Value>)
    ensures
        match member {
            Some(found) => json_member(*value, key@) == Some(*found),
            None => json_member(*value, key@) is None,
        },
{
    value.get(key)
}

/// `Value::as_str`: the text where the document is a JSON string, else `None`.
#[verifier::external_body]
pub(crate) fn value_as_str<'a>(value: &'a Value) -> (text: Option<&'a str>)
    ensures
        match text {
            Some(s) => json_as_str(*value) == Some(s@),
            None => json_as_str(*value) is None,
        },
{
    value.as_str()
}

/// `serde_json::from_slice` at type `Value`: the parsed document, or the
/// parser's error rendered as text. The outcome depends on the bytes alone.
#[verifier::external_body]
pub(crate) fn parse_json(bytes: &[u8]) -> (parsed: Result<Value, String>)
    ensures
        match parsed {
            Ok(value) => (json_from_slice(bytes@) matches Ok(document) && document == value),
            Err(message) => (json_from_slice(bytes@) matches Err(text) && text == message@),
        },
{
    match serde_json::from_slice::<Value>(bytes) {
        Ok(value) => Ok(value),
        Err(error) => Err(error.to_string()),
    }
}

/// The API key that an event carries: the string under `"api_key"`.
pub open spec fn spec_event_api_key(event: Value) -> Option<Seq<char>> {
    match json_member(event, "api_key"@) {
        Some(member) => json_as_str(member),
        None => None,
    }
}

/// Whether `body` is the payload of a batch: an object with exactly the
/// members `"api_key"`, a string, and `"batch"`, the array of `events`.
pub open spec fn is_batch_body(body: Value, api_key: Seq<char>, events: Seq<Value>) -> bool {
    &&& json_as_object(body) matches Some(members)
    &&& members.dom() =~= set!["api_key"@, "batch"@]
    &&& json_as_str(members["api_key"@]) == Some(api_key)
    &&& json_as_array(members["batch"@]) == Some(events)
}

/// Reads the API key that an event carries.
pub fn event_api_key(event: &Value) -> (key: Option<String>)
    ensures
        match key {
            Some(k) => spec_event_api_key(*event) == Some(k@),
            None => spec_event_api_key(*event) is None,
        },
{
    match value_get(event, "api_key") {
        Some(member) => match value_as_str(member) {
            Some(text) => Some(text.to_owned()),
            None => None,
        },
        None => None,
    }
}

/// Assembles the payload of a batch from the shared key and the events.
pub fn batch_body(api_key: String, events: Vec<Value>) -> (body: Value)
    ensures
        is_batch_body(body, api_key@, events@),
{
    let mut members = new_map();
    map_insert(&mut members, "api_key", string_value(api_key));
    map_insert(&mut members, "batch", array_value(events));
    proof {
        reveal_strlit("api_key");
        reveal_strlit("batch");
        assert("api_key"@.len() != "batch"@.len());
    }
    object_value(members)
}

} // verus!
