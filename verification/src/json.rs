//! JSON values, as `serde_json` holds them.
//!
//! A `serde_json::Value` is opaque here: [`json_contents`] names what it holds, and the functions
//! of this module, each around one call into `serde_json`, say over that name what the call does.

use vstd::prelude::*;

verus! {

/// Makes `serde_json::Value` known as an opaque type.
#[verifier::external_type_specification]
#[verifier::external_body]
pub struct ExJsonValue(serde_json::Value);

/// Makes `serde_json::Error` known as an opaque type.
#[verifier::external_type_specification]
#[verifier::external_body]
pub struct ExJsonError(serde_json::Error);

/// Makes `serde_json::Map` known as an opaque type.
#[verifier::external_type_specification]
#[verifier::external_body]
#[verifier::reject_recursive_types(K)]
#[verifier::reject_recursive_types(V)]
pub struct ExJsonMap<K, V>(serde_json::Map<K, V>);

/// What a JSON value holds.
pub enum JsonContents {
    Null,
    Bool(bool),
    /// A number that is stored as an unsigned integer.
    Unsigned(u64),
    /// Any other number.
    OtherNumber,
    Text(Seq<char>),
    Array(Seq<serde_json::Value>),
    Object(Map<Seq<char>, serde_json::Value>),
}

/// What the value `v` holds.
pub uninterp spec fn json_contents(v: serde_json::Value) -> JsonContents;

/// The members of the object `m`.
pub uninterp spec fn object_entries(m: serde_json::Map<String, serde_json::Value>) -> Map<
    Seq<char>,
    serde_json::Value,
>;

/// The value that a JSON text stands for; `None` where the text is no JSON.
pub uninterp spec fn json_parsed(text: Seq<char>) -> Option<serde_json::Value>;

/// The value as a JSON text on several lines; `None` where it has none.
pub uninterp spec fn json_pretty(v: serde_json::Value) -> Option<Seq<char>>;

/// The member of `v` with the given key, where `v` is an object that has one.
pub open spec fn json_member(v: serde_json::Value, key: Seq<char>) -> Option<serde_json::Value> {
    match json_contents(v) {
        JsonContents::Object(entries) => if entries.contains_key(key) {
            Some(entries[key])
        } else {
            None
        },
        _ => None,
    }
}

/// The items of `v`, where it is an array.
pub open spec fn json_items(v: serde_json::Value) -> Option<Seq<serde_json::Value>> {
    match json_contents(v) {
        JsonContents::Array(items) => Some(items),
        _ => None,
    }
}

/// The text of `v`, where it is a string.
pub open spec fn json_text(v: serde_json::Value) -> Option<Seq<char>> {
    match json_contents(v) {
        JsonContents::Text(s) => Some(s),
        _ => None,
    }
}

/// The number `v`, where it is stored as an unsigned integer.
pub open spec fn json_unsigned(v: serde_json::Value) -> Option<u64> {
    match json_contents(v) {
        JsonContents::Unsigned(n) => Some(n),
        _ => None,
    }
}

/// Calls `serde_json::from_str` for a `Value`. The result depends on the text alone: the value
/// that the text stands for, or an error where it is no JSON.
#[verifier::external_body]
pub(crate) fn parse_json(text: &str) -> (r: Result<serde_json::Value, serde_json::Error>)
    ensures
        match r {
            Ok(v) => json_parsed(text@) == Some(v),
            Err(_) => json_parsed(text@) is None,
        },
{
    serde_json::from_str(text)
}

/// Calls `Value::get` with a string key: the member of an object with that key, and `None` where
/// there is none or the value is no object.
#[verifier::external_body]
pub(crate) fn get_member<'a>(v: &'a serde_json::Value, key: &str) -> (r: Option<
    &'a serde_json::Value,
>)
    ensures
        match json_contents(*v) {
            JsonContents::Object(entries) => match r {
                Some(m) => entries.contains_key(key@) && entries[key@] == *m,
                None => !entries.contains_key(key@),
            },
            _ => r is None,
        },
{
    v.get(key)
}

/// Calls `Value::as_array`: the items of an array, in order, and `None` for any other value.
#[verifier::external_body]
pub(crate) fn as_items<'a>(v: &'a serde_json::Value) -> (r: Option<&'a Vec<serde_json::Value>>)
    ensures
        match json_contents(*v) {
            JsonContents::Array(items) => r matches Some(found) && found@ == items,
            _ => r is None,
        },
{
    v.as_array()
}

/// Calls `Value::as_str`: the text of a string, and `None` for any other value.
#[verifier::external_body]
pub(crate) fn as_text<'a>(v: &'a serde_json::Value) -> (r: Option<&'a str>)
    ensures
        match json_contents(*v) {
            JsonContents::Text(s) => r matches Some(found) && found@ == s,
            _ => r is None,
        },
{
    v.as_str()
}

/// Calls `Value::as_u64`: a number that is stored as an unsigned integer, and `None` for any other
/// value, among them a number that is stored as a float.
#[verifier::external_body]
pub(crate) fn as_unsigned(v: &serde_json::Value) -> (r: Option<u64>)
    ensures
        match json_contents(*v) {
            JsonContents::Unsigned(n) => r == Some(n),
            _ => r is None,
        },
{
    v.as_u64()
}

/// Calls `Value::as_object` and clones the object: its members, and `None` for any other value.
#[verifier::external_body]
pub(crate) fn as_object(v: &serde_json::Value) -> (r: Option<
    serde_json::Map<String, serde_json::Value>,
>)
    ensures
        match json_contents(*v) {
            JsonContents::Object(entries) => r matches Some(m) && object_entries(m) == entries,
            _ => r is None,
        },
{
    v.as_object().cloned()
}

/// Calls `serde_json::Map::new`: an object without members.
#[verifier::external_body]
pub(crate) fn new_object() -> (m: serde_json::Map<String, serde_json::Value>)
    ensures
        (object_entries(m) == Map::<Seq<char>, serde_json::Value>::empty()),
{
    serde_json::Map::new()
}

/// Calls `serde_json::Map::insert`: the object then has the value under the key, in place of what
/// it had there.
#[verifier::external_body]
pub(crate) fn insert_member(
    m: &mut serde_json::Map<String, serde_json::Value>,
    key: &str,
    value: serde_json::Value,
)
    ensures
        object_entries(*final(m)) == object_entries(*old(m)).insert(key@, value),
{
    m.insert(key.to_string(), value);
}

/// Calls `serde_json::Map::remove`: the object then has nothing under the key.
#[verifier::external_body]
pub(crate) fn remove_member(m: &mut serde_json::Map<String, serde_json::Value>, key: &str)
    ensures
        object_entries(*final(m)) == object_entries(*old(m)).remove(key@),
{
    m.remove(key);
}

/// Makes a `Value::String` of a text.
#[verifier::external_body]
pub(crate) fn text_value(s: String) -> (v: serde_json::Value)
    ensures
        json_contents(v) == JsonContents::Text(s@),
{
    serde_json::Value::String(s)
}

/// Makes a `Value::Object` of an object.
#[verifier::external_body]
pub(crate) fn object_value(m: serde_json::Map<String, serde_json::Value>) -> (v: serde_json::Value)
    ensures
        json_contents(v) == JsonContents::Object(object_entries(m)),
{
    serde_json::Value::Object(m)
}

/// Calls `serde_json::to_string_pretty` on a value. The result depends on the value alone.
#[verifier::external_body]
pub(crate) fn pretty_text(v: &serde_json::Value) -> (r: Result<String, serde_json::Error>)
    ensures
        match r {
            Ok(text) => json_pretty(*v) == Some(text@),
            Err(_) => json_pretty(*v) is None,
        },
{
    serde_json::to_string_pretty(v)
}

/// `Value::clone` gives the same value again.
pub assume_specification[ <serde_json::Value as Clone>::clone ](v: &serde_json::Value) -> (r:
    serde_json::Value)
    ensures
        r == *v,
;

} // verus!
