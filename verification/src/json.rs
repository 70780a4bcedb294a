//! JSON documents, built with `serde_json`.
//!
//! The documents that leave this library are `serde_json::Value`s. Verus cannot
//! look inside one, so the contracts speak of [`Json`], a mathematical model of
//! a document, and of [`json_of`], which names the document a `Value` holds.
//! The functions below are the only places where `serde_json` is called; their
//! contracts are taken from its source and are not proved.

use vstd::prelude::*;

verus! {

/// A JSON document as a mathematical value.
pub enum Json {
    Null,
    Bool(bool),
    Number(int),
    Text(Seq<char>),
    List(Seq<Json>),
    Object(Map<Seq<char>, Json>),
}

/// `serde_json::Value`, opaque to the verifier.
#[verifier::external_type_specification]
#[verifier::external_body]
pub struct ExValue(serde_json::Value);

/// `serde_json::Map`, opaque to the verifier.
#[verifier::external_type_specification]
#[verifier::external_body]
#[verifier::reject_recursive_types(K)]
#[verifier::reject_recursive_types(V)]
pub struct ExJsonMap<K, V>(serde_json::Map<K, V>);

/// The document that a `serde_json::Value` holds. It is known only of values
/// made by the functions below.
pub uninterp spec fn json_of(value: serde_json::Value) -> Json;

/// The members of a `serde_json::Map`, by key.
pub uninterp spec fn members_of(map: serde_json::Map<String, serde_json::Value>) -> Map<Seq<char>, Json>;

/// The members of an object that has none.
pub open spec fn no_members() -> Map<Seq<char>, Json> {
    Map::empty()
}

/// The documents held by a sequence of values, in the same order.
pub open spec fn jsons_of(values: Seq<serde_json::Value>) -> Seq<Json> {
    Seq::new(values.len(), |i: int| json_of(values[i]))
}

/// `Value::from(&str)`: a JSON string of the given characters.
#[verifier::external_body]
pub(crate) fn text(characters: &str) -> (value: serde_json::Value)
    ensures
        json_of(value) == Json::Text(characters@),
{
    serde_json::Value::from(characters)
}

/// `Value::from(bool)`: the JSON literal `true` or `false`.
#[verifier::external_body]
pub(crate) fn boolean(flag: bool) -> (value: serde_json::Value)
    ensures
        json_of(value) == Json::Bool(flag),
{
    serde_json::Value::from(flag)
}

/// `Value::from(i64)`: a JSON number equal to `n`.
#[verifier::external_body]
pub(crate) fn number(n: i64) -> (value: serde_json::Value)
    ensures
        json_of(value) == Json::Number(n as int),
{
    serde_json::Value::from(n)
}

/// The variant `Value::Array`: a JSON array of the given items, in order.
#[verifier::external_body]
pub(crate) fn list(items: Vec<serde_json::Value>) -> (value: serde_json::Value)
    ensures
        json_of(value) == Json::List(jsons_of(items@)),
{
    serde_json::Value::Array(items)
}

/// The variant `Value::Object`: a JSON object with the members of `map`.
#[verifier::external_body]
pub(crate) fn object(map: serde_json::Map<String, serde_json::Value>) -> (value: serde_json::Value)
    ensures
        json_of(value) == Json::Object(members_of(map)),
{
    serde_json::Value::Object(map)
}

/// `Map::new`: a map without members.
#[verifier::external_body]
pub(crate) fn empty_map() -> (fresh: serde_json::Map<String, serde_json::Value>)
    ensures
        members_of(fresh) == no_members(),
{
    serde_json::Map::new()
}

/// `Map::insert`: afterwards `key` maps to `value`, replacing what it mapped
/// to before; the other members are untouched.
#[verifier::external_body]
pub(crate) fn insert(map: &mut serde_json::Map<String, serde_json::Value>, key: &str, value: serde_json::Value)
    ensures
        members_of(*final(map)) == members_of(*old(map)).insert(key@, json_of(value)),
{
    map.insert(key.to_owned(), value);
}

} // verus!
