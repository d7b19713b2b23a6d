//! JSON values as the API layer sees them.
//!
//! The values themselves belong to the `serde_json` crate. This module says
//! what the API layer relies on: a value is null, a string, an array, an
//! object or something else, and an object is a map from keys to values.
//! Nothing here is proved of `serde_json`: each contract below restates what
//! the crate's source does.

use vstd::prelude::*;

verus! {

/// What a JSON value is to the API layer.
pub enum Json {
    /// `null`.
    Null,
    /// A string.
    Text(Seq<char>),
    /// An array, by its items in their order.
    Array(Seq<Json>),
    /// An object, by its members.
    Object(Map<Seq<char>, Json>),
    /// A boolean or a number.
    Other,
}

/// The members of an object: its values by key.
pub type Members = Map<Seq<char>, Json>;

/// `serde_json::Value`, a JSON value, known only through [`json_value`].
#[verifier::external_type_specification]
#[verifier::external_body]
pub struct ExJsonValue(serde_json::Value);

/// `serde_json::Map`, the members of a JSON object, known only through
/// [`json_members`].
#[verifier::external_type_specification]
#[verifier::external_body]
#[verifier::reject_recursive_types(K)]
#[verifier::reject_recursive_types(V)]
pub struct ExJsonMap<K, V>(serde_json::Map<K, V>);

/// The value that a `serde_json::Value` holds.
pub uninterp spec fn json_value(value: serde_json::Value) -> Json;

/// The members that a `serde_json::Map` holds, whatever their order.
pub uninterp spec fn json_members(map: serde_json::Map<String, serde_json::Value>) -> Map<
    Seq<char>,
    Json,
>;

/// `Map::new` returns a map without members.
pub assume_specification[ serde_json::Map::<String, serde_json::Value>::new ]() -> (map:
    serde_json::Map<String, serde_json::Value>)
    ensures
        json_members(map) == Members::empty(),
;

/// `Map::insert` sets the value under the key, replacing any earlier value
/// there, and returns that earlier value.
pub assume_specification[ serde_json::Map::<String, serde_json::Value>::insert ](
    map: &mut serde_json::Map<String, serde_json::Value>,
    k: String,
    v: serde_json::Value,
) -> (replaced: Option<serde_json::Value>)
    ensures
        json_members(*final(map)) == json_members(*old(map)).insert(k@, json_value(v)),
        replaced is Some <==> json_members(*old(map)).contains_key(k@),
        replaced matches Some(earlier) ==> json_value(earlier) == json_members(*old(map))[k@],
;

/// `Value::Null` is the null value.
#[verifier::external_body]
pub(crate) fn json_null() -> (value: serde_json::Value)
    ensures
        json_value(value) == Json::Null,
{
    serde_json::Value::Null
}

/// `Value::String` holds the text it was made from.
#[verifier::external_body]
pub(crate) fn json_string(text: String) -> (value: serde_json::Value)
    ensures
        json_value(value) == Json::Text(text@),
{
    serde_json::Value::String(text)
}

/// `Value::Array` holds the items it was made from, in their order.
#[verifier::external_body]
pub(crate) fn json_array(items: Vec<serde_json::Value>) -> (value: serde_json::Value)
    ensures
        json_value(value) == Json::Array(
            items@.map_values(|item: serde_json::Value| json_value(item)),
        ),
{
    serde_json::Value::Array(items)
}

/// `Value::Object` holds the members of the map it was made from.
#[verifier::external_body]
pub(crate) fn json_object(map: serde_json::Map<String, serde_json::Value>) -> (value:
    serde_json::Value)
    ensures
        json_value(value) == Json::Object(json_members(map)),
{
    serde_json::Value::Object(map)
}

} // verus!
