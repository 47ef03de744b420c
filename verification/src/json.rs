//! JSON values, built and rendered by `serde_json`.

use vstd::prelude::*;

verus! {

/// `serde_json::Value`, a JSON value. Nothing of its inside is known here.
#[verifier::external_type_specification]
#[verifier::external_body]
pub struct ExJsonValue(serde_json::Value);

/// `serde_json::Map`, the members of a JSON object. Nothing of its inside is
/// known here.
#[verifier::external_type_specification]
#[verifier::external_body]
#[verifier::reject_recursive_types(K)]
#[verifier::reject_recursive_types(V)]
pub struct ExJsonMap<K, V>(serde_json::Map<K, V>);

/// A JSON object under construction.
pub type JsonMap = serde_json::Map<String, serde_json::Value>;

/// What a JSON value holds, as far as this library builds such values:
/// nothing, a truth value, an unsigned number, a text, or an object whose
/// members are found by their keys.
pub enum JsonModel {
    /// The value `null`.
    Null,
    /// `true` or `false`.
    Bool(bool),
    /// An unsigned integer.
    Number(nat),
    /// A string.
    Text(Seq<char>),
    /// An object: its members by key.
    Object(Map<Seq<char>, JsonModel>),
}

/// What the `serde_json::Value` holds.
pub uninterp spec fn json_model(value: serde_json::Value) -> JsonModel;

/// The members of the `serde_json::Map`, by key.
pub uninterp spec fn json_members(map: JsonMap) -> Map<Seq<char>, JsonModel>;

/// An object without members.
pub open spec fn no_members() -> Map<Seq<char>, JsonModel> {
    Map::empty()
}

/// The compact JSON text that `serde_json` writes for a value: what its
/// `Display` impl gives, without the alternate flag.
pub uninterp spec fn json_text(model: JsonModel) -> Seq<char>;

/// The variant `serde_json::Value::Null`.
#[verifier::external_body]
pub(crate) fn json_null() -> (r: serde_json::Value)
    ensures
        json_model(r) == JsonModel::Null,
{
    serde_json::Value::Null
}

/// `serde_json::Value::from` on a `bool`, which gives `Value::Bool` of it.
#[verifier::external_body]
pub(crate) fn json_bool(b: bool) -> (r: serde_json::Value)
    ensures
        json_model(r) == JsonModel::Bool(b),
{
    serde_json::Value::from(b)
}

/// `serde_json::Value::from` on a `u64`, which gives `Value::Number` of the
/// same unsigned integer.
#[verifier::external_body]
pub(crate) fn json_number(n: u64) -> (r: serde_json::Value)
    ensures
        json_model(r) == JsonModel::Number(n as nat),
{
    serde_json::Value::from(n)
}

/// `serde_json::Value::from` on a `&str`, which gives `Value::String` of a
/// copy of the text.
#[verifier::external_body]
pub(crate) fn json_string(s: &str) -> (r: serde_json::Value)
    ensures
        json_model(r) == JsonModel::Text(s@),
{
    serde_json::Value::from(s)
}

/// `serde_json::Map::new`, which gives a map without members.
#[verifier::external_body]
pub(crate) fn json_map_new() -> (r: JsonMap)
    ensures
        json_members(r) == no_members(),
{
    serde_json::Map::new()
}

/// `serde_json::Map::insert`: afterwards the key stands for the new value,
/// whether or not the map held the key before, and every other member is as
/// it was.
#[verifier::external_body]
pub(crate) fn json_map_insert(map: &mut JsonMap, key: &str, value: serde_json::Value)
    ensures
        json_members(*final(map)) == json_members(*old(map)).insert(key@, json_model(value)),
{
    map.insert(key.to_owned(), value);
}

/// The variant `serde_json::Value::Object` around a map.
#[verifier::external_body]
pub(crate) fn json_object(map: JsonMap) -> (r: serde_json::Value)
    ensures
        json_model(r) == JsonModel::Object(json_members(map)),
{
    serde_json::Value::Object(map)
}

/// `to_string` on a `serde_json::Value`, which goes through its `Display`
/// impl and gives the compact JSON text of the value.
#[verifier::external_body]
pub(crate) fn json_to_string(value: &serde_json::Value) -> (r: String)
    ensures
        r@ == json_text(json_model(*value)),
{
    value.to_string()
}

} // verus!
