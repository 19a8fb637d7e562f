//! JSON documents as mathematical values, and `serde_json::Value` behind
//! contracts that speak of them.

use vstd::prelude::*;

verus! {

/// A JSON document whose numbers are integers.
pub enum Json {
    Null,
    Bool(bool),
    Number(int),
    Text(Seq<char>),
    Array(Seq<Json>),
    Object(Map<Seq<char>, Json>),
}

impl Json {
    /// The keys of an object; no key for any other document.
    pub open spec fn keys(self) -> Set<Seq<char>> {
        match self {
            Json::Object(members) => members.dom(),
            _ => Set::empty(),
        }
    }

    /// Whether the document is an object with a member under `key`.
    pub open spec fn has(self, key: Seq<char>) -> bool {
        self.keys().contains(key)
    }

    /// The member under `key` of an object that has one.
    pub open spec fn member(self, key: Seq<char>) -> Json
        recommends
            self.has(key),
    {
        match self {
            Json::Object(members) => members[key],
            _ => Json::Null,
        }
    }

    /// The elements of an array, in order; none for any other document.
    pub open spec fn elements(self) -> Seq<Json> {
        match self {
            Json::Array(items) => items,
            _ => Seq::empty(),
        }
    }
}

/// `serde_json::Value`, of which nothing is known but what `document`
/// tells.
#[verifier::external_type_specification]
#[verifier::external_body]
pub struct ExValue(serde_json::Value);

/// `serde_json::Map`, of which nothing is known but what `members` tells.
#[verifier::external_type_specification]
#[verifier::external_body]
#[verifier::reject_recursive_types(K)]
#[verifier::reject_recursive_types(V)]
pub struct ExMap<K, V>(serde_json::Map<K, V>);

/// The document that a `serde_json::Value` holds. Of a value with a number
/// that is no integer nothing is said.
pub uninterp spec fn document(value: serde_json::Value) -> Json;

/// The members that a `serde_json::Map` holds, by key.
pub uninterp spec fn members(object: serde_json::Map<String, serde_json::Value>) -> Map<
    Seq<char>,
    Json,
>;

/// The members of an object without any.
pub open spec fn no_members() -> Map<Seq<char>, Json> {
    Map::empty()
}

/// The documents that a sequence of values holds, in order.
pub open spec fn documents(values: Seq<serde_json::Value>) -> Seq<Json> {
    values.map_values(|value: serde_json::Value| document(value))
}

/// `serde_json::Value::Null`: the JSON null.
#[verifier::external_body]
pub(crate) fn null() -> (value: serde_json::Value)
    ensures
        document(value) == Json::Null,
{
    serde_json::Value::Null
}

/// `serde_json::Value::Bool`: the JSON boolean of that truth value.
#[verifier::external_body]
pub(crate) fn boolean(flag: bool) -> (value: serde_json::Value)
    ensures
        document(value) == Json::Bool(flag),
{
    serde_json::Value::Bool(flag)
}

/// `serde_json::Value::from` on an `i32`: the JSON number of that integer.
#[verifier::external_body]
pub(crate) fn integer(number: i32) -> (value: serde_json::Value)
    ensures
        document(value) == Json::Number(number as int),
{
    serde_json::Value::from(number)
}

/// `serde_json::Value::String`: the JSON string of those characters.
#[verifier::external_body]
pub(crate) fn text(characters: String) -> (value: serde_json::Value)
    ensures
        document(value) == Json::Text(characters@),
{
    serde_json::Value::String(characters)
}

/// `serde_json::Value::Array`: the JSON array of the given values, in their
/// order.
#[verifier::external_body]
pub(crate) fn array(items: Vec<serde_json::Value>) -> (value: serde_json::Value)
    ensures
        document(value) == Json::Array(documents(items@)),
{
    serde_json::Value::Array(items)
}

/// `serde_json::Map::new`: a map without members.
#[verifier::external_body]
pub(crate) fn empty_object() -> (object: serde_json::Map<String, serde_json::Value>)
    ensures
        members(object) == no_members(),
{
    serde_json::Map::new()
}

/// `serde_json::Map::insert`: the member under `key` becomes `value`, and
/// every other member stays as it was.
#[verifier::external_body]
pub(crate) fn put(
    object: &mut serde_json::Map<String, serde_json::Value>,
    key: &str,
    value: serde_json::Value,
)
    ensures
        members(*final(object)) == members(*old(object)).insert(key@, document(value)),
{
    object.insert(String::from(key), value);
}

/// `serde_json::Value::Object`: the JSON object with the members of the map.
#[verifier::external_body]
pub(crate) fn object(entries: serde_json::Map<String, serde_json::Value>) -> (value:
    serde_json::Value)
    ensures
        document(value) == Json::Object(members(entries)),
{
    serde_json::Value::Object(entries)
}

} // verus!
