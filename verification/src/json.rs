//! JSON documents, held and written out by `serde_json`.
//!
//! [`Json`] says what a document is. The documents themselves are values of
//! `serde_json::Value`, which the functions at the end of this module build
//! and encode. Nothing is proved of those functions: each states what the
//! function of `serde_json` that it calls does.

use serde_json::Value;
use vstd::prelude::*;

verus! {

/// A JSON document as a mathematical value.
pub enum Json {
    Null,
    Bool(bool),
    /// A number, given by the characters that write it.
    Number(Seq<char>),
    Text(Seq<char>),
    List(Seq<Json>),
    /// An object. Its members have no order.
    Record(Map<Seq<char>, Json>),
}

impl Json {
    /// Whether this is an object with a member named `key`.
    pub open spec fn has_field(self, key: Seq<char>) -> bool {
        match self {
            Json::Record(fields) => fields.dom().contains(key),
            _ => false,
        }
    }

    /// The member named `key` of an object.
    pub open spec fn field(self, key: Seq<char>) -> Json
        recommends
            self.has_field(key),
    {
        match self {
            Json::Record(fields) => fields[key],
            _ => Json::Null,
        }
    }

    /// The number of elements of an array.
    pub open spec fn length(self) -> nat
        recommends
            self is List,
    {
        match self {
            Json::List(items) => items.len(),
            _ => 0,
        }
    }

    /// The element of an array at position `i`.
    pub open spec fn item(self, i: int) -> Json
        recommends
            0 <= i < self.length(),
    {
        match self {
            Json::List(items) => items[i],
            _ => Json::Null,
        }
    }
}

/// `serde_json::Value`, a JSON document of any kind. Verified code does not
/// look inside it.
#[verifier::external_type_specification]
#[verifier::external_body]
pub struct ExValue(serde_json::Value);

/// `serde_json::Map`, the members of a JSON object. It is a map sorted by its
/// keys as long as no crate of the build turns on the feature
/// `preserve_order` of `serde_json`, which would make it keep the order of
/// insertion. [`json_text`] relies on the sorted map.
#[verifier::external_type_specification]
#[verifier::external_body]
#[verifier::reject_recursive_types(K)]
#[verifier::reject_recursive_types(V)]
pub struct ExObject<K, V>(serde_json::Map<K, V>);

/// `serde_json::Error`, why a document could not be read or written.
#[verifier::external_type_specification]
#[verifier::external_body]
pub struct ExError(serde_json::Error);

/// The document that `value` holds.
pub uninterp spec fn json_content(value: serde_json::Value) -> Json;

/// The members that `object` holds, by their names.
pub uninterp spec fn json_members(object: serde_json::Map<String, serde_json::Value>) -> Map<
    Seq<char>,
    Json,
>;

/// The bytes that `serde_json::to_vec` writes for `document`: its compact
/// form, with the members of an object in the order of their names.
pub uninterp spec fn json_text(document: Json) -> Seq<u8>;

/// The documents that `values` hold, in the same order.
pub open spec fn json_contents(values: Seq<serde_json::Value>) -> Seq<Json> {
    values.map_values(|value: serde_json::Value| json_content(value))
}

/// An object without members.
pub open spec fn no_members() -> Map<Seq<char>, Json> {
    Map::empty()
}

/// `Value::from` on a string slice: a JSON string with the characters of `s`.
#[verifier::external_body]
pub(crate) fn text(s: &str) -> (value: Value)
    ensures
        json_content(value) == Json::Text(s@),
{
    Value::from(s)
}

/// `Value::Array`: a JSON array of the given values, in their order.
#[verifier::external_body]
pub(crate) fn list(items: Vec<Value>) -> (value: Value)
    ensures
        json_content(value) == Json::List(json_contents(items@)),
{
    Value::Array(items)
}

/// `serde_json::Map::new`: an empty map.
#[verifier::external_body]
pub(crate) fn new_object() -> (object: serde_json::Map<String, Value>)
    ensures
        json_members(object) == no_members(),
{
    serde_json::Map::new()
}

/// `serde_json::Map::insert`: `value` becomes the member named `name`, in
/// place of an earlier member of that name if there is one. The other
/// members stay.
#[verifier::external_body]
pub(crate) fn set_member(object: &mut serde_json::Map<String, Value>, name: &str, value: Value)
    ensures
        json_members(*final(object)) == json_members(*old(object)).insert(
            name@,
            json_content(value),
        ),
{
    object.insert(name.to_owned(), value);
}

/// `Value::Object`: a JSON object with the members of the map.
#[verifier::external_body]
pub(crate) fn record(object: serde_json::Map<String, Value>) -> (value: Value)
    ensures
        json_content(value) == Json::Record(json_members(object)),
{
    Value::Object(object)
}

/// `serde_json::to_vec` on a `Value`: it succeeds, and the bytes are the text
/// of the document that `value` holds. It cannot fail here, because the only
/// errors on the way of a `Value` are those of the writer, which is a vector
/// in memory, and because the names of members are always strings.
#[verifier::external_body]
pub(crate) fn encode(value: &Value) -> (encoded: Result<Vec<u8>, serde_json::Error>)
    ensures
        encoded is Ok,
        encoded matches Ok(bytes) ==> bytes@ == json_text(json_content(*value)),
{
    serde_json::to_vec(value)
}

} // verus!
