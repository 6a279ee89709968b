//! JSON documents: those that the library carries and never reads, and
//! those that it puts together.
use vstd::prelude::*;

verus! {

/// A JSON document of `serde_json`. The library stores such documents and
/// hands them on unread, so nothing is known of what one holds.
#[verifier::external_type_specification]
#[verifier::external_body]
pub struct ExValue(serde_json::Value);

/// `Clone` of `serde_json::Value`, which the crate derives. Trusted: the
/// copy is the same document.
pub assume_specification[ <serde_json::Value as Clone>::clone ](
    v: &serde_json::Value,
) -> (r: serde_json::Value)
    ensures
        r == *v,
;

/// Calls `serde_json::Map::new` and wraps the map in a `Value`: the JSON
/// object without members. Trusted; nothing is claimed of the result.
#[verifier::external_body]
pub(crate) fn json_empty_object() -> serde_json::Value {
    serde_json::Value::Object(serde_json::Map::new())
}

/// A JSON document that the library puts together: the documents that
/// were handed to it, and arrays and objects made of such.
#[derive(Debug)]
pub enum Json {
    /// A document as it was handed in.
    Value(serde_json::Value),
    /// An array: its items, in order.
    Array(Vec<Json>),
    /// An object: its members in order, each a name and a document.
    Object(Vec<(String, Json)>),
}

/// `doc` is the object with the one member `name`, whose value is the
/// object with the one member `path`, whose value is the document `value`.
pub open spec fn is_nested_member(
    doc: Json,
    name: Seq<char>,
    path: Seq<char>,
    value: serde_json::Value,
) -> bool {
    &&& doc matches Json::Object(outer)
    &&& outer@.len() == 1
    &&& outer@[0].0@ == name
    &&& outer@[0].1 matches Json::Object(inner)
    &&& inner@.len() == 1
    &&& inner@[0].0@ == path
    &&& inner@[0].1 == Json::Value(value)
}

} // verus!
