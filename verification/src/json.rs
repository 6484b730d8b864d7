//! JSON documents as plain values.

use vstd::prelude::*;

verus! {

/// A JSON value. A number is kept as the digits that write it.
#[derive(Debug, PartialEq, Eq)]
pub enum Json {
    Null,
    Bool(bool),
    Number(String),
    Text(String),
    List(Vec<Json>),
    Object(Vec<(String, Json)>),
}

/// `serde_json::Error`, why `serde_json` rejects a document. It is carried
/// through and never looked into.
#[verifier::external_type_specification]
#[verifier::external_body]
pub struct ExJsonError(serde_json::Error);

/// `serde_json::Value`, a document as `serde_json` holds it. Only the
/// copying into a [`Json`] looks into it.
#[verifier::external_type_specification]
#[verifier::external_body]
pub struct ExJsonValue(serde_json::Value);

/// The document that `serde_json` reads out of some bytes, if it accepts
/// them.
pub uninterp spec fn parsed(bytes: Seq<u8>) -> Option<Json>;

/// Copies a `serde_json::Value` into a [`Json`], variant by variant. The
/// members of an object come in the order in which the value's map yields
/// them.
#[verifier::external_body]
fn json_of(value: serde_json::Value) -> Json {
    match value {
        serde_json::Value::Null => Json::Null,
        serde_json::Value::Bool(flag) => Json::Bool(flag),
        serde_json::Value::Number(number) => Json::Number(number.to_string()),
        serde_json::Value::String(text) => Json::Text(text),
        serde_json::Value::Array(items) => Json::List(items.into_iter().map(json_of).collect()),
        serde_json::Value::Object(members) => Json::Object(
            members.into_iter().map(|(name, member)| (name, json_of(member))).collect(),
        ),
    }
}

/// Reads a document with `serde_json::from_slice`, which accepts exactly one
/// JSON value with nothing but white space around it and does not panic. What
/// it makes of given bytes depends on the bytes alone; the contract only
/// gives the outcome its name.
#[verifier::external_body]
fn read_value(bytes: &[u8]) -> (r: Result<Json, serde_json::Error>)
    ensures
        parsed(bytes@) == match r {
            Ok(document) => Some(document),
            Err(_) => None,
        },
{
    serde_json::from_slice::<serde_json::Value>(bytes).map(json_of)
}

/// Reads a JSON document.
pub fn parse(bytes: &[u8]) -> (r: Option<Json>)
    ensures
        r == parsed(bytes@),
{
    match read_value(bytes) {
        Ok(document) => Some(document),
        Err(_) => None,
    }
}

} // verus!
