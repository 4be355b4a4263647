//! The JSON reader that the settings go through: `serde_json`, and what this
//! library takes for granted of it.
//!
//! Nothing here is proved. Each function below makes one call into
//! `serde_json`; its contract says what that call does, in terms of [`Json`].

use vstd::prelude::*;

verus! {

/// A JSON value as mathematics: what a `serde_json::Value` stands for.
///
/// The value of a number plays no part in this library and is left out.
pub enum Json {
    Null,
    Bool(bool),
    Number,
    Text(Seq<char>),
    Array(Seq<Json>),
    Object(Map<Seq<char>, Json>),
}

/// Declares `serde_json::Value`, a JSON value in memory. Nothing of its
/// inside is seen here; [`value_model`] names what it holds.
#[verifier::external_type_specification]
#[verifier::external_body]
pub struct ExValue(serde_json::Value);

/// Declares `serde_json::Error`, the reason for which a text was refused.
/// It is passed on and never looked into.
#[verifier::external_type_specification]
#[verifier::external_body]
pub struct ExError(serde_json::Error);

/// Declares `serde_json::Map`, the members of a JSON object in memory.
/// Nothing of its inside is seen here; [`members_model`] names what it holds.
#[verifier::external_type_specification]
#[verifier::external_body]
#[verifier::reject_recursive_types(K)]
#[verifier::reject_recursive_types(V)]
pub struct ExMembers<K, V>(serde_json::Map<K, V>);

/// The JSON value that `serde_json::from_slice` reads from a whole text,
/// `None` where it refuses the text.
pub uninterp spec fn parsed(text: Seq<u8>) -> Option<Json>;

/// The JSON value that a `serde_json::Value` holds.
pub uninterp spec fn value_model(value: serde_json::Value) -> Json;

/// The members that a `serde_json::Map` holds, by key.
pub uninterp spec fn members_model(members: serde_json::Map<String, serde_json::Value>) -> Map<
    Seq<char>,
    Json,
>;

/// Calls `serde_json::from_slice` for a `serde_json::Value`.
///
/// Trusted: whether the call succeeds, and the value that it then gives,
/// depend on the bytes alone. [`parsed`] is the name for both; which bytes
/// are a JSON text is not said here.
#[verifier::external_body]
pub(crate) fn parse(text: &[u8]) -> (r: Result<serde_json::Value, serde_json::Error>)
    ensures
        r is Ok <==> parsed(text@) is Some,
        r is Ok ==> value_model(r->Ok_0) == parsed(text@)->Some_0,
{
    serde_json::from_slice::<serde_json::Value>(text)
}

/// Calls `serde_json::Value::as_object`.
///
/// Trusted: the members come back exactly where the value is an object.
#[verifier::external_body]
pub(crate) fn as_object(value: &serde_json::Value) -> (r: Option<
    &serde_json::Map<String, serde_json::Value>,
>)
    ensures
        r is Some <==> value_model(*value) is Object,
        r is Some ==> members_model(*r->Some_0) == value_model(*value)->Object_0,
{
    value.as_object()
}

/// Calls `serde_json::Map::get`.
///
/// Trusted: the member under `key` comes back exactly where there is one.
#[verifier::external_body]
pub(crate) fn member<'a>(
    members: &'a serde_json::Map<String, serde_json::Value>,
    key: &str,
) -> (r: Option<&'a serde_json::Value>)
    ensures
        r is Some <==> members_model(*members).contains_key(key@),
        r is Some ==> value_model(*r->Some_0) == members_model(*members)[key@],
{
    members.get(key)
}

/// Calls `serde_json::Value::as_str`.
///
/// Trusted: the text comes back exactly where the value is a string.
#[verifier::external_body]
pub(crate) fn as_text(value: &serde_json::Value) -> (r: Option<&str>)
    ensures
        r is Some <==> value_model(*value) is Text,
        r is Some ==> r->Some_0@ == value_model(*value)->Text_0,
{
    value.as_str()
}

} // verus!
