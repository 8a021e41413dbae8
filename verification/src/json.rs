//! JSON objects with text members, built with `serde_json`.

use vstd::prelude::*;

verus! {

/// `serde_json::Value`, carried through as an opaque value.
#[verifier::external_type_specification]
#[verifier::external_body]
pub struct ExJsonValue(serde_json::Value);

/// `serde_json::Map`, the object type of `serde_json`.
#[verifier::external_type_specification]
#[verifier::external_body]
#[verifier::reject_recursive_types(K)]
#[verifier::reject_recursive_types(V)]
pub struct ExJsonMap<K, V>(serde_json::Map<K, V>);

/// What a JSON object holds, as a map from its keys.
pub type JsonMembers = Map<Seq<char>, Option<Seq<char>>>;

/// The members of a JSON object: each key with the text of its value where
/// the value is a string, and with `None` where it is of any other kind.
pub uninterp spec fn json_members(object: serde_json::Map<String, serde_json::Value>) -> Map<
    Seq<char>,
    Option<Seq<char>>,
>;

/// `serde_json::Map::new`: an object without members.
#[verifier::external_body]
pub(crate) fn empty_object() -> (object: serde_json::Map<String, serde_json::Value>)
    ensures
        json_members(object) == JsonMembers::empty(),
{
    serde_json::Map::new()
}

/// `serde_json::Map::insert` with a `serde_json::Value::String`: the object
/// afterwards holds `text` under `key`, in place of what it held there
/// before, and every other member as it was.
#[verifier::external_body]
pub(crate) fn insert_text(
    object: &mut serde_json::Map<String, serde_json::Value>,
    key: &str,
    text: &str,
)
    ensures
        json_members(*final(object)) == json_members(*old(object)).insert(key@, Some(text@)),
{
    object.insert(key.to_owned(), serde_json::Value::String(text.to_owned()));
}

} // verus!
