//! The JSON values of `serde_json` as this library holds them: opaque
//! documents, and objects keyed by text.

use vstd::prelude::*;

verus! {

/// `serde_json::Value`, held as an opaque document.
#[verifier::external_type_specification]
#[verifier::external_body]
pub struct ExJsonValue(serde_json::Value);

/// `serde_json::Error`, held opaque.
#[verifier::external_type_specification]
#[verifier::external_body]
pub struct ExJsonError(serde_json::Error);

/// `serde_json::Map`, known through `json_object_entries`.
#[verifier::external_type_specification]
#[verifier::external_body]
#[verifier::reject_recursive_types(K)]
#[verifier::reject_recursive_types(V)]
pub struct ExJsonMap<K, V>(serde_json::Map<K, V>);

/// `Value::clone` (derived) gives back an equal document.
pub assume_specification[ <serde_json::Value as Clone>::clone ](v: &serde_json::Value) -> (r: serde_json::Value)
    ensures
        r == *v,
;

/// An object without entries.
pub open spec fn no_entries() -> Map<Seq<char>, serde_json::Value> {
    Map::empty()
}

/// The entries of a JSON object, by key.
pub uninterp spec fn json_object_entries(m: serde_json::Map<String, serde_json::Value>) -> Map<Seq<char>, serde_json::Value>;

/// `serde_json::Map::with_capacity`: an empty object (the capacity is only
/// a hint).
#[verifier::external_body]
pub fn json_object_with_capacity(capacity: usize) -> (m: serde_json::Map<String, serde_json::Value>)
    ensures
        json_object_entries(m) == no_entries(),
{
    serde_json::Map::with_capacity(capacity)
}

/// `serde_json::Map::insert`: sets the entry of `key` to `value`, replacing
/// any earlier one, and hands back the replaced value.
#[verifier::external_body]
pub fn json_object_insert(m: &mut serde_json::Map<String, serde_json::Value>, key: String, value: serde_json::Value) -> (old_value: Option<serde_json::Value>)
    ensures
        json_object_entries(*final(m)) == json_object_entries(*old(m)).insert(key@, value),
        old_value == (if json_object_entries(*old(m)).contains_key(key@) {
            Some(json_object_entries(*old(m))[key@])
        } else {
            None
        }),
{
    m.insert(key, value)
}

} // verus!
