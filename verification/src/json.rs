//! Trusted boundary to the JSON library.
//!
//! Payloads are opaque byte strings to the protocol core; the only questions
//! it ever asks of them are whether they parse as JSON and what a named
//! top-level field of a JSON object is. Both answers are functions of the
//! bytes and the key alone, so they are given names that the rest of the
//! library reasons with.

use vstd::prelude::*;

verus! {

/// Whether `bytes` form one well-formed JSON document.
pub uninterp spec fn is_valid_json(bytes: Seq<u8>) -> bool;

/// The field named `key` of the JSON object in `doc`, re-serialized, or
/// `None` when `doc` is not a JSON object or has no such field.
pub uninterp spec fn json_field_of(doc: Seq<u8>, key: Seq<char>) -> Option<Seq<u8>>;

/// The unsigned-integer field named `key` of the JSON object in `doc`, or
/// `None` when there is no such field or it is not an unsigned integer.
pub uninterp spec fn json_u64_field_of(doc: Seq<u8>, key: Seq<char>) -> Option<u64>;

/// The key of the desired section of a full twin document.
pub open spec fn desired_key() -> Seq<char> {
    "desired"@
}

/// The key of the reported section of a full twin document.
pub open spec fn reported_key() -> Seq<char> {
    "reported"@
}

/// The key of the version field of a twin document section.
pub open spec fn version_key() -> Seq<char> {
    "$version"@
}

/// Relies on `serde_json::from_slice::<serde_json::Value>`: whether bytes
/// parse as one JSON document is a function of the bytes alone.
#[verifier::external_body]
pub(crate) fn json_is_valid(payload: &Vec<u8>) -> (r: bool)
    ensures
        r == is_valid_json(payload@),
{
    serde_json::from_slice::<serde_json::Value>(payload).is_ok()
}

/// Relies on `serde_json::from_slice`, `serde_json::Value::get` and
/// `serde_json::to_vec`: the named field of the JSON object in `doc`,
/// re-serialized; a function of the document bytes and the key alone.
#[verifier::external_body]
pub(crate) fn json_object_field(doc: &Vec<u8>, key: &str) -> (r: Option<Vec<u8>>)
    ensures
        match r {
            Some(v) => json_field_of(doc@, key@) == Some(v@),
            None => json_field_of(doc@, key@) is None,
        },
{
    let value: serde_json::Value = match serde_json::from_slice(doc) {
        Ok(value) => value,
        Err(_) => return None,
    };
    match value.get(key) {
        Some(field) => serde_json::to_vec(field).ok(),
        None => None,
    }
}

/// Relies on `serde_json::from_slice`, `serde_json::Value::get` and
/// `serde_json::Value::as_u64`: the named unsigned-integer field of the
/// JSON object in `doc`; a function of the document bytes and the key alone.
#[verifier::external_body]
pub(crate) fn json_u64_field(doc: &Vec<u8>, key: &str) -> (r: Option<u64>)
    ensures
        r == json_u64_field_of(doc@, key@),
{
    let value: serde_json::Value = match serde_json::from_slice(doc) {
        Ok(value) => value,
        Err(_) => return None,
    };
    match value.get(key) {
        Some(field) => field.as_u64(),
        None => None,
    }
}

} // verus!
