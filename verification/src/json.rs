//! Reading JSON documents with `serde_json`.
//!
//! A document is kept as the parser's own `serde_json::Value`. The contracts
//! speak of one projection of it: the members of its top-level object whose
//! values are strings.

use vstd::prelude::*;

verus! {

#[verifier::external_type_specification]
#[verifier::external_body]
pub struct ExJsonValue(serde_json::Value);

#[verifier::external_type_specification]
#[verifier::external_body]
pub struct ExJsonError(serde_json::Error);

/// The string-valued members of a document's top-level object, by key. A
/// document that is not an object has none.
pub uninterp spec fn text_members(doc: serde_json::Value) -> Map<Seq<char>, Seq<char>>;

/// What `serde_json::from_slice` makes of a byte string: nothing when the
/// bytes are not one JSON document, else the string-valued members of the
/// document they spell.
pub uninterp spec fn parsed_text_members(body: Seq<u8>) -> Option<Map<Seq<char>, Seq<char>>>;

/// Calls `serde_json::from_slice` for a `serde_json::Value`. Trusted: parsing
/// is a function of the bytes alone, so an accepted document has the members
/// that `parsed_text_members` names, and bytes are rejected exactly when it
/// names none.
#[verifier::external_body]
pub(crate) fn parse_document(body: &[u8]) -> (parsed: Result<serde_json::Value, serde_json::Error>)
    ensures
        match parsed {
            Ok(doc) => parsed_text_members(body@) == Some(text_members(doc)),
            Err(_) => parsed_text_members(body@) is None,
        },
{
    serde_json::from_slice::<serde_json::Value>(body)
}

/// Calls `serde_json::Value::get` with a string key and keeps the member when
/// it is a JSON string. Trusted: `get` finds a member only in an object that
/// has the key, so the result is the entry of `text_members` under `key`, and
/// `None` when there is no such entry.
#[verifier::external_body]
pub(crate) fn text_member(doc: &serde_json::Value, key: &str) -> (member: Option<String>)
    ensures
        match member {
            Some(text) => text_members(*doc).contains_key(key@) && text_members(*doc)[key@]
                == text@,
            None => !text_members(*doc).contains_key(key@),
        },
{
    match doc.get(key) {
        Some(serde_json::Value::String(text)) => Some(text.clone()),
        _ => None,
    }
}

} // verus!
