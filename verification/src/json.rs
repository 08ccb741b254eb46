//! The JSON that crosses the bridge, read and written by `serde_json`.
//!
//! Nothing in this file is proved: each function states what the crate's
//! verified code takes on trust about `serde_json`.

use vstd::prelude::*;

verus! {

/// A parsed JSON document, as `serde_json` holds it.
#[verifier::external_type_specification]
#[verifier::external_body]
pub struct ExJsonValue(serde_json::Value);

/// The members of a document that hold a JSON string, by member name. A
/// document that is not an object has none.
pub uninterp spec fn text_members(document: serde_json::Value) -> Map<Seq<char>, Seq<char>>;

/// The text members of the document that `bytes` spell, or `None` where
/// `bytes` are not one complete JSON text.
pub uninterp spec fn parsed_text_members(bytes: Seq<u8>) -> Option<Map<Seq<char>, Seq<char>>>;

/// The JSON string literal that stands for `text`: the text between double
/// quotes, with the characters that JSON does not allow there escaped.
pub uninterp spec fn string_literal(text: Seq<char>) -> Seq<char>;

/// Calls `serde_json::from_slice` for a `serde_json::Value`. Claims that
/// whether the bytes parse, and the text members of the document they give,
/// depend on the bytes alone.
#[verifier::external_body]
pub(crate) fn parse_document(bytes: &[u8]) -> (document: Option<serde_json::Value>)
    ensures
        match document {
            Some(d) => parsed_text_members(bytes@) == Some(text_members(d)),
            None => parsed_text_members(bytes@) is None,
        },
{
    serde_json::from_slice::<serde_json::Value>(bytes).ok()
}

/// Calls `serde_json::Value::get` with a member name. Claims that the result
/// is the member's text where the document is an object that has the member
/// and the member is a JSON string, and `None` otherwise.
#[verifier::external_body]
pub(crate) fn text_member(document: &serde_json::Value, key: &str) -> (text: Option<String>)
    ensures
        match text {
            Some(t) => text_members(*document).contains_key(key@) && text_members(
                *document,
            )[key@] == t@,
            None => !text_members(*document).contains_key(key@),
        },
{
    match document.get(key) {
        Some(serde_json::Value::String(t)) => Some(t.clone()),
        _ => None,
    }
}

/// Calls `serde_json::to_string` on a string slice. Claims that the call
/// succeeds, since writing a string to memory cannot fail, and that the
/// literal it gives depends on the text alone.
#[verifier::external_body]
pub(crate) fn quote(text: &str) -> (quoted: Option<String>)
    ensures
        quoted is Some,
        quoted.unwrap()@ == string_literal(text@),
{
    serde_json::to_string(text).ok()
}

} // verus!
