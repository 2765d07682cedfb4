//! What this crate takes on trust of `serde_json`: reading a text as a JSON
//! document, looking a member up by its key, and reading a value as an
//! unsigned integer. None of the three is proved here; each contract says
//! which call it stands for.

use vstd::prelude::*;

verus! {

/// `serde_json::Value`, a JSON document or a part of one. Nothing of its
/// inside is known here; it is only carried from one call to the next.
#[verifier::external_type_specification]
#[verifier::external_body]
pub struct ExJsonValue(serde_json::Value);

/// `serde_json::Error`, the reason why a text is no JSON document. Nothing
/// of its inside is known here.
#[verifier::external_type_specification]
#[verifier::external_body]
pub struct ExJsonError(serde_json::Error);

/// The document that `serde_json::from_str` reads from a text, or `None`
/// where it reports an error.
pub uninterp spec fn json_document(text: Seq<char>) -> Option<serde_json::Value>;

/// The member that `serde_json::Value::get` finds under a string key: the
/// value stored under that key if the document is an object that has the
/// key, and `None` for a missing key and for anything that is not an object.
pub uninterp spec fn json_member(document: serde_json::Value, key: Seq<char>) -> Option<
    serde_json::Value,
>;

/// The number that `serde_json::Value::as_u64` reads from a value: `Some` for
/// a JSON number written as a non-negative integer that fits 64 bits, and
/// `None` for every other value.
pub uninterp spec fn json_u64(value: serde_json::Value) -> Option<u64>;

/// Calls `serde_json::from_str` for a `serde_json::Value`. The outcome depends
/// on the text alone; the contract gives it the name [`json_document`].
#[verifier::external_body]
pub(crate) fn parse_document(text: &str) -> (parsed: Result<serde_json::Value, serde_json::Error>)
    ensures
        match parsed {
            Ok(document) => json_document(text@) == Some(document),
            Err(_) => json_document(text@) is None,
        },
{
    serde_json::from_str::<serde_json::Value>(text)
}

/// Calls `serde_json::Value::get` with a string key. The outcome depends on
/// the document and the key alone; the contract gives it the name
/// [`json_member`].
#[verifier::external_body]
pub(crate) fn find_member<'a>(document: &'a serde_json::Value, key: &str) -> (found: Option<
    &'a serde_json::Value,
>)
    ensures
        match found {
            Some(value) => json_member(*document, key@) == Some(*value),
            None => json_member(*document, key@) is None,
        },
{
    document.get(key)
}

/// `serde_json::Value::as_u64`. The outcome depends on the value alone; the
/// contract gives it the name [`json_u64`].
pub assume_specification[ serde_json::Value::as_u64 ](value: &serde_json::Value) -> (number: Option<
    u64,
>)
    ensures
        number == json_u64(*value),
;

} // verus!
