//! The one trusted boundary to the JSON parser.

use vstd::prelude::*;

verus! {

/// The string value stored at a top-level key of a JSON document, if the
/// bytes parse as a JSON object that holds a string there. The result is a
/// function of the bytes and the key alone; what it is on given bytes is not
/// stated here, only that [`string_field`] returns it.
pub uninterp spec fn json_string_field(document: Seq<u8>, key: Seq<char>) -> Option<Seq<char>>;

/// Relies on `serde_json::from_slice` to parse the bytes as a JSON document,
/// and on `serde_json::Value::get` and `serde_json::Value::as_str` to read
/// the string under the given top-level key. `None` covers malformed JSON, a
/// document that is not an object, a missing key, and a non-string value
/// alike; none of the calls panics.
#[verifier::external_body]
pub(crate) fn string_field(document: &[u8], key: &str) -> (field: Option<String>)
    ensures
        field.deep_view() == json_string_field(document@, key@),
{
    match serde_json::from_slice::<serde_json::Value>(document) {
        Ok(value) => match value.get(key) {
            Some(entry) => match entry.as_str() {
                Some(text) => Some(text.to_string()),
                None => None,
            },
            None => None,
        },
        Err(_) => None,
    }
}

} // verus!
