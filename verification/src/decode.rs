//! Typed records decoded from the two upstream JSON payloads.

use vstd::prelude::*;
use crate::json::{json_string_field, string_field};

verus! {

/// The record a to-do upstream response decodes to: its `title` field.
#[derive(Debug)]
pub struct TodoItem {
    pub title: String,
}

/// The record a cat-fact upstream response decodes to: its `text` field.
#[derive(Debug)]
pub struct CatFact {
    pub text: String,
}

/// A response body that could not be decoded: the bytes are not a JSON
/// object holding a string under the required key. Unknown extra fields are
/// not an error; they are ignored.
#[derive(Clone, Copy, Debug, PartialEq, Eq, Structural)]
pub struct DecodeError;

/// Decodes a to-do response body: the bytes must be a JSON object with a
/// string field `title`; every other field is ignored. Returns the error,
/// never a default, when they are not.
pub fn decode_todo(body: &[u8]) -> (decoded: Result<TodoItem, DecodeError>)
    ensures
        match decoded {
            Ok(todo) => json_string_field(body@, "title"@) == Some(todo.title@),
            Err(e) => json_string_field(body@, "title"@) is None && e == DecodeError,
        },
{
    match string_field(body, "title") {
        Some(title) => Ok(TodoItem { title }),
        None => Err(DecodeError),
    }
}

/// Decodes a cat-fact response body: the bytes must be a JSON object with a
/// string field `text`; every other field is ignored. Returns the error,
/// never a default, when they are not.
pub fn decode_cat_fact(body: &[u8]) -> (decoded: Result<CatFact, DecodeError>)
    ensures
        match decoded {
            Ok(fact) => json_string_field(body@, "text"@) == Some(fact.text@),
            Err(e) => json_string_field(body@, "text"@) is None && e == DecodeError,
        },
{
    match string_field(body, "text") {
        Some(text) => Ok(CatFact { text }),
        None => Err(DecodeError),
    }
}

} // verus!
