//! Builders for the two upstream endpoint URLs.

use vstd::prelude::*;
use vstd::string::StringExecFns;

verus! {

/// Path of the single to-do record fetched by the `basic` and `double`
/// handlers.
pub const TODO_PATH: &'static str = "/todos/1";

/// Path of the random cat fact fetched by the `double` handler.
pub const CATS_PATH: &'static str = "/facts/random";

/// Appends the to-do path to a base URL. Plain concatenation: the base is not
/// validated here; a malformed URL fails later, when the request is issued.
pub fn get_todo_url(base_url: &str) -> (url: String)
    ensures
        url@ == base_url@ + TODO_PATH@,
{
    let url = String::from_str(base_url);
    url.concat(TODO_PATH)
}

/// Appends the cat-fact path to a base URL. Same contract as [`get_todo_url`].
pub fn get_cats_url(base_url: &str) -> (url: String)
    ensures
        url@ == base_url@ + CATS_PATH@,
{
    let url = String::from_str(base_url);
    url.concat(CATS_PATH)
}

} // verus!
