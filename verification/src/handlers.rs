//! The two route handlers, as decision functions over fetch outcomes.
//!
//! The handlers never touch the network themselves. The caller issues each
//! GET and hands the outcome back as a [`FetchOutcome`]; the functions here
//! decide what the outcome means and what, if anything, must be fetched next.

use vstd::prelude::*;
use vstd::string::StringExecFns;
use crate::decode::{decode_cat_fact, decode_todo};
use crate::json::json_string_field;
use crate::urls::{get_cats_url, CATS_PATH};

verus! {

/// What one outbound GET came to: the full response body, or a network
/// failure (connection refused, DNS failure, or a failed body read). The
/// upstream's own status code is deliberately not part of the outcome: the
/// body is decoded whatever the status was, and a non-JSON error page then
/// surfaces as a decode failure.
pub enum FetchOutcome {
    Success { body: Vec<u8> },
    NetworkFailure,
}

/// Why a handler aborted its request. Either upstream failure short-circuits
/// the whole request; no partial output is ever produced.
#[derive(Clone, Copy, Debug, PartialEq, Eq, Structural)]
pub enum HandlerError {
    /// An outbound call failed at the network layer.
    Network,
    /// An upstream body was not the JSON shape the handler requires.
    Decode,
}

/// What the `double` handler asks of its caller after the to-do fetch came
/// back: issue one more GET, or stop with the finished result.
pub enum DoubleStep {
    /// Fetch the cat fact at `url`, keeping the already-decoded to-do title.
    FetchFact { url: String, title: String },
    /// The request is over: either upstream failure ends it with no second
    /// fetch.
    Finished { result: Result<String, HandlerError> },
}

/// The `basic` handler's decision on the outcome of its single to-do fetch:
/// the decoded title verbatim, with no extra formatting, or the aborting
/// error.
pub fn basic_response(outcome: &FetchOutcome) -> (response: Result<String, HandlerError>)
    ensures
        match *outcome {
            FetchOutcome::Success { body } => match json_string_field(body@, "title"@) {
                Some(title) => (response matches Ok(text) && text@ == title),
                None => response == Err::<String, HandlerError>(HandlerError::Decode),
            },
            FetchOutcome::NetworkFailure => response == Err::<String, HandlerError>(
                HandlerError::Network,
            ),
        },
{
    match outcome {
        FetchOutcome::Success { body } => match decode_todo(body.as_slice()) {
            Ok(todo) => Ok(todo.title),
            Err(_) => Err(HandlerError::Decode),
        },
        FetchOutcome::NetworkFailure => Err(HandlerError::Network),
    }
}

/// The `double` handler's decision on the outcome of its first, to-do fetch.
/// Only a body that decodes to a to-do item leads on to the cat-fact fetch,
/// at the URL built from `cats_base_url`; any failure finishes the request at
/// once, so an unreachable to-do upstream never causes a cat-fact request.
pub fn double_on_todo(outcome: &FetchOutcome, cats_base_url: &str) -> (step: DoubleStep)
    ensures
        match *outcome {
            FetchOutcome::Success { body } => match json_string_field(body@, "title"@) {
                Some(decoded) => (step matches DoubleStep::FetchFact { url, title }
                    && url@ == cats_base_url@ + CATS_PATH@ && title@ == decoded),
                None => (step matches DoubleStep::Finished { result }
                    && result == Err::<String, HandlerError>(HandlerError::Decode)),
            },
            FetchOutcome::NetworkFailure => (step matches DoubleStep::Finished { result }
                && result == Err::<String, HandlerError>(HandlerError::Network)),
        },
        step is FetchFact ==> (*outcome matches FetchOutcome::Success { body }
            && json_string_field(body@, "title"@) is Some),
{
    match outcome {
        FetchOutcome::Success { body } => match decode_todo(body.as_slice()) {
            Ok(todo) => DoubleStep::FetchFact {
                url: get_cats_url(cats_base_url),
                title: todo.title,
            },
            Err(_) => DoubleStep::Finished { result: Err(HandlerError::Decode) },
        },
        FetchOutcome::NetworkFailure => DoubleStep::Finished {
            result: Err(HandlerError::Network),
        },
    }
}

/// The `double` handler's decision on the outcome of its second, cat-fact
/// fetch: the composed line over the to-do title it already holds and the
/// decoded fact, or the aborting error.
pub fn double_on_fact(title: &str, outcome: &FetchOutcome) -> (response: Result<
    String,
    HandlerError,
>)
    ensures
        match *outcome {
            FetchOutcome::Success { body } => match json_string_field(body@, "text"@) {
                Some(text) => (response matches Ok(line) && line@ == "Todo: "@ + title@
                    + ", Cat Fact: "@ + text),
                None => response == Err::<String, HandlerError>(HandlerError::Decode),
            },
            FetchOutcome::NetworkFailure => response == Err::<String, HandlerError>(
                HandlerError::Network,
            ),
        },
{
    match outcome {
        FetchOutcome::Success { body } => match decode_cat_fact(body.as_slice()) {
            Ok(fact) => Ok(format_double(title, fact.text.as_str())),
            Err(_) => Err(HandlerError::Decode),
        },
        FetchOutcome::NetworkFailure => Err(HandlerError::Network),
    }
}

/// Composes the `double` response line: literal colon-space after each label,
/// literal comma-space between the two parts.
pub fn format_double(title: &str, text: &str) -> (line: String)
    ensures
        line@ == "Todo: "@ + title@ + ", Cat Fact: "@ + text@,
{
    let line = String::from_str("Todo: ");
    let line = line.concat(title);
    let line = line.concat(", Cat Fact: ");
    line.concat(text)
}

} // verus!
