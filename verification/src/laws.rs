//! Laws of the request state machine, proved over the ghost model.

use vstd::prelude::*;
use crate::handlers::{FetchOutcome, HandlerError};
use crate::json::json_string_field;
use crate::router::{spec_error_message, spec_route};
use crate::session::{model_on_fetch, model_start, respond_model, ModelAction, ModelState};

verus! {

/// One whole session, run to completion: the response it ends with, given
/// the request line and the outcomes of however many of the two fetches it
/// asks for.
pub open spec fn model_run(
    cats_url: Seq<char>,
    todo_url: Seq<char>,
    method: Seq<char>,
    path: Seq<char>,
    first: FetchOutcome,
    second: FetchOutcome,
) -> ModelAction {
    let (started, opening) = model_start(cats_url, todo_url, method, path);
    if started is Done {
        opening
    } else {
        let (stepped, next) = model_on_fetch(started, first);
        if stepped is Done {
            next
        } else {
            model_on_fetch(stepped, second).1
        }
    }
}

/// Law: every request is answered. Whatever the method, the path and the
/// fetch outcomes, a session run to completion ends in a response, and its
/// status is a handler's 200, the router's 404, or an upstream failure's 502
/// — never an unhandled case.
pub proof fn lemma_session_total(
    cats_url: Seq<char>,
    todo_url: Seq<char>,
    method: Seq<char>,
    path: Seq<char>,
    first: FetchOutcome,
    second: FetchOutcome,
)
    ensures
        model_run(cats_url, todo_url, method, path, first, second) matches ModelAction::Respond {
            status,
            ..
        } && (status == 200 || status == 404 || status == 502),
{
}

/// Law: a request that routes to no handler is answered with status 404 and
/// an empty body, whatever the upstreams would have said — the session asks
/// for no fetch at all.
pub proof fn lemma_not_found(
    cats_url: Seq<char>,
    todo_url: Seq<char>,
    method: Seq<char>,
    path: Seq<char>,
    first: FetchOutcome,
    second: FetchOutcome,
)
    requires
        spec_route(method, path) is NotFound,
    ensures
        model_start(cats_url, todo_url, method, path).1 == (ModelAction::Respond {
            status: 404 as u16,
            body: Seq::<char>::empty(),
        }),
        model_run(cats_url, todo_url, method, path, first, second) == (ModelAction::Respond {
            status: 404 as u16,
            body: Seq::<char>::empty(),
        }),
{
}

/// Law: a `GET /basic` whose to-do fetch returns a body holding the string
/// field `title` is answered with status 200 and exactly that title.
pub proof fn lemma_basic_returns_title(
    cats_url: Seq<char>,
    todo_url: Seq<char>,
    first: FetchOutcome,
    second: FetchOutcome,
    title: Seq<char>,
)
    requires
        first matches FetchOutcome::Success { body } && json_string_field(body@, "title"@)
            == Some(title),
    ensures
        model_run(cats_url, todo_url, "GET"@, "/basic"@, first, second) == (ModelAction::Respond {
            status: 200 as u16,
            body: title,
        }),
{
}

/// Law: a `GET /double` whose to-do fetch yields the string field `title` and
/// whose cat-fact fetch yields the string field `text` is answered with
/// status 200 and exactly the composed line.
pub proof fn lemma_double_composes(
    cats_url: Seq<char>,
    todo_url: Seq<char>,
    first: FetchOutcome,
    second: FetchOutcome,
    title: Seq<char>,
    text: Seq<char>,
)
    requires
        first matches FetchOutcome::Success { body } && json_string_field(body@, "title"@)
            == Some(title),
        second matches FetchOutcome::Success { body } && json_string_field(body@, "text"@)
            == Some(text),
    ensures
        model_run(cats_url, todo_url, "GET"@, "/double"@, first, second) == (ModelAction::Respond {
            status: 200 as u16,
            body: "Todo: "@ + title + ", Cat Fact: "@ + text,
        }),
{
    reveal_strlit("/basic");
    reveal_strlit("/double");
    assert("/basic"@.len() == 6);
    assert("/double"@.len() == 7);
}

/// Law: the sequential short-circuit of `double`. When the to-do fetch of a
/// `GET /double` fails at the network layer, the very next action is the 502
/// response — the session is over and the cat-fact fetch is never asked for.
pub proof fn lemma_double_short_circuit(cats_url: Seq<char>, todo_url: Seq<char>)
    ensures
        model_on_fetch(
            model_start(cats_url, todo_url, "GET"@, "/double"@).0,
            FetchOutcome::NetworkFailure,
        ) == (
            ModelState::Done,
            respond_model(Err::<Seq<char>, HandlerError>(HandlerError::Network)),
        ),
        model_on_fetch(
            model_start(cats_url, todo_url, "GET"@, "/double"@).0,
            FetchOutcome::NetworkFailure,
        ).1 == (ModelAction::Respond {
            status: 502 as u16,
            body: spec_error_message(HandlerError::Network),
        }),
{
    reveal_strlit("/basic");
    reveal_strlit("/double");
}

/// Law: a session asks for a second fetch only from the state that awaits the
/// to-do response of `double`, and only when that response's body decoded —
/// no other state and no failed or undecodable to-do fetch ever leads to one.
pub proof fn lemma_second_fetch_needs_decoded_todo(state: ModelState, outcome: FetchOutcome)
    requires
        model_on_fetch(state, outcome).1 is Fetch,
    ensures
        state is DoubleAwaitingTodo,
        outcome matches FetchOutcome::Success { body } && json_string_field(body@, "title"@)
            is Some,
{
}

} // verus!
