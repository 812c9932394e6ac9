//! One inbound request as a verified state machine.
//!
//! The caller owns the network. It starts a session from the request's method
//! and path, performs each [`Action::Fetch`] it is handed, feeds the outcome
//! back with [`session_on_fetch`], and sends the [`Action::Respond`] that ends
//! the session. Every decision in between is made here and proved against the
//! ghost model [`model_start`] / [`model_on_fetch`].

use vstd::prelude::*;
use crate::config::ServerConfig;
use crate::handlers::{
    basic_response, double_on_fact, double_on_todo, DoubleStep, FetchOutcome, HandlerError,
};
use crate::json::json_string_field;
use crate::router::{
    finish_response, not_found_response, route, spec_error_message, spec_route, HttpResponse, Route,
};
use crate::urls::{CATS_PATH, TODO_PATH};

verus! {

/// Where one request stands: which fetch, if any, it is waiting for.
pub enum Session {
    /// `GET /basic`, waiting for the to-do response.
    BasicAwaitingTodo,
    /// `GET /double`, waiting for the to-do response; the cat-fact base URL
    /// is kept for the second fetch.
    DoubleAwaitingTodo { cats_url: String },
    /// `GET /double`, to-do decoded, waiting for the cat-fact response.
    DoubleAwaitingFact { title: String },
    /// The response has been handed out; nothing more will be fetched.
    Done,
}

/// What the caller must do next: issue one GET, or send the response and
/// stop.
pub enum Action {
    Fetch { url: String },
    Respond { response: HttpResponse },
}

/// The ghost image of a [`Session`]: the same states over character
/// sequences.
pub enum ModelState {
    BasicAwaitingTodo,
    DoubleAwaitingTodo { cats_url: Seq<char> },
    DoubleAwaitingFact { title: Seq<char> },
    Done,
}

/// The ghost image of an [`Action`].
pub enum ModelAction {
    Fetch { url: Seq<char> },
    Respond { status: u16, body: Seq<char> },
}

impl View for Session {
    type V = ModelState;

    open spec fn view(&self) -> ModelState {
        match self {
            Session::BasicAwaitingTodo => ModelState::BasicAwaitingTodo,
            Session::DoubleAwaitingTodo { cats_url } => ModelState::DoubleAwaitingTodo {
                cats_url: cats_url@,
            },
            Session::DoubleAwaitingFact { title } => ModelState::DoubleAwaitingFact {
                title: title@,
            },
            Session::Done => ModelState::Done,
        }
    }
}

impl View for Action {
    type V = ModelAction;

    open spec fn view(&self) -> ModelAction {
        match self {
            Action::Fetch { url } => ModelAction::Fetch { url: url@ },
            Action::Respond { response } => ModelAction::Respond {
                status: response.status,
                body: response.body@,
            },
        }
    }
}

/// What the `basic` handler's single fetch comes to: the title of the decoded
/// to-do item, or the error that aborts the request.
pub open spec fn spec_basic_result(outcome: FetchOutcome) -> Result<Seq<char>, HandlerError> {
    match outcome {
        FetchOutcome::Success { body } => match json_string_field(body@, "title"@) {
            Some(title) => Ok(title),
            None => Err(HandlerError::Decode),
        },
        FetchOutcome::NetworkFailure => Err(HandlerError::Network),
    }
}

/// What the `double` handler's second fetch comes to, given the title it
/// already holds: the composed line, or the error that aborts the request.
pub open spec fn spec_fact_result(title: Seq<char>, outcome: FetchOutcome) -> Result<
    Seq<char>,
    HandlerError,
> {
    match outcome {
        FetchOutcome::Success { body } => match json_string_field(body@, "text"@) {
            Some(text) => Ok("Todo: "@ + title + ", Cat Fact: "@ + text),
            None => Err(HandlerError::Decode),
        },
        FetchOutcome::NetworkFailure => Err(HandlerError::Network),
    }
}

/// The response a finished handler answers with: 200 with its output, or 502
/// with the error line.
pub open spec fn respond_model(result: Result<Seq<char>, HandlerError>) -> ModelAction {
    match result {
        Ok(body) => ModelAction::Respond { status: 200, body },
        Err(error) => ModelAction::Respond { status: 502, body: spec_error_message(error) },
    }
}

/// The first step of a session: route the request, and either ask for the
/// to-do fetch or answer 404 at once.
pub open spec fn model_start(
    cats_url: Seq<char>,
    todo_url: Seq<char>,
    method: Seq<char>,
    path: Seq<char>,
) -> (ModelState, ModelAction) {
    match spec_route(method, path) {
        Route::Basic => (
            ModelState::BasicAwaitingTodo,
            ModelAction::Fetch { url: todo_url + TODO_PATH@ },
        ),
        Route::Double => (
            ModelState::DoubleAwaitingTodo { cats_url },
            ModelAction::Fetch { url: todo_url + TODO_PATH@ },
        ),
        Route::NotFound => (
            ModelState::Done,
            ModelAction::Respond { status: 404, body: Seq::<char>::empty() },
        ),
    }
}

/// A later step of a session: what a fetch outcome means in the state that
/// awaited it. Only a to-do body that decodes leads on to the cat-fact fetch.
pub open spec fn model_on_fetch(state: ModelState, outcome: FetchOutcome) -> (
    ModelState,
    ModelAction,
)
    recommends
        !(state is Done),
{
    match state {
        ModelState::BasicAwaitingTodo => (ModelState::Done, respond_model(spec_basic_result(outcome))),
        ModelState::DoubleAwaitingTodo { cats_url } => match outcome {
            FetchOutcome::Success { body } => match json_string_field(body@, "title"@) {
                Some(title) => (
                    ModelState::DoubleAwaitingFact { title },
                    ModelAction::Fetch { url: cats_url + CATS_PATH@ },
                ),
                None => (ModelState::Done, respond_model(Err(HandlerError::Decode))),
            },
            FetchOutcome::NetworkFailure => (
                ModelState::Done,
                respond_model(Err(HandlerError::Network)),
            ),
        },
        ModelState::DoubleAwaitingFact { title } => (
            ModelState::Done,
            respond_model(spec_fact_result(title, outcome)),
        ),
        // A finished session awaits nothing; see the precondition of
        // [`session_on_fetch`].
        ModelState::Done => (
            ModelState::Done,
            ModelAction::Respond { status: 404, body: Seq::<char>::empty() },
        ),
    }
}

/// Starts a session for one inbound request, exactly as [`model_start`] says.
pub fn session_start(config: &ServerConfig, method: &str, path: &str) -> (started: (
    Session,
    Action,
))
    ensures
        (started.0@, started.1@) == model_start(
            config.cats_url@,
            config.todo_url@,
            method@,
            path@,
        ),
{
    match route(method, path) {
        Route::Basic => (
            Session::BasicAwaitingTodo,
            Action::Fetch { url: config.todo_endpoint() },
        ),
        Route::Double => (
            Session::DoubleAwaitingTodo { cats_url: config.cats_url.clone() },
            Action::Fetch { url: config.todo_endpoint() },
        ),
        Route::NotFound => (Session::Done, Action::Respond { response: not_found_response() }),
    }
}

/// Feeds one fetch outcome into a session that awaits it, exactly as
/// [`model_on_fetch`] says.
pub fn session_on_fetch(state: Session, outcome: &FetchOutcome) -> (stepped: (Session, Action))
    requires
        !(state@ is Done),
    ensures
        (stepped.0@, stepped.1@) == model_on_fetch(state@, *outcome),
{
    match state {
        Session::BasicAwaitingTodo => {
            let result = basic_response(outcome);
            (Session::Done, Action::Respond { response: finish_response(result) })
        },
        Session::DoubleAwaitingTodo { cats_url } => match double_on_todo(
            outcome,
            cats_url.as_str(),
        ) {
            DoubleStep::FetchFact { url, title } => (
                Session::DoubleAwaitingFact { title },
                Action::Fetch { url },
            ),
            DoubleStep::Finished { result } => (
                Session::Done,
                Action::Respond { response: finish_response(result) },
            ),
        },
        Session::DoubleAwaitingFact { title } => {
            let result = double_on_fact(title.as_str(), outcome);
            (Session::Done, Action::Respond { response: finish_response(result) })
        },
        Session::Done => (Session::Done, Action::Respond { response: not_found_response() }),
    }
}

} // verus!
