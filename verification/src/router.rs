//! Classification of inbound requests and assembly of response plans.

use vstd::prelude::*;
use vstd::string::StringExecFns;
use crate::handlers::HandlerError;

verus! {

/// Where an inbound request goes: one of the two handlers, or nowhere.
#[derive(Clone, Copy, PartialEq, Eq, Structural)]
pub enum Route {
    /// `GET /basic`: one to-do fetch, body is the bare title.
    Basic,
    /// `GET /double`: a to-do fetch then a cat-fact fetch, body is the
    /// composed line.
    Double,
    /// Every other method or path: a not-found response, no upstream call.
    NotFound,
}

/// A response ready to be sent: its status code and its body text.
pub struct HttpResponse {
    pub status: u16,
    pub body: String,
}

/// How a request is dispatched: by its method and path alone, with no
/// query-string or path-parameter handling.
pub open spec fn spec_route(method: Seq<char>, path: Seq<char>) -> Route {
    if method == "GET"@ && path == "/basic"@ {
        Route::Basic
    } else if method == "GET"@ && path == "/double"@ {
        Route::Double
    } else {
        Route::NotFound
    }
}

/// Classifies one inbound request by method and path, exactly as
/// [`spec_route`] says.
pub fn route(method: &str, path: &str) -> (routed: Route)
    ensures
        routed == spec_route(method@, path@),
{
    if str_eq(method, "GET") {
        if str_eq(path, "/basic") {
            Route::Basic
        } else if str_eq(path, "/double") {
            Route::Double
        } else {
            Route::NotFound
        }
    } else {
        Route::NotFound
    }
}

/// Routing is total, and a request misses the handlers exactly when it is
/// not a GET of `/basic` or `/double`: no method/path pair is unhandled.
pub proof fn lemma_routing_total(method: Seq<char>, path: Seq<char>)
    ensures
        spec_route(method, path) is Basic || spec_route(method, path) is Double || spec_route(
            method,
            path,
        ) is NotFound,
        spec_route(method, path) is NotFound <==> !(method == "GET"@ && (path == "/basic"@ || path
            == "/double"@)),
{
}

/// The response to a successful handler: status 200, body as the handler
/// produced it.
pub fn ok_response(body: String) -> (response: HttpResponse)
    ensures
        response.status == 200,
        response.body@ == body@,
{
    HttpResponse { status: 200, body }
}

/// The response to a routing miss: status 404 and an empty body, whatever
/// the upstreams would have said.
pub fn not_found_response() -> (response: HttpResponse)
    ensures
        response.status == 404,
        response.body@ == Seq::<char>::empty(),
{
    HttpResponse { status: 404, body: String::new() }
}

/// The plain-text line a failed request answers with, naming the error kind.
pub open spec fn spec_error_message(error: HandlerError) -> Seq<char> {
    match error {
        HandlerError::Network => "upstream network error"@,
        HandlerError::Decode => "upstream decode error"@,
    }
}

/// The response to a handler that aborted: status 502 (the upstream, not
/// this server, is at fault) and a plain-text message naming the error kind.
pub fn bad_gateway_response(error: &HandlerError) -> (response: HttpResponse)
    ensures
        response.status == 502,
        response.body@ == spec_error_message(*error),
{
    let message = match error {
        HandlerError::Network => "upstream network error",
        HandlerError::Decode => "upstream decode error",
    };
    HttpResponse { status: 502, body: String::from_str(message) }
}

/// Turns a handler's result into the response to send: 200 with the handler
/// output on success, 502 with the error line when either upstream failed.
pub fn finish_response(result: Result<String, HandlerError>) -> (response: HttpResponse)
    ensures
        match result {
            Ok(body) => response.status == 200 && response.body@ == body@,
            Err(error) => response.status == 502 && response.body@ == spec_error_message(error),
        },
{
    match result {
        Ok(body) => ok_response(body),
        Err(error) => bad_gateway_response(&error),
    }
}

/// String equality over the character views, via the specified `String`
/// comparison.
fn str_eq(left: &str, right: &str) -> (equal: bool)
    ensures
        equal == (left@ == right@),
{
    let left_owned = String::from_str(left);
    let right_owned = String::from_str(right);
    left_owned == right_owned
}

} // verus!
