use fanout::config::ServerConfig;
use fanout::handlers::{
    basic_response, double_on_fact, double_on_todo, format_double, DoubleStep, FetchOutcome,
    HandlerError,
};
use fanout::router::{
    bad_gateway_response, finish_response, not_found_response, ok_response, route, Route,
};
use fanout::session::{session_on_fetch, session_start, Action, Session};
use fanout::urls::{get_cats_url, get_todo_url};

fn config(base: &str) -> ServerConfig {
    ServerConfig::new(base.to_string(), base.to_string())
}

fn fetched(body: &[u8]) -> FetchOutcome {
    FetchOutcome::Success { body: body.to_vec() }
}

fn respond_of(action: Action) -> (u16, String) {
    match action {
        Action::Respond { response } => (response.status, response.body),
        Action::Fetch { .. } => panic!("expected a response, got a fetch"),
    }
}

fn fetch_of(action: Action) -> String {
    match action {
        Action::Fetch { url } => url,
        Action::Respond { .. } => panic!("expected a fetch, got a response"),
    }
}

#[test]
fn test_basic() {
    let cfg = config("http://localhost:3000");
    let (state, action) = session_start(&cfg, "GET", "/basic");
    assert_eq!(fetch_of(action).as_str(), "http://localhost:3000/todos/1");

    let outcome = fetched(br#"{"title": "get another cat"}"#);
    let (_, action) = session_on_fetch(state, &outcome);
    let (status, body) = respond_of(action);
    assert_eq!(status, 200);
    assert_eq!(body.as_str(), "get another cat");
}

#[test]
fn test_double() {
    let cfg = config("http://localhost:3000");
    let (state, action) = session_start(&cfg, "GET", "/double");
    assert_eq!(fetch_of(action).as_str(), "http://localhost:3000/todos/1");

    let todo_outcome = fetched(br#"{"title": "get another cat"}"#);
    let (state, action) = session_on_fetch(state, &todo_outcome);
    assert_eq!(fetch_of(action).as_str(), "http://localhost:3000/facts/random");

    let fact_outcome = fetched(
        br#"{"text": "cats are the best living creatures in the universe"}"#,
    );
    let (_, action) = session_on_fetch(state, &fact_outcome);
    let (status, body) = respond_of(action);
    assert_eq!(status, 200);
    assert_eq!(
        body.as_str(),
        "Todo: get another cat, Cat Fact: cats are the best living creatures in the universe"
    );
}

#[test]
fn url_builders_append_fixed_paths() {
    assert_eq!(get_todo_url("http://localhost:1234").as_str(), "http://localhost:1234/todos/1");
    assert_eq!(get_cats_url("https://example.org").as_str(), "https://example.org/facts/random");
    assert_eq!(get_todo_url("").as_str(), "/todos/1");
}

#[test]
fn config_builds_both_endpoints() {
    let cfg = ServerConfig::new("https://cats.example".to_string(), "https://todo.example".to_string());
    assert_eq!(cfg.cats_endpoint().as_str(), "https://cats.example/facts/random");
    assert_eq!(cfg.todo_endpoint().as_str(), "https://todo.example/todos/1");
}

#[test]
fn route_dispatches_by_method_and_path() {
    assert!(matches!(route("GET", "/basic"), Route::Basic));
    assert!(matches!(route("GET", "/double"), Route::Double));
    assert!(matches!(route("GET", "/nonexistent"), Route::NotFound));
    assert!(matches!(route("POST", "/basic"), Route::NotFound));
    assert!(matches!(route("PUT", "/double"), Route::NotFound));
    assert!(matches!(route("GET", "/"), Route::NotFound));
    assert!(matches!(route("GET", ""), Route::NotFound));
}

#[test]
fn unrouted_request_gets_empty_404() {
    let cfg = config("http://localhost:3000");
    let (_, action) = session_start(&cfg, "GET", "/nonexistent");
    let (status, body) = respond_of(action);
    assert_eq!(status, 404);
    assert_eq!(body.as_str(), "");
}

#[test]
fn response_builders_set_status_and_body() {
    let ok = ok_response("hello".to_string());
    assert_eq!(ok.status, 200);
    assert_eq!(ok.body.as_str(), "hello");

    let missing = not_found_response();
    assert_eq!(missing.status, 404);
    assert!(missing.body.is_empty());

    let network = bad_gateway_response(&HandlerError::Network);
    assert_eq!(network.status, 502);
    assert_eq!(network.body.as_str(), "upstream network error");

    let decode = bad_gateway_response(&HandlerError::Decode);
    assert_eq!(decode.status, 502);
    assert_eq!(decode.body.as_str(), "upstream decode error");
}

#[test]
fn finish_response_maps_results() {
    let ok = finish_response(Ok("body".to_string()));
    assert_eq!(ok.status, 200);
    assert_eq!(ok.body.as_str(), "body");

    let failed = finish_response(Err(HandlerError::Decode));
    assert_eq!(failed.status, 502);
    assert_eq!(failed.body.as_str(), "upstream decode error");
}

#[test]
fn basic_handler_decides_each_outcome() {
    let ok = basic_response(&fetched(br#"{"title": "walk the cat"}"#));
    assert_eq!(ok.unwrap().as_str(), "walk the cat");

    let decode = basic_response(&fetched(b"broken"));
    assert_eq!(decode.unwrap_err(), HandlerError::Decode);

    let network = basic_response(&FetchOutcome::NetworkFailure);
    assert_eq!(network.unwrap_err(), HandlerError::Network);
}

#[test]
fn double_on_todo_keeps_title_and_builds_cats_url() {
    let step = double_on_todo(&fetched(br#"{"title": "feed the cat"}"#), "http://cats.example");
    match step {
        DoubleStep::FetchFact { url, title } => {
            assert_eq!(url.as_str(), "http://cats.example/facts/random");
            assert_eq!(title.as_str(), "feed the cat");
        }
        DoubleStep::Finished { .. } => panic!("expected the cat-fact fetch"),
    }
}

#[test]
fn double_on_todo_finishes_on_bad_body() {
    let step = double_on_todo(&fetched(br#"{"no": "title"}"#), "http://cats.example");
    match step {
        DoubleStep::Finished { result } => assert_eq!(result.unwrap_err(), HandlerError::Decode),
        DoubleStep::FetchFact { .. } => panic!("a bad body must not lead to a second fetch"),
    }
}

#[test]
fn double_short_circuits_on_network_failure() {
    let cfg = config("http://localhost:3000");
    let (state, _) = session_start(&cfg, "GET", "/double");
    let (_, action) = session_on_fetch(state, &FetchOutcome::NetworkFailure);
    let (status, body) = respond_of(action);
    assert_eq!(status, 502);
    assert_eq!(body.as_str(), "upstream network error");
}

#[test]
fn double_on_fact_composes_the_line() {
    let outcome = fetched(br#"{"text": "cats purr"}"#);
    let line = double_on_fact("get another cat", &outcome).unwrap();
    assert_eq!(line.as_str(), "Todo: get another cat, Cat Fact: cats purr");

    let network = double_on_fact("t", &FetchOutcome::NetworkFailure);
    assert_eq!(network.unwrap_err(), HandlerError::Network);

    let decode = double_on_fact("t", &fetched(b"{}"));
    assert_eq!(decode.unwrap_err(), HandlerError::Decode);
}

#[test]
fn format_double_uses_literal_separators() {
    assert_eq!(
        format_double("a, b", "c: d").as_str(),
        "Todo: a, b, Cat Fact: c: d"
    );
    assert_eq!(format_double("", "").as_str(), "Todo: , Cat Fact: ");
}

#[test]
fn sessions_do_not_share_state() {
    let cfg = config("http://localhost:3000");
    let (basic_state, _) = session_start(&cfg, "GET", "/basic");
    let (double_state, _) = session_start(&cfg, "GET", "/double");

    let (_, double_action) = session_on_fetch(double_state, &fetched(br#"{"title": "one"}"#));
    assert_eq!(fetch_of(double_action).as_str(), "http://localhost:3000/facts/random");

    let (_, basic_action) = session_on_fetch(basic_state, &fetched(br#"{"title": "two"}"#));
    let (status, body) = respond_of(basic_action);
    assert_eq!(status, 200);
    assert_eq!(body.as_str(), "two");

    let done = match session_start(&cfg, "HEAD", "/basic") {
        (Session::Done, action) => respond_of(action),
        _ => panic!("an unrouted request must finish at once"),
    };
    assert_eq!(done, (404, String::new()));
}
