use rustman::dispatch::{CallOutcome, DispatchAction, Method};
use rustman::params::ParamType;
use rustman::state::RequestState;

#[test]
fn new_state_defaults() {
    let s = RequestState::new();
    assert_eq!(s.method, "GET");
    assert_eq!(s.url, "");
    assert_eq!(s.request_body, "");
    assert_eq!(s.response, "");
    assert_eq!(s.params.len(), 0);
}

#[test]
fn set_url_with_query_rederives_params() {
    let mut s = RequestState::new();
    s.set_url(String::from("https://x.test/posts?q=1&r=2"));
    assert_eq!(s.url, "https://x.test/posts?q=1&r=2");
    assert_eq!(s.params.len(), 2);
    assert_eq!(s.params[0].name, "q");
    assert_eq!(s.params[0].value, "1");
    assert_eq!(s.params[1].name, "r");
    assert_eq!(s.params[1].value, "2");
}

#[test]
fn set_url_without_query_keeps_params() {
    let mut s = RequestState::new();
    s.set_url(String::from("https://x.test/p?a=1"));
    assert_eq!(s.params.len(), 1);
    s.set_url(String::from("https://y.test/other"));
    assert_eq!(s.url, "https://y.test/other");
    assert_eq!(s.params.len(), 1);
    assert_eq!(s.params[0].name, "a");
}

#[test]
fn set_url_with_query_replaces_params_destructively() {
    let mut s = RequestState::new();
    s.set_url(String::from("https://x.test/p?a=1&b=2"));
    s.set_url(String::from("https://x.test/p?c=3"));
    assert_eq!(s.params.len(), 1);
    assert_eq!(s.params[0].name, "c");
}

#[test]
fn add_param_keeps_url_query_unchanged() {
    let mut s = RequestState::new();
    s.set_url(String::from("https://x.test/p?a=1"));
    s.add_param();
    assert_eq!(s.params.len(), 2);
    assert_eq!(s.params[1].name, "");
    assert_eq!(s.params[1].value, "");
    assert_eq!(s.params[1].type_, ParamType::Text);
    // The fresh row has an empty name, so the URL still serializes only `a`.
    assert_eq!(s.url, "https://x.test/p?a=1");
}

#[test]
fn remove_param_rebuilds_url() {
    let mut s = RequestState::new();
    s.set_url(String::from("https://x.test/p?a=1&b=2"));
    s.remove_param(0);
    assert_eq!(s.params.len(), 1);
    assert_eq!(s.url, "https://x.test/p?b=2");
    s.remove_param(0);
    assert_eq!(s.params.len(), 0);
    assert_eq!(s.url, "https://x.test/p");
}

#[test]
fn edit_name_and_value_rebuild_url() {
    let mut s = RequestState::new();
    s.set_url(String::from("https://x.test/p?a=1"));
    s.set_param_name(0, String::from("q"));
    assert_eq!(s.url, "https://x.test/p?q=1");
    s.set_param_value(0, String::from("hello world"));
    assert_eq!(s.url, "https://x.test/p?q=hello%20world");
    assert_eq!(s.params[0].value, "hello world");
}

#[test]
fn cosmetic_edits_do_not_touch_url() {
    let mut s = RequestState::new();
    s.set_url(String::from("https://x.test/p?a=1"));
    s.set_param_type(0, ParamType::Number);
    s.set_param_required(0, true);
    s.set_param_description(0, String::from("first"));
    assert_eq!(s.url, "https://x.test/p?a=1");
    assert_eq!(s.params[0].type_, ParamType::Number);
    assert!(s.params[0].required);
    assert_eq!(s.params[0].description, "first");
}

#[test]
fn unsupported_method_sets_fixed_message_without_call() {
    let mut s = RequestState::new();
    s.set_method(String::from("PATCH"));
    s.set_url(String::from("https://x.test/ok"));
    let action = s.begin_dispatch();
    assert!(matches!(action, DispatchAction::Rejected));
    assert_eq!(s.response, "Unsupported method");
}

#[test]
fn transport_failure_text_lands_in_response() {
    let mut s = RequestState::new();
    s.set_method(String::from("GET"));
    s.set_url(String::from("https://x.test/ok"));
    let action = s.begin_dispatch();
    match action {
        DispatchAction::Perform { id, method } => {
            assert_eq!(method, Method::Get);
            s.finish_dispatch(id, CallOutcome::Failure(String::from("connection refused")));
        }
        DispatchAction::Rejected => panic!("GET must be dispatched"),
    }
    assert_eq!(s.response, "connection refused");
}

#[test]
fn success_body_lands_in_response() {
    let mut s = RequestState::new();
    s.set_method(String::from("POST"));
    let action = s.begin_dispatch();
    match action {
        DispatchAction::Perform { id, method } => {
            assert_eq!(method, Method::Post);
            s.finish_dispatch(id, CallOutcome::Body(String::from("{\"ok\":true}")));
        }
        DispatchAction::Rejected => panic!("POST must be dispatched"),
    }
    assert_eq!(s.response, "{\"ok\":true}");
}

#[test]
fn stale_outcome_is_discarded() {
    let mut s = RequestState::new();
    let first = s.begin_dispatch();
    let second = s.begin_dispatch();
    let (first_id, second_id) = match (first, second) {
        (
            DispatchAction::Perform { id: a, .. },
            DispatchAction::Perform { id: b, .. },
        ) => (a, b),
        _ => panic!("GET must be dispatched"),
    };
    assert_ne!(first_id, second_id);
    // The newer dispatch settles first; the older outcome must not win.
    s.finish_dispatch(second_id, CallOutcome::Body(String::from("new")));
    s.finish_dispatch(first_id, CallOutcome::Body(String::from("old")));
    assert_eq!(s.response, "new");
}
