use rustman::params::{Param, ParamType};
use rustman::sync::{build_query_string, build_url, parse_query_params, parse_url_params};

fn row(name: &str, value: &str) -> Param {
    Param::with_name_value(String::from(name), String::from(value))
}

#[test]
fn parse_preserves_duplicates() {
    let params = parse_query_params("a=1&a=2");
    assert_eq!(params.len(), 2);
    assert_eq!(params[0].name, "a");
    assert_eq!(params[0].value, "1");
    assert_eq!(params[1].name, "a");
    assert_eq!(params[1].value, "2");
}

#[test]
fn parse_drops_pair_without_equals() {
    let params = parse_query_params("a=1&bogus&c=3");
    assert_eq!(params.len(), 2);
    assert_eq!(params[0].name, "a");
    assert_eq!(params[0].value, "1");
    assert_eq!(params[1].name, "c");
    assert_eq!(params[1].value, "3");
}

#[test]
fn parse_decode_failure_falls_back_to_empty_value() {
    // "%FF" percent-decodes to a byte sequence that is not valid UTF-8.
    let params = parse_query_params("a=%FF&b=2");
    assert_eq!(params.len(), 2);
    assert_eq!(params[0].name, "a");
    assert_eq!(params[0].value, "");
    assert_eq!(params[1].value, "2");
}

#[test]
fn parse_malformed_escape_passes_through() {
    // A '%' not followed by two hex digits is kept literally, not an error.
    let params = parse_query_params("a=%zz");
    assert_eq!(params.len(), 1);
    assert_eq!(params[0].value, "%zz");
}

#[test]
fn parse_url_yields_typed_row() {
    let params = parse_url_params("https://x.test/posts?q=1");
    assert_eq!(params.len(), 1);
    assert_eq!(params[0].name, "q");
    assert_eq!(params[0].value, "1");
    assert_eq!(params[0].type_, ParamType::Text);
    assert!(!params[0].required);
    assert_eq!(params[0].description, "");
}

#[test]
fn parse_url_without_query_yields_nothing() {
    let params = parse_url_params("https://x.test/posts");
    assert_eq!(params.len(), 0);
}

#[test]
fn parse_value_may_contain_equals() {
    // Only the first '=' separates name and value.
    let params = parse_query_params("a=b=c");
    assert_eq!(params.len(), 1);
    assert_eq!(params[0].name, "a");
    assert_eq!(params[0].value, "b=c");
}

#[test]
fn parse_splits_url_on_first_question_mark_only() {
    let params = parse_url_params("https://x.test/p?a=1?b");
    assert_eq!(params.len(), 1);
    assert_eq!(params[0].name, "a");
    assert_eq!(params[0].value, "1?b");
}

#[test]
fn parse_decodes_value_but_not_name() {
    let params = parse_query_params("a%20b=c%20d");
    assert_eq!(params.len(), 1);
    assert_eq!(params[0].name, "a%20b");
    assert_eq!(params[0].value, "c d");
}

#[test]
fn build_encodes_space() {
    let params = vec![row("q", "hello world")];
    let url = build_url("https://x.test/posts", &params);
    assert_eq!(url, "https://x.test/posts?q=hello%20world");
}

#[test]
fn build_excludes_empty_names() {
    let params = vec![row("", "ignored"), row("a", "1")];
    assert_eq!(build_query_string(&params), "a=1");
    let url = build_url("https://x.test/p?old=1", &params);
    assert_eq!(url, "https://x.test/p?a=1");
}

#[test]
fn build_with_no_kept_rows_leaves_bare_base() {
    let params = vec![row("", "v")];
    let url = build_url("https://x.test/p?old=1", &params);
    assert_eq!(url, "https://x.test/p");
}

#[test]
fn build_keeps_duplicates_in_order() {
    let params = vec![row("a", "1"), row("a", "2")];
    assert_eq!(build_query_string(&params), "a=1&a=2");
}

#[test]
fn build_is_idempotent() {
    let params = vec![row("a", "1"), row("b", "x y")];
    let once = build_url("https://x.test/p?z=9", &params);
    let twice = build_url(&once, &params);
    assert_eq!(once, twice);
}

#[test]
fn build_then_parse_round_trips() {
    let params = vec![row("a", "1"), row("b", "two"), row("c-d", "e_f.g~h")];
    let url = build_url("https://x.test/p", &params);
    let back = parse_url_params(&url);
    assert_eq!(back.len(), 3);
    for (p, q) in params.iter().zip(back.iter()) {
        assert_eq!(p.name, q.name);
        assert_eq!(p.value, q.value);
    }
}

#[test]
fn build_then_parse_recovers_encoded_values() {
    // Fails if encoding or decoding handed its argument back unchanged.
    let params = vec![row("q", "a&b=c")];
    let url = build_url("https://x.test/p", &params);
    assert_eq!(url, "https://x.test/p?q=a%26b%3Dc");
    let back = parse_url_params(&url);
    assert_eq!(back.len(), 1);
    assert_eq!(back[0].name, "q");
    assert_eq!(back[0].value, "a&b=c");
}
