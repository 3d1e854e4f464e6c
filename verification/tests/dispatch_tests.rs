use rustman::dispatch::{status_code_class, unsupported_method_message, Method};
use rustman::params::ParamType;

#[test]
fn method_names_round_trip() {
    assert_eq!(Method::from_name("GET"), Some(Method::Get));
    assert_eq!(Method::from_name("POST"), Some(Method::Post));
    assert_eq!(Method::Get.name(), "GET");
    assert_eq!(Method::Post.name(), "POST");
}

#[test]
fn methods_outside_the_set_are_refused() {
    assert_eq!(Method::from_name("PATCH"), None);
    assert_eq!(Method::from_name("get"), None);
    assert_eq!(Method::from_name(""), None);
    assert_eq!(Method::from_name("DELETE"), None);
}

#[test]
fn unsupported_message_is_fixed() {
    assert_eq!(unsupported_method_message(), "Unsupported method");
}

#[test]
fn status_classes_follow_hundreds_digit() {
    assert_eq!(status_code_class(200), "success");
    assert_eq!(status_code_class(204), "success");
    assert_eq!(status_code_class(301), "redirect");
    assert_eq!(status_code_class(404), "client-error");
    assert_eq!(status_code_class(503), "server-error");
    assert_eq!(status_code_class(100), "unknown");
    assert_eq!(status_code_class(600), "unknown");
    assert_eq!(status_code_class(0), "unknown");
}

#[test]
fn param_kind_names() {
    assert_eq!(ParamType::Text.as_name(), "string");
    assert_eq!(ParamType::Array.as_name(), "array");
    assert_eq!(ParamType::Number.as_name(), "number");
    assert_eq!(ParamType::Boolean.as_name(), "boolean");
}
