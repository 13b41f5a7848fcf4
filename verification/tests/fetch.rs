use sidecar_supervisor::fetch::{
    build_fetch_url, client_error, method_kind, parse_error, prepare_request, process_response,
    request_error, send_error, HttpMethod,
};

#[test]
fn fetch_url_drops_query_and_appends_suffix() {
    let url = build_fetch_url(
        "http://192.168.1.42:9090?token=11111111-1111-4111-8111-111111111111",
        "status",
    );
    assert_eq!(url, "http://192.168.1.42:9090/status");
}

#[test]
fn fetch_url_without_query_is_kept_whole() {
    let url = build_fetch_url("http://10.0.0.7:9090", "echo");
    assert_eq!(url, "http://10.0.0.7:9090/echo");
}

#[test]
fn methods_are_coerced_case_insensitively() {
    assert_eq!(method_kind("GET"), HttpMethod::Get);
    assert_eq!(method_kind("get"), HttpMethod::Get);
    assert_eq!(method_kind("POST"), HttpMethod::Post);
    assert_eq!(method_kind("PoSt"), HttpMethod::Post);
    assert_eq!(method_kind("DELETE"), HttpMethod::Get);
    assert_eq!(method_kind(""), HttpMethod::Get);
}

#[test]
fn method_case_folding_is_unicode() {
    // U+017F (long s) uppercases to S, so this spelling still reads as
    // POST; the folding is the full Unicode mapping, not an ASCII one.
    assert_eq!(method_kind("po\u{17f}t"), HttpMethod::Post);
}

#[test]
fn build_and_send_errors_carry_url_method_and_message() {
    assert_eq!(
        client_error("http://h:9090/status", "GET", "boom"),
        "Failed to create client http://h:9090/status:GET:boom"
    );
    assert_eq!(
        request_error("http://h:9090/status", "GET", "boom"),
        "Failed to build request http://h:9090/status:GET:boom"
    );
    assert_eq!(
        send_error("http://h:9090/status", "POST", "refused"),
        "Failed to execute request http://h:9090/status:POST:refused"
    );
    assert_eq!(
        parse_error("http://h:9090/status", "GET", "eof"),
        "Failed to parse to JSON http://h:9090/status:GET:eof"
    );
}

#[test]
fn get_request_plan_for_status() {
    // Scenario: fetch("status", "GET", "tok", None) targets the stripped
    // base URL plus /status with the bearer token and no body.
    let plan = prepare_request(
        "http://192.168.1.42:9090?token=11111111-1111-4111-8111-111111111111",
        "status",
        "GET",
        "tok",
        None,
    );
    assert_eq!(plan.url, "http://192.168.1.42:9090/status");
    assert_eq!(plan.method, HttpMethod::Get);
    assert_eq!(plan.authorization, "Bearer tok");
    assert_eq!(plan.content_type, "application/json");
    assert_eq!(plan.body, None);
}

#[test]
fn post_request_plan_carries_the_body() {
    // Scenario: fetch("echo", "POST", "tok", Some(json)) attaches the body
    // verbatim and authenticates with Bearer tok.
    let plan = prepare_request(
        "http://192.168.1.42:9090?token=11111111-1111-4111-8111-111111111111",
        "echo",
        "POST",
        "tok",
        Some("{\"x\":1}".to_string()),
    );
    assert_eq!(plan.url, "http://192.168.1.42:9090/echo");
    assert_eq!(plan.method, HttpMethod::Post);
    assert_eq!(plan.authorization, "Bearer tok");
    assert_eq!(plan.content_type, "application/json");
    assert_eq!(plan.body, Some("{\"x\":1}".to_string()));
}

#[test]
fn get_request_plan_drops_a_stray_body() {
    let plan = prepare_request("http://h:9090", "status", "GET", "tok", Some("{}".to_string()));
    assert_eq!(plan.body, None);
}

#[test]
fn json_response_is_returned_reserialized() {
    // Scenario: a stub reply {"ok":true} comes back as its serialized text.
    let r = process_response("http://192.168.1.42:9090/status", "GET", "{\"ok\":true}");
    assert_eq!(r, Ok("{\"ok\":true}".to_string()));
}

#[test]
fn echoed_json_body_comes_back_unchanged() {
    let r = process_response("http://192.168.1.42:9090/echo", "POST", "{\"x\":1}");
    assert_eq!(r, Ok("{\"x\":1}".to_string()));
}

#[test]
fn json_reserialization_normalizes_whitespace() {
    // The round trip re-serializes: a padded document comes back compact,
    // not as the text that went in.
    let r = process_response("http://h:9090/echo", "POST", "{ \"x\" : 1 ,\n \"y\" : [1, 2] }");
    assert_eq!(r, Ok("{\"x\":1,\"y\":[1,2]}".to_string()));
}

#[test]
fn non_json_response_yields_the_parse_error() {
    let r = process_response("http://192.168.1.42:9090/status", "GET", "not json at all");
    let e = r.unwrap_err();
    assert!(
        e.starts_with("Failed to parse to JSON http://192.168.1.42:9090/status:GET:"),
        "unexpected error text: {e}"
    );
}

#[test]
fn empty_response_yields_the_parse_error() {
    let r = process_response("http://h:9090/status", "GET", "");
    assert!(r.unwrap_err().starts_with("Failed to parse to JSON http://h:9090/status:GET:"));
}
