use o365_cli::callback::{
    find_value, get_redirect_uri, get_request_target, is_favicon_request, judge_callback,
    read_callback_pairs, success_response, CallbackVerdict,
};

fn pairs(items: &[(&str, &str)]) -> Vec<(String, String)> {
    items.iter().map(|(k, v)| (k.to_string(), v.to_string())).collect()
}

#[test]
fn target_is_the_second_word_of_the_request_line() {
    assert_eq!(get_request_target("GET /?code=abc&state=xyz HTTP/1.1\r\n"), "/?code=abc&state=xyz");
    assert_eq!(get_request_target("GET\r\n"), "/");
    assert_eq!(get_request_target(""), "/");
    assert_eq!(get_request_target("  GET   /favicon.ico   HTTP/1.1"), "/favicon.ico");
}

#[test]
fn favicon_requests_are_recognised() {
    assert!(is_favicon_request("/favicon.ico"));
    assert!(is_favicon_request("/static/favicon.ico?v=2"));
    assert!(!is_favicon_request("/?code=abc&state=xyz"));
    assert!(!is_favicon_request("/favicon.png"));
}

#[test]
fn redirect_uri_names_the_port() {
    assert_eq!(get_redirect_uri(8080), "http://localhost:8080");
    assert_eq!(get_redirect_uri(0), "http://localhost:0");
    assert_eq!(get_redirect_uri(65535), "http://localhost:65535");
}

#[test]
fn query_parameters_are_decoded_in_order() {
    assert_eq!(
        read_callback_pairs(4000, "/?code=a%2Fb+c&state=s%3D1&code=second"),
        pairs(&[("code", "a/b c"), ("state", "s=1"), ("code", "second")])
    );
    assert_eq!(read_callback_pairs(4000, "/"), pairs(&[]));
    assert_eq!(read_callback_pairs(4000, "/cb?&x&=y#frag"), pairs(&[("x", ""), ("", "y")]));
}

#[test]
fn target_that_cannot_be_resolved_has_no_parameters() {
    assert_eq!(read_callback_pairs(4000, "http://[::1"), pairs(&[]));
}

#[test]
fn first_value_wins() {
    let p = pairs(&[("a", "1"), ("b", "2"), ("a", "3")]);
    assert_eq!(find_value(&p, "a"), Some("1".to_string()));
    assert_eq!(find_value(&p, "b"), Some("2".to_string()));
    assert_eq!(find_value(&p, "c"), None);
    assert_eq!(find_value(&pairs(&[]), "a"), None);
}

#[test]
fn matching_state_with_code_is_accepted() {
    match judge_callback(&pairs(&[("code", "abc"), ("state", "tok")]), "tok") {
        CallbackVerdict::Code(code) => assert_eq!(code, "abc"),
        other => panic!("unexpected: {:?}", other),
    }
}

#[test]
fn foreign_state_is_a_csrf_mismatch() {
    for state in ["", "to", "tok ", "TOK", "tokk", "other"] {
        let verdict = judge_callback(&pairs(&[("code", "abc"), ("state", state)]), "tok");
        assert!(matches!(verdict, CallbackVerdict::CsrfMismatch), "state {:?}", state);
    }
    assert!(matches!(
        judge_callback(&pairs(&[("code", "abc"), ("state", "x")]), ""),
        CallbackVerdict::CsrfMismatch
    ));
}

#[test]
fn missing_state_is_a_csrf_mismatch() {
    assert!(matches!(judge_callback(&pairs(&[("code", "abc")]), "tok"), CallbackVerdict::CsrfMismatch));
    assert!(matches!(judge_callback(&pairs(&[]), "tok"), CallbackVerdict::CsrfMismatch));
    assert!(matches!(judge_callback(&pairs(&[]), ""), CallbackVerdict::CsrfMismatch));
}

#[test]
fn second_state_parameter_does_not_count() {
    let verdict = judge_callback(&pairs(&[("state", "evil"), ("state", "tok"), ("code", "c")]), "tok");
    assert!(matches!(verdict, CallbackVerdict::CsrfMismatch));
}

#[test]
fn missing_code_is_reported_after_the_state() {
    assert!(matches!(
        judge_callback(&pairs(&[("state", "tok"), ("error", "access_denied")]), "tok"),
        CallbackVerdict::MissingCode
    ));
}

#[test]
fn success_response_carries_its_length() {
    let body = "Login Successful! You can close this window and return to the terminal.";
    assert_eq!(
        success_response(),
        format!("HTTP/1.1 200 OK\r\nContent-Length: {}\r\n\r\n{}", body.len(), body)
    );
    assert!(success_response().starts_with("HTTP/1.1 200 OK\r\nContent-Length: 71\r\n\r\nLogin"));
}
