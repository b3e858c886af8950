use qr_broker::commands::{get_shopee_accounts_request, login_request};
use qr_broker::config::Config;
use qr_broker::logging::{
    log_body, log_http_request, log_parse_error, log_request, log_response, log_status_error,
    BODY_LOG_LIMIT, PARSED_LINE, UNSHOWN_BODY,
};

#[test]
fn request_log_has_method_and_address() {
    assert_eq!(
        log_request("GET", "https://h/p", None, None),
        vec!["[API REQUEST] GET https://h/p".to_string()]
    );
}

#[test]
fn request_log_shows_body_and_query_where_present() {
    assert_eq!(
        log_request("POST", "https://h/p?q=1", Some("{\n  \"a\": 1\n}"), Some("q=1")),
        vec![
            "[API REQUEST] POST https://h/p?q=1".to_string(),
            "[API REQUEST BODY]\n{\n  \"a\": 1\n}".to_string(),
            "[API REQUEST QUERY] q=1".to_string(),
        ]
    );
    assert_eq!(
        log_request("PUT", "u", None, Some("q")),
        vec!["[API REQUEST] PUT u".to_string(), "[API REQUEST QUERY] q".to_string()]
    );
}

#[test]
fn short_body_is_logged_whole() {
    assert_eq!(BODY_LOG_LIMIT, 500);
    assert_eq!(log_body(""), "[API RESPONSE BODY]\n");
    assert_eq!(log_body("{\"a\":1}"), "[API RESPONSE BODY]\n{\"a\":1}");
    let body = "x".repeat(499);
    assert_eq!(log_body(&body), format!("[API RESPONSE BODY]\n{}", body));
}

#[test]
fn long_body_is_logged_in_part_with_its_length() {
    let body = "y".repeat(500);
    assert_eq!(
        log_body(&body),
        format!("[API RESPONSE BODY] (truncated, 500 chars)\n{}", body)
    );
    let body = format!("{}{}", "a".repeat(500), "b".repeat(1234));
    assert_eq!(
        log_body(&body),
        format!("[API RESPONSE BODY] (truncated, 1734 chars)\n{}", "a".repeat(500))
    );
}

#[test]
fn long_body_is_cut_between_characters() {
    let body = "é".repeat(600);
    assert_eq!(
        log_body(&body),
        format!("[API RESPONSE BODY] (truncated, 600 chars)\n{}", "é".repeat(500))
    );
}

#[test]
fn response_log_has_status_path_and_body() {
    assert_eq!(
        log_response("200 OK", "/api/x", "{}"),
        vec!["[API RESPONSE] HTTP 200 OK /api/x".to_string(), "[API RESPONSE BODY]\n{}".to_string()]
    );
}

#[test]
fn error_lines() {
    assert_eq!(log_status_error("404 Not Found", "gone"), "[API ERROR] HTTP 404 Not Found: gone");
    assert_eq!(
        log_parse_error("expected value at line 1 column 1", "<html>"),
        "[API PARSE ERROR] expected value at line 1 column 1 - Response: <html>"
    );
}

#[test]
fn request_log_of_a_built_request() {
    let config = Config::standard();
    let request = login_request(&config, "e", "p", "m");
    assert_eq!(request.endpoint, "/api/members/login");
    assert_eq!(request.query, None);
    assert_eq!(
        log_http_request(&request, Some("{}")),
        vec![
            "[API REQUEST] POST https://livekenceng.com/api/members/login".to_string(),
            "[API REQUEST BODY]\n{}".to_string(),
        ]
    );
    let request = get_shopee_accounts_request(&config, "a@b", "p");
    assert_eq!(request.endpoint, "/api/members/shopee-accounts");
    assert_eq!(request.query, Some("email=a%40b&password=p".to_string()));
    assert_eq!(
        log_http_request(&request, None),
        vec![
            "[API REQUEST] GET https://livekenceng.com/api/members/shopee-accounts?email=a%40b&password=p"
                .to_string(),
            "[API REQUEST QUERY] email=a%40b&password=p".to_string(),
        ]
    );
}

#[test]
fn success_line() {
    assert_eq!(PARSED_LINE, "[API SUCCESS] Parsed response successfully");
    assert_eq!(UNSHOWN_BODY, "Failed to serialize");
    assert_eq!(
        log_request("POST", "u", Some(UNSHOWN_BODY), None),
        vec![
            "[API REQUEST] POST u".to_string(),
            "[API REQUEST BODY]\nFailed to serialize".to_string(),
        ]
    );
}
