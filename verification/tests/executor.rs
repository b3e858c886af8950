use qr_broker::config::Config;
use qr_broker::executor::{
    build_api_request, build_url, classify_parsed, classify_response, make_api_request,
};
use qr_broker::failure::{DecodeContext, Failure};
use qr_broker::http::{is_success, Header, HttpResponse, Method};
use qr_broker::json::{parse, Json, Member};

fn response(status: u16, body: &str) -> HttpResponse {
    HttpResponse { status, set_cookies: Vec::new(), body: body.to_string() }
}

fn content_type() -> Vec<Header> {
    vec![Header { name: "Content-Type".to_string(), value: "application/json".to_string() }]
}

fn small_body() -> Json {
    Json::Object(vec![Member { key: "a".to_string(), value: Json::Bool(true) }])
}

#[test]
fn method_names_are_read_in_capitals_only() {
    assert_eq!(Method::parse("GET"), Some(Method::Get));
    assert_eq!(Method::parse("POST"), Some(Method::Post));
    assert_eq!(Method::parse("PUT"), Some(Method::Put));
    assert_eq!(Method::parse("DELETE"), Some(Method::Delete));
    assert_eq!(Method::parse("get"), None);
    assert_eq!(Method::parse("PATCH"), None);
    assert_eq!(Method::parse(""), None);
    assert_eq!(Method::parse("GET "), None);
}

#[test]
fn method_names_round_trip() {
    for method in [Method::Get, Method::Post, Method::Put, Method::Delete] {
        assert_eq!(Method::parse(&method.name()), Some(method));
    }
    assert_eq!(Method::Delete.name(), "DELETE");
}

#[test]
fn unknown_method_is_refused_before_anything_is_sent() {
    let config = Config::standard();
    let outcome = make_api_request(&config, "PATCH", "/api/x", None, None);
    assert_eq!(outcome, Err(Failure::InvalidMethod));
    let outcome = make_api_request(&config, "post", "/api/x", Some(small_body()), None);
    assert_eq!(outcome, Err(Failure::InvalidMethod));
}

#[test]
fn url_joins_origin_path_and_query() {
    assert_eq!(build_url("https://h", "/p", None), "https://h/p");
    assert_eq!(build_url("https://h", "/p", Some("a=1&b=2")), "https://h/p?a=1&b=2");
    assert_eq!(build_url("https://h", "/p", Some("")), "https://h/p?");
    assert_eq!(build_url("", "", None), "");
}

#[test]
fn get_without_body_declares_no_content_type() {
    let config = Config::standard();
    let request = make_api_request(&config, "GET", "/api/members/niches", None, None).unwrap();
    assert_eq!(request.method, Method::Get);
    assert_eq!(request.url, "https://livekenceng.com/api/members/niches");
    assert_eq!(request.headers, Vec::<Header>::new());
    assert_eq!(request.body, None);
}

#[test]
fn get_with_body_declares_json() {
    let config = Config::standard();
    let request =
        make_api_request(&config, "GET", "/api/members/niches", Some(small_body()), None).unwrap();
    assert_eq!(request.headers, content_type());
    assert_eq!(request.body, Some(small_body()));
}

#[test]
fn other_methods_declare_json_even_without_body() {
    let config = Config::standard();
    for name in ["POST", "PUT", "DELETE"] {
        let request = make_api_request(&config, name, "/api/x", None, Some("q=1")).unwrap();
        assert_eq!(request.headers, content_type());
        assert_eq!(request.body, None);
        assert_eq!(request.url, "https://livekenceng.com/api/x?q=1");
        assert_eq!(Some(request.method), Method::parse(name));
    }
}

#[test]
fn request_goes_to_the_configured_origin() {
    let mut config = Config::standard();
    config.base_url = "http://localhost:9".to_string();
    let request = build_api_request(&config, Method::Put, "/p", Some(small_body()), None);
    assert_eq!(request.url, "http://localhost:9/p");
    assert_eq!(request.method, Method::Put);
}

#[test]
fn success_class_is_200_to_299() {
    assert!(!is_success(0));
    assert!(!is_success(199));
    assert!(is_success(200));
    assert!(is_success(204));
    assert!(is_success(299));
    assert!(!is_success(300));
    assert!(!is_success(404));
    assert!(!is_success(500));
    assert!(!is_success(u16::MAX));
}

#[test]
fn status_500_with_a_json_body_is_a_status_failure() {
    let body = "{\"success\":true,\"message\":\"fine\"}";
    assert!(parse(body).is_ok());
    let outcome = classify_response(&response(500, body), DecodeContext::Response);
    assert_eq!(outcome, Err(Failure::HttpStatus { status: 500, body: body.to_string() }));
    let outcome = classify_parsed(500, body, parse(body), DecodeContext::Response);
    assert_eq!(outcome, Err(Failure::HttpStatus { status: 500, body: body.to_string() }));
}

#[test]
fn status_failure_carries_the_raw_body() {
    let outcome = classify_response(&response(404, "<html>gone</html>"), DecodeContext::Response);
    assert_eq!(
        outcome,
        Err(Failure::HttpStatus { status: 404, body: "<html>gone</html>".to_string() })
    );
    let outcome = classify_response(&response(302, ""), DecodeContext::Upstream);
    assert_eq!(outcome, Err(Failure::HttpStatus { status: 302, body: String::new() }));
}

#[test]
fn success_with_an_unparsable_body_is_a_decode_failure() {
    let body = "<html>";
    let complaint = parse(body).unwrap_err();
    let outcome = classify_response(&response(200, body), DecodeContext::Response);
    assert_eq!(
        outcome,
        Err(Failure::Decode {
            context: DecodeContext::Response,
            diagnostic: complaint.clone(),
            body: body.to_string(),
        })
    );
    let outcome = classify_response(&response(201, body), DecodeContext::Upstream);
    assert_eq!(
        outcome,
        Err(Failure::Decode {
            context: DecodeContext::Upstream,
            diagnostic: complaint,
            body: body.to_string(),
        })
    );
}

#[test]
fn success_with_a_parsable_body_is_the_document() {
    let outcome = classify_response(&response(200, "{\"a\":true}"), DecodeContext::Response);
    assert_eq!(outcome, Ok(small_body()));
    let outcome = classify_response(&response(299, "[]"), DecodeContext::Response);
    assert_eq!(outcome, Ok(Json::Array(Vec::new())));
}

#[test]
fn classify_parsed_takes_the_parsers_outcome_as_given() {
    let outcome = classify_parsed(200, "raw", Err("bad".to_string()), DecodeContext::Response);
    assert_eq!(
        outcome,
        Err(Failure::Decode {
            context: DecodeContext::Response,
            diagnostic: "bad".to_string(),
            body: "raw".to_string(),
        })
    );
    let outcome = classify_parsed(200, "raw", Ok(Json::Null), DecodeContext::Response);
    assert_eq!(outcome, Ok(Json::Null));
}
