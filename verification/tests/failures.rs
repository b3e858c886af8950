use qr_broker::decode::DecodeError;
use qr_broker::failure::{render_status_message, show_status, DecodeContext, Failure, Stage};

#[test]
fn status_is_shown_with_its_reason() {
    assert_eq!(show_status(200), "200 OK");
    assert_eq!(show_status(404), "404 Not Found");
    assert_eq!(show_status(500), "500 Internal Server Error");
    assert_eq!(show_status(599), "599 <unknown status code>");
}

#[test]
fn status_outside_the_codes_is_shown_bare() {
    assert_eq!(show_status(0), "0");
    assert_eq!(show_status(99), "99");
    assert_eq!(show_status(1000), "1000");
    assert_eq!(show_status(u16::MAX), "65535");
}

#[test]
fn status_message_has_status_and_body() {
    assert_eq!(render_status_message("500 Internal Server Error", "oops"), "HTTP 500 Internal Server Error: oops");
    assert_eq!(render_status_message("", ""), "HTTP : ");
}

#[test]
fn message_of_invalid_method() {
    assert_eq!(Failure::InvalidMethod.message(), "Invalid HTTP method");
}

#[test]
fn message_of_transport_failures() {
    let cause = "dns error".to_string();
    assert_eq!(
        Failure::Transport { stage: Stage::Setup, cause: cause.clone() }.message(),
        "Failed to create client: dns error"
    );
    assert_eq!(
        Failure::Transport { stage: Stage::Send, cause: cause.clone() }.message(),
        "Request failed: dns error"
    );
    assert_eq!(
        Failure::Transport { stage: Stage::Read, cause }.message(),
        "Failed to read response: dns error"
    );
}

#[test]
fn message_of_status_failure() {
    let failure = Failure::HttpStatus { status: 503, body: "down".to_string() };
    assert_eq!(failure.message(), "HTTP 503 Service Unavailable: down");
    let failure = Failure::HttpStatus { status: 42, body: "odd".to_string() };
    assert_eq!(failure.message(), "HTTP 42: odd");
}

#[test]
fn message_of_decode_failures() {
    let failure = Failure::Decode {
        context: DecodeContext::Response,
        diagnostic: "bad".to_string(),
        body: "raw".to_string(),
    };
    assert_eq!(failure.message(), "Failed to parse response: bad - raw");
    let failure = Failure::Decode {
        context: DecodeContext::Upstream,
        diagnostic: "bad".to_string(),
        body: "raw".to_string(),
    };
    assert_eq!(failure.message(), "Failed to parse response: bad - Response: raw");
    let failure = Failure::Decode {
        context: DecodeContext::Payload { what: "niche".to_string() },
        diagnostic: "bad".to_string(),
        body: "raw".to_string(),
    };
    assert_eq!(failure.message(), "Failed to parse niche: bad");
}

#[test]
fn message_of_upstream_errors() {
    let failure = Failure::UpstreamError { code: None, message: "x".to_string() };
    assert_eq!(failure.message(), "x");
    let failure = Failure::UpstreamError { code: Some(2), message: "expired".to_string() };
    assert_eq!(failure.message(), "Shopee API error: 2 - expired");
    let failure = Failure::UpstreamError { code: Some(-77), message: "Unknown error".to_string() };
    assert_eq!(failure.message(), "Shopee API error: -77 - Unknown error");
}

#[test]
fn message_of_missing_data() {
    let failure = Failure::MissingData { message: "No data in response".to_string() };
    assert_eq!(failure.message(), "No data in response");
}

#[test]
fn decode_errors_describe_themselves() {
    assert_eq!(DecodeError::NotAnObject.describe(), "expected a JSON object");
    assert_eq!(
        DecodeError::Missing { field: "id".to_string() }.describe(),
        "missing field `id`"
    );
    assert_eq!(
        DecodeError::Invalid { field: "id".to_string() }.describe(),
        "invalid value for field `id`"
    );
}

#[test]
fn message_with_a_status_shown_as_given() {
    let failure = Failure::HttpStatus { status: 503, body: "down".to_string() };
    assert_eq!(failure.status(), 503);
    assert_eq!(failure.message_with("five-oh-three"), "HTTP five-oh-three: down");
    assert_eq!(Failure::InvalidMethod.status(), 0);
    assert_eq!(Failure::InvalidMethod.message_with("ignored"), "Invalid HTTP method");
    let failure = Failure::MissingData { message: "m".to_string() };
    assert_eq!(failure.message_with("ignored"), failure.message());
}
