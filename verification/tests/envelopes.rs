use qr_broker::decode::DecodeError;
use qr_broker::envelope::{extract, flattened_value, read_envelope, Envelope, Extraction};
use qr_broker::failure::{DecodeContext, Failure};
use qr_broker::json::{parse, Json};

fn named(key: &str) -> Extraction {
    Extraction::Named { key: key.to_string() }
}

fn upstream(message: &str) -> Failure {
    Failure::UpstreamError { code: None, message: message.to_string() }
}

#[test]
fn failed_response_carries_its_message_whatever_the_extraction() {
    let body = "{\"success\":false,\"message\":\"x\"}";
    let response = parse(body).unwrap();
    for how in [Extraction::Flattened, named("niche"), named("data"), named("message")] {
        assert_eq!(read_envelope(&response, body, &how, "default"), Err(upstream("x")));
    }
}

#[test]
fn failed_response_without_message_carries_the_default() {
    let response = parse("{\"success\":false}").unwrap();
    assert_eq!(
        read_envelope(&response, "", &Extraction::Flattened, "Login failed"),
        Err(upstream("Login failed"))
    );
    let response = parse("{\"success\":false,\"message\":null}").unwrap();
    assert_eq!(
        read_envelope(&response, "", &named("niche"), "Failed to create niche"),
        Err(upstream("Failed to create niche"))
    );
}

#[test]
fn failed_response_has_no_value() {
    let response = parse("{\"success\":false,\"message\":\"x\",\"niche\":{\"id\":1}}").unwrap();
    let envelope = Envelope::decode(&response, &named("niche")).unwrap();
    assert!(!envelope.ok);
    assert_eq!(envelope.value, None);
    assert_eq!(envelope.message, Some("x".to_string()));
    let envelope = Envelope::decode(&response, &Extraction::Flattened).unwrap();
    assert_eq!(envelope.value, None);
}

#[test]
fn flattened_value_leaves_out_flag_and_message() {
    let response = parse("{\"success\":true,\"message\":\"m\",\"a\":1,\"b\":[2]}").unwrap();
    let value = flattened_value(&response).unwrap();
    assert_eq!(value, parse("{\"a\":1,\"b\":[2]}").unwrap());
    let envelope = Envelope::decode(&response, &Extraction::Flattened).unwrap();
    assert!(envelope.ok);
    assert_eq!(envelope.value, Some(value));
    assert_eq!(envelope.message, Some("m".to_string()));
}

#[test]
fn flattened_value_of_a_bare_envelope_is_empty() {
    let response = parse("{\"success\":true}").unwrap();
    assert_eq!(flattened_value(&response), Some(Json::Object(Vec::new())));
    assert_eq!(flattened_value(&Json::Null), None);
    assert_eq!(flattened_value(&Json::Array(Vec::new())), None);
}

#[test]
fn named_value_is_the_member_of_that_name() {
    let response = parse("{\"success\":true,\"niche\":{\"id\":3},\"other\":1}").unwrap();
    assert_eq!(extract(&response, &named("niche")), Some(parse("{\"id\":3}").unwrap()));
    assert_eq!(extract(&response, &named("other")), Some(Json::Number("1".to_string())));
    assert_eq!(extract(&response, &named("absent")), None);
    assert_eq!(
        read_envelope(&response, "", &named("niche"), "d"),
        Ok(Some(parse("{\"id\":3}").unwrap()))
    );
    assert_eq!(read_envelope(&response, "", &named("absent"), "d"), Ok(None));
}

#[test]
fn envelope_needs_an_object() {
    for text in ["null", "[]", "1", "\"s\"", "true"] {
        let response = parse(text).unwrap();
        assert_eq!(
            Envelope::decode(&response, &Extraction::Flattened),
            Err(DecodeError::NotAnObject)
        );
        assert_eq!(
            read_envelope(&response, text, &Extraction::Flattened, "d"),
            Err(Failure::Decode {
                context: DecodeContext::Response,
                diagnostic: "expected a JSON object".to_string(),
                body: text.to_string(),
            })
        );
    }
}

#[test]
fn envelope_needs_a_boolean_success() {
    let response = parse("{\"message\":\"x\"}").unwrap();
    assert_eq!(
        Envelope::decode(&response, &Extraction::Flattened),
        Err(DecodeError::Missing { field: "success".to_string() })
    );
    for text in ["{\"success\":1}", "{\"success\":\"true\"}", "{\"success\":null}"] {
        let response = parse(text).unwrap();
        assert_eq!(
            Envelope::decode(&response, &Extraction::Flattened),
            Err(DecodeError::Invalid { field: "success".to_string() })
        );
    }
}

#[test]
fn envelope_message_is_a_string_or_nothing() {
    let response = parse("{\"success\":true,\"message\":7}").unwrap();
    assert_eq!(
        Envelope::decode(&response, &Extraction::Flattened),
        Err(DecodeError::Invalid { field: "message".to_string() })
    );
    let body = "{\"success\":false,\"message\":[\"x\"]}";
    let response = parse(body).unwrap();
    assert_eq!(
        read_envelope(&response, body, &Extraction::Flattened, "d"),
        Err(Failure::Decode {
            context: DecodeContext::Response,
            diagnostic: "invalid value for field `message`".to_string(),
            body: body.to_string(),
        })
    );
}
