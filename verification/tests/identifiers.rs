use qr_broker::decode::DecodeError;
use qr_broker::identifier::{deserialize_session_id, FlexibleIdentifier};
use qr_broker::json::{parse, Json, Member};

fn invalid(field: &str) -> DecodeError {
    DecodeError::Invalid { field: field.to_string() }
}

#[test]
fn identifier_from_a_string_is_that_string() {
    let value = Json::Text("sess-01".to_string());
    let decoded = FlexibleIdentifier::decode(Some(&value), "session_id").unwrap();
    assert_eq!(decoded.into_text(), Some("sess-01".to_string()));
    let empty = Json::Text(String::new());
    let decoded = FlexibleIdentifier::decode(Some(&empty), "session_id").unwrap();
    assert_eq!(decoded.into_text(), Some(String::new()));
}

#[test]
fn identifier_from_a_whole_number_is_its_digits() {
    let value = parse("987654321").unwrap();
    let decoded = FlexibleIdentifier::decode(Some(&value), "session_id").unwrap();
    assert_eq!(decoded.into_text(), Some("987654321".to_string()));
    let negative = parse("-15").unwrap();
    let decoded = FlexibleIdentifier::decode(Some(&negative), "session_id").unwrap();
    assert_eq!(decoded.into_text(), Some("-15".to_string()));
    let large = parse("18446744073709551615").unwrap();
    let decoded = FlexibleIdentifier::decode(Some(&large), "session_id").unwrap();
    assert_eq!(decoded.into_text(), Some("18446744073709551615".to_string()));
}

#[test]
fn identifier_from_null_or_nothing_is_absent() {
    let decoded = FlexibleIdentifier::decode(Some(&Json::Null), "session_id").unwrap();
    assert_eq!(decoded.into_text(), None);
    let decoded = FlexibleIdentifier::decode(None, "session_id").unwrap();
    assert_eq!(decoded.into_text(), None);
}

#[test]
fn identifier_from_other_kinds_is_refused_by_name() {
    for text in ["true", "false", "[]", "[1]", "{}", "{\"a\":1}"] {
        let value = parse(text).unwrap();
        assert_eq!(FlexibleIdentifier::decode(Some(&value), "session_id"), Err(invalid("session_id")));
        assert_eq!(FlexibleIdentifier::decode(Some(&value), "other"), Err(invalid("other")));
    }
}

#[test]
fn identifier_from_a_fraction_is_refused() {
    for text in ["1.5", "987654321.0", "1e3", "-0.0"] {
        let value = parse(text).unwrap();
        assert_eq!(FlexibleIdentifier::decode(Some(&value), "session_id"), Err(invalid("session_id")));
    }
}

#[test]
fn identifier_as_a_list_has_one_item_or_none() {
    let some = FlexibleIdentifier { value: Some("7".to_string()) };
    assert_eq!(some.into_list(), vec!["7".to_string()]);
    let none = FlexibleIdentifier { value: None };
    assert_eq!(none.into_list(), Vec::<String>::new());
}

#[test]
fn session_id_is_read_from_the_response() {
    let response = parse("{\"success\":true,\"session_id\":12}").unwrap();
    assert_eq!(deserialize_session_id(&response), Ok(Some("12".to_string())));
    let response = parse("{\"success\":true,\"session_id\":\"s\"}").unwrap();
    assert_eq!(deserialize_session_id(&response), Ok(Some("s".to_string())));
    let response = parse("{\"success\":true,\"session_id\":null}").unwrap();
    assert_eq!(deserialize_session_id(&response), Ok(None));
    let response = parse("{\"success\":true}").unwrap();
    assert_eq!(deserialize_session_id(&response), Ok(None));
    let response = parse("{\"success\":true,\"session_id\":{}}").unwrap();
    assert_eq!(deserialize_session_id(&response), Err(invalid("session_id")));
}

#[test]
fn session_id_of_a_document_built_by_hand() {
    let response = Json::Object(vec![Member {
        key: "session_id".to_string(),
        value: Json::Number("00123".to_string()),
    }]);
    assert_eq!(deserialize_session_id(&response), Ok(Some("00123".to_string())));
    assert_eq!(deserialize_session_id(&Json::Null), Ok(None));
}
