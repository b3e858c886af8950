use qr_broker::decode::{
    read_array, read_array_or_empty, read_bool, read_i32, read_i64, read_integer,
    read_optional_i32, read_optional_i64, read_optional_text, read_text, require_object,
    DecodeError,
};
use qr_broker::json::{parse, Json};
use qr_broker::model::{Niche, ProductSet, ProductSetItem, ShopeeAccount, User};
use qr_broker::upstream::{settle, upstream_error, UpstreamEnvelope};
use qr_broker::failure::{DecodeContext, Failure};

fn missing(field: &str) -> DecodeError {
    DecodeError::Missing { field: field.to_string() }
}

fn invalid(field: &str) -> DecodeError {
    DecodeError::Invalid { field: field.to_string() }
}

#[test]
fn required_members() {
    let object = parse("{\"t\":\"x\",\"b\":true,\"i\":5,\"n\":null,\"f\":2.5,\"big\":3000000000}").unwrap();
    assert_eq!(read_text(&object, "t"), Ok("x".to_string()));
    assert_eq!(read_text(&object, "b"), Err(invalid("b")));
    assert_eq!(read_text(&object, "n"), Err(invalid("n")));
    assert_eq!(read_text(&object, "zz"), Err(missing("zz")));
    assert_eq!(read_bool(&object, "b"), Ok(true));
    assert_eq!(read_bool(&object, "t"), Err(invalid("t")));
    assert_eq!(read_bool(&object, "zz"), Err(missing("zz")));
    assert_eq!(read_i32(&object, "i"), Ok(5));
    assert_eq!(read_i32(&object, "f"), Err(invalid("f")));
    assert_eq!(read_i32(&object, "big"), Err(invalid("big")));
    assert_eq!(read_i32(&object, "t"), Err(invalid("t")));
    assert_eq!(read_i32(&object, "zz"), Err(missing("zz")));
    assert_eq!(read_i64(&object, "big"), Ok(3000000000));
    assert_eq!(read_i64(&object, "n"), Err(invalid("n")));
    assert_eq!(read_i64(&object, "zz"), Err(missing("zz")));
}

#[test]
fn optional_members() {
    let object = parse("{\"t\":\"x\",\"n\":null,\"i\":-5,\"b\":false,\"big\":-3000000000}").unwrap();
    assert_eq!(read_optional_text(&object, "t"), Ok(Some("x".to_string())));
    assert_eq!(read_optional_text(&object, "n"), Ok(None));
    assert_eq!(read_optional_text(&object, "zz"), Ok(None));
    assert_eq!(read_optional_text(&object, "i"), Err(invalid("i")));
    assert_eq!(read_optional_i32(&object, "i"), Ok(Some(-5)));
    assert_eq!(read_optional_i32(&object, "n"), Ok(None));
    assert_eq!(read_optional_i32(&object, "zz"), Ok(None));
    assert_eq!(read_optional_i32(&object, "big"), Err(invalid("big")));
    assert_eq!(read_optional_i32(&object, "b"), Err(invalid("b")));
    assert_eq!(read_optional_i64(&object, "big"), Ok(Some(-3000000000)));
    assert_eq!(read_optional_i64(&object, "t"), Err(invalid("t")));
}

#[test]
fn integers_at_the_limits() {
    let object = parse("{\"lo\":-2147483648,\"hi\":2147483647,\"under\":-2147483649,\"over\":2147483648}").unwrap();
    assert_eq!(read_i32(&object, "lo"), Ok(i32::MIN));
    assert_eq!(read_i32(&object, "hi"), Ok(i32::MAX));
    assert_eq!(read_i32(&object, "under"), Err(invalid("under")));
    assert_eq!(read_i32(&object, "over"), Err(invalid("over")));
    assert_eq!(read_integer(&parse("9223372036854775807").unwrap()), Some(i64::MAX));
    assert_eq!(read_integer(&parse("9223372036854775808").unwrap()), None);
    assert_eq!(read_integer(&parse("\"1\"").unwrap()), None);
}

#[test]
fn array_members() {
    let object = parse("{\"l\":[1,2],\"e\":[],\"n\":null,\"t\":\"x\"}").unwrap();
    assert_eq!(read_array(&object, "l").map(|v| v.len()), Ok(2));
    assert_eq!(read_array(&object, "e").map(|v| v.len()), Ok(0));
    assert_eq!(read_array(&object, "n").map(|v| v.len()), Err(invalid("n")));
    assert_eq!(read_array(&object, "zz").map(|v| v.len()), Err(missing("zz")));
    assert_eq!(read_array_or_empty(&object, "l").map(|v| v.map(|l| l.len())), Ok(Some(2)));
    assert_eq!(read_array_or_empty(&object, "zz").map(|v| v.map(|l| l.len())), Ok(None));
    assert_eq!(read_array_or_empty(&object, "t").map(|v| v.map(|l| l.len())), Err(invalid("t")));
}

#[test]
fn objects_are_required_where_members_are_read() {
    assert_eq!(require_object(&parse("{}").unwrap()), Ok(()));
    assert_eq!(require_object(&Json::Null), Err(DecodeError::NotAnObject));
    assert_eq!(User::from_json(&parse("[]").unwrap()), Err(DecodeError::NotAnObject));
    assert_eq!(Niche::from_json(&parse("3").unwrap()), Err(DecodeError::NotAnObject));
}

#[test]
fn first_failing_member_decides_the_error() {
    let json = parse("{\"email\":5,\"machine_id\":\"m\"}").unwrap();
    assert_eq!(User::from_json(&json), Err(missing("id")));
    let json = parse("{\"id\":1,\"email\":5}").unwrap();
    assert_eq!(User::from_json(&json), Err(invalid("email")));
    let json = parse("{\"id\":1,\"email\":\"e\",\"telegram_username\":1}").unwrap();
    assert_eq!(User::from_json(&json), Err(invalid("telegram_username")));
    let json = parse("{\"id\":1,\"email\":\"e\"}").unwrap();
    assert_eq!(User::from_json(&json), Err(missing("machine_id")));
}

#[test]
fn first_failing_item_decides_the_error_of_a_list() {
    let items = parse("[{\"id\":1,\"url\":\"u\"},{\"id\":2},{\"url\":\"v\"}]").unwrap();
    match &items {
        Json::Array(list) => {
            assert_eq!(ProductSetItem::list_from_json(list), Err(missing("url")));
            assert_eq!(
                ProductSetItem::list_from_json(&list[..1].to_vec()),
                Ok(vec![ProductSetItem { id: 1, url: "u".to_string(), shop_id: None, item_id: None }])
            );
            assert_eq!(ProductSetItem::list_from_json(&Vec::new()), Ok(Vec::new()));
        }
        _ => panic!("an array"),
    }
    let json = parse("{\"id\":1,\"name\":\"s\",\"items\":[{\"id\":\"x\",\"url\":\"u\"}]}").unwrap();
    assert_eq!(ProductSet::from_json(&json), Err(invalid("id")));
    let json = parse("{\"id\":1,\"name\":\"s\",\"items\":null}").unwrap();
    assert_eq!(ProductSet::from_json(&json), Err(invalid("items")));
    let json = parse("[{\"id\":1,\"name\":\"a\",\"is_active\":true},7]").unwrap();
    match &json {
        Json::Array(list) => {
            assert_eq!(ShopeeAccount::list_from_json(list), Err(DecodeError::NotAnObject))
        }
        _ => panic!("an array"),
    }
}

#[test]
fn upstream_envelope_is_decoded() {
    let json = parse("{\"error\":0,\"error_msg\":\"m\",\"data\":{\"a\":1}}").unwrap();
    assert_eq!(
        UpstreamEnvelope::decode(&json),
        Ok(UpstreamEnvelope {
            error: 0,
            error_msg: Some("m".to_string()),
            data: Some(parse("{\"a\":1}").unwrap()),
        })
    );
    let json = parse("{\"error\":12,\"data\":null}").unwrap();
    assert_eq!(
        UpstreamEnvelope::decode(&json),
        Ok(UpstreamEnvelope { error: 12, error_msg: None, data: None })
    );
    assert_eq!(UpstreamEnvelope::decode(&parse("[]").unwrap()), Err(DecodeError::NotAnObject));
    assert_eq!(UpstreamEnvelope::decode(&parse("{}").unwrap()), Err(missing("error")));
    assert_eq!(
        UpstreamEnvelope::decode(&parse("{\"error\":0,\"error_msg\":1}").unwrap()),
        Err(invalid("error_msg"))
    );
}

#[test]
fn upstream_responses_are_settled_in_order() {
    let bad: Option<Result<i32, DecodeError>> = Some(Err(missing("x")));
    assert_eq!(
        settle(5, Some("m".to_string()), bad, "raw", "none"),
        Err(Failure::Decode {
            context: DecodeContext::Upstream,
            diagnostic: "missing field `x`".to_string(),
            body: "raw".to_string(),
        })
    );
    assert_eq!(
        settle(5, Some("m".to_string()), Some(Ok(1)), "raw", "none"),
        Err(Failure::UpstreamError { code: Some(5), message: "m".to_string() })
    );
    let absent: Option<Result<i32, DecodeError>> = None;
    assert_eq!(
        settle(5, None, absent.clone(), "raw", "none"),
        Err(Failure::UpstreamError { code: Some(5), message: "Unknown error".to_string() })
    );
    assert_eq!(
        settle(0, Some("m".to_string()), absent, "raw", "none"),
        Err(Failure::MissingData { message: "none".to_string() })
    );
    assert_eq!(settle(0, None, Some(Ok(1)), "raw", "none"), Ok(1));
    assert_eq!(
        upstream_error(-4, None),
        Failure::UpstreamError { code: Some(-4), message: "Unknown error".to_string() }
    );
}
