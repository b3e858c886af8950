use qr_broker::config::Config;
use qr_broker::failure::{DecodeContext, Failure};
use qr_broker::http::{Header, HttpResponse, Method};
use qr_broker::json::parse;
use qr_broker::qr::{
    build_browser_headers, check_qr_status, check_qr_status_decoded, check_qr_status_request,
    collect_cookies, generate_shopee_qr, generate_shopee_qr_decoded, generate_shopee_qr_request,
    get_account_info, get_account_info_request, normalize, qr_login, qr_login_decoded,
    qr_login_request, AppQRStatus, LoginResult,
};
use qr_broker::upstream_model::{QRStatusData, ShopeeAccountInfo, ShopeeQRData};

fn response(status: u16, body: &str) -> HttpResponse {
    HttpResponse { status, set_cookies: Vec::new(), body: body.to_string() }
}

fn with_cookies(status: u16, cookies: &[&str], body: &str) -> HttpResponse {
    HttpResponse {
        status,
        set_cookies: cookies.iter().map(|c| Some(c.to_string())).collect(),
        body: body.to_string(),
    }
}

fn header_value(headers: &[Header], name: &str) -> Option<String> {
    headers.iter().find(|h| h.name == name).map(|h| h.value.clone())
}

const BROWSER: &str = "Mozilla/5.0 (Windows NT 10.0; Win64; x64) AppleWebKit/537.36 (KHTML, like Gecko) Chrome/123.0.0.0 Safari/537.36";

#[test]
fn browser_headers_present_the_client() {
    let headers = build_browser_headers(&Config::standard());
    let pairs: Vec<(String, String)> =
        headers.into_iter().map(|h| (h.name, h.value)).collect();
    assert_eq!(
        pairs,
        vec![
            ("User-Agent".to_string(), BROWSER.to_string()),
            ("Accept".to_string(), "application/json, text/plain".to_string()),
            ("Accept-Language".to_string(), "en-US,en;q=0.9".to_string()),
            ("Origin".to_string(), "https://shopee.co.id".to_string()),
            ("Referer".to_string(), "https://shopee.co.id/".to_string()),
        ]
    );
}

#[test]
fn generate_request_has_no_body() {
    let request = generate_shopee_qr_request(&Config::standard());
    assert_eq!(request.method, Method::Get);
    assert_eq!(request.url, "https://shopee.co.id/api/v2/authentication/gen_qrcode");
    assert_eq!(request.body, None);
    assert_eq!(request.headers, build_browser_headers(&Config::standard()));
}

#[test]
fn generate_gives_the_challenge() {
    let body = "{\"error\":0,\"data\":{\"qrcode_id\":\"abc\",\"qrcode_base64\":\"aGk=\"}}";
    assert_eq!(
        generate_shopee_qr(&response(200, body)),
        Ok(ShopeeQRData { qrcode_id: "abc".to_string(), qrcode_base64: "aGk=".to_string() })
    );
}

#[test]
fn generate_with_an_error_code_carries_the_upstream_message() {
    let body = "{\"error\":3,\"error_msg\":\"busy\"}";
    assert_eq!(
        generate_shopee_qr(&response(200, body)),
        Err(Failure::UpstreamError { code: Some(3), message: "busy".to_string() })
    );
    let body = "{\"error\":-1}";
    assert_eq!(
        generate_shopee_qr(&response(200, body)),
        Err(Failure::UpstreamError { code: Some(-1), message: "Unknown error".to_string() })
    );
    let body = "{\"error\":5,\"error_msg\":null,\"data\":null}";
    assert_eq!(
        generate_shopee_qr(&response(200, body)),
        Err(Failure::UpstreamError { code: Some(5), message: "Unknown error".to_string() })
    );
}

#[test]
fn generate_with_code_zero_and_no_data_is_missing_data() {
    for body in ["{\"error\":0}", "{\"error\":0,\"data\":null}", "{\"error\":0,\"error_msg\":\"ok\"}"] {
        assert_eq!(
            generate_shopee_qr(&response(200, body)),
            Err(Failure::MissingData { message: "Invalid response from Shopee API".to_string() })
        );
    }
}

#[test]
fn generate_with_malformed_data_is_a_decode_failure() {
    let body = "{\"error\":0,\"data\":{\"qrcode_id\":\"abc\"}}";
    assert_eq!(
        generate_shopee_qr(&response(200, body)),
        Err(Failure::Decode {
            context: DecodeContext::Upstream,
            diagnostic: "missing field `qrcode_base64`".to_string(),
            body: body.to_string(),
        })
    );
    let body = "{\"error\":9,\"error_msg\":\"e\",\"data\":[1]}";
    assert_eq!(
        generate_shopee_qr(&response(200, body)),
        Err(Failure::Decode {
            context: DecodeContext::Upstream,
            diagnostic: "expected a JSON object".to_string(),
            body: body.to_string(),
        })
    );
}

#[test]
fn generate_needs_an_envelope() {
    let body = "{\"data\":{\"qrcode_id\":\"a\",\"qrcode_base64\":\"b\"}}";
    let parsed = parse(body).unwrap();
    assert_eq!(
        generate_shopee_qr_decoded(&parsed, body),
        Err(Failure::Decode {
            context: DecodeContext::Upstream,
            diagnostic: "missing field `error`".to_string(),
            body: body.to_string(),
        })
    );
    let body = "{\"error\":\"0\"}";
    assert_eq!(
        generate_shopee_qr(&response(200, body)),
        Err(Failure::Decode {
            context: DecodeContext::Upstream,
            diagnostic: "invalid value for field `error`".to_string(),
            body: body.to_string(),
        })
    );
    let body = "{\"error\":4294967296}";
    assert_eq!(
        generate_shopee_qr(&response(200, body)),
        Err(Failure::Decode {
            context: DecodeContext::Upstream,
            diagnostic: "invalid value for field `error`".to_string(),
            body: body.to_string(),
        })
    );
}

#[test]
fn generate_with_a_failed_status_is_a_status_failure() {
    assert_eq!(
        generate_shopee_qr(&response(403, "denied")),
        Err(Failure::HttpStatus { status: 403, body: "denied".to_string() })
    );
}

#[test]
fn status_request_encodes_the_identifier() {
    let request = check_qr_status_request(&Config::standard(), "abc");
    assert_eq!(
        request.url,
        "https://shopee.co.id/api/v2/authentication/qrcode_status?qrcode_id=abc"
    );
    assert_eq!(request.method, Method::Get);
    assert_eq!(request.body, None);
    assert_eq!(request.endpoint, "/api/v2/authentication/qrcode_status");
    assert_eq!(request.query, Some("qrcode_id=abc".to_string()));
    let request = check_qr_status_request(&Config::standard(), "a b&c=d/é");
    assert_eq!(
        request.url,
        "https://shopee.co.id/api/v2/authentication/qrcode_status?qrcode_id=a%20b%26c%3Dd%2F%C3%A9"
    );
}

#[test]
fn poll_before_scan_has_no_token() {
    let body = "{\"error\":0,\"data\":{\"qrcode_token\":\"\",\"status\":\"WAITING\"}}";
    let expected = AppQRStatus { status: "WAITING".to_string(), qrcode_token: None };
    assert_eq!(check_qr_status(&response(200, body)), Ok(expected));
}

#[test]
fn poll_with_the_token_left_out_has_no_token() {
    let waiting = AppQRStatus { status: "WAITING".to_string(), qrcode_token: None };
    let body = "{\"error\":0,\"data\":{\"status\":\"WAITING\"}}";
    assert_eq!(check_qr_status(&response(200, body)), Ok(waiting.clone()));
    let parsed = parse(body).unwrap();
    assert_eq!(check_qr_status_decoded(&parsed, body), Ok(waiting.clone()));
    let body = "{\"error\":0,\"data\":{\"qrcode_token\":null,\"status\":\"WAITING\"}}";
    assert_eq!(check_qr_status(&response(200, body)), Ok(waiting.clone()));
    let body = "{\"error\":0,\"data\":{\"qrcode_token\":\"\",\"status\":\"WAITING\"}}";
    assert_eq!(check_qr_status(&response(200, body)), Ok(waiting));
}

#[test]
fn poll_data_keeps_an_absent_token_as_the_empty_text() {
    let json = parse("{\"status\":\"NEW\"}").unwrap();
    assert_eq!(
        QRStatusData::from_json(&json),
        Ok(QRStatusData { qrcode_token: String::new(), status: "NEW".to_string() })
    );
    let json = parse("{\"status\":\"DONE\",\"qrcode_token\":\"tok\"}").unwrap();
    assert_eq!(
        QRStatusData::from_json(&json),
        Ok(QRStatusData { qrcode_token: "tok".to_string(), status: "DONE".to_string() })
    );
}

#[test]
fn poll_repeated_before_confirmation_gives_the_same() {
    let body = "{\"error\":0,\"data\":{\"qrcode_token\":\"\",\"status\":\"SCANNED\"}}";
    let first = check_qr_status(&response(200, body));
    let second = check_qr_status(&response(200, body));
    let reordered = "{\"data\":{\"status\":\"SCANNED\",\"qrcode_token\":\"\"},\"error_msg\":null,\"error\":0}";
    let third = check_qr_status(&response(200, reordered));
    assert_eq!(first, second);
    assert_eq!(first, third);
    assert_eq!(first, Ok(AppQRStatus { status: "SCANNED".to_string(), qrcode_token: None }));
    assert_eq!(
        check_qr_status_request(&Config::standard(), "abc"),
        check_qr_status_request(&Config::standard(), "abc")
    );
}

#[test]
fn poll_after_confirmation_has_the_token() {
    let body = "{\"error\":0,\"data\":{\"qrcode_token\":\"tok123\",\"status\":\"CONFIRMED\"}}";
    let expected =
        AppQRStatus { status: "CONFIRMED".to_string(), qrcode_token: Some("tok123".to_string()) };
    assert_eq!(check_qr_status(&response(200, body)), Ok(expected));
}

#[test]
fn poll_failures() {
    assert_eq!(
        check_qr_status(&response(200, "{\"error\":0}")),
        Err(Failure::MissingData { message: "No data in response".to_string() })
    );
    assert_eq!(
        check_qr_status(&response(200, "{\"error\":7,\"error_msg\":\"expired\"}")),
        Err(Failure::UpstreamError { code: Some(7), message: "expired".to_string() })
    );
    let body = "{\"error\":0,\"data\":{\"qrcode_token\":\"t\"}}";
    let parsed = parse(body).unwrap();
    assert_eq!(
        check_qr_status_decoded(&parsed, body),
        Err(Failure::Decode {
            context: DecodeContext::Upstream,
            diagnostic: "missing field `status`".to_string(),
            body: body.to_string(),
        })
    );
    let body = "{\"error\":0,\"data\":{\"qrcode_token\":7,\"status\":\"NEW\"}}";
    assert_eq!(
        check_qr_status(&response(200, body)),
        Err(Failure::Decode {
            context: DecodeContext::Upstream,
            diagnostic: "invalid value for field `qrcode_token`".to_string(),
            body: body.to_string(),
        })
    );
    assert_eq!(
        check_qr_status(&response(500, body)),
        Err(Failure::HttpStatus { status: 500, body: body.to_string() })
    );
}

#[test]
fn normalize_treats_an_empty_token_as_absent() {
    let data = QRStatusData { qrcode_token: String::new(), status: "NEW".to_string() };
    assert_eq!(normalize(data), AppQRStatus { status: "NEW".to_string(), qrcode_token: None });
    let data = QRStatusData { qrcode_token: " ".to_string(), status: String::new() };
    assert_eq!(
        normalize(data),
        AppQRStatus { status: String::new(), qrcode_token: Some(" ".to_string()) }
    );
}

#[test]
fn login_request_carries_token_and_fingerprints() {
    let config = Config::standard();
    let request = qr_login_request(&config, "tok123");
    assert_eq!(request.method, Method::Post);
    assert_eq!(request.url, "https://shopee.co.id/api/v2/authentication/qrcode_login");
    let expected = parse(
        "{\"qrcode_token\":\"tok123\",\"device_sz_fingerprint\":\"Eci2goR2Eb+MxmnU3gKNBQ==|U4oBUb+lXscV+6i8liMV/0lL2YjLYCw6ZgvAg3AVpmc=|WYw++VlzfflxOp1j|08|3\",\"client_identifier\":{\"security_device_fingerprint\":\"vRr1CLNxsx/YWsLqNCAeGQ==|3UI1dXTNSZRQkHYpKyn3MGV94+BUZv/37sidjlGODXY=|77wWZwahX4xYgzK9BHP57A==\"}}",
    )
    .unwrap();
    let body = request.body.unwrap();
    for key in ["qrcode_token", "device_sz_fingerprint", "client_identifier"] {
        assert_eq!(body.get(key), expected.get(key));
        assert!(body.get(key).is_some());
    }
}

#[test]
fn login_request_has_the_fixed_headers() {
    let request = qr_login_request(&Config::standard(), "t");
    let names: Vec<&str> = request.headers.iter().map(|h| h.name.as_str()).collect();
    assert_eq!(
        names,
        vec![
            "User-Agent",
            "Accept",
            "Content-Type",
            "X-Sz-Sdk-Version",
            "X-Api-Source",
            "X-Shopee-Language",
            "X-Requested-With",
            "Af-Ac-Enc-Sz-Token",
            "Sec-Ch-Ua-Platform",
            "Origin",
            "Referer",
        ]
    );
    assert_eq!(
        header_value(&request.headers, "User-Agent").unwrap(),
        "Mozilla/5.0 (Macintosh; Intel Mac OS X 10_15_7) AppleWebKit/537.36 (KHTML, like Gecko) Chrome/119.0.0.0 Safari/537.36"
    );
    assert_eq!(header_value(&request.headers, "Accept").unwrap(), "application/json");
    assert_eq!(header_value(&request.headers, "Content-Type").unwrap(), "application/json");
    assert_eq!(header_value(&request.headers, "X-Sz-Sdk-Version").unwrap(), "3.3.0-2&1.6.6");
    assert_eq!(header_value(&request.headers, "X-Api-Source").unwrap(), "pc");
    assert_eq!(header_value(&request.headers, "X-Shopee-Language").unwrap(), "id");
    assert_eq!(header_value(&request.headers, "X-Requested-With").unwrap(), "XMLHttpRequest");
    assert_eq!(
        header_value(&request.headers, "Af-Ac-Enc-Sz-Token").unwrap(),
        "LKhci5u+IZWG5pLadxISkw==|KnTeDESKZrvJIH7v/k87MkjZgllq1OIb4WNTbBMjqiX47UKmLiYT/5gQveB5AcnnWrX7QOH0K22Cyg==|WYw++VlzfflxOp1j|08|3"
    );
    assert_eq!(header_value(&request.headers, "Sec-Ch-Ua-Platform").unwrap(), "\"macOS\"");
    assert_eq!(header_value(&request.headers, "Origin").unwrap(), "https://shopee.co.id");
    assert_eq!(
        header_value(&request.headers, "Referer").unwrap(),
        "https://shopee.co.id/buyer/login/qr?next=https%3A%2F%2Fshopee.co.id%2F"
    );
}

#[test]
fn cookies_are_joined_by_semicolon_and_blank() {
    assert_eq!(collect_cookies(&Vec::new()), "");
    assert_eq!(collect_cookies(&vec![Some("a=1".to_string())]), "a=1");
    assert_eq!(
        collect_cookies(&vec![Some("a=1".to_string()), Some("b=2".to_string())]),
        "a=1; b=2"
    );
    assert_eq!(
        collect_cookies(&vec![
            Some("a=1".to_string()),
            Some(String::new()),
            Some("c=3; Path=/".to_string()),
        ]),
        "a=1; ; c=3; Path=/"
    );
}

#[test]
fn unreadable_cookies_are_left_out() {
    assert_eq!(collect_cookies(&vec![None]), "");
    assert_eq!(
        collect_cookies(&vec![None, Some("a=1".to_string()), None, Some("b=2".to_string()), None]),
        "a=1; b=2"
    );
}

#[test]
fn exchange_with_code_zero_logs_in_with_the_session() {
    let outcome = qr_login(&with_cookies(200, &["a=1", "b=2"], "{\"error\":0}"));
    assert_eq!(
        outcome,
        Ok(LoginResult { success: true, cookies: Some("a=1; b=2".to_string()), error_msg: None })
    );
    let outcome = qr_login(&response(200, "{\"error\":0,\"data\":{\"x\":1},\"bff_meta\":null}"));
    assert_eq!(
        outcome,
        Ok(LoginResult { success: true, cookies: Some(String::new()), error_msg: None })
    );
}

#[test]
fn exchange_with_a_failed_status_is_a_failed_login_not_a_failure() {
    let outcome = qr_login(&with_cookies(403, &["a=1"], "Forbidden"));
    assert_eq!(
        outcome,
        Ok(LoginResult {
            success: false,
            cookies: None,
            error_msg: Some("HTTP 403 Forbidden: Forbidden".to_string()),
        })
    );
    let outcome = qr_login(&with_cookies(500, &["a=1", "b=2"], "{\"error\":0}"));
    assert_eq!(
        outcome,
        Ok(LoginResult {
            success: false,
            cookies: None,
            error_msg: Some("HTTP 500 Internal Server Error: {\"error\":0}".to_string()),
        })
    );
}

#[test]
fn exchange_with_an_error_code_is_a_failed_login_with_the_upstream_message() {
    let outcome = qr_login(&with_cookies(200, &["a=1"], "{\"error\":2,\"error_msg\":\"expired\"}"));
    assert_eq!(
        outcome,
        Ok(LoginResult { success: false, cookies: None, error_msg: Some("expired".to_string()) })
    );
    let outcome = qr_login(&response(200, "{\"error\":2}"));
    assert_eq!(outcome, Ok(LoginResult { success: false, cookies: None, error_msg: None }));
}

#[test]
fn exchange_with_an_unreadable_body_is_a_decode_failure() {
    let complaint = parse("nope").unwrap_err();
    assert_eq!(
        qr_login(&with_cookies(200, &["a=1"], "nope")),
        Err(Failure::Decode {
            context: DecodeContext::Upstream,
            diagnostic: complaint,
            body: "nope".to_string(),
        })
    );
    assert_eq!(
        qr_login(&response(200, "{}")),
        Err(Failure::Decode {
            context: DecodeContext::Upstream,
            diagnostic: "missing field `error`".to_string(),
            body: "{}".to_string(),
        })
    );
}

#[test]
fn exchange_settles_from_the_parts_given() {
    let cookies = vec![Some("k=v".to_string())];
    let outcome = qr_login_decoded(418, "418 shown", &cookies, "body", Ok(parse("{\"error\":0}").unwrap()));
    assert_eq!(
        outcome,
        Ok(LoginResult {
            success: false,
            cookies: None,
            error_msg: Some("HTTP 418 shown: body".to_string()),
        })
    );
    let outcome = qr_login_decoded(200, "200 OK", &cookies, "body", Err("bad".to_string()));
    assert_eq!(
        outcome,
        Err(Failure::Decode {
            context: DecodeContext::Upstream,
            diagnostic: "bad".to_string(),
            body: "body".to_string(),
        })
    );
    let outcome = qr_login_decoded(200, "200 OK", &cookies, "body", Ok(parse("{\"error\":0}").unwrap()));
    assert_eq!(
        outcome,
        Ok(LoginResult { success: true, cookies: Some("k=v".to_string()), error_msg: None })
    );
}

#[test]
fn handshake_from_challenge_to_session() {
    let config = Config::standard();
    let request = generate_shopee_qr_request(&config);
    assert_eq!(request.body, None);
    let challenge = generate_shopee_qr(&response(
        200,
        "{\"error\":0,\"data\":{\"qrcode_id\":\"abc\",\"qrcode_base64\":\"...\"}}",
    ))
    .unwrap();
    assert_eq!(challenge.qrcode_id, "abc");
    assert_eq!(challenge.qrcode_base64, "...");

    let poll = check_qr_status_request(&config, &challenge.qrcode_id);
    assert!(poll.url.ends_with("?qrcode_id=abc"));
    let waiting = check_qr_status(&response(
        200,
        "{\"error\":0,\"data\":{\"qrcode_token\":\"\",\"status\":\"WAITING\"}}",
    ))
    .unwrap();
    assert_eq!(waiting, AppQRStatus { status: "WAITING".to_string(), qrcode_token: None });
    let confirmed = check_qr_status(&response(
        200,
        "{\"error\":0,\"data\":{\"qrcode_token\":\"tok123\",\"status\":\"CONFIRMED\"}}",
    ))
    .unwrap();
    assert_eq!(
        confirmed,
        AppQRStatus { status: "CONFIRMED".to_string(), qrcode_token: Some("tok123".to_string()) }
    );

    let token = confirmed.qrcode_token.unwrap();
    let exchange = qr_login_request(&config, &token);
    assert_eq!(
        exchange.body.unwrap().get("qrcode_token"),
        parse("\"tok123\"").ok().as_ref()
    );
    let outcome = qr_login(&with_cookies(200, &["a=1", "b=2"], "{\"error\":0}")).unwrap();
    assert_eq!(
        outcome,
        LoginResult { success: true, cookies: Some("a=1; b=2".to_string()), error_msg: None }
    );
}

#[test]
fn account_request_carries_the_session() {
    let request = get_account_info_request(&Config::standard(), "a=1; b=2");
    assert_eq!(request.method, Method::Get);
    assert_eq!(request.url, "https://shopee.co.id/api/v4/account/basic/get_account_info");
    assert_eq!(request.body, None);
    let pairs: Vec<(String, String)> =
        request.headers.into_iter().map(|h| (h.name, h.value)).collect();
    assert_eq!(
        pairs,
        vec![
            ("User-Agent".to_string(), BROWSER.to_string()),
            ("Cookie".to_string(), "a=1; b=2".to_string()),
            ("Accept".to_string(), "application/json".to_string()),
            ("Origin".to_string(), "https://shopee.co.id".to_string()),
            ("Referer".to_string(), "https://shopee.co.id/".to_string()),
        ]
    );
}

#[test]
fn account_info_is_decoded() {
    let body = "{\"error\":0,\"data\":{\"userid\":9007199254740993,\"username\":\"u\",\"nickname\":\"n\",\"email\":null,\"phone\":\"08\"}}";
    assert_eq!(
        get_account_info(&response(200, body)),
        Ok(ShopeeAccountInfo {
            userid: 9007199254740993,
            username: "u".to_string(),
            nickname: "n".to_string(),
            email: None,
            phone: Some("08".to_string()),
        })
    );
    assert_eq!(
        get_account_info(&response(200, "{\"error\":0}")),
        Err(Failure::MissingData { message: "No account info in response".to_string() })
    );
    assert_eq!(
        get_account_info(&response(200, "{\"error\":19,\"error_msg\":\"login\"}")),
        Err(Failure::UpstreamError { code: Some(19), message: "login".to_string() })
    );
    let body = "{\"error\":0,\"data\":{\"userid\":1.5,\"username\":\"u\",\"nickname\":\"n\"}}";
    assert_eq!(
        get_account_info(&response(200, body)),
        Err(Failure::Decode {
            context: DecodeContext::Upstream,
            diagnostic: "invalid value for field `userid`".to_string(),
            body: body.to_string(),
        })
    );
}
