use vstd::prelude::*;
use vstd::utf8::encode_utf8;
use crate::config::{Config, ConfigModel};
use crate::decode::described;
use crate::encode::{percent_encoded, url_encode};
use crate::executor::{classified, classify_response};
use crate::failure::{
    outcome_view, render_status_message, show_status, status_message, status_text,
    DecodeContext, DecodeContextModel, Failure, FailureModel,
};
use crate::http::{
    is_success, status_is_success, Header, HttpRequest, HttpRequestModel, HttpResponse, Method,
};
use crate::json::{
    no_members, object, parse, parse_view, parsed_text, push_member, push_text, Json,
    JsonModel,
};
use crate::text::{join, joined, owned};
use crate::upstream::{
    push_header, settle, settled, upstream_decode_failure,
    upstream_envelope_of, UpstreamEnvelope,
};
use crate::upstream_model::{
    account_info_of, qr_data_of, qr_status_data_of, QRStatusData, QRStatusDataModel,
    ShopeeAccountInfo, ShopeeAccountInfoModel, ShopeeQRData, ShopeeQRDataModel,
};

verus! {

/// The state of a challenge, as the caller polls it. The token is there
/// once the challenge was scanned and confirmed.
#[derive(Debug, Clone, PartialEq, Eq)]
pub struct AppQRStatus {
    pub status: String,
    pub qrcode_token: Option<String>,
}

/// An `AppQRStatus` as mathematical data.
pub ghost struct AppQRStatusModel {
    pub status: Seq<char>,
    pub qrcode_token: Option<Seq<char>>,
}

impl DeepView for AppQRStatus {
    type V = AppQRStatusModel;

    open spec fn deep_view(&self) -> AppQRStatusModel {
        AppQRStatusModel { status: self.status@, qrcode_token: self.qrcode_token.deep_view() }
    }
}

/// How a login attempt ended. A failed attempt is an ordinary outcome: it
/// has a message and no cookies.
#[derive(Debug, Clone, PartialEq, Eq)]
pub struct LoginResult {
    pub success: bool,
    pub cookies: Option<String>,
    pub error_msg: Option<String>,
}

/// A `LoginResult` as mathematical data.
pub ghost struct LoginResultModel {
    pub success: bool,
    pub cookies: Option<Seq<char>>,
    pub error_msg: Option<Seq<char>>,
}

impl DeepView for LoginResult {
    type V = LoginResultModel;

    open spec fn deep_view(&self) -> LoginResultModel {
        LoginResultModel {
            success: self.success,
            cookies: self.cookies.deep_view(),
            error_msg: self.error_msg.deep_view(),
        }
    }
}

impl AppQRStatus {
    /// The invariant of a polled state: a token that is there is not empty.
    pub open spec fn well_formed(self) -> bool {
        self.qrcode_token matches Some(token) ==> token@.len() > 0
    }
}

impl LoginResult {
    /// The invariant of a login outcome: cookies come with success and only
    /// with it, and a success has no message.
    pub open spec fn well_formed(self) -> bool {
        &&& self.cookies is Some <==> self.success
        &&& self.success ==> self.error_msg is None
    }
}

/// The headers by which the client presents itself as a browser.
pub open spec fn browser_headers(config: ConfigModel) -> Seq<(Seq<char>, Seq<char>)> {
    seq![
        ("User-Agent"@, config.browser_agent),
        ("Accept"@, "application/json, text/plain"@),
        ("Accept-Language"@, "en-US,en;q=0.9"@),
        ("Origin"@, config.upstream_origin),
        ("Referer"@, config.upstream_origin + "/"@),
    ]
}

/// Builds the headers by which the client presents itself as a browser.
pub fn build_browser_headers(config: &Config) -> (headers: Vec<Header>)
    ensures
        headers.deep_view() == browser_headers(config@),
{
    let mut referer = config.upstream_origin.clone();
    referer.append("/");
    let mut headers: Vec<Header> = Vec::new();
    push_header(&mut headers, "User-Agent", config.browser_agent.as_str());
    push_header(&mut headers, "Accept", "application/json, text/plain");
    push_header(&mut headers, "Accept-Language", "en-US,en;q=0.9");
    push_header(&mut headers, "Origin", config.upstream_origin.as_str());
    push_header(&mut headers, "Referer", referer.as_str());
    headers
}

/// The request that asks the upstream for a new challenge.
pub open spec fn generate_request(config: ConfigModel) -> HttpRequestModel {
    HttpRequestModel {
        method: Method::Get,
        url: config.upstream_origin + "/api/v2/authentication/gen_qrcode"@,
        endpoint: "/api/v2/authentication/gen_qrcode"@,
        query: None,
        headers: browser_headers(config),
        body: None,
    }
}

/// Builds the request for a new challenge. It has no body.
pub fn generate_shopee_qr_request(config: &Config) -> (request: HttpRequest)
    ensures
        request@ == generate_request(config@),
{
    let mut url = config.upstream_origin.clone();
    url.append("/api/v2/authentication/gen_qrcode");
    HttpRequest {
        method: Method::Get,
        url,
        endpoint: owned("/api/v2/authentication/gen_qrcode"),
        query: None,
        headers: build_browser_headers(config),
        body: None,
    }
}

/// What a parsed answer to the challenge request gives.
pub open spec fn challenge_of(response: JsonModel, body: Seq<char>) -> Result<
    ShopeeQRDataModel,
    FailureModel,
> {
    match upstream_envelope_of(response) {
        Err(problem) => Err(
            FailureModel::Decode {
                context: DecodeContextModel::Upstream,
                diagnostic: described(problem),
                body,
            },
        ),
        Ok(envelope) => settled(
            envelope.error,
            envelope.error_msg,
            match envelope.data {
                Some(data) => Some(qr_data_of(data)),
                None => None,
            },
            body,
            "Invalid response from Shopee API"@,
        ),
    }
}

/// Reads a parsed answer to the challenge request. `body` is the raw text
/// that the document was parsed from.
pub fn generate_shopee_qr_decoded(response: &Json, body: &str) -> (outcome: Result<
    ShopeeQRData,
    Failure,
>)
    ensures
        outcome_view(outcome) == challenge_of(response@, body@),
{
    match UpstreamEnvelope::decode(response) {
        Err(problem) => Err(upstream_decode_failure(&problem, body)),
        Ok(envelope) => {
            let data = match &envelope.data {
                Some(found) => Some(ShopeeQRData::from_json(found)),
                None => None,
            };
            settle(
                envelope.error,
                envelope.error_msg,
                data,
                body,
                "Invalid response from Shopee API",
            )
        },
    }
}

/// Reads the answer to the challenge request.
pub fn generate_shopee_qr(response: &HttpResponse) -> (outcome: Result<ShopeeQRData, Failure>)
    ensures
        outcome_view(outcome) == match classified(
            response.status,
            response.body@,
            parsed_text(response.body@),
            DecodeContextModel::Upstream,
        ) {
            Ok(json) => challenge_of(json, response.body@),
            Err(failure) => Err(failure),
        },
{
    match classify_response(response, DecodeContext::Upstream) {
        Ok(json) => generate_shopee_qr_decoded(&json, response.body.as_str()),
        Err(failure) => Err(failure),
    }
}

/// The query that names a challenge: its identifier, percent-encoded.
pub open spec fn status_query(qrcode_id: Seq<char>) -> Seq<char> {
    "qrcode_id="@ + percent_encoded(encode_utf8(qrcode_id))
}

/// The request that asks for the state of a challenge: its identifier
/// goes into the query.
pub open spec fn status_request(config: ConfigModel, qrcode_id: Seq<char>) -> HttpRequestModel {
    HttpRequestModel {
        method: Method::Get,
        url: config.upstream_origin + "/api/v2/authentication/qrcode_status"@ + "?"@
            + status_query(qrcode_id),
        endpoint: "/api/v2/authentication/qrcode_status"@,
        query: Some(status_query(qrcode_id)),
        headers: browser_headers(config),
        body: None,
    }
}

/// Builds the request for the state of a challenge.
pub fn check_qr_status_request(config: &Config, qrcode_id: &str) -> (request: HttpRequest)
    ensures
        request@ == status_request(config@, qrcode_id@),
{
    let mut query = owned("qrcode_id=");
    let encoded = url_encode(qrcode_id);
    query.append(encoded.as_str());
    let mut url = config.upstream_origin.clone();
    url.append("/api/v2/authentication/qrcode_status");
    url.append("?");
    url.append(query.as_str());
    HttpRequest {
        method: Method::Get,
        url,
        endpoint: owned("/api/v2/authentication/qrcode_status"),
        query: Some(query),
        headers: build_browser_headers(config),
        body: None,
    }
}

/// The state handed to the caller: the status as it came, and the token
/// unless it is empty. An empty token and an absent one mean the same: not
/// yet available.
pub open spec fn normalized(data: QRStatusDataModel) -> AppQRStatusModel {
    AppQRStatusModel {
        status: data.status,
        qrcode_token: if data.qrcode_token.len() == 0 {
            None
        } else {
            Some(data.qrcode_token)
        },
    }
}

/// Brings the upstream's state of a challenge to the caller's form.
pub fn normalize(data: QRStatusData) -> (status: AppQRStatus)
    ensures
        status.deep_view() == normalized(data.deep_view()),
        status.well_formed(),
{
    let empty = data.qrcode_token.as_str().is_empty();
    AppQRStatus {
        status: data.status,
        qrcode_token: if empty {
            None
        } else {
            Some(data.qrcode_token)
        },
    }
}

/// What a parsed answer to a status request gives.
pub open spec fn polled(response: JsonModel, body: Seq<char>) -> Result<
    AppQRStatusModel,
    FailureModel,
> {
    match upstream_envelope_of(response) {
        Err(problem) => Err(
            FailureModel::Decode {
                context: DecodeContextModel::Upstream,
                diagnostic: described(problem),
                body,
            },
        ),
        Ok(envelope) => match settled(
            envelope.error,
            envelope.error_msg,
            match envelope.data {
                Some(data) => Some(qr_status_data_of(data)),
                None => None,
            },
            body,
            "No data in response"@,
        ) {
            Ok(data) => Ok(normalized(data)),
            Err(failure) => Err(failure),
        },
    }
}

/// Reads a parsed answer to a status request.
pub fn check_qr_status_decoded(response: &Json, body: &str) -> (outcome: Result<
    AppQRStatus,
    Failure,
>)
    ensures
        outcome_view(outcome) == polled(response@, body@),
        outcome matches Ok(status) ==> status.well_formed(),
{
    match UpstreamEnvelope::decode(response) {
        Err(problem) => Err(upstream_decode_failure(&problem, body)),
        Ok(envelope) => {
            let data = match &envelope.data {
                Some(found) => Some(QRStatusData::from_json(found)),
                None => None,
            };
            match settle(envelope.error, envelope.error_msg, data, body, "No data in response") {
                Ok(found) => Ok(normalize(found)),
                Err(failure) => Err(failure),
            }
        },
    }
}

/// Reads the answer to a status request.
pub fn check_qr_status(response: &HttpResponse) -> (outcome: Result<AppQRStatus, Failure>)
    ensures
        outcome_view(outcome) == match classified(
            response.status,
            response.body@,
            parsed_text(response.body@),
            DecodeContextModel::Upstream,
        ) {
            Ok(json) => polled(json, response.body@),
            Err(failure) => Err(failure),
        },
        outcome matches Ok(status) ==> status.well_formed(),
{
    match classify_response(response, DecodeContext::Upstream) {
        Ok(json) => check_qr_status_decoded(&json, response.body.as_str()),
        Err(failure) => Err(failure),
    }
}

/// An answer with code zero whose data holds a status, and a token that
/// is left out, null or empty, gives that status and no token: the three
/// mean the same, that the token is not yet available.
pub proof fn law_poll_without_token(
    response: JsonModel,
    body: Seq<char>,
    data: JsonModel,
    status: Seq<char>,
)
    requires
        upstream_envelope_of(response) is Ok,
        upstream_envelope_of(response)->Ok_0.error == 0,
        upstream_envelope_of(response)->Ok_0.data == Some(data),
        data is Object,
        data.field("status"@) == Some(JsonModel::Text(status)),
        data.field("qrcode_token"@) is None || data.field("qrcode_token"@) == Some(
            JsonModel::Null,
        ) || data.field("qrcode_token"@) == Some(JsonModel::Text(Seq::empty())),
    ensures
        polled(response, body) == Ok::<AppQRStatusModel, FailureModel>(
            AppQRStatusModel { status, qrcode_token: None },
        ),
{
}

/// Two answers that report the same status with an empty token give the
/// same state: that status, and no token. Polling again before the
/// challenge is confirmed changes nothing.
pub proof fn law_poll_before_confirmation(
    first: JsonModel,
    second: JsonModel,
    first_body: Seq<char>,
    second_body: Seq<char>,
    status: Seq<char>,
)
    requires
        upstream_envelope_of(first) is Ok,
        upstream_envelope_of(second) is Ok,
        upstream_envelope_of(first)->Ok_0.error == 0,
        upstream_envelope_of(second)->Ok_0.error == 0,
        upstream_envelope_of(first)->Ok_0.data matches Some(data) && qr_status_data_of(data)
            == Ok::<QRStatusDataModel, crate::decode::DecodeErrorModel>(
            QRStatusDataModel { qrcode_token: Seq::empty(), status },
        ),
        upstream_envelope_of(second)->Ok_0.data matches Some(data) && qr_status_data_of(data)
            == Ok::<QRStatusDataModel, crate::decode::DecodeErrorModel>(
            QRStatusDataModel { qrcode_token: Seq::empty(), status },
        ),
    ensures
        polled(first, first_body) == polled(second, second_body),
        polled(first, first_body) == Ok::<AppQRStatusModel, FailureModel>(
            AppQRStatusModel { status, qrcode_token: None },
        ),
{
}

/// The headers of the token exchange.
pub open spec fn login_headers(config: ConfigModel) -> Seq<(Seq<char>, Seq<char>)> {
    seq![
        ("User-Agent"@, config.login_agent),
        ("Accept"@, "application/json"@),
        ("Content-Type"@, "application/json"@),
        ("X-Sz-Sdk-Version"@, "3.3.0-2&1.6.6"@),
        ("X-Api-Source"@, "pc"@),
        ("X-Shopee-Language"@, "id"@),
        ("X-Requested-With"@, "XMLHttpRequest"@),
        ("Af-Ac-Enc-Sz-Token"@, config.anti_abuse_token),
        ("Sec-Ch-Ua-Platform"@, "\"macOS\""@),
        ("Origin"@, config.upstream_origin),
        (
            "Referer"@,
            config.upstream_origin + "/buyer/login/qr?next="@ + percent_encoded(
                encode_utf8(config.upstream_origin + "/"@),
            ),
        ),
    ]
}

/// The body of the token exchange: the token, and the two fingerprints of
/// the configuration as they are.
pub open spec fn login_body(config: ConfigModel, qrcode_token: Seq<char>) -> JsonModel {
    JsonModel::Object(
        seq![
            ("qrcode_token"@, JsonModel::Text(qrcode_token)),
            ("device_sz_fingerprint"@, JsonModel::Text(config.device_fingerprint)),
            (
                "client_identifier"@,
                JsonModel::Object(
                    seq![
                        (
                            "security_device_fingerprint"@,
                            JsonModel::Text(config.security_fingerprint),
                        ),
                    ],
                ),
            ),
        ],
    )
}

/// The request that exchanges a token for a session.
pub open spec fn login_request(config: ConfigModel, qrcode_token: Seq<char>) -> HttpRequestModel {
    HttpRequestModel {
        method: Method::Post,
        url: config.upstream_origin + "/api/v2/authentication/qrcode_login"@,
        endpoint: "/api/v2/authentication/qrcode_login"@,
        query: None,
        headers: login_headers(config),
        body: Some(login_body(config, qrcode_token)),
    }
}

/// Builds the headers of the token exchange.
pub fn build_login_headers(config: &Config) -> (headers: Vec<Header>)
    ensures
        headers.deep_view() == login_headers(config@),
{
    let mut home = config.upstream_origin.clone();
    home.append("/");
    let next = url_encode(home.as_str());
    let mut referer = config.upstream_origin.clone();
    referer.append("/buyer/login/qr?next=");
    referer.append(next.as_str());
    let mut headers: Vec<Header> = Vec::new();
    push_header(&mut headers, "User-Agent", config.login_agent.as_str());
    push_header(&mut headers, "Accept", "application/json");
    push_header(&mut headers, "Content-Type", "application/json");
    push_header(&mut headers, "X-Sz-Sdk-Version", "3.3.0-2&1.6.6");
    push_header(&mut headers, "X-Api-Source", "pc");
    push_header(&mut headers, "X-Shopee-Language", "id");
    push_header(&mut headers, "X-Requested-With", "XMLHttpRequest");
    push_header(&mut headers, "Af-Ac-Enc-Sz-Token", config.anti_abuse_token.as_str());
    push_header(&mut headers, "Sec-Ch-Ua-Platform", "\"macOS\"");
    push_header(&mut headers, "Origin", config.upstream_origin.as_str());
    push_header(&mut headers, "Referer", referer.as_str());
    headers
}

/// Builds the body of the token exchange.
pub fn build_login_body(config: &Config, qrcode_token: &str) -> (body: Json)
    ensures
        body@ == login_body(config@, qrcode_token@),
{
    let mut inner = no_members();
    push_text(&mut inner, "security_device_fingerprint", config.security_fingerprint.as_str());
    let client = object(inner);
    proof {
        assert(client@->Object_0 =~= seq![
            ("security_device_fingerprint"@, JsonModel::Text(config@.security_fingerprint)),
        ]);
    }
    let mut members = no_members();
    push_text(&mut members, "qrcode_token", qrcode_token);
    push_text(&mut members, "device_sz_fingerprint", config.device_fingerprint.as_str());
    push_member(&mut members, "client_identifier", client);
    let body = object(members);
    proof {
        assert(body@->Object_0 =~= login_body(config@, qrcode_token@)->Object_0);
    }
    body
}

/// Builds the request that exchanges a token for a session.
pub fn qr_login_request(config: &Config, qrcode_token: &str) -> (request: HttpRequest)
    ensures
        request@ == login_request(config@, qrcode_token@),
{
    let mut url = config.upstream_origin.clone();
    url.append("/api/v2/authentication/qrcode_login");
    HttpRequest {
        method: Method::Post,
        url,
        endpoint: owned("/api/v2/authentication/qrcode_login"),
        query: None,
        headers: build_login_headers(config),
        body: Some(build_login_body(config, qrcode_token)),
    }
}

/// The cookie values that could be read as text, in order.
pub open spec fn readable(values: Seq<Option<Seq<char>>>) -> Seq<Seq<char>>
    decreases values.len(),
{
    if values.len() == 0 {
        Seq::empty()
    } else {
        match values.last() {
            Some(text) => readable(values.drop_last()).push(text),
            None => readable(values.drop_last()),
        }
    }
}

/// The session that a response carries: its readable cookie values,
/// joined by a semicolon and a blank.
pub open spec fn session_cookies(values: Seq<Option<Seq<char>>>) -> Seq<char> {
    joined(readable(values), "; "@)
}

/// Collects the session of a response.
pub fn collect_cookies(values: &Vec<Option<String>>) -> (cookies: String)
    ensures
        cookies@ == session_cookies(values.deep_view()),
{
    let ghost all = values.deep_view();
    let mut kept: Vec<String> = Vec::new();
    let mut i: usize = 0;
    while i < values.len()
        invariant
            i <= values.len(),
            all == values.deep_view(),
            kept.deep_view() == readable(all.take(i as int)),
        decreases values.len() - i,
    {
        proof {
            assert(all.take(i + 1).drop_last() =~= all.take(i as int));
        }
        match &values[i] {
            Some(text) => {
                kept.push(text.clone());
            },
            None => {},
        }
        i = i + 1;
    }
    proof {
        assert(all.take(values.len() as int) =~= all);
        assert(crate::text::texts(kept@) =~= kept.deep_view());
    }
    join(&kept, "; ")
}

/// How the token exchange ends, given the status as it is shown and the
/// body as the parser read it. A status outside the success class is a
/// failed login with the status and the body for a message, not a failure
/// of the call, whatever cookies came with it. A body that is no envelope
/// is a decode failure. A code other than zero is a failed login with the
/// upstream's message. Code zero is a login, with the session.
pub open spec fn exchanged(
    status: u16,
    shown: Seq<char>,
    cookies: Seq<Option<Seq<char>>>,
    body: Seq<char>,
    parsed: Result<JsonModel, Seq<char>>,
) -> Result<LoginResultModel, FailureModel> {
    if !status_is_success(status) {
        Ok(
            LoginResultModel {
                success: false,
                cookies: None,
                error_msg: Some(status_message(shown, body)),
            },
        )
    } else {
        match parsed {
            Err(diagnostic) => Err(
                FailureModel::Decode { context: DecodeContextModel::Upstream, diagnostic, body },
            ),
            Ok(response) => match upstream_envelope_of(response) {
                Err(problem) => Err(
                    FailureModel::Decode {
                        context: DecodeContextModel::Upstream,
                        diagnostic: described(problem),
                        body,
                    },
                ),
                Ok(envelope) => if envelope.error != 0 {
                    Ok(
                        LoginResultModel {
                            success: false,
                            cookies: None,
                            error_msg: envelope.error_msg,
                        },
                    )
                } else {
                    Ok(
                        LoginResultModel {
                            success: true,
                            cookies: Some(session_cookies(cookies)),
                            error_msg: None,
                        },
                    )
                },
            },
        }
    }
}

/// Settles the token exchange from the parts of the response, the status
/// as it is shown, and the body as the parser read it.
pub fn qr_login_decoded(
    status: u16,
    shown: &str,
    cookies: &Vec<Option<String>>,
    body: &str,
    parsed: Result<Json, String>,
) -> (outcome: Result<LoginResult, Failure>)
    ensures
        outcome_view(outcome) == exchanged(
            status,
            shown@,
            cookies.deep_view(),
            body@,
            parse_view(parsed),
        ),
        outcome matches Ok(result) ==> result.well_formed(),
{
    let session = collect_cookies(cookies);
    if !is_success(status) {
        return Ok(
            LoginResult {
                success: false,
                cookies: None,
                error_msg: Some(render_status_message(shown, body)),
            },
        );
    }
    match parsed {
        Err(diagnostic) => Err(
            Failure::Decode { context: DecodeContext::Upstream, diagnostic, body: owned(body) },
        ),
        Ok(response) => match UpstreamEnvelope::decode(&response) {
            Err(problem) => Err(upstream_decode_failure(&problem, body)),
            Ok(envelope) => if envelope.error != 0 {
                Ok(LoginResult { success: false, cookies: None, error_msg: envelope.error_msg })
            } else {
                Ok(LoginResult { success: true, cookies: Some(session), error_msg: None })
            },
        },
    }
}

/// Reads the answer to the token exchange.
pub fn qr_login(response: &HttpResponse) -> (outcome: Result<LoginResult, Failure>)
    ensures
        outcome_view(outcome) == exchanged(
            response.status,
            status_text(response.status),
            response.set_cookies.deep_view(),
            response.body@,
            parsed_text(response.body@),
        ),
        outcome matches Ok(result) ==> result.well_formed(),
{
    let shown = show_status(response.status);
    qr_login_decoded(
        response.status,
        shown.as_str(),
        &response.set_cookies,
        response.body.as_str(),
        parse(response.body.as_str()),
    )
}

/// A response with a status outside the success class ends the exchange
/// as a failed login, never as a failure of the call, with or without
/// cookies.
pub proof fn law_failed_exchange_is_an_outcome(
    status: u16,
    shown: Seq<char>,
    cookies: Seq<Option<Seq<char>>>,
    body: Seq<char>,
    parsed: Result<JsonModel, Seq<char>>,
)
    requires
        !status_is_success(status),
    ensures
        exchanged(status, shown, cookies, body, parsed) is Ok,
        !exchanged(status, shown, cookies, body, parsed)->Ok_0.success,
        exchanged(status, shown, cookies, body, parsed)->Ok_0.cookies is None,
        exchanged(status, shown, cookies, body, parsed)->Ok_0.error_msg == Some(
            status_message(shown, body),
        ),
{
}

/// The request for the account behind a session.
pub open spec fn account_request(config: ConfigModel, cookies: Seq<char>) -> HttpRequestModel {
    HttpRequestModel {
        method: Method::Get,
        url: config.upstream_origin + "/api/v4/account/basic/get_account_info"@,
        endpoint: "/api/v4/account/basic/get_account_info"@,
        query: None,
        headers: seq![
            ("User-Agent"@, config.browser_agent),
            ("Cookie"@, cookies),
            ("Accept"@, "application/json"@),
            ("Origin"@, config.upstream_origin),
            ("Referer"@, config.upstream_origin + "/"@),
        ],
        body: None,
    }
}

/// Builds the request for the account behind a session.
pub fn get_account_info_request(config: &Config, cookies: &str) -> (request: HttpRequest)
    ensures
        request@ == account_request(config@, cookies@),
{
    let mut url = config.upstream_origin.clone();
    url.append("/api/v4/account/basic/get_account_info");
    let mut referer = config.upstream_origin.clone();
    referer.append("/");
    let mut headers: Vec<Header> = Vec::new();
    push_header(&mut headers, "User-Agent", config.browser_agent.as_str());
    push_header(&mut headers, "Cookie", cookies);
    push_header(&mut headers, "Accept", "application/json");
    push_header(&mut headers, "Origin", config.upstream_origin.as_str());
    push_header(&mut headers, "Referer", referer.as_str());
    proof {
        assert(headers.deep_view() =~= account_request(config@, cookies@).headers);
    }
    HttpRequest {
        method: Method::Get,
        url,
        endpoint: owned("/api/v4/account/basic/get_account_info"),
        query: None,
        headers,
        body: None,
    }
}

/// What a parsed answer to the account request gives.
pub open spec fn account_found(response: JsonModel, body: Seq<char>) -> Result<
    ShopeeAccountInfoModel,
    FailureModel,
> {
    match upstream_envelope_of(response) {
        Err(problem) => Err(
            FailureModel::Decode {
                context: DecodeContextModel::Upstream,
                diagnostic: described(problem),
                body,
            },
        ),
        Ok(envelope) => settled(
            envelope.error,
            envelope.error_msg,
            match envelope.data {
                Some(data) => Some(account_info_of(data)),
                None => None,
            },
            body,
            "No account info in response"@,
        ),
    }
}

/// Reads a parsed answer to the account request.
pub fn get_account_info_decoded(response: &Json, body: &str) -> (outcome: Result<
    ShopeeAccountInfo,
    Failure,
>)
    ensures
        outcome_view(outcome) == account_found(response@, body@),
{
    match UpstreamEnvelope::decode(response) {
        Err(problem) => Err(upstream_decode_failure(&problem, body)),
        Ok(envelope) => {
            let data = match &envelope.data {
                Some(found) => Some(ShopeeAccountInfo::from_json(found)),
                None => None,
            };
            settle(envelope.error, envelope.error_msg, data, body, "No account info in response")
        },
    }
}

/// Reads the answer to the account request.
pub fn get_account_info(response: &HttpResponse) -> (outcome: Result<ShopeeAccountInfo, Failure>)
    ensures
        outcome_view(outcome) == match classified(
            response.status,
            response.body@,
            parsed_text(response.body@),
            DecodeContextModel::Upstream,
        ) {
            Ok(json) => account_found(json, response.body@),
            Err(failure) => Err(failure),
        },
{
    match classify_response(response, DecodeContext::Upstream) {
        Ok(json) => get_account_info_decoded(&json, response.body.as_str()),
        Err(failure) => Err(failure),
    }
}

/// Whether a list of headers has one of the name given.
pub open spec fn has_header(headers: Seq<(Seq<char>, Seq<char>)>, name: Seq<char>) -> bool {
    exists|i: int| 0 <= i < headers.len() && (#[trigger] headers[i]).0 == name
}

/// Whether a request presents its sender as a browser on the upstream's
/// own pages: it names a user agent, an origin and a referer.
pub open spec fn presents_browser(request: HttpRequestModel) -> bool {
    &&& has_header(request.headers, "User-Agent"@)
    &&& has_header(request.headers, "Origin"@)
    &&& has_header(request.headers, "Referer"@)
}

/// Every request to the upstream presents its sender as a browser, and
/// goes to the configured origin.
pub proof fn law_upstream_requests_present_a_browser(
    config: ConfigModel,
    qrcode_id: Seq<char>,
    qrcode_token: Seq<char>,
    cookies: Seq<char>,
)
    ensures
        presents_browser(generate_request(config)),
        presents_browser(status_request(config, qrcode_id)),
        presents_browser(login_request(config, qrcode_token)),
        presents_browser(account_request(config, cookies)),
        config.upstream_origin.is_prefix_of(generate_request(config).url),
        config.upstream_origin.is_prefix_of(status_request(config, qrcode_id).url),
        config.upstream_origin.is_prefix_of(login_request(config, qrcode_token).url),
        config.upstream_origin.is_prefix_of(account_request(config, cookies).url),
{
}

} // verus!
