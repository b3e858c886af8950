use vstd::prelude::*;
use crate::config::Config;
use crate::failure::{
    outcome_view, DecodeContext, DecodeContextModel, Failure, FailureModel,
};
use crate::http::{
    body_model, header, is_success, method_named, status_is_success, Header, HttpRequest,
    HttpRequestModel, HttpResponse, Method,
};
use crate::json::{parse, parse_view, parsed_text, Json, JsonModel};
use crate::text::owned;

verus! {

/// The address of a request: the origin, the path and, after a question
/// mark, the query as it was handed over.
pub open spec fn request_url(base: Seq<char>, endpoint: Seq<char>, query: Option<Seq<char>>) -> Seq<
    char,
> {
    match query {
        Some(text) => base + endpoint + "?"@ + text,
        None => base + endpoint,
    }
}

/// Whether a request declares a JSON body: whenever it has a body or its
/// method is not GET.
pub open spec fn declares_json(method: Method, has_body: bool) -> bool {
    has_body || method != Method::Get
}

/// The request that the executor sends to the account backend.
pub open spec fn api_request(
    base: Seq<char>,
    method: Method,
    endpoint: Seq<char>,
    body: Option<JsonModel>,
    query: Option<Seq<char>>,
) -> HttpRequestModel {
    HttpRequestModel {
        method,
        url: request_url(base, endpoint, query),
        endpoint,
        query,
        headers: if declares_json(method, body is Some) {
            seq![("Content-Type"@, "application/json"@)]
        } else {
            Seq::empty()
        },
        body,
    }
}

/// Builds the address of a request.
pub fn build_url(base: &str, endpoint: &str, query: Option<&str>) -> (url: String)
    ensures
        url@ == request_url(
            base@,
            endpoint@,
            match query {
                Some(text) => Some(text@),
                None => None,
            },
        ),
{
    let mut url = owned(base);
    url.append(endpoint);
    match query {
        Some(text) => {
            url.append("?");
            url.append(text);
        },
        None => {},
    }
    url
}

/// Builds a request to the account backend.
pub fn build_api_request(
    config: &Config,
    method: Method,
    endpoint: &str,
    body: Option<Json>,
    query: Option<&str>,
) -> (request: HttpRequest)
    ensures
        request@ == api_request(
            config@.base_url,
            method,
            endpoint@,
            body_model(body),
            match query {
                Some(text) => Some(text@),
                None => None,
            },
        ),
{
    let url = build_url(config.base_url.as_str(), endpoint, query);
    let mut headers: Vec<Header> = Vec::new();
    let has_body = body.is_some();
    let is_get = match method {
        Method::Get => true,
        _ => false,
    };
    if has_body || !is_get {
        headers.push(header("Content-Type", "application/json"));
        proof {
            assert(headers.deep_view() =~= seq![("Content-Type"@, "application/json"@)]);
        }
    } else {
        proof {
            assert(headers.deep_view() =~= Seq::<(Seq<char>, Seq<char>)>::empty());
        }
    }
    HttpRequest {
        method,
        url,
        endpoint: owned(endpoint),
        query: match query {
            Some(text) => Some(owned(text)),
            None => None,
        },
        headers,
        body,
    }
}

/// Builds a request to the account backend from a method given by name. A
/// name other than GET, POST, PUT and DELETE is refused, and nothing is to
/// be sent.
pub fn make_api_request(
    config: &Config,
    method: &str,
    endpoint: &str,
    body: Option<Json>,
    query: Option<&str>,
) -> (outcome: Result<HttpRequest, Failure>)
    ensures
        outcome_view(outcome) == match method_named(method@) {
            Some(known) => Ok::<HttpRequestModel, FailureModel>(
                api_request(
                    config@.base_url,
                    known,
                    endpoint@,
                    body_model(body),
                    match query {
                        Some(text) => Some(text@),
                        None => None,
                    },
                ),
            ),
            None => Err::<HttpRequestModel, FailureModel>(FailureModel::InvalidMethod),
        },
{
    match Method::parse(method) {
        Some(known) => Ok(build_api_request(config, known, endpoint, body, query)),
        None => Err(Failure::InvalidMethod),
    }
}

/// What a response amounts to once its body went through the parser. A
/// status outside the success class is a status failure that carries the raw
/// body, whatever the body holds. With a success status, a body that the
/// parser refused is a decode failure with the parser's complaint and the
/// raw body, and a body that it accepted is the document.
pub open spec fn classified(
    status: u16,
    body: Seq<char>,
    parsed: Result<JsonModel, Seq<char>>,
    context: DecodeContextModel,
) -> Result<JsonModel, FailureModel> {
    if !status_is_success(status) {
        Err(FailureModel::HttpStatus { status, body })
    } else {
        match parsed {
            Ok(json) => Ok(json),
            Err(diagnostic) => Err(FailureModel::Decode { context, diagnostic, body }),
        }
    }
}

/// Classifies a response whose body went through the parser.
pub fn classify_parsed(
    status: u16,
    body: &str,
    parsed: Result<Json, String>,
    context: DecodeContext,
) -> (outcome: Result<Json, Failure>)
    ensures
        outcome_view(outcome) == classified(status, body@, parse_view(parsed), context@),
{
    if !is_success(status) {
        Err(Failure::HttpStatus { status, body: owned(body) })
    } else {
        match parsed {
            Ok(json) => Ok(json),
            Err(diagnostic) => Err(Failure::Decode { context, diagnostic, body: owned(body) }),
        }
    }
}

/// Classifies a response: checks the status, and parses the body of one
/// that has a success status.
pub fn classify_response(response: &HttpResponse, context: DecodeContext) -> (outcome: Result<
    Json,
    Failure,
>)
    ensures
        outcome_view(outcome) == classified(
            response.status,
            response.body@,
            parsed_text(response.body@),
            context@,
        ),
{
    if !is_success(response.status) {
        Err(Failure::HttpStatus { status: response.status, body: response.body.clone() })
    } else {
        classify_parsed(
            response.status,
            response.body.as_str(),
            parse(response.body.as_str()),
            context,
        )
    }
}

/// A status outside the success class gives a status failure with the
/// status and the raw body, also where the body is a well-formed document.
pub proof fn law_status_precedes_body(
    status: u16,
    body: Seq<char>,
    parsed: Result<JsonModel, Seq<char>>,
    context: DecodeContextModel,
)
    requires
        !status_is_success(status),
    ensures
        classified(status, body, parsed, context) == Err::<JsonModel, FailureModel>(
            FailureModel::HttpStatus { status, body },
        ),
{
}

} // verus!
