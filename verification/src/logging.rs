use vstd::prelude::*;
use crate::failure::status_message;
use crate::http::{method_name, HttpRequest, HttpRequestModel};
use crate::number::{decimal_nat, format_u64};
use crate::text::{chars_of, owned};

verus! {

/// The number of characters from which a response body is logged in part.
pub const BODY_LOG_LIMIT: usize = 500;

/// What the log shows in place of a request body that cannot be shown.
pub const UNSHOWN_BODY: &'static str = "Failed to serialize";

/// The line that logs a response that was read without failure.
pub const PARSED_LINE: &'static str = "[API SUCCESS] Parsed response successfully";

/// The line that announces a request.
pub open spec fn request_line(method: Seq<char>, url: Seq<char>) -> Seq<char> {
    "[API REQUEST] "@ + method + " "@ + url
}

/// The lines that log a request: the method and the address, then the body
/// where there is one, then the query where there is one.
pub open spec fn request_lines(
    method: Seq<char>,
    url: Seq<char>,
    body: Option<Seq<char>>,
    query: Option<Seq<char>>,
) -> Seq<Seq<char>> {
    let head = seq![request_line(method, url)];
    let with_body = match body {
        Some(text) => head.push("[API REQUEST BODY]\n"@ + text),
        None => head,
    };
    match query {
        Some(text) => with_body.push("[API REQUEST QUERY] "@ + text),
        None => with_body,
    }
}

/// Writes the lines that log a request. `body` is the body as it is to be
/// shown.
pub fn log_request(method: &str, url: &str, body: Option<&str>, query: Option<&str>) -> (lines:
    Vec<String>)
    ensures
        lines.deep_view() == request_lines(
            method@,
            url@,
            match body {
                Some(text) => Some(text@),
                None => None,
            },
            match query {
                Some(text) => Some(text@),
                None => None,
            },
        ),
{
    let mut head = owned("[API REQUEST] ");
    head.append(method);
    head.append(" ");
    head.append(url);
    let mut lines: Vec<String> = Vec::new();
    lines.push(head);
    match body {
        Some(text) => {
            let mut line = owned("[API REQUEST BODY]\n");
            line.append(text);
            lines.push(line);
        },
        None => {},
    }
    match query {
        Some(text) => {
            let mut line = owned("[API REQUEST QUERY] ");
            line.append(text);
            lines.push(line);
        },
        None => {},
    }
    lines
}

/// The lines that log `request`, with its body shown as `body`.
pub open spec fn request_log(request: HttpRequestModel, body: Option<Seq<char>>) -> Seq<Seq<char>> {
    request_lines(method_name(request.method), request.url, body, request.query)
}

/// Writes the lines that log a request that is about to be sent. `body` is
/// the request's body as it is to be shown.
pub fn log_http_request(request: &HttpRequest, body: Option<&str>) -> (lines: Vec<String>)
    ensures
        lines.deep_view() == request_log(
            request@,
            match body {
                Some(text) => Some(text@),
                None => None,
            },
        ),
{
    let method = request.method.name();
    let query = match &request.query {
        Some(text) => Some(text.as_str()),
        None => None,
    };
    log_request(method.as_str(), request.url.as_str(), body, query)
}

/// How a response body is logged: whole where it has fewer characters than
/// the limit, and otherwise its first characters up to the limit, under a
/// note of its full length.
pub open spec fn logged_body(body: Seq<char>) -> Seq<char> {
    if body.len() < BODY_LOG_LIMIT {
        "[API RESPONSE BODY]\n"@ + body
    } else {
        "[API RESPONSE BODY] (truncated, "@ + decimal_nat(body.len()) + " chars)\n"@
            + body.subrange(0, BODY_LOG_LIMIT as int)
    }
}

/// Writes the log entry of a response body.
pub fn log_body(body: &str) -> (line: String)
    ensures
        line@ == logged_body(body@),
{
    let length: usize = chars_of(body).len();
    if length < BODY_LOG_LIMIT {
        let mut line = owned("[API RESPONSE BODY]\n");
        line.append(body);
        line
    } else {
        let digits = format_u64(length as u64);
        let mut line = owned("[API RESPONSE BODY] (truncated, ");
        line.append(digits.as_str());
        line.append(" chars)\n");
        line.append(body.substring_char(0, BODY_LOG_LIMIT));
        line
    }
}

/// The lines that log a response: the status as it is shown with the path
/// of the call, then the body.
pub open spec fn response_lines(shown: Seq<char>, endpoint: Seq<char>, body: Seq<char>) -> Seq<
    Seq<char>,
> {
    seq!["[API RESPONSE] HTTP "@ + shown + " "@ + endpoint, logged_body(body)]
}

/// Writes the lines that log a response.
pub fn log_response(shown: &str, endpoint: &str, body: &str) -> (lines: Vec<String>)
    ensures
        lines.deep_view() == response_lines(shown@, endpoint@, body@),
{
    let mut head = owned("[API RESPONSE] HTTP ");
    head.append(shown);
    head.append(" ");
    head.append(endpoint);
    let mut lines: Vec<String> = Vec::new();
    lines.push(head);
    lines.push(log_body(body));
    lines
}

/// The line that logs a response with a status outside the success class.
pub open spec fn status_error_line(shown: Seq<char>, body: Seq<char>) -> Seq<char> {
    "[API ERROR] "@ + status_message(shown, body)
}

/// Writes the line that logs a response with a status outside the success
/// class.
pub fn log_status_error(shown: &str, body: &str) -> (line: String)
    ensures
        line@ == status_error_line(shown@, body@),
{
    let mut line = owned("[API ERROR] ");
    let message = crate::failure::render_status_message(shown, body);
    line.append(message.as_str());
    line
}

/// The line that logs a body that did not parse.
pub open spec fn parse_error_line(diagnostic: Seq<char>, body: Seq<char>) -> Seq<char> {
    "[API PARSE ERROR] "@ + diagnostic + " - Response: "@ + body
}

/// Writes the line that logs a body that did not parse.
pub fn log_parse_error(diagnostic: &str, body: &str) -> (line: String)
    ensures
        line@ == parse_error_line(diagnostic@, body@),
{
    let mut line = owned("[API PARSE ERROR] ");
    line.append(diagnostic);
    line.append(" - Response: ");
    line.append(body);
    line
}

} // verus!
