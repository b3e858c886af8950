use vstd::prelude::*;
use crate::number::{decimal, format_i64};
use crate::text::owned;

verus! {

/// The step of a round trip at which the transport broke.
#[derive(Clone, Copy, PartialEq, Eq, Structural, Debug)]
pub enum Stage {
    /// The client could not be set up.
    Setup,
    /// The request could not be sent.
    Send,
    /// The response body could not be read.
    Read,
}

/// What a body was being decoded as when decoding failed.
#[derive(Debug, Clone, PartialEq, Eq)]
pub enum DecodeContext {
    /// A response of the account backend.
    Response,
    /// A response of the upstream platform.
    Upstream,
    /// A payload nested in a response, under the name given.
    Payload { what: String },
}

/// A `DecodeContext` as mathematical data.
pub ghost enum DecodeContextModel {
    Response,
    Upstream,
    Payload { what: Seq<char> },
}

impl View for DecodeContext {
    type V = DecodeContextModel;

    open spec fn view(&self) -> DecodeContextModel {
        match self {
            DecodeContext::Response => DecodeContextModel::Response,
            DecodeContext::Upstream => DecodeContextModel::Upstream,
            DecodeContext::Payload { what } => DecodeContextModel::Payload { what: what@ },
        }
    }
}

/// Why an operation gave no value.
#[derive(Debug, Clone, PartialEq, Eq)]
pub enum Failure {
    /// The method is none of GET, POST, PUT and DELETE; nothing was sent.
    InvalidMethod,
    /// Connecting, sending or receiving failed.
    Transport { stage: Stage, cause: String },
    /// The response came with a status outside the success class.
    HttpStatus { status: u16, body: String },
    /// The body came but does not have the expected shape.
    Decode { context: DecodeContext, diagnostic: String, body: String },
    /// The other side reports failure: a success flag that is false, or an
    /// error code that is not zero.
    UpstreamError { code: Option<i32>, message: String },
    /// The other side reports success but the payload is absent.
    MissingData { message: String },
}

/// A `Failure` as mathematical data.
pub ghost enum FailureModel {
    InvalidMethod,
    Transport { stage: Stage, cause: Seq<char> },
    HttpStatus { status: u16, body: Seq<char> },
    Decode { context: DecodeContextModel, diagnostic: Seq<char>, body: Seq<char> },
    UpstreamError { code: Option<i32>, message: Seq<char> },
    MissingData { message: Seq<char> },
}

impl View for Failure {
    type V = FailureModel;

    open spec fn view(&self) -> FailureModel {
        match self {
            Failure::InvalidMethod => FailureModel::InvalidMethod,
            Failure::Transport { stage, cause } => FailureModel::Transport {
                stage: *stage,
                cause: cause@,
            },
            Failure::HttpStatus { status, body } => FailureModel::HttpStatus {
                status: *status,
                body: body@,
            },
            Failure::Decode { context, diagnostic, body } => FailureModel::Decode {
                context: context@,
                diagnostic: diagnostic@,
                body: body@,
            },
            Failure::UpstreamError { code, message } => FailureModel::UpstreamError {
                code: *code,
                message: message@,
            },
            Failure::MissingData { message } => FailureModel::MissingData { message: message@ },
        }
    }
}

/// The view of an operation's outcome.
pub open spec fn outcome_view<T: DeepView>(outcome: Result<T, Failure>) -> Result<
    T::V,
    FailureModel,
> {
    match outcome {
        Ok(value) => Ok(value.deep_view()),
        Err(failure) => Err(failure@),
    }
}

/// The line that an HTTP status prints as: the code, a blank and the
/// standard reason phrase. There is none for a code outside 100 to 999.
pub uninterp spec fn status_line(status: u16) -> Option<Seq<char>>;

/// Prints a status with `reqwest::StatusCode`: the code is converted with
/// `from_u16`, which accepts exactly 100 to 999, and printed through the
/// type's `Display` impl.
#[verifier::external_body]
fn print_status(status: u16) -> (line: Option<String>)
    ensures
        line.deep_view() == status_line(status),
        line is Some <==> 100 <= status <= 999,
{
    match reqwest::StatusCode::from_u16(status) {
        Ok(code) => Some(code.to_string()),
        Err(_) => None,
    }
}

/// How a status is shown in a message: its line, or the bare code where it
/// has none.
pub open spec fn status_text(status: u16) -> Seq<char> {
    match status_line(status) {
        Some(line) => line,
        None => decimal(status as int),
    }
}

/// Shows a status as a message does.
pub fn show_status(status: u16) -> (text: String)
    ensures
        text@ == status_text(status),
{
    match print_status(status) {
        Some(line) => line,
        None => format_i64(status as i64),
    }
}

/// How a transport failure at `stage` begins its message.
pub open spec fn stage_prefix(stage: Stage) -> Seq<char> {
    match stage {
        Stage::Setup => "Failed to create client: "@,
        Stage::Send => "Request failed: "@,
        Stage::Read => "Failed to read response: "@,
    }
}

/// The message that a status failure carries, given how the status is shown.
pub open spec fn status_message(shown: Seq<char>, body: Seq<char>) -> Seq<char> {
    "HTTP "@ + shown + ": "@ + body
}

/// The message of a failure, given how its status, if it has one, is shown.
pub open spec fn message_with(failure: FailureModel, shown: Seq<char>) -> Seq<char> {
    match failure {
        FailureModel::InvalidMethod => "Invalid HTTP method"@,
        FailureModel::Transport { stage, cause } => stage_prefix(stage) + cause,
        FailureModel::HttpStatus { status, body } => status_message(shown, body),
        FailureModel::Decode { context, diagnostic, body } => match context {
            DecodeContextModel::Response => "Failed to parse response: "@ + diagnostic + " - "@
                + body,
            DecodeContextModel::Upstream => "Failed to parse response: "@ + diagnostic
                + " - Response: "@ + body,
            DecodeContextModel::Payload { what } => "Failed to parse "@ + what + ": "@
                + diagnostic,
        },
        FailureModel::UpstreamError { code, message } => match code {
            None => message,
            Some(number) => "Shopee API error: "@ + decimal(number as int) + " - "@ + message,
        },
        FailureModel::MissingData { message } => message,
    }
}

/// The status of a failure that has one; 0 otherwise.
pub open spec fn status_of(failure: FailureModel) -> u16 {
    match failure {
        FailureModel::HttpStatus { status, body } => status,
        _ => 0,
    }
}

/// The message of a failure.
pub open spec fn failure_message(failure: FailureModel) -> Seq<char> {
    message_with(failure, status_text(status_of(failure)))
}

/// Builds the message of a status failure from the status as shown.
pub fn render_status_message(shown: &str, body: &str) -> (text: String)
    ensures
        text@ == status_message(shown@, body@),
{
    let mut text = owned("HTTP ");
    text.append(shown);
    text.append(": ");
    text.append(body);
    text
}

impl Failure {
    /// The status of a failure that has one; 0 otherwise.
    pub fn status(&self) -> (status: u16)
        ensures
            status == status_of(self@),
    {
        match self {
            Failure::HttpStatus { status, body } => *status,
            _ => 0,
        }
    }

    /// The message for people, given how the failure's status, if it has
    /// one, is shown.
    pub fn message_with(&self, shown: &str) -> (text: String)
        ensures
            text@ == message_with(self@, shown@),
    {
        match self {
            Failure::InvalidMethod => owned("Invalid HTTP method"),
            Failure::Transport { stage, cause } => {
                let mut text = match stage {
                    Stage::Setup => owned("Failed to create client: "),
                    Stage::Send => owned("Request failed: "),
                    Stage::Read => owned("Failed to read response: "),
                };
                text.append(cause.as_str());
                text
            },
            Failure::HttpStatus { status, body } => render_status_message(shown, body.as_str()),
            Failure::Decode { context, diagnostic, body } => match context {
                DecodeContext::Response => {
                    let mut text = owned("Failed to parse response: ");
                    text.append(diagnostic.as_str());
                    text.append(" - ");
                    text.append(body.as_str());
                    text
                },
                DecodeContext::Upstream => {
                    let mut text = owned("Failed to parse response: ");
                    text.append(diagnostic.as_str());
                    text.append(" - Response: ");
                    text.append(body.as_str());
                    text
                },
                DecodeContext::Payload { what } => {
                    let mut text = owned("Failed to parse ");
                    text.append(what.as_str());
                    text.append(": ");
                    text.append(diagnostic.as_str());
                    text
                },
            },
            Failure::UpstreamError { code, message } => match code {
                None => message.clone(),
                Some(number) => {
                    let digits = format_i64(*number as i64);
                    let mut text = owned("Shopee API error: ");
                    text.append(digits.as_str());
                    text.append(" - ");
                    text.append(message.as_str());
                    text
                },
            },
            Failure::MissingData { message } => message.clone(),
        }
    }

    /// The message for people.
    pub fn message(&self) -> (text: String)
        ensures
            text@ == failure_message(self@),
    {
        let shown = show_status(self.status());
        self.message_with(shown.as_str())
    }
}

} // verus!
