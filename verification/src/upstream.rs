use vstd::prelude::*;
use crate::decode::{
    decoded_view, described, i32_member, optional_text_member, read_i32, read_optional_text,
    require_object, DecodeError, DecodeErrorModel,
};
use crate::failure::{outcome_view, DecodeContext, DecodeContextModel, Failure, FailureModel};
use crate::http::Header;
use crate::json::{Json, JsonModel};
use crate::text::owned;

verus! {

/// The general shape of an upstream response: an error code, zero for
/// success, a message for the code, and the data.
#[derive(Debug, Clone, PartialEq, Eq)]
pub struct UpstreamEnvelope {
    pub error: i32,
    pub error_msg: Option<String>,
    pub data: Option<Json>,
}

/// An `UpstreamEnvelope` as mathematical data.
pub ghost struct UpstreamEnvelopeModel {
    pub error: i32,
    pub error_msg: Option<Seq<char>>,
    pub data: Option<JsonModel>,
}

impl DeepView for UpstreamEnvelope {
    type V = UpstreamEnvelopeModel;

    open spec fn deep_view(&self) -> UpstreamEnvelopeModel {
        UpstreamEnvelopeModel {
            error: self.error,
            error_msg: self.error_msg.deep_view(),
            data: self.data.deep_view(),
        }
    }
}

/// The data of an upstream response: its member `data`, where that is
/// present and not null.
pub open spec fn upstream_data(response: JsonModel) -> Option<JsonModel> {
    match response.field("data"@) {
        None => None,
        Some(JsonModel::Null) => None,
        Some(data) => Some(data),
    }
}

/// The envelope that an upstream response denotes. It has to be an object
/// with a whole number `error`; `error_msg` is a string, null or absent.
pub open spec fn upstream_envelope_of(response: JsonModel) -> Result<
    UpstreamEnvelopeModel,
    DecodeErrorModel,
> {
    let error = i32_member(response, "error"@);
    let error_msg = optional_text_member(response, "error_msg"@);
    if !(response is Object) {
        Err(DecodeErrorModel::NotAnObject)
    } else if error is Err {
        Err(error->Err_0)
    } else if error_msg is Err {
        Err(error_msg->Err_0)
    } else {
        Ok(
            UpstreamEnvelopeModel {
                error: error->Ok_0,
                error_msg: error_msg->Ok_0,
                data: upstream_data(response),
            },
        )
    }
}

impl UpstreamEnvelope {
    /// Decodes the envelope of an upstream response.
    pub fn decode(response: &Json) -> (outcome: Result<UpstreamEnvelope, DecodeError>)
        ensures
            decoded_view(outcome) == upstream_envelope_of(response@),
    {
        require_object(response)?;
        let error = read_i32(response, "error")?;
        let error_msg = read_optional_text(response, "error_msg")?;
        let data = match response.get("data") {
            None => None,
            Some(Json::Null) => None,
            Some(found) => Some(found.clone()),
        };
        Ok(UpstreamEnvelope { error, error_msg, data })
    }
}

/// What an upstream response gives once its envelope is read and its data,
/// where it has any, went through the decoder of the call. Malformed data
/// is a decode failure. Then a code other than zero is the upstream's
/// error, with its message or `Unknown error`. With code zero, absent data
/// is a failure of its own, and present data is the value.
pub open spec fn settled<T>(
    error: i32,
    error_msg: Option<Seq<char>>,
    data: Option<Result<T, DecodeErrorModel>>,
    body: Seq<char>,
    missing_message: Seq<char>,
) -> Result<T, FailureModel> {
    match data {
        Some(Err(problem)) => Err(
            FailureModel::Decode {
                context: DecodeContextModel::Upstream,
                diagnostic: described(problem),
                body,
            },
        ),
        _ => if error != 0 {
            Err(
                FailureModel::UpstreamError {
                    code: Some(error),
                    message: match error_msg {
                        Some(text) => text,
                        None => "Unknown error"@,
                    },
                },
            )
        } else {
            match data {
                Some(Ok(value)) => Ok(value),
                _ => Err(FailureModel::MissingData { message: missing_message }),
            }
        },
    }
}

/// The view of data that went through a decoder.
pub open spec fn decoded_data_view<T: DeepView>(data: Option<Result<T, DecodeError>>) -> Option<
    Result<T::V, DecodeErrorModel>,
> {
    match data {
        Some(outcome) => Some(decoded_view(outcome)),
        None => None,
    }
}

/// Settles an upstream response whose data went through the decoder of
/// the call.
pub fn settle<T: DeepView>(
    error: i32,
    error_msg: Option<String>,
    data: Option<Result<T, DecodeError>>,
    body: &str,
    missing_message: &str,
) -> (outcome: Result<T, Failure>)
    ensures
        outcome_view(outcome) == settled(
            error,
            error_msg.deep_view(),
            decoded_data_view(data),
            body@,
            missing_message@,
        ),
{
    match data {
        Some(Err(problem)) => Err(
            Failure::Decode {
                context: DecodeContext::Upstream,
                diagnostic: problem.describe(),
                body: owned(body),
            },
        ),
        Some(Ok(value)) => if error != 0 {
            Err(upstream_error(error, error_msg))
        } else {
            Ok(value)
        },
        None => if error != 0 {
            Err(upstream_error(error, error_msg))
        } else {
            Err(Failure::MissingData { message: owned(missing_message) })
        },
    }
}

/// The failure for a code other than zero.
pub fn upstream_error(error: i32, error_msg: Option<String>) -> (failure: Failure)
    ensures
        failure@ == (FailureModel::UpstreamError {
            code: Some(error),
            message: match error_msg.deep_view() {
                Some(text) => text,
                None => "Unknown error"@,
            },
        }),
{
    Failure::UpstreamError {
        code: Some(error),
        message: match error_msg {
            Some(text) => text,
            None => owned("Unknown error"),
        },
    }
}

/// The failure for a response without an envelope.
pub fn upstream_decode_failure(problem: &DecodeError, body: &str) -> (failure: Failure)
    ensures
        failure@ == (FailureModel::Decode {
            context: DecodeContextModel::Upstream,
            diagnostic: described(problem@),
            body: body@,
        }),
{
    Failure::Decode {
        context: DecodeContext::Upstream,
        diagnostic: problem.describe(),
        body: owned(body),
    }
}

/// Appends a header to a list.
pub fn push_header(headers: &mut Vec<Header>, name: &str, value: &str)
    ensures
        final(headers).deep_view() == old(headers).deep_view().push((name@, value@)),
{
    headers.push(Header { name: owned(name), value: owned(value) });
}

} // verus!
