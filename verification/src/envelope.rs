use vstd::prelude::*;
use crate::decode::{
    bool_member, decoded_view, described, optional_text_member, read_bool, read_optional_text,
    DecodeError, DecodeErrorModel,
};
use crate::failure::{outcome_view, DecodeContext, DecodeContextModel, Failure, FailureModel};
use crate::json::{
    entry_models, lemma_lookup_push, lemma_object_view, lookup, Json, JsonModel, Member,
};
use crate::text::{owned, str_eq};

verus! {

/// Where the value of a successful response stands. The backend is not
/// uniform in this, so each call says which way applies.
#[derive(Debug, Clone, PartialEq, Eq)]
pub enum Extraction {
    /// The value's members stand beside the success flag and the message.
    Flattened,
    /// The value is the member of this name.
    Named { key: String },
}

/// An `Extraction` as mathematical data.
pub ghost enum ExtractionModel {
    Flattened,
    Named { key: Seq<char> },
}

impl View for Extraction {
    type V = ExtractionModel;

    open spec fn view(&self) -> ExtractionModel {
        match self {
            Extraction::Flattened => ExtractionModel::Flattened,
            Extraction::Named { key } => ExtractionModel::Named { key: key@ },
        }
    }
}

/// The general shape of a backend response: whether the call succeeded, its
/// value, and a message. A failed response has no value.
#[derive(Debug, Clone, PartialEq, Eq)]
pub struct Envelope {
    pub ok: bool,
    pub value: Option<Json>,
    pub message: Option<String>,
}

/// An `Envelope` as mathematical data.
pub ghost struct EnvelopeModel {
    pub ok: bool,
    pub value: Option<JsonModel>,
    pub message: Option<Seq<char>>,
}

impl View for Envelope {
    type V = EnvelopeModel;

    open spec fn view(&self) -> EnvelopeModel {
        EnvelopeModel {
            ok: self.ok,
            value: self.value.deep_view(),
            message: self.message.deep_view(),
        }
    }
}

impl DeepView for Envelope {
    type V = EnvelopeModel;

    open spec fn deep_view(&self) -> EnvelopeModel {
        self@
    }
}

impl Envelope {
    /// The invariant of an envelope: no value without success.
    pub open spec fn well_formed(self) -> bool {
        !self.ok ==> self.value is None
    }
}

/// Whether a member belongs to the envelope itself and not to its value.
pub open spec fn is_envelope_key(key: Seq<char>) -> bool {
    key == "success"@ || key == "message"@
}

/// The entries of a response that make up a flattened value: all but the
/// success flag and the message, in their order.
pub open spec fn payload_entries(fields: Seq<(Seq<char>, JsonModel)>) -> Seq<
    (Seq<char>, JsonModel),
>
    decreases fields.len(),
{
    if fields.len() == 0 {
        Seq::empty()
    } else if is_envelope_key(fields.last().0) {
        payload_entries(fields.drop_last())
    } else {
        payload_entries(fields.drop_last()).push(fields.last())
    }
}

/// The value that a response object holds, by the way it is to be taken out.
pub open spec fn extracted(response: JsonModel, how: ExtractionModel) -> Option<JsonModel> {
    match how {
        ExtractionModel::Flattened => match response {
            JsonModel::Object(fields) => Some(JsonModel::Object(payload_entries(fields))),
            _ => None,
        },
        ExtractionModel::Named { key } => response.field(key),
    }
}

/// The envelope that a response document denotes. It has to be an object
/// with a boolean `success`; `message` is a string, null or absent. The
/// value is taken out only where `success` is true.
pub open spec fn envelope_of(response: JsonModel, how: ExtractionModel) -> Result<
    EnvelopeModel,
    DecodeErrorModel,
> {
    if !(response is Object) {
        Err(DecodeErrorModel::NotAnObject)
    } else {
        match bool_member(response, "success"@) {
            Err(error) => Err(error),
            Ok(ok) => match optional_text_member(response, "message"@) {
                Err(error) => Err(error),
                Ok(message) => Ok(
                    EnvelopeModel {
                        ok,
                        value: if ok {
                            extracted(response, how)
                        } else {
                            None
                        },
                        message,
                    },
                ),
            },
        }
    }
}

/// Takes the flattened value out of a response object.
pub fn flattened_value(response: &Json) -> (value: Option<Json>)
    ensures
        value.deep_view() == extracted(response@, ExtractionModel::Flattened),
{
    match response {
        Json::Object(fields) => {
            proof {
                lemma_object_view(*fields);
            }
            let ghost all = entry_models(fields@);
            let mut out: Vec<Member> = Vec::new();
            let mut i: usize = 0;
            while i < fields.len()
                invariant
                    i <= fields.len(),
                    all == entry_models(fields@),
                    entry_models(out@) == payload_entries(all.take(i as int)),
                decreases fields.len() - i,
            {
                proof {
                    assert(all.take(i + 1).drop_last() =~= all.take(i as int));
                }
                let key = fields[i].key.as_str();
                if !(str_eq(key, "success") || str_eq(key, "message")) {
                    out.push(Member { key: owned(key), value: fields[i].value.clone() });
                }
                i = i + 1;
            }
            proof {
                assert(all.take(fields.len() as int) =~= all);
                lemma_object_view(out);
            }
            Some(Json::Object(out))
        },
        _ => None,
    }
}

/// Takes the value out of a response object.
pub fn extract(response: &Json, how: &Extraction) -> (value: Option<Json>)
    ensures
        value.deep_view() == extracted(response@, how@),
{
    match how {
        Extraction::Flattened => flattened_value(response),
        Extraction::Named { key } => match response.get(key.as_str()) {
            Some(found) => Some(found.clone()),
            None => None,
        },
    }
}

impl Envelope {
    /// Decodes the envelope of a response document.
    pub fn decode(response: &Json, how: &Extraction) -> (outcome: Result<Envelope, DecodeError>)
        ensures
            decoded_view(outcome) == envelope_of(response@, how@),
            outcome matches Ok(envelope) ==> envelope.well_formed(),
    {
        match response {
            Json::Object(_) => {},
            _ => {
                return Err(DecodeError::NotAnObject);
            },
        }
        let ok = match read_bool(response, "success") {
            Ok(flag) => flag,
            Err(error) => {
                return Err(error);
            },
        };
        let message = match read_optional_text(response, "message") {
            Ok(text) => text,
            Err(error) => {
                return Err(error);
            },
        };
        let value = if ok {
            extract(response, how)
        } else {
            None
        };
        Ok(Envelope { ok, value, message })
    }
}

/// What a backend response gives, once parsed: a decode failure where it
/// has no envelope, the backend's own message (or the call's default where
/// it sent none) where `success` is false, and the value otherwise.
pub open spec fn backend_value(
    response: JsonModel,
    body: Seq<char>,
    how: ExtractionModel,
    default_message: Seq<char>,
) -> Result<Option<JsonModel>, FailureModel> {
    match envelope_of(response, how) {
        Err(error) => Err(
            FailureModel::Decode {
                context: DecodeContextModel::Response,
                diagnostic: described(error),
                body,
            },
        ),
        Ok(envelope) => if envelope.ok {
            Ok(envelope.value)
        } else {
            Err(
                FailureModel::UpstreamError {
                    code: None,
                    message: match envelope.message {
                        Some(text) => text,
                        None => default_message,
                    },
                },
            )
        },
    }
}

/// Reads the envelope of a parsed backend response and gives its value.
/// `body` is the raw text that the document was parsed from; a decode
/// failure carries it.
pub fn read_envelope(
    response: &Json,
    body: &str,
    how: &Extraction,
    default_message: &str,
) -> (outcome: Result<Option<Json>, Failure>)
    ensures
        outcome_view(outcome) == backend_value(response@, body@, how@, default_message@),
{
    match Envelope::decode(response, how) {
        Err(error) => Err(
            Failure::Decode {
                context: DecodeContext::Response,
                diagnostic: error.describe(),
                body: owned(body),
            },
        ),
        Ok(envelope) => if envelope.ok {
            Ok(envelope.value)
        } else {
            Err(
                Failure::UpstreamError {
                    code: None,
                    message: match envelope.message {
                        Some(text) => text,
                        None => owned(default_message),
                    },
                },
            )
        },
    }
}

/// A response object whose `success` is false and whose `message` is a
/// string fails with exactly that message, whichever way the value would be
/// taken out and whatever the call's default message is.
pub proof fn law_failure_message(
    response: JsonModel,
    message: Seq<char>,
    body: Seq<char>,
    how: ExtractionModel,
    default_message: Seq<char>,
)
    requires
        response is Object,
        response.field("success"@) == Some(JsonModel::Bool(false)),
        response.field("message"@) == Some(JsonModel::Text(message)),
    ensures
        backend_value(response, body, how, default_message) == Err::<
            Option<JsonModel>,
            FailureModel,
        >(FailureModel::UpstreamError { code: None, message }),
{
}

/// Taking the flattened value out of a response keeps every member but the
/// success flag and the message: each other key is found in the value
/// exactly as in the response.
pub proof fn law_flattened_keeps_members(fields: Seq<(Seq<char>, JsonModel)>, key: Seq<char>)
    requires
        !is_envelope_key(key),
    ensures
        lookup(payload_entries(fields), key) == lookup(fields, key),
    decreases fields.len(),
{
    if fields.len() > 0 {
        let front = fields.drop_last();
        let last = fields.last();
        assert(fields =~= front.push(last));
        law_flattened_keeps_members(front, key);
        lemma_lookup_push(front, last, key);
        if !is_envelope_key(last.0) {
            lemma_lookup_push(payload_entries(front), last, key);
        }
    }
}

} // verus!
