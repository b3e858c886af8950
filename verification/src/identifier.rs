use vstd::prelude::*;
use crate::decode::{decoded_view, DecodeError, DecodeErrorModel};
use crate::json::{Json, JsonModel};
use crate::number::{decimal, is_integer, is_integer_text, lemma_decimal_round_trip};
use crate::text::owned;

verus! {

/// An identifier that may reach us as a JSON string, a JSON number or null,
/// brought to one form: a text, or nothing.
#[derive(Debug, Clone, PartialEq, Eq)]
pub struct FlexibleIdentifier {
    pub value: Option<String>,
}

impl View for FlexibleIdentifier {
    type V = Option<Seq<char>>;

    open spec fn view(&self) -> Option<Seq<char>> {
        self.value.deep_view()
    }
}

impl DeepView for FlexibleIdentifier {
    type V = Option<Seq<char>>;

    open spec fn deep_view(&self) -> Option<Seq<char>> {
        self@
    }
}

/// The identifier that a member of a response denotes. An absent member and
/// null give no identifier, a string gives itself, a whole number gives its
/// digits; a number with a fraction or an exponent, a boolean, an array and an
/// object are refused under the member's name.
pub open spec fn flexible_identifier(member: Option<JsonModel>, field: Seq<char>) -> Result<
    Option<Seq<char>>,
    DecodeErrorModel,
> {
    match member {
        None => Ok(None),
        Some(JsonModel::Null) => Ok(None),
        Some(JsonModel::Text(text)) => Ok(Some(text)),
        Some(JsonModel::Number(text)) => if is_integer_text(text) {
            Ok(Some(text))
        } else {
            Err(DecodeErrorModel::Invalid { field })
        },
        Some(_) => Err(DecodeErrorModel::Invalid { field }),
    }
}

impl FlexibleIdentifier {
    /// Decodes the member `field` of a response, handed over as it was found.
    pub fn decode(member: Option<&Json>, field: &str) -> (outcome: Result<
        FlexibleIdentifier,
        DecodeError,
    >)
        ensures
            decoded_view(outcome) == flexible_identifier(
                match member {
                    Some(value) => Some(value@),
                    None => None,
                },
                field@,
            ),
    {
        match member {
            None => Ok(FlexibleIdentifier { value: None }),
            Some(Json::Null) => Ok(FlexibleIdentifier { value: None }),
            Some(Json::Text(text)) => Ok(FlexibleIdentifier { value: Some(text.clone()) }),
            Some(Json::Number(text)) => if is_integer(text.as_str()) {
                Ok(FlexibleIdentifier { value: Some(text.clone()) })
            } else {
                Err(DecodeError::Invalid { field: owned(field) })
            },
            Some(_) => Err(DecodeError::Invalid { field: owned(field) }),
        }
    }

    /// The identifier as a text, if there is one.
    pub fn into_text(self) -> (text: Option<String>)
        ensures
            text.deep_view() == self@,
    {
        self.value
    }

    /// The identifier as a list: one item, or none.
    pub fn into_list(self) -> (list: Vec<String>)
        ensures
            list.deep_view() == match self@ {
                Some(text) => seq![text],
                None => Seq::<Seq<char>>::empty(),
            },
    {
        match self.value {
            Some(text) => {
                let list = vec![text];
                list
            },
            None => {
                let list: Vec<String> = Vec::new();
                list
            },
        }
    }
}

/// Decodes the member `session_id` of an active-session response.
pub fn deserialize_session_id(response: &Json) -> (outcome: Result<Option<String>, DecodeError>)
    ensures
        decoded_view(outcome) == flexible_identifier(
            response@.field("session_id"@),
            "session_id"@,
        ),
{
    match FlexibleIdentifier::decode(response.get("session_id"), "session_id") {
        Ok(identifier) => Ok(identifier.into_text()),
        Err(error) => Err(error),
    }
}

/// A string decodes to itself, a whole number `n` to its base-ten form, and
/// null to no identifier; a boolean, an array and an object are refused.
pub proof fn law_identifier_forms(value: JsonModel, n: int, field: Seq<char>)
    ensures
        value matches JsonModel::Text(text) ==> flexible_identifier(Some(value), field) == Ok::<
            Option<Seq<char>>,
            DecodeErrorModel,
        >(Some(text)),
        value == JsonModel::Number(decimal(n)) ==> flexible_identifier(Some(value), field) == Ok::<
            Option<Seq<char>>,
            DecodeErrorModel,
        >(Some(decimal(n))),
        value is Null ==> flexible_identifier(Some(value), field) == Ok::<
            Option<Seq<char>>,
            DecodeErrorModel,
        >(None),
        value is Bool || value is Array || value is Object ==> flexible_identifier(
            Some(value),
            field,
        ) is Err,
{
    lemma_decimal_round_trip(n);
}

} // verus!
