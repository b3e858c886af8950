use vstd::prelude::*;
use crate::json::{lemma_array_view, models, Json, JsonModel};
use crate::number::{integer_of_text, parse_i64};
use crate::text::owned;

verus! {

/// Why a document does not have the expected shape.
#[derive(Debug, Clone, PartialEq, Eq)]
pub enum DecodeError {
    /// The document is not an object.
    NotAnObject,
    /// A required member is absent.
    Missing { field: String },
    /// A member is present but is of the wrong kind or out of range.
    Invalid { field: String },
}

/// A `DecodeError` as mathematical data.
pub ghost enum DecodeErrorModel {
    NotAnObject,
    Missing { field: Seq<char> },
    Invalid { field: Seq<char> },
}

impl View for DecodeError {
    type V = DecodeErrorModel;

    open spec fn view(&self) -> DecodeErrorModel {
        match self {
            DecodeError::NotAnObject => DecodeErrorModel::NotAnObject,
            DecodeError::Missing { field } => DecodeErrorModel::Missing { field: field@ },
            DecodeError::Invalid { field } => DecodeErrorModel::Invalid { field: field@ },
        }
    }
}

impl DeepView for DecodeError {
    type V = DecodeErrorModel;

    open spec fn deep_view(&self) -> DecodeErrorModel {
        self@
    }
}

/// The text that describes a decode error.
pub open spec fn described(error: DecodeErrorModel) -> Seq<char> {
    match error {
        DecodeErrorModel::NotAnObject => "expected a JSON object"@,
        DecodeErrorModel::Missing { field } => "missing field `"@ + field + "`"@,
        DecodeErrorModel::Invalid { field } => "invalid value for field `"@ + field + "`"@,
    }
}

impl DecodeError {
    /// A description for people.
    pub fn describe(&self) -> (text: String)
        ensures
            text@ == described(self@),
    {
        match self {
            DecodeError::NotAnObject => owned("expected a JSON object"),
            DecodeError::Missing { field } => {
                let mut text = owned("missing field `");
                text.append(field.as_str());
                text.append("`");
                text
            },
            DecodeError::Invalid { field } => {
                let mut text = owned("invalid value for field `");
                text.append(field.as_str());
                text.append("`");
                text
            },
        }
    }
}

/// The view of a decoding outcome.
pub open spec fn decoded_view<T: DeepView>(outcome: Result<T, DecodeError>) -> Result<
    T::V,
    DecodeErrorModel,
> {
    match outcome {
        Ok(value) => Ok(value.deep_view()),
        Err(error) => Err(error@),
    }
}

/// A required text member.
pub open spec fn text_member(object: JsonModel, key: Seq<char>) -> Result<
    Seq<char>,
    DecodeErrorModel,
> {
    match object.field(key) {
        None => Err(DecodeErrorModel::Missing { field: key }),
        Some(JsonModel::Text(text)) => Ok(text),
        Some(_) => Err(DecodeErrorModel::Invalid { field: key }),
    }
}

/// An optional text member: absent and null both give `None`.
pub open spec fn optional_text_member(object: JsonModel, key: Seq<char>) -> Result<
    Option<Seq<char>>,
    DecodeErrorModel,
> {
    match object.field(key) {
        None => Ok(None),
        Some(JsonModel::Null) => Ok(None),
        Some(JsonModel::Text(text)) => Ok(Some(text)),
        Some(_) => Err(DecodeErrorModel::Invalid { field: key }),
    }
}

/// A required boolean member.
pub open spec fn bool_member(object: JsonModel, key: Seq<char>) -> Result<bool, DecodeErrorModel> {
    match object.field(key) {
        None => Err(DecodeErrorModel::Missing { field: key }),
        Some(JsonModel::Bool(b)) => Ok(b),
        Some(_) => Err(DecodeErrorModel::Invalid { field: key }),
    }
}

/// What a document gives as a whole number of 64 bits.
pub open spec fn integer_of(value: JsonModel) -> Option<i64> {
    match value {
        JsonModel::Number(text) => integer_of_text(text),
        _ => None,
    }
}

/// A required member that is a whole number of 64 bits.
pub open spec fn i64_member(object: JsonModel, key: Seq<char>) -> Result<i64, DecodeErrorModel> {
    match object.field(key) {
        None => Err(DecodeErrorModel::Missing { field: key }),
        Some(value) => match integer_of(value) {
            Some(n) => Ok(n),
            None => Err(DecodeErrorModel::Invalid { field: key }),
        },
    }
}

/// An optional member that is a whole number of 64 bits.
pub open spec fn optional_i64_member(object: JsonModel, key: Seq<char>) -> Result<
    Option<i64>,
    DecodeErrorModel,
> {
    match object.field(key) {
        None => Ok(None),
        Some(JsonModel::Null) => Ok(None),
        Some(value) => match integer_of(value) {
            Some(n) => Ok(Some(n)),
            None => Err(DecodeErrorModel::Invalid { field: key }),
        },
    }
}

/// A required member that is a whole number of 32 bits.
pub open spec fn i32_member(object: JsonModel, key: Seq<char>) -> Result<i32, DecodeErrorModel> {
    match i64_member(object, key) {
        Err(error) => Err(error),
        Ok(n) => if i32::MIN <= n <= i32::MAX {
            Ok(n as i32)
        } else {
            Err(DecodeErrorModel::Invalid { field: key })
        },
    }
}

/// An optional member that is a whole number of 32 bits.
pub open spec fn optional_i32_member(object: JsonModel, key: Seq<char>) -> Result<
    Option<i32>,
    DecodeErrorModel,
> {
    match optional_i64_member(object, key) {
        Err(error) => Err(error),
        Ok(None) => Ok(None),
        Ok(Some(n)) => if i32::MIN <= n <= i32::MAX {
            Ok(Some(n as i32))
        } else {
            Err(DecodeErrorModel::Invalid { field: key })
        },
    }
}

/// Reads a required text member.
pub fn read_text(object: &Json, key: &str) -> (outcome: Result<String, DecodeError>)
    ensures
        decoded_view(outcome) == text_member(object@, key@),
{
    match object.get(key) {
        None => Err(DecodeError::Missing { field: owned(key) }),
        Some(Json::Text(text)) => Ok(text.clone()),
        Some(_) => Err(DecodeError::Invalid { field: owned(key) }),
    }
}

/// Reads an optional text member.
pub fn read_optional_text(object: &Json, key: &str) -> (outcome: Result<
    Option<String>,
    DecodeError,
>)
    ensures
        decoded_view(outcome) == optional_text_member(object@, key@),
{
    match object.get(key) {
        None => Ok(None),
        Some(Json::Null) => Ok(None),
        Some(Json::Text(text)) => Ok(Some(text.clone())),
        Some(_) => Err(DecodeError::Invalid { field: owned(key) }),
    }
}

/// Reads a required boolean member.
pub fn read_bool(object: &Json, key: &str) -> (outcome: Result<bool, DecodeError>)
    ensures
        decoded_view(outcome) == bool_member(object@, key@),
{
    match object.get(key) {
        None => Err(DecodeError::Missing { field: owned(key) }),
        Some(Json::Bool(b)) => Ok(*b),
        Some(_) => Err(DecodeError::Invalid { field: owned(key) }),
    }
}

/// Reads a document as a whole number of 64 bits.
pub fn read_integer(value: &Json) -> (number: Option<i64>)
    ensures
        number == integer_of(value@),
{
    match value {
        Json::Number(text) => parse_i64(text.as_str()),
        _ => None,
    }
}

/// Reads a required member that is a whole number of 64 bits.
pub fn read_i64(object: &Json, key: &str) -> (outcome: Result<i64, DecodeError>)
    ensures
        decoded_view(outcome) == i64_member(object@, key@),
{
    match object.get(key) {
        None => Err(DecodeError::Missing { field: owned(key) }),
        Some(value) => match read_integer(value) {
            Some(n) => Ok(n),
            None => Err(DecodeError::Invalid { field: owned(key) }),
        },
    }
}

/// Reads an optional member that is a whole number of 64 bits.
pub fn read_optional_i64(object: &Json, key: &str) -> (outcome: Result<Option<i64>, DecodeError>)
    ensures
        decoded_view(outcome) == optional_i64_member(object@, key@),
{
    match object.get(key) {
        None => Ok(None),
        Some(Json::Null) => Ok(None),
        Some(value) => match read_integer(value) {
            Some(n) => Ok(Some(n)),
            None => Err(DecodeError::Invalid { field: owned(key) }),
        },
    }
}

/// Reads a required member that is a whole number of 32 bits.
pub fn read_i32(object: &Json, key: &str) -> (outcome: Result<i32, DecodeError>)
    ensures
        decoded_view(outcome) == i32_member(object@, key@),
{
    match read_i64(object, key) {
        Err(error) => Err(error),
        Ok(n) => if -2147483648 <= n && n <= 2147483647 {
            Ok(n as i32)
        } else {
            Err(DecodeError::Invalid { field: owned(key) })
        },
    }
}

/// Reads an optional member that is a whole number of 32 bits.
pub fn read_optional_i32(object: &Json, key: &str) -> (outcome: Result<Option<i32>, DecodeError>)
    ensures
        decoded_view(outcome) == optional_i32_member(object@, key@),
{
    match read_optional_i64(object, key) {
        Err(error) => Err(error),
        Ok(None) => Ok(None),
        Ok(Some(n)) => if -2147483648 <= n && n <= 2147483647 {
            Ok(Some(n as i32))
        } else {
            Err(DecodeError::Invalid { field: owned(key) })
        },
    }
}

/// A required member that is an array.
pub open spec fn array_member(object: JsonModel, key: Seq<char>) -> Result<
    Seq<JsonModel>,
    DecodeErrorModel,
> {
    match object.field(key) {
        None => Err(DecodeErrorModel::Missing { field: key }),
        Some(JsonModel::Array(items)) => Ok(items),
        Some(_) => Err(DecodeErrorModel::Invalid { field: key }),
    }
}

/// A member that is an array where it is present; an absent member stands
/// for the empty array.
pub open spec fn array_member_or_empty(object: JsonModel, key: Seq<char>) -> Result<
    Seq<JsonModel>,
    DecodeErrorModel,
> {
    match object.field(key) {
        None => Ok(Seq::empty()),
        Some(JsonModel::Array(items)) => Ok(items),
        Some(_) => Err(DecodeErrorModel::Invalid { field: key }),
    }
}

/// The outcome of decoding every item of a list with `one`: the list of
/// the values, or the error of the first item that fails.
pub open spec fn each<T>(
    items: Seq<JsonModel>,
    one: spec_fn(JsonModel) -> Result<T, DecodeErrorModel>,
) -> Result<Seq<T>, DecodeErrorModel>
    decreases items.len(),
{
    if items.len() == 0 {
        Ok(Seq::empty())
    } else {
        match each(items.drop_last(), one) {
            Err(error) => Err(error),
            Ok(front) => match one(items.last()) {
                Err(error) => Err(error),
                Ok(value) => Ok(front.push(value)),
            },
        }
    }
}

/// A list decodes exactly where each of its items does, and then to the
/// list of the items' values, in order.
pub proof fn law_each_decodes_all<T>(
    items: Seq<JsonModel>,
    one: spec_fn(JsonModel) -> Result<T, DecodeErrorModel>,
)
    ensures
        each(items, one) is Ok <==> forall|i: int|
            0 <= i < items.len() ==> one(#[trigger] items[i]) is Ok,
        each(items, one) matches Ok(values) ==> values.len() == items.len() && forall|i: int|
            0 <= i < items.len() ==> one(items[i]) == Ok::<T, DecodeErrorModel>(
                #[trigger] values[i],
            ),
    decreases items.len(),
{
    if items.len() > 0 {
        let front = items.drop_last();
        law_each_decodes_all(front, one);
        if each(items, one) is Ok {
            assert forall|i: int| 0 <= i < items.len() implies one(#[trigger] items[i]) is Ok by {
                if i < front.len() {
                    assert(front[i] == items[i]);
                }
            }
        }
        if forall|i: int| 0 <= i < items.len() ==> one(#[trigger] items[i]) is Ok {
            assert forall|i: int| 0 <= i < front.len() implies one(#[trigger] front[i]) is Ok by {
            }
        }
    }
}

/// Once a prefix of a list fails, the whole list fails in the same way.
pub proof fn lemma_each_fails<T>(
    items: Seq<JsonModel>,
    one: spec_fn(JsonModel) -> Result<T, DecodeErrorModel>,
    k: int,
)
    requires
        0 <= k <= items.len(),
        each(items.take(k), one) is Err,
    ensures
        each(items, one) == each(items.take(k), one),
    decreases items.len() - k,
{
    if k == items.len() {
        assert(items.take(k) =~= items);
    } else {
        assert(items.drop_last().take(k) =~= items.take(k));
        lemma_each_fails(items.drop_last(), one, k);
    }
}

/// Whether a document is an object.
pub fn require_object(value: &Json) -> (outcome: Result<(), DecodeError>)
    ensures
        outcome is Ok <==> value@ is Object,
        outcome matches Err(error) ==> error@ == DecodeErrorModel::NotAnObject,
{
    match value {
        Json::Object(_) => Ok(()),
        _ => Err(DecodeError::NotAnObject),
    }
}

/// Reads a required member that is an array.
pub fn read_array<'a>(object: &'a Json, key: &str) -> (outcome: Result<&'a Vec<Json>, DecodeError>)
    ensures
        match outcome {
            Ok(items) => array_member(object@, key@) == Ok::<Seq<JsonModel>, DecodeErrorModel>(
                models(items@),
            ),
            Err(error) => array_member(object@, key@) == Err::<Seq<JsonModel>, DecodeErrorModel>(
                error@,
            ),
        },
{
    match object.get(key) {
        None => Err(DecodeError::Missing { field: owned(key) }),
        Some(Json::Array(items)) => {
            proof {
                lemma_array_view(*items);
            }
            Ok(items)
        },
        Some(_) => Err(DecodeError::Invalid { field: owned(key) }),
    }
}

/// Reads a member that is an array where it is present. `None` stands for
/// an absent member.
pub fn read_array_or_empty<'a>(object: &'a Json, key: &str) -> (outcome: Result<
    Option<&'a Vec<Json>>,
    DecodeError,
>)
    ensures
        match outcome {
            Ok(Some(items)) => array_member_or_empty(object@, key@) == Ok::<
                Seq<JsonModel>,
                DecodeErrorModel,
            >(models(items@)),
            Ok(None) => array_member_or_empty(object@, key@) == Ok::<
                Seq<JsonModel>,
                DecodeErrorModel,
            >(Seq::empty()),
            Err(error) => array_member_or_empty(object@, key@) == Err::<
                Seq<JsonModel>,
                DecodeErrorModel,
            >(error@),
        },
{
    match object.get(key) {
        None => Ok(None),
        Some(Json::Array(items)) => {
            proof {
                lemma_array_view(*items);
            }
            Ok(Some(items))
        },
        Some(_) => Err(DecodeError::Invalid { field: owned(key) }),
    }
}

} // verus!
