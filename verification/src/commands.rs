use vstd::prelude::*;
use vstd::utf8::encode_utf8;
use crate::config::Config;
use crate::decode::{described, optional_text_member, DecodeError, DecodeErrorModel};
use crate::encode::{percent_encoded, url_encode};
use crate::envelope::{backend_value, read_envelope, Extraction, ExtractionModel};
use crate::executor::{api_request, build_api_request, classified, classify_response};
use crate::failure::{outcome_view, DecodeContext, DecodeContextModel, Failure, FailureModel};
use crate::http::{HttpRequest, HttpResponse, HttpResponseModel, Method};
use crate::identifier::{flexible_identifier, FlexibleIdentifier};
use crate::json::{
    entry_models, lemma_array_view, models, no_members, object, parsed_text, push_bool,
    push_i32, push_member, push_text, Json, JsonModel, Member,
};
use crate::model::{
    login_response_of, machine_id_response_of, niche_of, niches_response_of, product_set_of,
    product_sets_response_of, redeemed_license_of, shopee_account_of,
    shopee_accounts_response_of, LoginResponse, LoginResponseModel, MachineIdResponse,
    MachineIdResponseModel, Niche, NicheModel, NichesResponse, NichesResponseModel, ProductSet,
    ProductSetModel, ProductSetsResponse, ProductSetsResponseModel, RedeemLicenseResponse,
    RedeemLicenseResponseModel, SessionIdsResponse, SessionIdsResponseModel, ShopeeAccount,
    ShopeeAccountModel, ShopeeAccountsResponse, ShopeeAccountsResponseModel,
};
use crate::number::{decimal, format_i64, lemma_decimal_round_trip};
use crate::text::owned;
use crate::upstream::decoded_data_view;

verus! {

/// The entries of a body, with a string under `key` appended where one is
/// given.
pub open spec fn with_optional_text(
    entries: Seq<(Seq<char>, JsonModel)>,
    key: Seq<char>,
    value: Option<Seq<char>>,
) -> Seq<(Seq<char>, JsonModel)> {
    match value {
        Some(text) => entries.push((key, JsonModel::Text(text))),
        None => entries,
    }
}

/// The entries of a body, with a whole number under `key` appended where one
/// is given.
pub open spec fn with_optional_i32(
    entries: Seq<(Seq<char>, JsonModel)>,
    key: Seq<char>,
    value: Option<i32>,
) -> Seq<(Seq<char>, JsonModel)> {
    match value {
        Some(number) => entries.push((key, JsonModel::Number(decimal(number as int)))),
        None => entries,
    }
}

/// Appends a string member where a value is given.
pub fn push_optional_text(members: &mut Vec<Member>, key: &str, value: &Option<String>)
    ensures
        entry_models(final(members)@) == with_optional_text(
            entry_models(old(members)@),
            key@,
            value.deep_view(),
        ),
{
    match value {
        Some(text) => {
            push_text(members, key, text.as_str());
        },
        None => {},
    }
}

/// Appends a whole-number member where a value is given.
pub fn push_optional_i32(members: &mut Vec<Member>, key: &str, value: Option<i32>)
    ensures
        entry_models(final(members)@) == with_optional_i32(
            entry_models(old(members)@),
            key@,
            value,
        ),
{
    match value {
        Some(number) => {
            push_i32(members, key, number);
        },
        None => {},
    }
}

/// The query that carries a member's credentials, each percent-encoded.
pub open spec fn credentials_query(email: Seq<char>, password: Seq<char>) -> Seq<char> {
    "email="@ + percent_encoded(encode_utf8(email)) + "&password="@ + percent_encoded(
        encode_utf8(password),
    )
}

/// Builds the query that carries a member's credentials.
pub fn build_credentials_query(email: &str, password: &str) -> (query: String)
    ensures
        query@ == credentials_query(email@, password@),
{
    let mut query = owned("email=");
    let encoded_email = url_encode(email);
    query.append(encoded_email.as_str());
    query.append("&password=");
    let encoded_password = url_encode(password);
    query.append(encoded_password.as_str());
    query
}

/// A path that ends in a number: the prefix, then the number in base ten.
pub open spec fn numbered(prefix: Seq<char>, id: i32) -> Seq<char> {
    prefix + decimal(id as int)
}

/// Builds a path that ends in a number.
pub fn build_numbered(prefix: &str, id: i32) -> (path: String)
    ensures
        path@ == numbered(prefix@, id),
{
    let mut path = owned(prefix);
    let digits = format_i64(id as i64);
    path.append(digits.as_str());
    path
}

/// The path of the products of a product set.
pub open spec fn items_path(product_set_id: i32) -> Seq<char> {
    numbered("/api/members/product-sets/"@, product_set_id) + "/items"@
}

/// Builds the path of the products of a product set.
pub fn build_items_path(product_set_id: i32) -> (path: String)
    ensures
        path@ == items_path(product_set_id),
{
    let mut path = build_numbered("/api/members/product-sets/", product_set_id);
    path.append("/items");
    path
}

/// The path of one product of a product set.
pub open spec fn item_path(product_set_id: i32, item_id: i32) -> Seq<char> {
    items_path(product_set_id) + "/"@ + decimal(item_id as int)
}

/// Builds the path of one product of a product set.
pub fn build_item_path(product_set_id: i32, item_id: i32) -> (path: String)
    ensures
        path@ == item_path(product_set_id, item_id),
{
    let mut path = build_items_path(product_set_id);
    let digits = format_i64(item_id as i64);
    path.append("/");
    path.append(digits.as_str());
    path
}

/// The path that asks for a member's machine identifier: the email is part of
/// the path, percent-encoded, and the application's name follows as a query.
pub open spec fn machine_id_path(email: Seq<char>, app_identifier: Seq<char>) -> Seq<char> {
    "/api/members/machine-id/"@ + percent_encoded(encode_utf8(email)) + "?app_identifier="@
        + app_identifier
}

/// Builds the path that asks for a member's machine identifier.
pub fn build_machine_id_path(email: &str, app_identifier: &str) -> (path: String)
    ensures
        path@ == machine_id_path(email@, app_identifier@),
{
    let mut path = owned("/api/members/machine-id/");
    let encoded = url_encode(email);
    path.append(encoded.as_str());
    path.append("?app_identifier=");
    path.append(app_identifier);
    path
}

/// What a response of the backend amounts to before its envelope is read.
pub open spec fn received(response: HttpResponseModel) -> Result<JsonModel, FailureModel> {
    classified(
        response.status,
        response.body,
        parsed_text(response.body),
        DecodeContextModel::Response,
    )
}

/// What a parsed response gives for a call without a value.
pub open spec fn acknowledged(
    response: JsonModel,
    body: Seq<char>,
    default_message: Seq<char>,
) -> Result<(), FailureModel> {
    match backend_value(response, body, ExtractionModel::Flattened, default_message) {
        Ok(_) => Ok(()),
        Err(failure) => Err(failure),
    }
}

/// Reads a parsed response of a call without a value.
pub fn read_acknowledgement(response: &Json, body: &str, default_message: &str) -> (outcome: Result<
    (),
    Failure,
>)
    ensures
        outcome_view(outcome) == acknowledged(response@, body@, default_message@),
{
    match read_envelope(response, body, &Extraction::Flattened, default_message) {
        Ok(_) => Ok(()),
        Err(failure) => Err(failure),
    }
}

/// What the value of a successful response gives once it went through the
/// decoder of the call, for a value whose members stand beside the success
/// flag: a value that is absent or does not decode is missing data.
pub open spec fn present<T>(
    decoded: Option<Result<T, DecodeErrorModel>>,
    missing_message: Seq<char>,
) -> Result<T, FailureModel> {
    match decoded {
        Some(Ok(value)) => Ok(value),
        _ => Err(FailureModel::MissingData { message: missing_message }),
    }
}

/// Settles a flattened value that went through the decoder of the call.
pub fn require_present<T: DeepView>(
    decoded: Option<Result<T, DecodeError>>,
    missing_message: &str,
) -> (outcome: Result<T, Failure>)
    ensures
        outcome_view(outcome) == present(decoded_data_view(decoded), missing_message@),
{
    match decoded {
        Some(Ok(value)) => Ok(value),
        _ => Err(Failure::MissingData { message: owned(missing_message) }),
    }
}

/// What the value of a successful response gives once it went through the
/// decoder of the call, for a value that stands under a name: an absent
/// member and one that does not decode are decode failures that name what was
/// being read.
pub open spec fn nested<T>(
    decoded: Option<Result<T, DecodeErrorModel>>,
    key: Seq<char>,
    what: Seq<char>,
    body: Seq<char>,
) -> Result<T, FailureModel> {
    let problem = match decoded {
        Some(Err(seen)) => seen,
        _ => DecodeErrorModel::Missing { field: key },
    };
    match decoded {
        Some(Ok(value)) => Ok(value),
        _ => Err(
            FailureModel::Decode {
                context: DecodeContextModel::Payload { what },
                diagnostic: described(problem),
                body,
            },
        ),
    }
}

/// Settles a named value that went through the decoder of the call.
pub fn require_nested<T: DeepView>(
    decoded: Option<Result<T, DecodeError>>,
    key: &str,
    what: &str,
    body: &str,
) -> (outcome: Result<T, Failure>)
    ensures
        outcome_view(outcome) == nested(decoded_data_view(decoded), key@, what@, body@),
{
    let problem = match decoded {
        Some(Ok(value)) => {
            return Ok(value);
        },
        Some(Err(seen)) => seen,
        None => DecodeError::Missing { field: owned(key) },
    };
    Err(
        Failure::Decode {
            context: DecodeContext::Payload { what: owned(what) },
            diagnostic: problem.describe(),
            body: owned(body),
        },
    )
}

/// What a parsed response gives for a call with a free-form value: the
/// members beside the success flag and the message, as an object.
pub open spec fn free_form(
    response: JsonModel,
    body: Seq<char>,
    default_message: Seq<char>,
) -> Result<JsonModel, FailureModel> {
    match backend_value(response, body, ExtractionModel::Flattened, default_message) {
        Ok(Some(value)) => Ok(value),
        Ok(None) => Ok(JsonModel::Object(Seq::empty())),
        Err(failure) => Err(failure),
    }
}

/// Reads a parsed response of a call with a free-form value.
pub fn read_free_form(response: &Json, body: &str, default_message: &str) -> (outcome: Result<
    Json,
    Failure,
>)
    ensures
        outcome_view(outcome) == free_form(response@, body@, default_message@),
{
    match read_envelope(response, body, &Extraction::Flattened, default_message) {
        Ok(Some(value)) => Ok(value),
        Ok(None) => Ok(object(no_members())),
        Err(failure) => Err(failure),
    }
}


/// The body that carries a member's credentials and nothing else.
pub open spec fn credentials_body(email: Seq<char>, password: Seq<char>) -> JsonModel {
    JsonModel::Object(
        seq![
            ("email"@, JsonModel::Text(email)),
            ("password"@, JsonModel::Text(password)),
        ],
    )
}

/// Builds the body that carries a member's credentials and nothing else.
pub fn build_credentials_body(email: &str, password: &str) -> (body: Json)
    ensures
        body@ == credentials_body(email@, password@),
{
    let mut members = no_members();
    push_text(&mut members, "email", email);
    push_text(&mut members, "password", password);
    proof {
        assert(entry_models(members@) =~= credentials_body(email@, password@)->Object_0);
    }
    object(members)
}

/// The body of a sign-in.
pub open spec fn sign_in_body(
    email: Seq<char>,
    password: Seq<char>,
    machine_id: Seq<char>,
    app_identifier: Seq<char>,
) -> JsonModel {
    JsonModel::Object(
        seq![
            ("email"@, JsonModel::Text(email)),
            ("password"@, JsonModel::Text(password)),
            ("machine_id"@, JsonModel::Text(machine_id)),
            ("app_identifier"@, JsonModel::Text(app_identifier)),
        ],
    )
}

/// Builds the body of a sign-in.
pub fn build_sign_in_body(
    email: &str,
    password: &str,
    machine_id: &str,
    app_identifier: &str,
) -> (body: Json)
    ensures
        body@ == sign_in_body(email@, password@, machine_id@, app_identifier@),
{
    let mut members = no_members();
    push_text(&mut members, "email", email);
    push_text(&mut members, "password", password);
    push_text(&mut members, "machine_id", machine_id);
    push_text(&mut members, "app_identifier", app_identifier);
    proof {
        assert(entry_models(members@) =~= sign_in_body(
            email@,
            password@,
            machine_id@,
            app_identifier@,
        )->Object_0);
    }
    object(members)
}

/// The body that redeems a license key.
pub open spec fn redeem_body(email: Seq<char>, license_key: Seq<char>) -> JsonModel {
    JsonModel::Object(
        seq![
            ("email"@, JsonModel::Text(email)),
            ("license_key"@, JsonModel::Text(license_key)),
        ],
    )
}

/// Builds the body that redeems a license key.
pub fn build_redeem_body(email: &str, license_key: &str) -> (body: Json)
    ensures
        body@ == redeem_body(email@, license_key@),
{
    let mut members = no_members();
    push_text(&mut members, "email", email);
    push_text(&mut members, "license_key", license_key);
    proof {
        assert(entry_models(members@) =~= redeem_body(email@, license_key@)->Object_0);
    }
    object(members)
}

/// The body that records a machine identifier; the password is a member only
/// where one is given.
pub open spec fn machine_update_body(
    email: Seq<char>,
    machine_id: Seq<char>,
    app_identifier: Seq<char>,
    password: Option<Seq<char>>,
) -> JsonModel {
    JsonModel::Object(
        with_optional_text(
        seq![
            ("email"@, JsonModel::Text(email)),
            ("machine_id"@, JsonModel::Text(machine_id)),
            ("app_identifier"@, JsonModel::Text(app_identifier)),
        ],
        "password"@,
        password,
    ),
    )
}

/// Builds the body that records a machine identifier.
pub fn build_machine_update_body(
    email: &str,
    machine_id: &str,
    app_identifier: &str,
    password: &Option<String>,
) -> (body: Json)
    ensures
        body@ == machine_update_body(email@, machine_id@, app_identifier@, password.deep_view()),
{
    let mut members = no_members();
    push_text(&mut members, "email", email);
    push_text(&mut members, "machine_id", machine_id);
    push_text(&mut members, "app_identifier", app_identifier);
    push_optional_text(&mut members, "password", password);
    proof {
        assert(entry_models(members@) =~= machine_update_body(
            email@,
            machine_id@,
            app_identifier@,
            password.deep_view(),
        )->Object_0);
    }
    object(members)
}

/// The body that sets a new password; the current password is null.
pub open spec fn password_change_body(
    email: Seq<char>,
    new_password: Seq<char>,
    machine_id: Seq<char>,
) -> JsonModel {
    JsonModel::Object(
        seq![
            ("email"@, JsonModel::Text(email)),
            ("current_password"@, JsonModel::Null),
            ("new_password"@, JsonModel::Text(new_password)),
            ("machine_id"@, JsonModel::Text(machine_id)),
        ],
    )
}

/// Builds the body that sets a new password.
pub fn build_password_change_body(email: &str, new_password: &str, machine_id: &str) -> (body: Json)
    ensures
        body@ == password_change_body(email@, new_password@, machine_id@),
{
    let mut members = no_members();
    push_text(&mut members, "email", email);
    push_member(&mut members, "current_password", Json::Null);
    push_text(&mut members, "new_password", new_password);
    push_text(&mut members, "machine_id", machine_id);
    proof {
        assert(entry_models(members@) =~= password_change_body(
            email@,
            new_password@,
            machine_id@,
        )->Object_0);
    }
    object(members)
}

/// The body that describes a seller account.
pub open spec fn account_body(
    email: Seq<char>,
    password: Seq<char>,
    name: Seq<char>,
    cookie: Seq<char>,
    is_active: bool,
) -> JsonModel {
    JsonModel::Object(
        seq![
            ("email"@, JsonModel::Text(email)),
            ("password"@, JsonModel::Text(password)),
            ("name"@, JsonModel::Text(name)),
            ("cookie"@, JsonModel::Text(cookie)),
            ("is_active"@, JsonModel::Bool(is_active)),
        ],
    )
}

/// Builds the body that describes a seller account.
pub fn build_account_body(
    email: &str,
    password: &str,
    name: &str,
    cookie: &str,
    is_active: bool,
) -> (body: Json)
    ensures
        body@ == account_body(email@, password@, name@, cookie@, is_active),
{
    let mut members = no_members();
    push_text(&mut members, "email", email);
    push_text(&mut members, "password", password);
    push_text(&mut members, "name", name);
    push_text(&mut members, "cookie", cookie);
    push_bool(&mut members, "is_active", is_active);
    proof {
        assert(entry_models(members@) =~= account_body(
            email@,
            password@,
            name@,
            cookie@,
            is_active,
        )->Object_0);
    }
    object(members)
}

/// The body that describes a niche; the description is a member only where
/// one is given.
pub open spec fn niche_body(
    email: Seq<char>,
    password: Seq<char>,
    name: Seq<char>,
    description: Option<Seq<char>>,
) -> JsonModel {
    JsonModel::Object(
        with_optional_text(
        seq![
            ("email"@, JsonModel::Text(email)),
            ("password"@, JsonModel::Text(password)),
            ("name"@, JsonModel::Text(name)),
        ],
        "description"@,
        description,
    ),
    )
}

/// Builds the body that describes a niche.
pub fn build_niche_body(
    email: &str,
    password: &str,
    name: &str,
    description: &Option<String>,
) -> (body: Json)
    ensures
        body@ == niche_body(email@, password@, name@, description.deep_view()),
{
    let mut members = no_members();
    push_text(&mut members, "email", email);
    push_text(&mut members, "password", password);
    push_text(&mut members, "name", name);
    push_optional_text(&mut members, "description", description);
    proof {
        assert(entry_models(members@) =~= niche_body(
            email@,
            password@,
            name@,
            description.deep_view(),
        )->Object_0);
    }
    object(members)
}

/// The body that describes a product set; description and niche are members
/// only where they are given.
pub open spec fn product_set_body(
    email: Seq<char>,
    password: Seq<char>,
    name: Seq<char>,
    description: Option<Seq<char>>,
    niche_id: Option<i32>,
) -> JsonModel {
    JsonModel::Object(
        with_optional_i32(
        with_optional_text(
        seq![
            ("email"@, JsonModel::Text(email)),
            ("password"@, JsonModel::Text(password)),
            ("name"@, JsonModel::Text(name)),
        ],
        "description"@,
        description,
    ),
        "niche_id"@,
        niche_id,
    ),
    )
}

/// Builds the body that describes a product set.
pub fn build_product_set_body(
    email: &str,
    password: &str,
    name: &str,
    description: &Option<String>,
    niche_id: Option<i32>,
) -> (body: Json)
    ensures
        body@ == product_set_body(email@, password@, name@, description.deep_view(), niche_id),
{
    let mut members = no_members();
    push_text(&mut members, "email", email);
    push_text(&mut members, "password", password);
    push_text(&mut members, "name", name);
    push_optional_text(&mut members, "description", description);
    push_optional_i32(&mut members, "niche_id", niche_id);
    proof {
        assert(entry_models(members@) =~= product_set_body(
            email@,
            password@,
            name@,
            description.deep_view(),
            niche_id,
        )->Object_0);
    }
    object(members)
}

/// The body that adds products.
pub open spec fn items_body(
    email: Seq<char>,
    password: Seq<char>,
    items: Seq<JsonModel>,
) -> JsonModel {
    JsonModel::Object(
        seq![
            ("email"@, JsonModel::Text(email)),
            ("password"@, JsonModel::Text(password)),
            ("items"@, JsonModel::Array(items)),
        ],
    )
}

/// Builds the body that adds products.
pub fn build_items_body(email: &str, password: &str, items: Vec<Json>) -> (body: Json)
    ensures
        body@ == items_body(email@, password@, models(items@)),
{
    let mut members = no_members();
    push_text(&mut members, "email", email);
    push_text(&mut members, "password", password);
    proof {
        lemma_array_view(items);
    }
    push_member(&mut members, "items", Json::Array(items));
    proof {
        assert(entry_models(members@) =~= items_body(email@, password@, models(items@))->Object_0);
    }
    object(members)
}

/// The body that names a seller account.
pub open spec fn session_body(
    email: Seq<char>,
    password: Seq<char>,
    shopee_account_id: i32,
) -> JsonModel {
    JsonModel::Object(
        seq![
            ("email"@, JsonModel::Text(email)),
            ("password"@, JsonModel::Text(password)),
            ("shopee_account_id"@, JsonModel::Number(decimal(shopee_account_id as int))),
        ],
    )
}

/// Builds the body that names a seller account.
pub fn build_session_body(email: &str, password: &str, shopee_account_id: i32) -> (body: Json)
    ensures
        body@ == session_body(email@, password@, shopee_account_id),
{
    let mut members = no_members();
    push_text(&mut members, "email", email);
    push_text(&mut members, "password", password);
    push_i32(&mut members, "shopee_account_id", shopee_account_id);
    proof {
        assert(entry_models(members@) =~= session_body(
            email@,
            password@,
            shopee_account_id,
        )->Object_0);
    }
    object(members)
}

/// The body that replaces the products of a live session.
pub open spec fn replacement_body(
    email: Seq<char>,
    password: Seq<char>,
    shopee_account_id: i32,
    session_id: Seq<char>,
    product_set_id: i32,
) -> JsonModel {
    JsonModel::Object(
        seq![
            ("email"@, JsonModel::Text(email)),
            ("password"@, JsonModel::Text(password)),
            ("shopee_account_id"@, JsonModel::Number(decimal(shopee_account_id as int))),
            ("session_id"@, JsonModel::Text(session_id)),
            ("product_set_id"@, JsonModel::Number(decimal(product_set_id as int))),
        ],
    )
}

/// Builds the body that replaces the products of a live session.
pub fn build_replacement_body(
    email: &str,
    password: &str,
    shopee_account_id: i32,
    session_id: &str,
    product_set_id: i32,
) -> (body: Json)
    ensures
        body@ == replacement_body(
            email@,
            password@,
            shopee_account_id,
            session_id@,
            product_set_id,
        ),
{
    let mut members = no_members();
    push_text(&mut members, "email", email);
    push_text(&mut members, "password", password);
    push_i32(&mut members, "shopee_account_id", shopee_account_id);
    push_text(&mut members, "session_id", session_id);
    push_i32(&mut members, "product_set_id", product_set_id);
    proof {
        assert(entry_models(members@) =~= replacement_body(
            email@,
            password@,
            shopee_account_id,
            session_id@,
            product_set_id,
        )->Object_0);
    }
    object(members)
}

/// The body that clears the products of a live session.
pub open spec fn clearance_body(
    email: Seq<char>,
    password: Seq<char>,
    shopee_account_id: i32,
    session_id: Seq<char>,
) -> JsonModel {
    JsonModel::Object(
        seq![
            ("email"@, JsonModel::Text(email)),
            ("password"@, JsonModel::Text(password)),
            ("shopee_account_id"@, JsonModel::Number(decimal(shopee_account_id as int))),
            ("session_id"@, JsonModel::Text(session_id)),
        ],
    )
}

/// Builds the body that clears the products of a live session.
pub fn build_clearance_body(
    email: &str,
    password: &str,
    shopee_account_id: i32,
    session_id: &str,
) -> (body: Json)
    ensures
        body@ == clearance_body(email@, password@, shopee_account_id, session_id@),
{
    let mut members = no_members();
    push_text(&mut members, "email", email);
    push_text(&mut members, "password", password);
    push_i32(&mut members, "shopee_account_id", shopee_account_id);
    push_text(&mut members, "session_id", session_id);
    proof {
        assert(entry_models(members@) =~= clearance_body(
            email@,
            password@,
            shopee_account_id,
            session_id@,
        )->Object_0);
    }
    object(members)
}

/// Builds the request that asks for the machine identifier on record for a
/// member.
pub fn get_user_machine_id_request(config: &Config, email: &str) -> (request: HttpRequest)
    ensures
        request@ == api_request(
            config@.base_url,
            Method::Get,
            machine_id_path(email@, config@.app_identifier),
            None,
            None,
        ),
{
    let path = build_machine_id_path(email, config.app_identifier.as_str());
    build_api_request(config, Method::Get, path.as_str(), None, None)
}

/// What a parsed response to the call that asks for the machine identifier on
/// record for a member gives. The response is flat: the record stands beside
/// the success flag, which is part of it.
pub open spec fn get_user_machine_id_outcome(response: JsonModel, body: Seq<char>) -> Result<
    MachineIdResponseModel,
    FailureModel,
> {
    match backend_value(
        response,
        body,
        ExtractionModel::Flattened,
        "Failed to get machine ID from server"@,
    ) {
        Err(failure) => Err(failure),
        Ok(_) => match machine_id_response_of(response) {
            Ok(record) => Ok(record),
            Err(problem) => Err(
                FailureModel::Decode {
                    context: DecodeContextModel::Response,
                    diagnostic: described(problem),
                    body,
                },
            ),
        },
    }
}

/// Reads a parsed response to the call that asks for the machine identifier
/// on record for a member. `body` is the raw text that the document was
/// parsed from.
pub fn get_user_machine_id_decoded(
    response: &Json,
    body: &str,
) -> (outcome: Result<MachineIdResponse, Failure>)
    ensures
        outcome_view(outcome) == get_user_machine_id_outcome(response@, body@),
{
    match read_envelope(
        response,
        body,
        &Extraction::Flattened,
        "Failed to get machine ID from server",
    ) {
        Err(failure) => Err(failure),
        Ok(_) => match MachineIdResponse::from_json(response) {
            Ok(record) => Ok(record),
            Err(problem) => Err(
                Failure::Decode {
                    context: DecodeContext::Response,
                    diagnostic: problem.describe(),
                    body: owned(body),
                },
            ),
        },
    }
}

/// Reads the response to the call that asks for the machine identifier on
/// record for a member.
pub fn get_user_machine_id(response: &HttpResponse) -> (outcome: Result<MachineIdResponse, Failure>)
    ensures
        outcome_view(outcome) == match received(response@) {
            Ok(json) => get_user_machine_id_outcome(json, response.body@),
            Err(failure) => Err(failure),
        },
{
    match classify_response(response, DecodeContext::Response) {
        Ok(json) => get_user_machine_id_decoded(&json, response.body.as_str()),
        Err(failure) => Err(failure),
    }
}

/// Builds the request that signs a member in.
pub fn login_request(
    config: &Config,
    email: &str,
    password: &str,
    machine_id: &str,
) -> (request: HttpRequest)
    ensures
        request@ == api_request(
            config@.base_url,
            Method::Post,
            "/api/members/login"@,
            Some(sign_in_body(email@, password@, machine_id@, config@.app_identifier)),
            None,
        ),
{
    let body = build_sign_in_body(email, password, machine_id, config.app_identifier.as_str());
    build_api_request(config, Method::Post, "/api/members/login", Some(body), None)
}

/// What a parsed response to the call that signs a member in gives.
pub open spec fn login_outcome(response: JsonModel, body: Seq<char>) -> Result<
    LoginResponseModel,
    FailureModel,
> {
    match backend_value(response, body, ExtractionModel::Flattened, "Login failed"@) {
        Err(failure) => Err(failure),
        Ok(value) => present(
            match value {
                Some(found) => Some(login_response_of(found)),
                None => None,
            },
            "No user data in response"@,
        ),
    }
}

/// Reads a parsed response to the call that signs a member in. `body` is the
/// raw text that the document was parsed from.
pub fn login_decoded(response: &Json, body: &str) -> (outcome: Result<LoginResponse, Failure>)
    ensures
        outcome_view(outcome) == login_outcome(response@, body@),
{
    match read_envelope(response, body, &Extraction::Flattened, "Login failed") {
        Err(failure) => Err(failure),
        Ok(value) => require_present(
            match &value {
                Some(found) => Some(LoginResponse::from_json(found)),
                None => None,
            },
            "No user data in response",
        ),
    }
}

/// Reads the response to the call that signs a member in.
pub fn login(response: &HttpResponse) -> (outcome: Result<LoginResponse, Failure>)
    ensures
        outcome_view(outcome) == match received(response@) {
            Ok(json) => login_outcome(json, response.body@),
            Err(failure) => Err(failure),
        },
{
    match classify_response(response, DecodeContext::Response) {
        Ok(json) => login_decoded(&json, response.body.as_str()),
        Err(failure) => Err(failure),
    }
}

/// Builds the request that redeems a license key.
pub fn redeem_license_request(
    config: &Config,
    email: &str,
    license_key: &str,
) -> (request: HttpRequest)
    ensures
        request@ == api_request(
            config@.base_url,
            Method::Post,
            "/api/members/redeem-license"@,
            Some(redeem_body(email@, license_key@)),
            None,
        ),
{
    let body = build_redeem_body(email, license_key);
    build_api_request(config, Method::Post, "/api/members/redeem-license", Some(body), None)
}

/// What a parsed response to the call that redeems a license key gives.
pub open spec fn redeem_license_outcome(response: JsonModel, body: Seq<char>) -> Result<
    RedeemLicenseResponseModel,
    FailureModel,
> {
    match backend_value(response, body, ExtractionModel::Flattened, "Redeem failed"@) {
        Err(failure) => Err(failure),
        Ok(value) => present(
            match value {
                Some(found) => Some(redeemed_license_of(found)),
                None => None,
            },
            "No data in response"@,
        ),
    }
}

/// Reads a parsed response to the call that redeems a license key. `body` is
/// the raw text that the document was parsed from.
pub fn redeem_license_decoded(
    response: &Json,
    body: &str,
) -> (outcome: Result<RedeemLicenseResponse, Failure>)
    ensures
        outcome_view(outcome) == redeem_license_outcome(response@, body@),
{
    match read_envelope(response, body, &Extraction::Flattened, "Redeem failed") {
        Err(failure) => Err(failure),
        Ok(value) => require_present(
            match &value {
                Some(found) => Some(RedeemLicenseResponse::from_json(found)),
                None => None,
            },
            "No data in response",
        ),
    }
}

/// Reads the response to the call that redeems a license key.
pub fn redeem_license(response: &HttpResponse) -> (outcome: Result<RedeemLicenseResponse, Failure>)
    ensures
        outcome_view(outcome) == match received(response@) {
            Ok(json) => redeem_license_outcome(json, response.body@),
            Err(failure) => Err(failure),
        },
{
    match classify_response(response, DecodeContext::Response) {
        Ok(json) => redeem_license_decoded(&json, response.body.as_str()),
        Err(failure) => Err(failure),
    }
}

/// Builds the request that records a new machine identifier.
pub fn update_machine_id_request(
    config: &Config,
    email: &str,
    machine_id: &str,
    password: &Option<String>,
) -> (request: HttpRequest)
    ensures
        request@ == api_request(
            config@.base_url,
            Method::Post,
            "/api/members/machine-id"@,
            Some(machine_update_body(
                email@,
                machine_id@,
                config@.app_identifier,
                password.deep_view()),
            ),
            None,
        ),
{
    let body = build_machine_update_body(
        email,
        machine_id,
        config.app_identifier.as_str(),
        password,
    );
    build_api_request(config, Method::Post, "/api/members/machine-id", Some(body), None)
}

/// Reads the response to the call that records a new machine identifier.
pub fn update_machine_id(response: &HttpResponse) -> (outcome: Result<(), Failure>)
    ensures
        outcome_view(outcome) == match received(response@) {
            Ok(json) => acknowledged(json, response.body@, "Failed to update machine ID"@),
            Err(failure) => Err(failure),
        },
{
    match classify_response(response, DecodeContext::Response) {
        Ok(json) => read_acknowledgement(
            &json,
            response.body.as_str(),
            "Failed to update machine ID",
        ),
        Err(failure) => Err(failure),
    }
}

/// Builds the request that sets a new password.
pub fn change_password_request(
    config: &Config,
    email: &str,
    new_password: &str,
    machine_id: &str,
) -> (request: HttpRequest)
    ensures
        request@ == api_request(
            config@.base_url,
            Method::Post,
            "/api/members/change-password"@,
            Some(password_change_body(email@, new_password@, machine_id@)),
            None,
        ),
{
    let body = build_password_change_body(email, new_password, machine_id);
    build_api_request(config, Method::Post, "/api/members/change-password", Some(body), None)
}

/// Reads the response to the call that sets a new password.
pub fn change_password(response: &HttpResponse) -> (outcome: Result<(), Failure>)
    ensures
        outcome_view(outcome) == match received(response@) {
            Ok(json) => acknowledged(json, response.body@, "Change password failed"@),
            Err(failure) => Err(failure),
        },
{
    match classify_response(response, DecodeContext::Response) {
        Ok(json) => read_acknowledgement(&json, response.body.as_str(), "Change password failed"),
        Err(failure) => Err(failure),
    }
}

/// Builds the request that lists the seller accounts of a member; the
/// credentials go into the query.
pub fn get_shopee_accounts_request(
    config: &Config,
    email: &str,
    password: &str,
) -> (request: HttpRequest)
    ensures
        request@ == api_request(
            config@.base_url,
            Method::Get,
            "/api/members/shopee-accounts"@,
            None,
            Some(credentials_query(email@, password@)),
        ),
{
    let query = build_credentials_query(email, password);
    build_api_request(
        config,
        Method::Get,
        "/api/members/shopee-accounts",
        None,
        Some(query.as_str()),
    )
}

/// What a parsed response to the call that lists the seller accounts of a
/// member gives.
pub open spec fn get_shopee_accounts_outcome(response: JsonModel, body: Seq<char>) -> Result<
    ShopeeAccountsResponseModel,
    FailureModel,
> {
    match backend_value(response, body, ExtractionModel::Flattened, "Failed to get accounts"@) {
        Err(failure) => Err(failure),
        Ok(value) => present(
            match value {
                Some(found) => Some(shopee_accounts_response_of(found)),
                None => None,
            },
            "No data in response"@,
        ),
    }
}

/// Reads a parsed response to the call that lists the seller accounts of a
/// member. `body` is the raw text that the document was parsed from.
pub fn get_shopee_accounts_decoded(
    response: &Json,
    body: &str,
) -> (outcome: Result<ShopeeAccountsResponse, Failure>)
    ensures
        outcome_view(outcome) == get_shopee_accounts_outcome(response@, body@),
{
    match read_envelope(response, body, &Extraction::Flattened, "Failed to get accounts") {
        Err(failure) => Err(failure),
        Ok(value) => require_present(
            match &value {
                Some(found) => Some(ShopeeAccountsResponse::from_json(found)),
                None => None,
            },
            "No data in response",
        ),
    }
}

/// Reads the response to the call that lists the seller accounts of a member.
pub fn get_shopee_accounts(
    response: &HttpResponse,
) -> (outcome: Result<ShopeeAccountsResponse, Failure>)
    ensures
        outcome_view(outcome) == match received(response@) {
            Ok(json) => get_shopee_accounts_outcome(json, response.body@),
            Err(failure) => Err(failure),
        },
{
    match classify_response(response, DecodeContext::Response) {
        Ok(json) => get_shopee_accounts_decoded(&json, response.body.as_str()),
        Err(failure) => Err(failure),
    }
}

/// Builds the request that registers a seller account.
pub fn add_shopee_account_request(
    config: &Config,
    email: &str,
    password: &str,
    name: &str,
    cookie: &str,
    is_active: bool,
) -> (request: HttpRequest)
    ensures
        request@ == api_request(
            config@.base_url,
            Method::Post,
            "/api/members/shopee-accounts"@,
            Some(account_body(email@, password@, name@, cookie@, is_active)),
            None,
        ),
{
    let body = build_account_body(email, password, name, cookie, is_active);
    build_api_request(config, Method::Post, "/api/members/shopee-accounts", Some(body), None)
}

/// What a parsed response to the call that registers a seller account gives.
pub open spec fn add_shopee_account_outcome(response: JsonModel, body: Seq<char>) -> Result<
    ShopeeAccountModel,
    FailureModel,
> {
    match backend_value(
        response,
        body,
        ExtractionModel::Named { key: "shopee_account"@ },
        "Failed to add account"@,
    ) {
        Err(failure) => Err(failure),
        Ok(value) => nested(
            match value {
                Some(found) => Some(shopee_account_of(found)),
                None => None,
            },
            "shopee_account"@,
            "account"@,
            body,
        ),
    }
}

/// Reads a parsed response to the call that registers a seller account.
/// `body` is the raw text that the document was parsed from.
pub fn add_shopee_account_decoded(
    response: &Json,
    body: &str,
) -> (outcome: Result<ShopeeAccount, Failure>)
    ensures
        outcome_view(outcome) == add_shopee_account_outcome(response@, body@),
{
    let how = Extraction::Named { key: owned("shopee_account") };
    match read_envelope(response, body, &how, "Failed to add account") {
        Err(failure) => Err(failure),
        Ok(value) => require_nested(
            match &value {
                Some(found) => Some(ShopeeAccount::from_json(found)),
                None => None,
            },
            "shopee_account",
            "account",
            body,
        ),
    }
}

/// Reads the response to the call that registers a seller account.
pub fn add_shopee_account(response: &HttpResponse) -> (outcome: Result<ShopeeAccount, Failure>)
    ensures
        outcome_view(outcome) == match received(response@) {
            Ok(json) => add_shopee_account_outcome(json, response.body@),
            Err(failure) => Err(failure),
        },
{
    match classify_response(response, DecodeContext::Response) {
        Ok(json) => add_shopee_account_decoded(&json, response.body.as_str()),
        Err(failure) => Err(failure),
    }
}

/// Builds the request that changes a seller account.
pub fn update_shopee_account_request(
    config: &Config,
    email: &str,
    password: &str,
    account_id: i32,
    name: &str,
    cookie: &str,
    is_active: bool,
) -> (request: HttpRequest)
    ensures
        request@ == api_request(
            config@.base_url,
            Method::Put,
            numbered("/api/members/shopee-accounts/"@, account_id),
            Some(account_body(email@, password@, name@, cookie@, is_active)),
            None,
        ),
{
    let path = build_numbered("/api/members/shopee-accounts/", account_id);
    let body = build_account_body(email, password, name, cookie, is_active);
    build_api_request(config, Method::Put, path.as_str(), Some(body), None)
}

/// What a parsed response to the call that changes a seller account gives.
pub open spec fn update_shopee_account_outcome(response: JsonModel, body: Seq<char>) -> Result<
    ShopeeAccountModel,
    FailureModel,
> {
    match backend_value(
        response,
        body,
        ExtractionModel::Named { key: "shopee_account"@ },
        "Failed to update account"@,
    ) {
        Err(failure) => Err(failure),
        Ok(value) => nested(
            match value {
                Some(found) => Some(shopee_account_of(found)),
                None => None,
            },
            "shopee_account"@,
            "account"@,
            body,
        ),
    }
}

/// Reads a parsed response to the call that changes a seller account. `body`
/// is the raw text that the document was parsed from.
pub fn update_shopee_account_decoded(
    response: &Json,
    body: &str,
) -> (outcome: Result<ShopeeAccount, Failure>)
    ensures
        outcome_view(outcome) == update_shopee_account_outcome(response@, body@),
{
    let how = Extraction::Named { key: owned("shopee_account") };
    match read_envelope(response, body, &how, "Failed to update account") {
        Err(failure) => Err(failure),
        Ok(value) => require_nested(
            match &value {
                Some(found) => Some(ShopeeAccount::from_json(found)),
                None => None,
            },
            "shopee_account",
            "account",
            body,
        ),
    }
}

/// Reads the response to the call that changes a seller account.
pub fn update_shopee_account(response: &HttpResponse) -> (outcome: Result<ShopeeAccount, Failure>)
    ensures
        outcome_view(outcome) == match received(response@) {
            Ok(json) => update_shopee_account_outcome(json, response.body@),
            Err(failure) => Err(failure),
        },
{
    match classify_response(response, DecodeContext::Response) {
        Ok(json) => update_shopee_account_decoded(&json, response.body.as_str()),
        Err(failure) => Err(failure),
    }
}

/// Builds the request that removes a seller account.
pub fn delete_shopee_account_request(
    config: &Config,
    email: &str,
    password: &str,
    account_id: i32,
) -> (request: HttpRequest)
    ensures
        request@ == api_request(
            config@.base_url,
            Method::Delete,
            numbered("/api/members/shopee-accounts/"@, account_id),
            Some(credentials_body(email@, password@)),
            None,
        ),
{
    let path = build_numbered("/api/members/shopee-accounts/", account_id);
    let body = build_credentials_body(email, password);
    build_api_request(config, Method::Delete, path.as_str(), Some(body), None)
}

/// Reads the response to the call that removes a seller account.
pub fn delete_shopee_account(response: &HttpResponse) -> (outcome: Result<(), Failure>)
    ensures
        outcome_view(outcome) == match received(response@) {
            Ok(json) => acknowledged(json, response.body@, "Failed to delete account"@),
            Err(failure) => Err(failure),
        },
{
    match classify_response(response, DecodeContext::Response) {
        Ok(json) => read_acknowledgement(&json, response.body.as_str(), "Failed to delete account"),
        Err(failure) => Err(failure),
    }
}

/// Builds the request that lists the niches of a member.
pub fn get_niches_request(config: &Config, email: &str, password: &str) -> (request: HttpRequest)
    ensures
        request@ == api_request(
            config@.base_url,
            Method::Get,
            "/api/members/niches"@,
            Some(credentials_body(email@, password@)),
            None,
        ),
{
    let body = build_credentials_body(email, password);
    build_api_request(config, Method::Get, "/api/members/niches", Some(body), None)
}

/// What a parsed response to the call that lists the niches of a member
/// gives.
pub open spec fn get_niches_outcome(response: JsonModel, body: Seq<char>) -> Result<
    NichesResponseModel,
    FailureModel,
> {
    match backend_value(response, body, ExtractionModel::Flattened, "Failed to get niches"@) {
        Err(failure) => Err(failure),
        Ok(value) => present(
            match value {
                Some(found) => Some(niches_response_of(found)),
                None => None,
            },
            "No data in response"@,
        ),
    }
}

/// Reads a parsed response to the call that lists the niches of a member.
/// `body` is the raw text that the document was parsed from.
pub fn get_niches_decoded(response: &Json, body: &str) -> (outcome: Result<NichesResponse, Failure>)
    ensures
        outcome_view(outcome) == get_niches_outcome(response@, body@),
{
    match read_envelope(response, body, &Extraction::Flattened, "Failed to get niches") {
        Err(failure) => Err(failure),
        Ok(value) => require_present(
            match &value {
                Some(found) => Some(NichesResponse::from_json(found)),
                None => None,
            },
            "No data in response",
        ),
    }
}

/// Reads the response to the call that lists the niches of a member.
pub fn get_niches(response: &HttpResponse) -> (outcome: Result<NichesResponse, Failure>)
    ensures
        outcome_view(outcome) == match received(response@) {
            Ok(json) => get_niches_outcome(json, response.body@),
            Err(failure) => Err(failure),
        },
{
    match classify_response(response, DecodeContext::Response) {
        Ok(json) => get_niches_decoded(&json, response.body.as_str()),
        Err(failure) => Err(failure),
    }
}

/// Builds the request that creates a niche.
pub fn create_niche_request(
    config: &Config,
    email: &str,
    password: &str,
    name: &str,
    description: &Option<String>,
) -> (request: HttpRequest)
    ensures
        request@ == api_request(
            config@.base_url,
            Method::Post,
            "/api/members/niches"@,
            Some(niche_body(email@, password@, name@, description.deep_view())),
            None,
        ),
{
    let body = build_niche_body(email, password, name, description);
    build_api_request(config, Method::Post, "/api/members/niches", Some(body), None)
}

/// What a parsed response to the call that creates a niche gives.
pub open spec fn create_niche_outcome(response: JsonModel, body: Seq<char>) -> Result<
    NicheModel,
    FailureModel,
> {
    match backend_value(
        response,
        body,
        ExtractionModel::Named { key: "niche"@ },
        "Failed to create niche"@,
    ) {
        Err(failure) => Err(failure),
        Ok(value) => nested(
            match value {
                Some(found) => Some(niche_of(found)),
                None => None,
            },
            "niche"@,
            "niche"@,
            body,
        ),
    }
}

/// Reads a parsed response to the call that creates a niche. `body` is the
/// raw text that the document was parsed from.
pub fn create_niche_decoded(response: &Json, body: &str) -> (outcome: Result<Niche, Failure>)
    ensures
        outcome_view(outcome) == create_niche_outcome(response@, body@),
{
    let how = Extraction::Named { key: owned("niche") };
    match read_envelope(response, body, &how, "Failed to create niche") {
        Err(failure) => Err(failure),
        Ok(value) => require_nested(
            match &value {
                Some(found) => Some(Niche::from_json(found)),
                None => None,
            },
            "niche",
            "niche",
            body,
        ),
    }
}

/// Reads the response to the call that creates a niche.
pub fn create_niche(response: &HttpResponse) -> (outcome: Result<Niche, Failure>)
    ensures
        outcome_view(outcome) == match received(response@) {
            Ok(json) => create_niche_outcome(json, response.body@),
            Err(failure) => Err(failure),
        },
{
    match classify_response(response, DecodeContext::Response) {
        Ok(json) => create_niche_decoded(&json, response.body.as_str()),
        Err(failure) => Err(failure),
    }
}

/// Builds the request that changes a niche.
pub fn update_niche_request(
    config: &Config,
    email: &str,
    password: &str,
    niche_id: i32,
    name: &str,
    description: &Option<String>,
) -> (request: HttpRequest)
    ensures
        request@ == api_request(
            config@.base_url,
            Method::Put,
            numbered("/api/members/niches/"@, niche_id),
            Some(niche_body(email@, password@, name@, description.deep_view())),
            None,
        ),
{
    let path = build_numbered("/api/members/niches/", niche_id);
    let body = build_niche_body(email, password, name, description);
    build_api_request(config, Method::Put, path.as_str(), Some(body), None)
}

/// Reads the response to the call that changes a niche.
pub fn update_niche(response: &HttpResponse) -> (outcome: Result<(), Failure>)
    ensures
        outcome_view(outcome) == match received(response@) {
            Ok(json) => acknowledged(json, response.body@, "Failed to update niche"@),
            Err(failure) => Err(failure),
        },
{
    match classify_response(response, DecodeContext::Response) {
        Ok(json) => read_acknowledgement(&json, response.body.as_str(), "Failed to update niche"),
        Err(failure) => Err(failure),
    }
}

/// Builds the request that removes a niche.
pub fn delete_niche_request(
    config: &Config,
    email: &str,
    password: &str,
    niche_id: i32,
) -> (request: HttpRequest)
    ensures
        request@ == api_request(
            config@.base_url,
            Method::Delete,
            numbered("/api/members/niches/"@, niche_id),
            Some(credentials_body(email@, password@)),
            None,
        ),
{
    let path = build_numbered("/api/members/niches/", niche_id);
    let body = build_credentials_body(email, password);
    build_api_request(config, Method::Delete, path.as_str(), Some(body), None)
}

/// Reads the response to the call that removes a niche.
pub fn delete_niche(response: &HttpResponse) -> (outcome: Result<(), Failure>)
    ensures
        outcome_view(outcome) == match received(response@) {
            Ok(json) => acknowledged(json, response.body@, "Failed to delete niche"@),
            Err(failure) => Err(failure),
        },
{
    match classify_response(response, DecodeContext::Response) {
        Ok(json) => read_acknowledgement(&json, response.body.as_str(), "Failed to delete niche"),
        Err(failure) => Err(failure),
    }
}

/// Builds the request that lists the product sets of a member.
pub fn get_product_sets_request(
    config: &Config,
    email: &str,
    password: &str,
) -> (request: HttpRequest)
    ensures
        request@ == api_request(
            config@.base_url,
            Method::Get,
            "/api/members/product-sets"@,
            Some(credentials_body(email@, password@)),
            None,
        ),
{
    let body = build_credentials_body(email, password);
    build_api_request(config, Method::Get, "/api/members/product-sets", Some(body), None)
}

/// What a parsed response to the call that lists the product sets of a member
/// gives.
pub open spec fn get_product_sets_outcome(response: JsonModel, body: Seq<char>) -> Result<
    ProductSetsResponseModel,
    FailureModel,
> {
    match backend_value(response, body, ExtractionModel::Flattened, "Failed to get product sets"@) {
        Err(failure) => Err(failure),
        Ok(value) => present(
            match value {
                Some(found) => Some(product_sets_response_of(found)),
                None => None,
            },
            "No data in response"@,
        ),
    }
}

/// Reads a parsed response to the call that lists the product sets of a
/// member. `body` is the raw text that the document was parsed from.
pub fn get_product_sets_decoded(
    response: &Json,
    body: &str,
) -> (outcome: Result<ProductSetsResponse, Failure>)
    ensures
        outcome_view(outcome) == get_product_sets_outcome(response@, body@),
{
    match read_envelope(response, body, &Extraction::Flattened, "Failed to get product sets") {
        Err(failure) => Err(failure),
        Ok(value) => require_present(
            match &value {
                Some(found) => Some(ProductSetsResponse::from_json(found)),
                None => None,
            },
            "No data in response",
        ),
    }
}

/// Reads the response to the call that lists the product sets of a member.
pub fn get_product_sets(response: &HttpResponse) -> (outcome: Result<ProductSetsResponse, Failure>)
    ensures
        outcome_view(outcome) == match received(response@) {
            Ok(json) => get_product_sets_outcome(json, response.body@),
            Err(failure) => Err(failure),
        },
{
    match classify_response(response, DecodeContext::Response) {
        Ok(json) => get_product_sets_decoded(&json, response.body.as_str()),
        Err(failure) => Err(failure),
    }
}

/// Builds the request that creates a product set.
pub fn create_product_set_request(
    config: &Config,
    email: &str,
    password: &str,
    name: &str,
    description: &Option<String>,
    niche_id: Option<i32>,
) -> (request: HttpRequest)
    ensures
        request@ == api_request(
            config@.base_url,
            Method::Post,
            "/api/members/product-sets"@,
            Some(product_set_body(email@, password@, name@, description.deep_view(), niche_id)),
            None,
        ),
{
    let body = build_product_set_body(email, password, name, description, niche_id);
    build_api_request(config, Method::Post, "/api/members/product-sets", Some(body), None)
}

/// What a parsed response to the call that creates a product set gives.
pub open spec fn create_product_set_outcome(response: JsonModel, body: Seq<char>) -> Result<
    ProductSetModel,
    FailureModel,
> {
    match backend_value(
        response,
        body,
        ExtractionModel::Named { key: "product_set"@ },
        "Failed to create product set"@,
    ) {
        Err(failure) => Err(failure),
        Ok(value) => nested(
            match value {
                Some(found) => Some(product_set_of(found)),
                None => None,
            },
            "product_set"@,
            "product set"@,
            body,
        ),
    }
}

/// Reads a parsed response to the call that creates a product set. `body` is
/// the raw text that the document was parsed from.
pub fn create_product_set_decoded(
    response: &Json,
    body: &str,
) -> (outcome: Result<ProductSet, Failure>)
    ensures
        outcome_view(outcome) == create_product_set_outcome(response@, body@),
{
    let how = Extraction::Named { key: owned("product_set") };
    match read_envelope(response, body, &how, "Failed to create product set") {
        Err(failure) => Err(failure),
        Ok(value) => require_nested(
            match &value {
                Some(found) => Some(ProductSet::from_json(found)),
                None => None,
            },
            "product_set",
            "product set",
            body,
        ),
    }
}

/// Reads the response to the call that creates a product set.
pub fn create_product_set(response: &HttpResponse) -> (outcome: Result<ProductSet, Failure>)
    ensures
        outcome_view(outcome) == match received(response@) {
            Ok(json) => create_product_set_outcome(json, response.body@),
            Err(failure) => Err(failure),
        },
{
    match classify_response(response, DecodeContext::Response) {
        Ok(json) => create_product_set_decoded(&json, response.body.as_str()),
        Err(failure) => Err(failure),
    }
}

/// Builds the request that changes a product set.
pub fn update_product_set_request(
    config: &Config,
    email: &str,
    password: &str,
    product_set_id: i32,
    name: &str,
    description: &Option<String>,
    niche_id: Option<i32>,
) -> (request: HttpRequest)
    ensures
        request@ == api_request(
            config@.base_url,
            Method::Put,
            numbered("/api/members/product-sets/"@, product_set_id),
            Some(product_set_body(email@, password@, name@, description.deep_view(), niche_id)),
            None,
        ),
{
    let path = build_numbered("/api/members/product-sets/", product_set_id);
    let body = build_product_set_body(email, password, name, description, niche_id);
    build_api_request(config, Method::Put, path.as_str(), Some(body), None)
}

/// Reads the response to the call that changes a product set.
pub fn update_product_set(response: &HttpResponse) -> (outcome: Result<(), Failure>)
    ensures
        outcome_view(outcome) == match received(response@) {
            Ok(json) => acknowledged(json, response.body@, "Failed to update product set"@),
            Err(failure) => Err(failure),
        },
{
    match classify_response(response, DecodeContext::Response) {
        Ok(json) => read_acknowledgement(
            &json,
            response.body.as_str(),
            "Failed to update product set",
        ),
        Err(failure) => Err(failure),
    }
}

/// Builds the request that removes a product set.
pub fn delete_product_set_request(
    config: &Config,
    email: &str,
    password: &str,
    product_set_id: i32,
) -> (request: HttpRequest)
    ensures
        request@ == api_request(
            config@.base_url,
            Method::Delete,
            numbered("/api/members/product-sets/"@, product_set_id),
            Some(credentials_body(email@, password@)),
            None,
        ),
{
    let path = build_numbered("/api/members/product-sets/", product_set_id);
    let body = build_credentials_body(email, password);
    build_api_request(config, Method::Delete, path.as_str(), Some(body), None)
}

/// Reads the response to the call that removes a product set.
pub fn delete_product_set(response: &HttpResponse) -> (outcome: Result<(), Failure>)
    ensures
        outcome_view(outcome) == match received(response@) {
            Ok(json) => acknowledged(json, response.body@, "Failed to delete product set"@),
            Err(failure) => Err(failure),
        },
{
    match classify_response(response, DecodeContext::Response) {
        Ok(json) => read_acknowledgement(
            &json,
            response.body.as_str(),
            "Failed to delete product set",
        ),
        Err(failure) => Err(failure),
    }
}

/// Builds the request that adds products to a product set.
pub fn add_product_set_items_request(
    config: &Config,
    email: &str,
    password: &str,
    product_set_id: i32,
    items: Vec<Json>,
) -> (request: HttpRequest)
    ensures
        request@ == api_request(
            config@.base_url,
            Method::Post,
            items_path(product_set_id),
            Some(items_body(email@, password@, models(items@))),
            None,
        ),
{
    let path = build_items_path(product_set_id);
    let body = build_items_body(email, password, items);
    build_api_request(config, Method::Post, path.as_str(), Some(body), None)
}

/// Reads the response to the call that adds products to a product set.
pub fn add_product_set_items(response: &HttpResponse) -> (outcome: Result<Json, Failure>)
    ensures
        outcome_view(outcome) == match received(response@) {
            Ok(json) => free_form(json, response.body@, "Failed to add items"@),
            Err(failure) => Err(failure),
        },
{
    match classify_response(response, DecodeContext::Response) {
        Ok(json) => read_free_form(&json, response.body.as_str(), "Failed to add items"),
        Err(failure) => Err(failure),
    }
}

/// Builds the request that removes one product from a product set.
pub fn delete_product_set_item_request(
    config: &Config,
    email: &str,
    password: &str,
    product_set_id: i32,
    item_id: i32,
) -> (request: HttpRequest)
    ensures
        request@ == api_request(
            config@.base_url,
            Method::Delete,
            item_path(product_set_id, item_id),
            Some(credentials_body(email@, password@)),
            None,
        ),
{
    let path = build_item_path(product_set_id, item_id);
    let body = build_credentials_body(email, password);
    build_api_request(config, Method::Delete, path.as_str(), Some(body), None)
}

/// Reads the response to the call that removes one product from a product
/// set.
pub fn delete_product_set_item(response: &HttpResponse) -> (outcome: Result<(), Failure>)
    ensures
        outcome_view(outcome) == match received(response@) {
            Ok(json) => acknowledged(json, response.body@, "Failed to delete item"@),
            Err(failure) => Err(failure),
        },
{
    match classify_response(response, DecodeContext::Response) {
        Ok(json) => read_acknowledgement(&json, response.body.as_str(), "Failed to delete item"),
        Err(failure) => Err(failure),
    }
}

/// Builds the request that removes all products from a product set.
pub fn clear_product_set_items_request(
    config: &Config,
    email: &str,
    password: &str,
    product_set_id: i32,
) -> (request: HttpRequest)
    ensures
        request@ == api_request(
            config@.base_url,
            Method::Delete,
            items_path(product_set_id),
            Some(credentials_body(email@, password@)),
            None,
        ),
{
    let path = build_items_path(product_set_id);
    let body = build_credentials_body(email, password);
    build_api_request(config, Method::Delete, path.as_str(), Some(body), None)
}

/// Reads the response to the call that removes all products from a product
/// set.
pub fn clear_product_set_items(response: &HttpResponse) -> (outcome: Result<(), Failure>)
    ensures
        outcome_view(outcome) == match received(response@) {
            Ok(json) => acknowledged(json, response.body@, "Failed to clear items"@),
            Err(failure) => Err(failure),
        },
{
    match classify_response(response, DecodeContext::Response) {
        Ok(json) => read_acknowledgement(&json, response.body.as_str(), "Failed to clear items"),
        Err(failure) => Err(failure),
    }
}

/// Builds the request that asks for the live session of a seller account.
pub fn get_session_ids_request(
    config: &Config,
    email: &str,
    password: &str,
    shopee_account_id: i32,
) -> (request: HttpRequest)
    ensures
        request@ == api_request(
            config@.base_url,
            Method::Post,
            "/api/shopee-live/active-session"@,
            Some(session_body(email@, password@, shopee_account_id)),
            None,
        ),
{
    let body = build_session_body(email, password, shopee_account_id);
    build_api_request(config, Method::Post, "/api/shopee-live/active-session", Some(body), None)
}

/// What a parsed response to the call that asks for the live session of a
/// seller account gives: the identifier of the session as a list of one, or
/// the empty list where there is none.
pub open spec fn get_session_ids_outcome(response: JsonModel, body: Seq<char>) -> Result<
    SessionIdsResponseModel,
    FailureModel,
> {
    match backend_value(
        response,
        body,
        ExtractionModel::Flattened,
        "Failed to get active session"@,
    ) {
        Err(failure) => Err(failure),
        Ok(_) => match flexible_identifier(response.field("session_id"@), "session_id"@) {
            Ok(Some(identifier)) => Ok(SessionIdsResponseModel { session_ids: seq![identifier] }),
            Ok(None) => Ok(SessionIdsResponseModel { session_ids: Seq::empty() }),
            Err(problem) => Err(
                FailureModel::Decode {
                    context: DecodeContextModel::Response,
                    diagnostic: described(problem),
                    body,
                },
            ),
        },
    }
}

/// Reads a parsed response to the call that asks for the live session of a
/// seller account. `body` is the raw text that the document was parsed from.
pub fn get_session_ids_decoded(
    response: &Json,
    body: &str,
) -> (outcome: Result<SessionIdsResponse, Failure>)
    ensures
        outcome_view(outcome) == get_session_ids_outcome(response@, body@),
{
    match read_envelope(response, body, &Extraction::Flattened, "Failed to get active session") {
        Err(failure) => Err(failure),
        Ok(_) => match FlexibleIdentifier::decode(response.get("session_id"), "session_id") {
            Ok(identifier) => Ok(SessionIdsResponse { session_ids: identifier.into_list() }),
            Err(problem) => Err(
                Failure::Decode {
                    context: DecodeContext::Response,
                    diagnostic: problem.describe(),
                    body: owned(body),
                },
            ),
        },
    }
}

/// Reads the response to the call that asks for the live session of a seller
/// account.
pub fn get_session_ids(response: &HttpResponse) -> (outcome: Result<SessionIdsResponse, Failure>)
    ensures
        outcome_view(outcome) == match received(response@) {
            Ok(json) => get_session_ids_outcome(json, response.body@),
            Err(failure) => Err(failure),
        },
{
    match classify_response(response, DecodeContext::Response) {
        Ok(json) => get_session_ids_decoded(&json, response.body.as_str()),
        Err(failure) => Err(failure),
    }
}

/// Builds the request that replaces the products of a live session by those
/// of a product set.
pub fn replace_products_request(
    config: &Config,
    email: &str,
    password: &str,
    shopee_account_id: i32,
    session_id: &str,
    product_set_id: i32,
) -> (request: HttpRequest)
    ensures
        request@ == api_request(
            config@.base_url,
            Method::Post,
            "/api/shopee-live/replace-products"@,
            Some(replacement_body(
                email@,
                password@,
                shopee_account_id,
                session_id@,
                product_set_id),
            ),
            None,
        ),
{
    let body = build_replacement_body(
        email,
        password,
        shopee_account_id,
        session_id,
        product_set_id,
    );
    build_api_request(config, Method::Post, "/api/shopee-live/replace-products", Some(body), None)
}

/// Reads the response to the call that replaces the products of a live
/// session by those of a product set.
pub fn replace_products(response: &HttpResponse) -> (outcome: Result<Json, Failure>)
    ensures
        outcome_view(outcome) == match received(response@) {
            Ok(json) => free_form(json, response.body@, "Failed to replace products"@),
            Err(failure) => Err(failure),
        },
{
    match classify_response(response, DecodeContext::Response) {
        Ok(json) => read_free_form(&json, response.body.as_str(), "Failed to replace products"),
        Err(failure) => Err(failure),
    }
}

/// Builds the request that removes the products of a live session.
pub fn clear_products_request(
    config: &Config,
    email: &str,
    password: &str,
    shopee_account_id: i32,
    session_id: &str,
) -> (request: HttpRequest)
    ensures
        request@ == api_request(
            config@.base_url,
            Method::Post,
            "/api/shopee-live/clear-products"@,
            Some(clearance_body(email@, password@, shopee_account_id, session_id@)),
            None,
        ),
{
    let body = build_clearance_body(email, password, shopee_account_id, session_id);
    build_api_request(config, Method::Post, "/api/shopee-live/clear-products", Some(body), None)
}

/// Reads the response to the call that removes the products of a live
/// session.
pub fn clear_products(response: &HttpResponse) -> (outcome: Result<(), Failure>)
    ensures
        outcome_view(outcome) == match received(response@) {
            Ok(json) => acknowledged(json, response.body@, "Failed to clear products"@),
            Err(failure) => Err(failure),
        },
{
    match classify_response(response, DecodeContext::Response) {
        Ok(json) => read_acknowledgement(&json, response.body.as_str(), "Failed to clear products"),
        Err(failure) => Err(failure),
    }
}

/// The failure by which the backend refuses a call, with its message.
pub open spec fn refused<T>(message: Seq<char>) -> Result<T, FailureModel> {
    Err(FailureModel::UpstreamError { code: None, message })
}

/// A response object whose `success` is false and whose `message` is a string
/// makes every call of the backend fail with exactly that message: the calls
/// without a value and those with a free-form value whatever their default
/// message, and each call with a value of its own.
pub proof fn law_failure_message_of_every_call(
    response: JsonModel,
    message: Seq<char>,
    body: Seq<char>,
)
    requires
        response is Object,
        response.field("success"@) == Some(JsonModel::Bool(false)),
        response.field("message"@) == Some(JsonModel::Text(message)),
    ensures
        forall|default_message: Seq<char>|
            #[trigger] acknowledged(response, body, default_message) == refused::<()>(message),
        forall|default_message: Seq<char>|
            #[trigger] free_form(response, body, default_message) == refused::<JsonModel>(
                message,
            ),
        get_user_machine_id_outcome(response, body) == refused::<MachineIdResponseModel>(message),
        login_outcome(response, body) == refused::<LoginResponseModel>(message),
        redeem_license_outcome(response, body) == refused::<RedeemLicenseResponseModel>(message),
        get_shopee_accounts_outcome(response, body) == refused::<ShopeeAccountsResponseModel>(
            message,
        ),
        add_shopee_account_outcome(response, body) == refused::<ShopeeAccountModel>(message),
        update_shopee_account_outcome(response, body) == refused::<ShopeeAccountModel>(message),
        get_niches_outcome(response, body) == refused::<NichesResponseModel>(message),
        create_niche_outcome(response, body) == refused::<NicheModel>(message),
        get_product_sets_outcome(response, body) == refused::<ProductSetsResponseModel>(message),
        create_product_set_outcome(response, body) == refused::<ProductSetModel>(message),
        get_session_ids_outcome(response, body) == refused::<SessionIdsResponseModel>(message),
{
}

/// A successful response to the call that registers a seller account,
/// without the member `shopee_account`, is a decode failure that says so: no
/// value is made up.
pub proof fn law_add_shopee_account_needs_value(response: JsonModel, body: Seq<char>)
    requires
        response is Object,
        response.field("success"@) == Some(JsonModel::Bool(true)),
        optional_text_member(response, "message"@) is Ok,
        response.field("shopee_account"@) is None,
    ensures
        add_shopee_account_outcome(response, body) == Err::<ShopeeAccountModel, FailureModel>(
            FailureModel::Decode {
                context: DecodeContextModel::Payload { what: "account"@ },
                diagnostic: described(DecodeErrorModel::Missing { field: "shopee_account"@ }),
                body,
            },
        ),
{
}

/// A successful response to the call that changes a seller account, without
/// the member `shopee_account`, is a decode failure that says so: no value is
/// made up.
pub proof fn law_update_shopee_account_needs_value(response: JsonModel, body: Seq<char>)
    requires
        response is Object,
        response.field("success"@) == Some(JsonModel::Bool(true)),
        optional_text_member(response, "message"@) is Ok,
        response.field("shopee_account"@) is None,
    ensures
        update_shopee_account_outcome(response, body) == Err::<ShopeeAccountModel, FailureModel>(
            FailureModel::Decode {
                context: DecodeContextModel::Payload { what: "account"@ },
                diagnostic: described(DecodeErrorModel::Missing { field: "shopee_account"@ }),
                body,
            },
        ),
{
}

/// A successful response to the call that creates a niche, without the member
/// `niche`, is a decode failure that says so: no value is made up.
pub proof fn law_create_niche_needs_value(response: JsonModel, body: Seq<char>)
    requires
        response is Object,
        response.field("success"@) == Some(JsonModel::Bool(true)),
        optional_text_member(response, "message"@) is Ok,
        response.field("niche"@) is None,
    ensures
        create_niche_outcome(response, body) == Err::<NicheModel, FailureModel>(
            FailureModel::Decode {
                context: DecodeContextModel::Payload { what: "niche"@ },
                diagnostic: described(DecodeErrorModel::Missing { field: "niche"@ }),
                body,
            },
        ),
{
}

/// A successful response to the call that creates a product set, without the
/// member `product_set`, is a decode failure that says so: no value is made
/// up.
pub proof fn law_create_product_set_needs_value(response: JsonModel, body: Seq<char>)
    requires
        response is Object,
        response.field("success"@) == Some(JsonModel::Bool(true)),
        optional_text_member(response, "message"@) is Ok,
        response.field("product_set"@) is None,
    ensures
        create_product_set_outcome(response, body) == Err::<ProductSetModel, FailureModel>(
            FailureModel::Decode {
                context: DecodeContextModel::Payload { what: "product set"@ },
                diagnostic: described(DecodeErrorModel::Missing { field: "product_set"@ }),
                body,
            },
        ),
{
}

/// A successful response whose `session_id` is the whole number `n` gives one
/// session, named by the digits of `n` in base ten.
pub proof fn law_numeric_session(response: JsonModel, body: Seq<char>, n: int)
    requires
        response is Object,
        response.field("success"@) == Some(JsonModel::Bool(true)),
        optional_text_member(response, "message"@) is Ok,
        response.field("session_id"@) == Some(JsonModel::Number(decimal(n))),
    ensures
        get_session_ids_outcome(response, body) == Ok::<SessionIdsResponseModel, FailureModel>(
            SessionIdsResponseModel { session_ids: seq![decimal(n)] },
        ),
{
    lemma_decimal_round_trip(n);
}

} // verus!
