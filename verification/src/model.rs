use vstd::prelude::*;
use crate::decode::{
    array_member, array_member_or_empty, bool_member, decoded_view, each, i32_member,
    lemma_each_fails, optional_i32_member, optional_i64_member, optional_text_member, read_array,
    read_array_or_empty, read_bool, read_i32, read_optional_i32, read_optional_i64,
    read_optional_text, read_text, require_object, text_member, DecodeError, DecodeErrorModel,
};
use crate::json::{models, Json, JsonModel};
use crate::text::owned;

verus! {

/// A member of the service.
#[derive(Debug, Clone, PartialEq, Eq)]
pub struct User {
    pub id: i32,
    pub email: String,
    pub telegram_username: Option<String>,
    pub expiry_date: Option<String>,
    pub machine_id: String,
}

/// A `User` as mathematical data.
pub ghost struct UserModel {
    pub id: i32,
    pub email: Seq<char>,
    pub telegram_username: Option<Seq<char>>,
    pub expiry_date: Option<Seq<char>>,
    pub machine_id: Seq<char>,
}

impl DeepView for User {
    type V = UserModel;

    open spec fn deep_view(&self) -> UserModel {
        UserModel {
            id: self.id,
            email: self.email@,
            telegram_username: self.telegram_username.deep_view(),
            expiry_date: self.expiry_date.deep_view(),
            machine_id: self.machine_id@,
        }
    }
}

/// The user that a document denotes: the first member that is missing or
/// malformed, in the order of the fields, decides the error.
pub open spec fn user_of(json: JsonModel) -> Result<UserModel, DecodeErrorModel> {
    let id = i32_member(json, "id"@);
    let email = text_member(json, "email"@);
    let telegram_username = optional_text_member(json, "telegram_username"@);
    let expiry_date = optional_text_member(json, "expiry_date"@);
    let machine_id = text_member(json, "machine_id"@);
    if !(json is Object) {
        Err(DecodeErrorModel::NotAnObject)
    } else if id is Err {
        Err(id->Err_0)
    } else if email is Err {
        Err(email->Err_0)
    } else if telegram_username is Err {
        Err(telegram_username->Err_0)
    } else if expiry_date is Err {
        Err(expiry_date->Err_0)
    } else if machine_id is Err {
        Err(machine_id->Err_0)
    } else {
        Ok(
            UserModel {
                id: id->Ok_0,
                email: email->Ok_0,
                telegram_username: telegram_username->Ok_0,
                expiry_date: expiry_date->Ok_0,
                machine_id: machine_id->Ok_0,
            },
        )
    }
}

impl User {
    /// Decodes a user.
    pub fn from_json(json: &Json) -> (outcome: Result<User, DecodeError>)
        ensures
            decoded_view(outcome) == user_of(json@),
    {
        require_object(json)?;
        let id = read_i32(json, "id")?;
        let email = read_text(json, "email")?;
        let telegram_username = read_optional_text(json, "telegram_username")?;
        let expiry_date = read_optional_text(json, "expiry_date")?;
        let machine_id = read_text(json, "machine_id")?;
        Ok(User { id, email, telegram_username, expiry_date, machine_id })
    }
}

/// What redeeming a license key gave.
#[derive(Debug, Clone, PartialEq, Eq)]
pub struct RedeemLicenseResponse {
    pub expiry_date: Option<String>,
    pub days_added: Option<i32>,
    pub is_new_member: bool,
}

/// A `RedeemLicenseResponse` as mathematical data.
pub ghost struct RedeemLicenseResponseModel {
    pub expiry_date: Option<Seq<char>>,
    pub days_added: Option<i32>,
    pub is_new_member: bool,
}

impl DeepView for RedeemLicenseResponse {
    type V = RedeemLicenseResponseModel;

    open spec fn deep_view(&self) -> RedeemLicenseResponseModel {
        RedeemLicenseResponseModel {
            expiry_date: self.expiry_date.deep_view(),
            days_added: self.days_added,
            is_new_member: self.is_new_member,
        }
    }
}

/// The redeemed license that a document denotes: the first member that is
/// missing or malformed, in the order of the fields, decides the error.
pub open spec fn redeemed_license_of(
    json: JsonModel,
) -> Result<RedeemLicenseResponseModel, DecodeErrorModel> {
    let expiry_date = optional_text_member(json, "expiry_date"@);
    let days_added = optional_i32_member(json, "days_added"@);
    let is_new_member = bool_member(json, "is_new_member"@);
    if !(json is Object) {
        Err(DecodeErrorModel::NotAnObject)
    } else if expiry_date is Err {
        Err(expiry_date->Err_0)
    } else if days_added is Err {
        Err(days_added->Err_0)
    } else if is_new_member is Err {
        Err(is_new_member->Err_0)
    } else {
        Ok(
            RedeemLicenseResponseModel {
                expiry_date: expiry_date->Ok_0,
                days_added: days_added->Ok_0,
                is_new_member: is_new_member->Ok_0,
            },
        )
    }
}

impl RedeemLicenseResponse {
    /// Decodes a redeemed license.
    pub fn from_json(json: &Json) -> (outcome: Result<RedeemLicenseResponse, DecodeError>)
        ensures
            decoded_view(outcome) == redeemed_license_of(json@),
    {
        require_object(json)?;
        let expiry_date = read_optional_text(json, "expiry_date")?;
        let days_added = read_optional_i32(json, "days_added")?;
        let is_new_member = read_bool(json, "is_new_member")?;
        Ok(RedeemLicenseResponse { expiry_date, days_added, is_new_member })
    }
}

/// A seller account that a member has registered.
#[derive(Debug, Clone, PartialEq, Eq)]
pub struct ShopeeAccount {
    pub id: i32,
    pub name: String,
    pub is_active: bool,
    pub created_at: Option<String>,
}

/// A `ShopeeAccount` as mathematical data.
pub ghost struct ShopeeAccountModel {
    pub id: i32,
    pub name: Seq<char>,
    pub is_active: bool,
    pub created_at: Option<Seq<char>>,
}

impl DeepView for ShopeeAccount {
    type V = ShopeeAccountModel;

    open spec fn deep_view(&self) -> ShopeeAccountModel {
        ShopeeAccountModel {
            id: self.id,
            name: self.name@,
            is_active: self.is_active,
            created_at: self.created_at.deep_view(),
        }
    }
}

/// The shopee account that a document denotes: the first member that is
/// missing or malformed, in the order of the fields, decides the error.
pub open spec fn shopee_account_of(
    json: JsonModel,
) -> Result<ShopeeAccountModel, DecodeErrorModel> {
    let id = i32_member(json, "id"@);
    let name = text_member(json, "name"@);
    let is_active = bool_member(json, "is_active"@);
    let created_at = optional_text_member(json, "created_at"@);
    if !(json is Object) {
        Err(DecodeErrorModel::NotAnObject)
    } else if id is Err {
        Err(id->Err_0)
    } else if name is Err {
        Err(name->Err_0)
    } else if is_active is Err {
        Err(is_active->Err_0)
    } else if created_at is Err {
        Err(created_at->Err_0)
    } else {
        Ok(
            ShopeeAccountModel {
                id: id->Ok_0,
                name: name->Ok_0,
                is_active: is_active->Ok_0,
                created_at: created_at->Ok_0,
            },
        )
    }
}

impl ShopeeAccount {
    /// Decodes a shopee account.
    pub fn from_json(json: &Json) -> (outcome: Result<ShopeeAccount, DecodeError>)
        ensures
            decoded_view(outcome) == shopee_account_of(json@),
    {
        require_object(json)?;
        let id = read_i32(json, "id")?;
        let name = read_text(json, "name")?;
        let is_active = read_bool(json, "is_active")?;
        let created_at = read_optional_text(json, "created_at")?;
        Ok(ShopeeAccount { id, name, is_active, created_at })
    }

    /// Decodes a list, item by item.
    pub fn list_from_json(items: &Vec<Json>) -> (outcome: Result<Vec<ShopeeAccount>, DecodeError>)
        ensures
            decoded_view(outcome) == shopee_accounts_of(models(items@)),
    {
        let ghost all = models(items@);
        let mut out: Vec<ShopeeAccount> = Vec::new();
        let mut i: usize = 0;
        proof {
            assert(out.deep_view() =~= Seq::<ShopeeAccountModel>::empty());
        }
        while i < items.len()
            invariant
                i <= items.len(),
                all == models(items@),
                each(all.take(i as int), shopee_account_decoder()) == Ok::<
                    Seq<ShopeeAccountModel>,
                    DecodeErrorModel,
                >(out.deep_view()),
            decreases items.len() - i,
        {
            proof {
                assert(all.take(i + 1).drop_last() =~= all.take(i as int));
            }
            match ShopeeAccount::from_json(&items[i]) {
                Ok(value) => {
                    let ghost before = out.deep_view();
                    let ghost added = value.deep_view();
                    out.push(value);
                    proof {
                        assert(out.deep_view() =~= before.push(added));
                    }
                },
                Err(error) => {
                    proof {
                        lemma_each_fails(all, shopee_account_decoder(), i + 1);
                    }
                    return Err(error);
                },
            }
            i = i + 1;
        }
        proof {
            assert(all.take(items.len() as int) =~= all);
        }
        Ok(out)
    }
}

/// The decoder of one shopee account, as a function.
pub open spec fn shopee_account_decoder(
    ) -> spec_fn(JsonModel,
) -> Result<ShopeeAccountModel, DecodeErrorModel> {
    |json: JsonModel| shopee_account_of(json)
}

/// The shopee accounts that a list of documents denotes: every item decoded,
/// or the error of the first item that fails.
pub open spec fn shopee_accounts_of(
    items: Seq<JsonModel>,
) -> Result<Seq<ShopeeAccountModel>, DecodeErrorModel> {
    each(items, shopee_account_decoder())
}

/// The seller accounts of a member.
#[derive(Debug, Clone, PartialEq, Eq)]
pub struct ShopeeAccountsResponse {
    pub data: Vec<ShopeeAccount>,
}

/// A `ShopeeAccountsResponse` as mathematical data.
pub ghost struct ShopeeAccountsResponseModel {
    pub data: Seq<ShopeeAccountModel>,
}

impl DeepView for ShopeeAccountsResponse {
    type V = ShopeeAccountsResponseModel;

    open spec fn deep_view(&self) -> ShopeeAccountsResponseModel {
        ShopeeAccountsResponseModel {
            data: self.data.deep_view(),
        }
    }
}

/// The shopee accounts response that a document denotes: the first member
/// that is missing or malformed, in the order of the fields, decides the
/// error.
pub open spec fn shopee_accounts_response_of(
    json: JsonModel,
) -> Result<ShopeeAccountsResponseModel, DecodeErrorModel> {
    let data = match array_member(json, "data"@) {
        Err(error) => Err(error),
        Ok(list) => shopee_accounts_of(list),
    };
    if !(json is Object) {
        Err(DecodeErrorModel::NotAnObject)
    } else if data is Err {
        Err(data->Err_0)
    } else {
        Ok(
            ShopeeAccountsResponseModel {
                data: data->Ok_0,
            },
        )
    }
}

impl ShopeeAccountsResponse {
    /// Decodes a shopee accounts response.
    pub fn from_json(json: &Json) -> (outcome: Result<ShopeeAccountsResponse, DecodeError>)
        ensures
            decoded_view(outcome) == shopee_accounts_response_of(json@),
    {
        require_object(json)?;
        let data = ShopeeAccount::list_from_json(read_array(json, "data")?)?;
        Ok(ShopeeAccountsResponse { data })
    }
}

/// One product of a product set.
#[derive(Debug, Clone, PartialEq, Eq)]
pub struct ProductSetItem {
    pub id: i32,
    pub url: String,
    pub shop_id: Option<i64>,
    pub item_id: Option<i64>,
}

/// A `ProductSetItem` as mathematical data.
pub ghost struct ProductSetItemModel {
    pub id: i32,
    pub url: Seq<char>,
    pub shop_id: Option<i64>,
    pub item_id: Option<i64>,
}

impl DeepView for ProductSetItem {
    type V = ProductSetItemModel;

    open spec fn deep_view(&self) -> ProductSetItemModel {
        ProductSetItemModel {
            id: self.id,
            url: self.url@,
            shop_id: self.shop_id,
            item_id: self.item_id,
        }
    }
}

/// The product set item that a document denotes: the first member that is
/// missing or malformed, in the order of the fields, decides the error.
pub open spec fn product_set_item_of(
    json: JsonModel,
) -> Result<ProductSetItemModel, DecodeErrorModel> {
    let id = i32_member(json, "id"@);
    let url = text_member(json, "url"@);
    let shop_id = optional_i64_member(json, "shop_id"@);
    let item_id = optional_i64_member(json, "item_id"@);
    if !(json is Object) {
        Err(DecodeErrorModel::NotAnObject)
    } else if id is Err {
        Err(id->Err_0)
    } else if url is Err {
        Err(url->Err_0)
    } else if shop_id is Err {
        Err(shop_id->Err_0)
    } else if item_id is Err {
        Err(item_id->Err_0)
    } else {
        Ok(
            ProductSetItemModel {
                id: id->Ok_0,
                url: url->Ok_0,
                shop_id: shop_id->Ok_0,
                item_id: item_id->Ok_0,
            },
        )
    }
}

impl ProductSetItem {
    /// Decodes a product set item.
    pub fn from_json(json: &Json) -> (outcome: Result<ProductSetItem, DecodeError>)
        ensures
            decoded_view(outcome) == product_set_item_of(json@),
    {
        require_object(json)?;
        let id = read_i32(json, "id")?;
        let url = read_text(json, "url")?;
        let shop_id = read_optional_i64(json, "shop_id")?;
        let item_id = read_optional_i64(json, "item_id")?;
        Ok(ProductSetItem { id, url, shop_id, item_id })
    }

    /// Decodes a list, item by item.
    pub fn list_from_json(items: &Vec<Json>) -> (outcome: Result<Vec<ProductSetItem>, DecodeError>)
        ensures
            decoded_view(outcome) == product_set_items_of(models(items@)),
    {
        let ghost all = models(items@);
        let mut out: Vec<ProductSetItem> = Vec::new();
        let mut i: usize = 0;
        proof {
            assert(out.deep_view() =~= Seq::<ProductSetItemModel>::empty());
        }
        while i < items.len()
            invariant
                i <= items.len(),
                all == models(items@),
                each(all.take(i as int), product_set_item_decoder()) == Ok::<
                    Seq<ProductSetItemModel>,
                    DecodeErrorModel,
                >(out.deep_view()),
            decreases items.len() - i,
        {
            proof {
                assert(all.take(i + 1).drop_last() =~= all.take(i as int));
            }
            match ProductSetItem::from_json(&items[i]) {
                Ok(value) => {
                    let ghost before = out.deep_view();
                    let ghost added = value.deep_view();
                    out.push(value);
                    proof {
                        assert(out.deep_view() =~= before.push(added));
                    }
                },
                Err(error) => {
                    proof {
                        lemma_each_fails(all, product_set_item_decoder(), i + 1);
                    }
                    return Err(error);
                },
            }
            i = i + 1;
        }
        proof {
            assert(all.take(items.len() as int) =~= all);
        }
        Ok(out)
    }
}

/// The decoder of one product set item, as a function.
pub open spec fn product_set_item_decoder(
    ) -> spec_fn(JsonModel,
) -> Result<ProductSetItemModel, DecodeErrorModel> {
    |json: JsonModel| product_set_item_of(json)
}

/// The product set items that a list of documents denotes: every item
/// decoded, or the error of the first item that fails.
pub open spec fn product_set_items_of(
    items: Seq<JsonModel>,
) -> Result<Seq<ProductSetItemModel>, DecodeErrorModel> {
    each(items, product_set_item_decoder())
}

/// A named set of products; `items` is empty where the backend sends none.
#[derive(Debug, Clone, PartialEq, Eq)]
pub struct ProductSet {
    pub id: i32,
    pub name: String,
    pub description: Option<String>,
    pub niche_id: Option<i32>,
    pub items: Vec<ProductSetItem>,
}

/// A `ProductSet` as mathematical data.
pub ghost struct ProductSetModel {
    pub id: i32,
    pub name: Seq<char>,
    pub description: Option<Seq<char>>,
    pub niche_id: Option<i32>,
    pub items: Seq<ProductSetItemModel>,
}

impl DeepView for ProductSet {
    type V = ProductSetModel;

    open spec fn deep_view(&self) -> ProductSetModel {
        ProductSetModel {
            id: self.id,
            name: self.name@,
            description: self.description.deep_view(),
            niche_id: self.niche_id,
            items: self.items.deep_view(),
        }
    }
}

/// The product set that a document denotes: the first member that is missing
/// or malformed, in the order of the fields, decides the error.
pub open spec fn product_set_of(json: JsonModel) -> Result<ProductSetModel, DecodeErrorModel> {
    let id = i32_member(json, "id"@);
    let name = text_member(json, "name"@);
    let description = optional_text_member(json, "description"@);
    let niche_id = optional_i32_member(json, "niche_id"@);
    let items = match array_member_or_empty(json, "items"@) {
        Err(error) => Err(error),
        Ok(list) => product_set_items_of(list),
    };
    if !(json is Object) {
        Err(DecodeErrorModel::NotAnObject)
    } else if id is Err {
        Err(id->Err_0)
    } else if name is Err {
        Err(name->Err_0)
    } else if description is Err {
        Err(description->Err_0)
    } else if niche_id is Err {
        Err(niche_id->Err_0)
    } else if items is Err {
        Err(items->Err_0)
    } else {
        Ok(
            ProductSetModel {
                id: id->Ok_0,
                name: name->Ok_0,
                description: description->Ok_0,
                niche_id: niche_id->Ok_0,
                items: items->Ok_0,
            },
        )
    }
}

impl ProductSet {
    /// Decodes a product set.
    pub fn from_json(json: &Json) -> (outcome: Result<ProductSet, DecodeError>)
        ensures
            decoded_view(outcome) == product_set_of(json@),
    {
        require_object(json)?;
        let id = read_i32(json, "id")?;
        let name = read_text(json, "name")?;
        let description = read_optional_text(json, "description")?;
        let niche_id = read_optional_i32(json, "niche_id")?;
        let items = match read_array_or_empty(json, "items")? {
            Some(list) => ProductSetItem::list_from_json(list)?,
            None => {
                let none: Vec<ProductSetItem> = Vec::new();
                proof {
                    assert(none.deep_view() =~= Seq::<ProductSetItemModel>::empty());
                }
                none
            },
        };
        Ok(ProductSet { id, name, description, niche_id, items })
    }

    /// Decodes a list, item by item.
    pub fn list_from_json(items: &Vec<Json>) -> (outcome: Result<Vec<ProductSet>, DecodeError>)
        ensures
            decoded_view(outcome) == product_sets_of(models(items@)),
    {
        let ghost all = models(items@);
        let mut out: Vec<ProductSet> = Vec::new();
        let mut i: usize = 0;
        proof {
            assert(out.deep_view() =~= Seq::<ProductSetModel>::empty());
        }
        while i < items.len()
            invariant
                i <= items.len(),
                all == models(items@),
                each(all.take(i as int), product_set_decoder()) == Ok::<
                    Seq<ProductSetModel>,
                    DecodeErrorModel,
                >(out.deep_view()),
            decreases items.len() - i,
        {
            proof {
                assert(all.take(i + 1).drop_last() =~= all.take(i as int));
            }
            match ProductSet::from_json(&items[i]) {
                Ok(value) => {
                    let ghost before = out.deep_view();
                    let ghost added = value.deep_view();
                    out.push(value);
                    proof {
                        assert(out.deep_view() =~= before.push(added));
                    }
                },
                Err(error) => {
                    proof {
                        lemma_each_fails(all, product_set_decoder(), i + 1);
                    }
                    return Err(error);
                },
            }
            i = i + 1;
        }
        proof {
            assert(all.take(items.len() as int) =~= all);
        }
        Ok(out)
    }
}

/// The decoder of one product set, as a function.
pub open spec fn product_set_decoder(
    ) -> spec_fn(JsonModel,
) -> Result<ProductSetModel, DecodeErrorModel> {
    |json: JsonModel| product_set_of(json)
}

/// The product sets that a list of documents denotes: every item decoded, or
/// the error of the first item that fails.
pub open spec fn product_sets_of(
    items: Seq<JsonModel>,
) -> Result<Seq<ProductSetModel>, DecodeErrorModel> {
    each(items, product_set_decoder())
}

/// The product sets of a member.
#[derive(Debug, Clone, PartialEq, Eq)]
pub struct ProductSetsResponse {
    pub product_sets: Vec<ProductSet>,
}

/// A `ProductSetsResponse` as mathematical data.
pub ghost struct ProductSetsResponseModel {
    pub product_sets: Seq<ProductSetModel>,
}

impl DeepView for ProductSetsResponse {
    type V = ProductSetsResponseModel;

    open spec fn deep_view(&self) -> ProductSetsResponseModel {
        ProductSetsResponseModel {
            product_sets: self.product_sets.deep_view(),
        }
    }
}

/// The product sets response that a document denotes: the first member that
/// is missing or malformed, in the order of the fields, decides the error.
pub open spec fn product_sets_response_of(
    json: JsonModel,
) -> Result<ProductSetsResponseModel, DecodeErrorModel> {
    let product_sets = match array_member(json, "product_sets"@) {
        Err(error) => Err(error),
        Ok(list) => product_sets_of(list),
    };
    if !(json is Object) {
        Err(DecodeErrorModel::NotAnObject)
    } else if product_sets is Err {
        Err(product_sets->Err_0)
    } else {
        Ok(
            ProductSetsResponseModel {
                product_sets: product_sets->Ok_0,
            },
        )
    }
}

impl ProductSetsResponse {
    /// Decodes a product sets response.
    pub fn from_json(json: &Json) -> (outcome: Result<ProductSetsResponse, DecodeError>)
        ensures
            decoded_view(outcome) == product_sets_response_of(json@),
    {
        require_object(json)?;
        let product_sets = ProductSet::list_from_json(read_array(json, "product_sets")?)?;
        Ok(ProductSetsResponse { product_sets })
    }
}

/// A niche with its product sets; `product_sets` is empty where the backend
/// sends none.
#[derive(Debug, Clone, PartialEq, Eq)]
pub struct Niche {
    pub id: i32,
    pub name: String,
    pub description: Option<String>,
    pub product_sets: Vec<ProductSet>,
}

/// A `Niche` as mathematical data.
pub ghost struct NicheModel {
    pub id: i32,
    pub name: Seq<char>,
    pub description: Option<Seq<char>>,
    pub product_sets: Seq<ProductSetModel>,
}

impl DeepView for Niche {
    type V = NicheModel;

    open spec fn deep_view(&self) -> NicheModel {
        NicheModel {
            id: self.id,
            name: self.name@,
            description: self.description.deep_view(),
            product_sets: self.product_sets.deep_view(),
        }
    }
}

/// The niche that a document denotes: the first member that is missing or
/// malformed, in the order of the fields, decides the error.
pub open spec fn niche_of(json: JsonModel) -> Result<NicheModel, DecodeErrorModel> {
    let id = i32_member(json, "id"@);
    let name = text_member(json, "name"@);
    let description = optional_text_member(json, "description"@);
    let product_sets = match array_member_or_empty(json, "product_sets"@) {
        Err(error) => Err(error),
        Ok(list) => product_sets_of(list),
    };
    if !(json is Object) {
        Err(DecodeErrorModel::NotAnObject)
    } else if id is Err {
        Err(id->Err_0)
    } else if name is Err {
        Err(name->Err_0)
    } else if description is Err {
        Err(description->Err_0)
    } else if product_sets is Err {
        Err(product_sets->Err_0)
    } else {
        Ok(
            NicheModel {
                id: id->Ok_0,
                name: name->Ok_0,
                description: description->Ok_0,
                product_sets: product_sets->Ok_0,
            },
        )
    }
}

impl Niche {
    /// Decodes a niche.
    pub fn from_json(json: &Json) -> (outcome: Result<Niche, DecodeError>)
        ensures
            decoded_view(outcome) == niche_of(json@),
    {
        require_object(json)?;
        let id = read_i32(json, "id")?;
        let name = read_text(json, "name")?;
        let description = read_optional_text(json, "description")?;
        let product_sets = match read_array_or_empty(json, "product_sets")? {
            Some(list) => ProductSet::list_from_json(list)?,
            None => {
                let none: Vec<ProductSet> = Vec::new();
                proof {
                    assert(none.deep_view() =~= Seq::<ProductSetModel>::empty());
                }
                none
            },
        };
        Ok(Niche { id, name, description, product_sets })
    }

    /// Decodes a list, item by item.
    pub fn list_from_json(items: &Vec<Json>) -> (outcome: Result<Vec<Niche>, DecodeError>)
        ensures
            decoded_view(outcome) == niches_of(models(items@)),
    {
        let ghost all = models(items@);
        let mut out: Vec<Niche> = Vec::new();
        let mut i: usize = 0;
        proof {
            assert(out.deep_view() =~= Seq::<NicheModel>::empty());
        }
        while i < items.len()
            invariant
                i <= items.len(),
                all == models(items@),
                each(all.take(i as int), niche_decoder()) == Ok::<
                    Seq<NicheModel>,
                    DecodeErrorModel,
                >(out.deep_view()),
            decreases items.len() - i,
        {
            proof {
                assert(all.take(i + 1).drop_last() =~= all.take(i as int));
            }
            match Niche::from_json(&items[i]) {
                Ok(value) => {
                    let ghost before = out.deep_view();
                    let ghost added = value.deep_view();
                    out.push(value);
                    proof {
                        assert(out.deep_view() =~= before.push(added));
                    }
                },
                Err(error) => {
                    proof {
                        lemma_each_fails(all, niche_decoder(), i + 1);
                    }
                    return Err(error);
                },
            }
            i = i + 1;
        }
        proof {
            assert(all.take(items.len() as int) =~= all);
        }
        Ok(out)
    }
}

/// The decoder of one niche, as a function.
pub open spec fn niche_decoder() -> spec_fn(JsonModel) -> Result<NicheModel, DecodeErrorModel> {
    |json: JsonModel| niche_of(json)
}

/// The niches that a list of documents denotes: every item decoded, or the
/// error of the first item that fails.
pub open spec fn niches_of(items: Seq<JsonModel>) -> Result<Seq<NicheModel>, DecodeErrorModel> {
    each(items, niche_decoder())
}

/// The niches of a member.
#[derive(Debug, Clone, PartialEq, Eq)]
pub struct NichesResponse {
    pub niches: Vec<Niche>,
}

/// A `NichesResponse` as mathematical data.
pub ghost struct NichesResponseModel {
    pub niches: Seq<NicheModel>,
}

impl DeepView for NichesResponse {
    type V = NichesResponseModel;

    open spec fn deep_view(&self) -> NichesResponseModel {
        NichesResponseModel {
            niches: self.niches.deep_view(),
        }
    }
}

/// The niches response that a document denotes: the first member that is
/// missing or malformed, in the order of the fields, decides the error.
pub open spec fn niches_response_of(
    json: JsonModel,
) -> Result<NichesResponseModel, DecodeErrorModel> {
    let niches = match array_member(json, "niches"@) {
        Err(error) => Err(error),
        Ok(list) => niches_of(list),
    };
    if !(json is Object) {
        Err(DecodeErrorModel::NotAnObject)
    } else if niches is Err {
        Err(niches->Err_0)
    } else {
        Ok(
            NichesResponseModel {
                niches: niches->Ok_0,
            },
        )
    }
}

impl NichesResponse {
    /// Decodes a niches response.
    pub fn from_json(json: &Json) -> (outcome: Result<NichesResponse, DecodeError>)
        ensures
            decoded_view(outcome) == niches_response_of(json@),
    {
        require_object(json)?;
        let niches = Niche::list_from_json(read_array(json, "niches")?)?;
        Ok(NichesResponse { niches })
    }
}

/// The machine identifier that the backend has on record for a member.
#[derive(Debug, Clone, PartialEq, Eq)]
pub struct MachineIdResponse {
    pub success: bool,
    pub email: String,
    pub machine_id: String,
    pub app_identifier: Option<String>,
}

/// A `MachineIdResponse` as mathematical data.
pub ghost struct MachineIdResponseModel {
    pub success: bool,
    pub email: Seq<char>,
    pub machine_id: Seq<char>,
    pub app_identifier: Option<Seq<char>>,
}

impl DeepView for MachineIdResponse {
    type V = MachineIdResponseModel;

    open spec fn deep_view(&self) -> MachineIdResponseModel {
        MachineIdResponseModel {
            success: self.success,
            email: self.email@,
            machine_id: self.machine_id@,
            app_identifier: self.app_identifier.deep_view(),
        }
    }
}

/// The machine id response that a document denotes: the first member that is
/// missing or malformed, in the order of the fields, decides the error.
pub open spec fn machine_id_response_of(
    json: JsonModel,
) -> Result<MachineIdResponseModel, DecodeErrorModel> {
    let success = bool_member(json, "success"@);
    let email = text_member(json, "email"@);
    let machine_id = text_member(json, "machine_id"@);
    let app_identifier = optional_text_member(json, "app_identifier"@);
    if !(json is Object) {
        Err(DecodeErrorModel::NotAnObject)
    } else if success is Err {
        Err(success->Err_0)
    } else if email is Err {
        Err(email->Err_0)
    } else if machine_id is Err {
        Err(machine_id->Err_0)
    } else if app_identifier is Err {
        Err(app_identifier->Err_0)
    } else {
        Ok(
            MachineIdResponseModel {
                success: success->Ok_0,
                email: email->Ok_0,
                machine_id: machine_id->Ok_0,
                app_identifier: app_identifier->Ok_0,
            },
        )
    }
}

impl MachineIdResponse {
    /// Decodes a machine id response.
    pub fn from_json(json: &Json) -> (outcome: Result<MachineIdResponse, DecodeError>)
        ensures
            decoded_view(outcome) == machine_id_response_of(json@),
    {
        require_object(json)?;
        let success = read_bool(json, "success")?;
        let email = read_text(json, "email")?;
        let machine_id = read_text(json, "machine_id")?;
        let app_identifier = read_optional_text(json, "app_identifier")?;
        Ok(MachineIdResponse { success, email, machine_id, app_identifier })
    }
}

/// What a successful sign-in gives: the member.
#[derive(Debug, Clone, PartialEq, Eq)]
pub struct LoginResponse {
    pub user: User,
}

/// A `LoginResponse` as mathematical data.
pub ghost struct LoginResponseModel {
    pub user: UserModel,
}

impl DeepView for LoginResponse {
    type V = LoginResponseModel;

    open spec fn deep_view(&self) -> LoginResponseModel {
        LoginResponseModel { user: self.user.deep_view() }
    }
}

/// The sign-in that a document denotes: its member `user`, decoded.
pub open spec fn login_response_of(
    json: JsonModel,
) -> Result<LoginResponseModel, DecodeErrorModel> {
    if !(json is Object) {
        Err(DecodeErrorModel::NotAnObject)
    } else {
        match json.field("user"@) {
            None => Err(DecodeErrorModel::Missing { field: "user"@ }),
            Some(member) => match user_of(member) {
                Ok(user) => Ok(LoginResponseModel { user }),
                Err(error) => Err(error),
            },
        }
    }
}

impl LoginResponse {
    /// Decodes a sign-in.
    pub fn from_json(json: &Json) -> (outcome: Result<LoginResponse, DecodeError>)
        ensures
            decoded_view(outcome) == login_response_of(json@),
    {
        require_object(json)?;
        match json.get("user") {
            None => Err(DecodeError::Missing { field: owned("user") }),
            Some(member) => {
                let user = User::from_json(member)?;
                Ok(LoginResponse { user })
            },
        }
    }
}

/// The live sessions of a seller account: one, or none.
#[derive(Debug, Clone, PartialEq, Eq)]
pub struct SessionIdsResponse {
    pub session_ids: Vec<String>,
}

/// A `SessionIdsResponse` as mathematical data.
pub ghost struct SessionIdsResponseModel {
    pub session_ids: Seq<Seq<char>>,
}

impl DeepView for SessionIdsResponse {
    type V = SessionIdsResponseModel;

    open spec fn deep_view(&self) -> SessionIdsResponseModel {
        SessionIdsResponseModel { session_ids: self.session_ids.deep_view() }
    }
}

} // verus!
