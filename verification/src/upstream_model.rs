use vstd::prelude::*;
use crate::decode::{
    decoded_view, i64_member, optional_text_member, read_i64, read_optional_text, read_text,
    require_object, text_member, DecodeError, DecodeErrorModel,
};
use crate::json::{Json, JsonModel};

verus! {

/// A login challenge: its identifier and its picture in base 64.
#[derive(Debug, Clone, PartialEq, Eq)]
pub struct ShopeeQRData {
    pub qrcode_id: String,
    pub qrcode_base64: String,
}

/// A `ShopeeQRData` as mathematical data.
pub ghost struct ShopeeQRDataModel {
    pub qrcode_id: Seq<char>,
    pub qrcode_base64: Seq<char>,
}

impl DeepView for ShopeeQRData {
    type V = ShopeeQRDataModel;

    open spec fn deep_view(&self) -> ShopeeQRDataModel {
        ShopeeQRDataModel {
            qrcode_id: self.qrcode_id@,
            qrcode_base64: self.qrcode_base64@,
        }
    }
}

/// The qr data that a document denotes: the first member that is missing or
/// malformed, in the order of the fields, decides the error.
pub open spec fn qr_data_of(json: JsonModel) -> Result<ShopeeQRDataModel, DecodeErrorModel> {
    let qrcode_id = text_member(json, "qrcode_id"@);
    let qrcode_base64 = text_member(json, "qrcode_base64"@);
    if !(json is Object) {
        Err(DecodeErrorModel::NotAnObject)
    } else if qrcode_id is Err {
        Err(qrcode_id->Err_0)
    } else if qrcode_base64 is Err {
        Err(qrcode_base64->Err_0)
    } else {
        Ok(
            ShopeeQRDataModel {
                qrcode_id: qrcode_id->Ok_0,
                qrcode_base64: qrcode_base64->Ok_0,
            },
        )
    }
}

impl ShopeeQRData {
    /// Decodes a qr data.
    pub fn from_json(json: &Json) -> (outcome: Result<ShopeeQRData, DecodeError>)
        ensures
            decoded_view(outcome) == qr_data_of(json@),
    {
        require_object(json)?;
        let qrcode_id = read_text(json, "qrcode_id")?;
        let qrcode_base64 = read_text(json, "qrcode_base64")?;
        Ok(ShopeeQRData { qrcode_id, qrcode_base64 })
    }
}

/// The state of a challenge as the upstream reports it. The token is empty
/// until the challenge is confirmed.
#[derive(Debug, Clone, PartialEq, Eq)]
pub struct QRStatusData {
    pub qrcode_token: String,
    pub status: String,
}

/// A `QRStatusData` as mathematical data.
pub ghost struct QRStatusDataModel {
    pub qrcode_token: Seq<char>,
    pub status: Seq<char>,
}

impl DeepView for QRStatusData {
    type V = QRStatusDataModel;

    open spec fn deep_view(&self) -> QRStatusDataModel {
        QRStatusDataModel {
            qrcode_token: self.qrcode_token@,
            status: self.status@,
        }
    }
}

/// The token of a challenge as it is kept: the text that was sent, and the
/// empty text where none was sent. A token that is left out, one that is
/// null and one that is empty all mean that it is not yet available.
pub open spec fn token_or_empty(sent: Option<Seq<char>>) -> Seq<char> {
    match sent {
        Some(text) => text,
        None => Seq::empty(),
    }
}

/// The qr status data that a document denotes. The status is required; the
/// token is a string, null or left out. The first member that is missing
/// or malformed, in the order of the fields, decides the error.
pub open spec fn qr_status_data_of(json: JsonModel) -> Result<QRStatusDataModel, DecodeErrorModel> {
    let qrcode_token = optional_text_member(json, "qrcode_token"@);
    let status = text_member(json, "status"@);
    if !(json is Object) {
        Err(DecodeErrorModel::NotAnObject)
    } else if qrcode_token is Err {
        Err(qrcode_token->Err_0)
    } else if status is Err {
        Err(status->Err_0)
    } else {
        Ok(
            QRStatusDataModel {
                qrcode_token: token_or_empty(qrcode_token->Ok_0),
                status: status->Ok_0,
            },
        )
    }
}

impl QRStatusData {
    /// Decodes a qr status data.
    pub fn from_json(json: &Json) -> (outcome: Result<QRStatusData, DecodeError>)
        ensures
            decoded_view(outcome) == qr_status_data_of(json@),
    {
        require_object(json)?;
        let qrcode_token = match read_optional_text(json, "qrcode_token")? {
            Some(text) => text,
            None => String::new(),
        };
        let status = read_text(json, "status")?;
        Ok(QRStatusData { qrcode_token, status })
    }
}

/// What the upstream tells of the account behind a session.
#[derive(Debug, Clone, PartialEq, Eq)]
pub struct ShopeeAccountInfo {
    pub userid: i64,
    pub username: String,
    pub nickname: String,
    pub email: Option<String>,
    pub phone: Option<String>,
}

/// A `ShopeeAccountInfo` as mathematical data.
pub ghost struct ShopeeAccountInfoModel {
    pub userid: i64,
    pub username: Seq<char>,
    pub nickname: Seq<char>,
    pub email: Option<Seq<char>>,
    pub phone: Option<Seq<char>>,
}

impl DeepView for ShopeeAccountInfo {
    type V = ShopeeAccountInfoModel;

    open spec fn deep_view(&self) -> ShopeeAccountInfoModel {
        ShopeeAccountInfoModel {
            userid: self.userid,
            username: self.username@,
            nickname: self.nickname@,
            email: self.email.deep_view(),
            phone: self.phone.deep_view(),
        }
    }
}

/// The account info that a document denotes: the first member that is missing
/// or malformed, in the order of the fields, decides the error.
pub open spec fn account_info_of(
    json: JsonModel,
) -> Result<ShopeeAccountInfoModel, DecodeErrorModel> {
    let userid = i64_member(json, "userid"@);
    let username = text_member(json, "username"@);
    let nickname = text_member(json, "nickname"@);
    let email = optional_text_member(json, "email"@);
    let phone = optional_text_member(json, "phone"@);
    if !(json is Object) {
        Err(DecodeErrorModel::NotAnObject)
    } else if userid is Err {
        Err(userid->Err_0)
    } else if username is Err {
        Err(username->Err_0)
    } else if nickname is Err {
        Err(nickname->Err_0)
    } else if email is Err {
        Err(email->Err_0)
    } else if phone is Err {
        Err(phone->Err_0)
    } else {
        Ok(
            ShopeeAccountInfoModel {
                userid: userid->Ok_0,
                username: username->Ok_0,
                nickname: nickname->Ok_0,
                email: email->Ok_0,
                phone: phone->Ok_0,
            },
        )
    }
}

impl ShopeeAccountInfo {
    /// Decodes a account info.
    pub fn from_json(json: &Json) -> (outcome: Result<ShopeeAccountInfo, DecodeError>)
        ensures
            decoded_view(outcome) == account_info_of(json@),
    {
        require_object(json)?;
        let userid = read_i64(json, "userid")?;
        let username = read_text(json, "username")?;
        let nickname = read_text(json, "nickname")?;
        let email = read_optional_text(json, "email")?;
        let phone = read_optional_text(json, "phone")?;
        Ok(ShopeeAccountInfo { userid, username, nickname, email, phone })
    }
}

} // verus!
