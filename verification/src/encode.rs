use vstd::prelude::*;
use vstd::string::StringSliceAdditionalSpecFns;

verus! {

/// Whether a byte passes through percent-encoding unchanged: the letters
/// and digits of ASCII, and `-`, `.`, `_`, `~`.
pub open spec fn is_unreserved(byte: u8) -> bool {
    (0x30 <= byte <= 0x39) || (0x41 <= byte <= 0x5a) || (0x61 <= byte <= 0x7a) || byte == 0x2d
        || byte == 0x2e || byte == 0x5f || byte == 0x7e
}

/// The hexadecimal digit for a number below 16, in capitals.
pub open spec fn hex_upper(digit: u8) -> char {
    if digit < 10 {
        (0x30 + digit) as u8 as char
    } else {
        (0x41 + digit - 10) as u8 as char
    }
}

/// One byte, percent-encoded.
pub open spec fn encoded_byte(byte: u8) -> Seq<char> {
    if is_unreserved(byte) {
        seq![byte as char]
    } else {
        seq!['%', hex_upper(byte / 16), hex_upper(byte % 16)]
    }
}

/// A run of bytes, percent-encoded byte by byte.
pub open spec fn percent_encoded(bytes: Seq<u8>) -> Seq<char>
    decreases bytes.len(),
{
    if bytes.len() == 0 {
        Seq::empty()
    } else {
        percent_encoded(bytes.drop_last()) + encoded_byte(bytes.last())
    }
}

/// Calls `urlencoding::encode` on a text. By that crate's source, every byte
/// of the text's UTF-8 form stays as it is where it is a letter or digit of
/// ASCII or one of `-`, `.`, `_`, `~`, and becomes `%` with two hexadecimal
/// digits in capitals otherwise.
#[verifier::external_body]
pub(crate) fn url_encode(text: &str) -> (encoded: String)
    ensures
        encoded@ == percent_encoded(text.spec_bytes()),
{
    urlencoding::encode(text).into_owned()
}

/// Whether a character may stand in percent-encoded text.
pub open spec fn is_encoded_char(c: char) -> bool {
    c == '%' || (c as u32 <= 0x7f && is_unreserved(c as u8))
}

/// Percent-encoded text holds only unreserved characters and `%`: none of
/// the characters that separate the parts of an address.
pub proof fn law_encoded_is_plain(bytes: Seq<u8>, i: int)
    requires
        0 <= i < percent_encoded(bytes).len(),
    ensures
        is_encoded_char(percent_encoded(bytes)[i]),
        percent_encoded(bytes)[i] != '&',
        percent_encoded(bytes)[i] != '=',
        percent_encoded(bytes)[i] != '?',
        percent_encoded(bytes)[i] != '/',
        percent_encoded(bytes)[i] != '#',
    decreases bytes.len(),
{
    if bytes.len() > 0 {
        let front = percent_encoded(bytes.drop_last());
        if i < front.len() {
            law_encoded_is_plain(bytes.drop_last(), i);
        }
    }
}

} // verus!
