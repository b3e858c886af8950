use vstd::prelude::*;
use vstd::utf8::encode_utf8;
use crate::text::owned;

verus! {

/// What the machine says of itself: the values of four variables of the
/// environment, each absent where the variable is not set.
#[derive(Debug, Clone, PartialEq, Eq)]
pub struct HostEnvironment {
    pub computername: Option<String>,
    pub hostname: Option<String>,
    pub user: Option<String>,
    pub username: Option<String>,
}

/// A `HostEnvironment` as mathematical data.
pub ghost struct HostEnvironmentModel {
    pub computername: Option<Seq<char>>,
    pub hostname: Option<Seq<char>>,
    pub user: Option<Seq<char>>,
    pub username: Option<Seq<char>>,
}

impl View for HostEnvironment {
    type V = HostEnvironmentModel;

    open spec fn view(&self) -> HostEnvironmentModel {
        HostEnvironmentModel {
            computername: self.computername.deep_view(),
            hostname: self.hostname.deep_view(),
            user: self.user.deep_view(),
            username: self.username.deep_view(),
        }
    }
}

/// The SHA-256 digest of a run of bytes.
pub uninterp spec fn sha256(bytes: Seq<u8>) -> Seq<u8>;

/// Hashes bytes with `sha2::Sha256::digest`. The digest is a function of
/// the bytes and is 32 bytes long.
#[verifier::external_body]
fn sha256_digest(bytes: &[u8]) -> (digest: Vec<u8>)
    ensures
        digest@ == sha256(bytes@),
        digest@.len() == 32,
{
    <sha2::Sha256 as sha2::Digest>::digest(bytes).to_vec()
}

/// The hexadecimal digit for a number below 16, in small letters.
pub open spec fn hex_lower(digit: u8) -> char {
    if digit < 10 {
        (0x30 + digit) as u8 as char
    } else {
        (0x61 + digit - 10) as u8 as char
    }
}

/// A run of bytes in hexadecimal: two digits for each byte, the high half
/// first.
pub open spec fn hex_text(bytes: Seq<u8>) -> Seq<char> {
    Seq::new(
        2 * bytes.len(),
        |i: int|
            if i % 2 == 0 {
                hex_lower(bytes[i / 2] / 16)
            } else {
                hex_lower(bytes[i / 2] % 16)
            },
    )
}

/// Whether a character is a hexadecimal digit in small letters.
pub open spec fn is_lower_hex(c: char) -> bool {
    ('0' <= c && c <= '9') || ('a' <= c && c <= 'f')
}

/// Whether a text holds hexadecimal digits in small letters and nothing
/// else.
pub open spec fn all_lower_hex(text: Seq<char>) -> bool {
    forall|i: int| 0 <= i < text.len() ==> is_lower_hex(#[trigger] text[i])
}

/// The hexadecimal form of a run of bytes has two characters for each byte,
/// each of them a hexadecimal digit in small letters.
pub proof fn lemma_hex_text_digits(bytes: Seq<u8>)
    ensures
        hex_text(bytes).len() == 2 * bytes.len(),
        all_lower_hex(hex_text(bytes)),
{
    assert forall|i: int| 0 <= i < hex_text(bytes).len() implies is_lower_hex(
        #[trigger] hex_text(bytes)[i],
    ) by {
        let byte = bytes[i / 2];
        assert(byte / 16 < 16 && byte % 16 < 16);
    }
}

/// Calls `hex::encode`, which writes each byte as two hexadecimal digits in
/// small letters.
#[verifier::external_body]
fn hex_encode(bytes: &Vec<u8>) -> (text: String)
    ensures
        text@ == hex_text(bytes@),
{
    hex::encode(bytes)
}

/// The first of two optional texts that is present, or `fallback`.
pub open spec fn first_of(
    first: Option<Seq<char>>,
    second: Option<Seq<char>>,
    fallback: Seq<char>,
) -> Seq<char> {
    match first {
        Some(text) => text,
        None => match second {
            Some(text) => text,
            None => fallback,
        },
    }
}

/// The host's name: `COMPUTERNAME`, else `HOSTNAME`, else `unknown`.
pub open spec fn host_name(environment: HostEnvironmentModel) -> Seq<char> {
    first_of(environment.computername, environment.hostname, "unknown"@)
}

/// The user's name: `USER`, else `USERNAME`, else `unknown`.
pub open spec fn user_name(environment: HostEnvironmentModel) -> Seq<char> {
    first_of(environment.user, environment.username, "unknown"@)
}

/// The text that is hashed: host and user, joined by a hyphen.
pub open spec fn machine_seed(environment: HostEnvironmentModel) -> Seq<char> {
    host_name(environment) + "-"@ + user_name(environment)
}

/// The machine identifier: the first 16 hexadecimal digits of the SHA-256
/// digest of the seed in UTF-8.
pub open spec fn machine_id_of(environment: HostEnvironmentModel) -> Seq<char> {
    hex_text(sha256(encode_utf8(machine_seed(environment)))).subrange(0, 16)
}

/// Picks the first of two optional texts that is present, or `fallback`.
pub fn pick(first: &Option<String>, second: &Option<String>, fallback: &str) -> (text: String)
    ensures
        text@ == first_of(first.deep_view(), second.deep_view(), fallback@),
{
    match first {
        Some(text) => text.clone(),
        None => match second {
            Some(text) => text.clone(),
            None => owned(fallback),
        },
    }
}

/// The identifier that a digest gives: the first 16 digits of its
/// hexadecimal form, or all of them where it has fewer.
pub open spec fn identifier_of_digest(digest: Seq<u8>) -> Seq<char> {
    if digest.len() >= 8 {
        hex_text(digest).subrange(0, 16)
    } else {
        hex_text(digest)
    }
}

/// Derives the machine identifier from a digest.
pub fn identifier_from_digest(digest: &Vec<u8>) -> (id: String)
    ensures
        id@ == identifier_of_digest(digest@),
        all_lower_hex(id@),
        digest@.len() >= 8 ==> id@.len() == 16,
{
    let text = hex_encode(digest);
    proof {
        lemma_hex_text_digits(digest@);
    }
    if digest.len() >= 8 {
        owned(text.as_str().substring_char(0, 16))
    } else {
        text
    }
}

/// The seed of the machine identifier.
pub fn seed(environment: &HostEnvironment) -> (text: String)
    ensures
        text@ == machine_seed(environment@),
{
    let mut text = pick(&environment.computername, &environment.hostname, "unknown");
    let user = pick(&environment.user, &environment.username, "unknown");
    text.append("-");
    text.append(user.as_str());
    text
}

/// Derives the machine identifier: always the same for the same host and
/// user, and always 16 hexadecimal digits in small letters.
pub fn generate_machine_id(environment: &HostEnvironment) -> (id: String)
    ensures
        id@ == machine_id_of(environment@),
        id@.len() == 16,
        all_lower_hex(id@),
{
    let seed = seed(environment);
    let digest = sha256_digest(seed.as_str().as_bytes());
    identifier_from_digest(&digest)
}

/// The machine identifier of this host: 16 hexadecimal digits in small
/// letters. Nothing is stored: it is derived anew on every call.
pub fn get_or_generate_machine_id(environment: &HostEnvironment) -> (id: String)
    ensures
        id@ == machine_id_of(environment@),
        id@.len() == 16,
        all_lower_hex(id@),
{
    generate_machine_id(environment)
}

} // verus!
