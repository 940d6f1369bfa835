//! Text encodings of bytes: hexadecimal, base 64, UTF-8 and the text form of
//! account addresses.

use base64::Engine;
use vstd::prelude::*;

verus! {

/// The error type of the base-64 decoder.
#[verifier::external_type_specification]
#[verifier::external_body]
pub struct ExBase64DecodeError(base64::DecodeError);

/// The lower-case hexadecimal digit of a number below 16.
pub open spec fn hex_char(n: int) -> char {
    if n == 0 {
        '0'
    } else if n == 1 {
        '1'
    } else if n == 2 {
        '2'
    } else if n == 3 {
        '3'
    } else if n == 4 {
        '4'
    } else if n == 5 {
        '5'
    } else if n == 6 {
        '6'
    } else if n == 7 {
        '7'
    } else if n == 8 {
        '8'
    } else if n == 9 {
        '9'
    } else if n == 10 {
        'a'
    } else if n == 11 {
        'b'
    } else if n == 12 {
        'c'
    } else if n == 13 {
        'd'
    } else if n == 14 {
        'e'
    } else {
        'f'
    }
}

/// Bytes in hexadecimal: two lower-case digits to the byte, the high digit
/// first.
pub open spec fn hex_text(bytes: Seq<u8>) -> Seq<char> {
    Seq::new(
        2 * bytes.len(),
        |i: int|
            if i % 2 == 0 {
                hex_char(bytes[i / 2] as int / 16)
            } else {
                hex_char(bytes[i / 2] as int % 16)
            },
    )
}

/// What a text in standard base 64, with padding, decodes to; none if the
/// text is not base 64.
pub uninterp spec fn base64_decoded(text: Seq<char>) -> Option<Seq<u8>>;

/// The text form of an account address: the address type, the Ed25519 key
/// and a checksum in base 32.
pub uninterp spec fn strkey_text(key: Seq<u8>) -> Seq<char>;

/// Calls `hex::encode`.  The contract claims what the crate documents: every
/// byte becomes two lower-case hexadecimal digits, high digit first.
#[verifier::external_body]
pub(crate) fn hex_encode(bytes: &[u8]) -> (text: String)
    ensures
        text@ == hex_text(bytes@),
{
    hex::encode(bytes)
}

/// Calls `base64::Engine::decode` on the `STANDARD` engine.  The contract
/// names the bytes that come back, and claims that the call fails exactly
/// where the text has no decoding.
#[verifier::external_body]
pub(crate) fn base64_decode(text: &str) -> (bytes: Result<Vec<u8>, base64::DecodeError>)
    ensures
        match bytes {
            Ok(b) => base64_decoded(text@) == Some(b@),
            Err(_) => base64_decoded(text@) is None,
        },
{
    base64::engine::general_purpose::STANDARD.decode(text)
}

/// Calls `core::str::from_utf8` and keeps whether it succeeded.  The
/// contract claims that it succeeds exactly on valid UTF-8.
#[verifier::external_body]
pub(crate) fn is_utf8(bytes: &[u8]) -> (valid: bool)
    ensures
        valid == vstd::utf8::valid_utf8(bytes@),
{
    core::str::from_utf8(bytes).is_ok()
}

/// Calls `stellar_strkey::Strkey::to_string` on the public key made of
/// `key`.  The contract names the text that comes back.
#[verifier::external_body]
pub(crate) fn account_strkey(key: &[u8; 32]) -> (text: String)
    ensures
        text@ == strkey_text(key@),
{
    let strkey = stellar_strkey::Strkey::PublicKeyEd25519(stellar_strkey::ed25519::PublicKey(*key));
    strkey.to_string().as_str().to_owned()
}

} // verus!
