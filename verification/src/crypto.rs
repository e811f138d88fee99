//! Message authentication, constant-time comparison and token generation.
use hmac::{Hmac, Mac};
use rand::Rng;
use sha2::Sha256;
use subtle::ConstantTimeEq;
use vstd::prelude::*;
use vstd::utf8::*;

use crate::text::digit_char;

verus! {

broadcast use vstd::utf8::group_utf8_lib;

/// The HMAC-SHA256 tag of `message` under `key`.
pub uninterp spec fn hmac_sha256_spec(key: Seq<u8>, message: Seq<u8>) -> Seq<u8>;

/// Lower-case hexadecimal digit for `v < 16`.
pub open spec fn hex_digit(v: nat) -> char {
    if v < 10 {
        digit_char(v)
    } else if v == 10 {
        'a'
    } else if v == 11 {
        'b'
    } else if v == 12 {
        'c'
    } else if v == 13 {
        'd'
    } else if v == 14 {
        'e'
    } else {
        'f'
    }
}

/// Lower-case hexadecimal text of `bytes`: two digits per byte, high nibble first.
pub open spec fn hex_spec(bytes: Seq<u8>) -> Seq<char>
    decreases bytes.len(),
{
    if bytes.len() == 0 {
        Seq::empty()
    } else {
        hex_spec(bytes.drop_last()) + seq![
            hex_digit((bytes.last() / 16) as nat),
            hex_digit((bytes.last() % 16) as nat),
        ]
    }
}

pub proof fn lemma_hex_len(bytes: Seq<u8>)
    ensures
        hex_spec(bytes).len() == 2 * bytes.len(),
    decreases bytes.len(),
{
    if bytes.len() > 0 {
        lemma_hex_len(bytes.drop_last());
    }
}

/// Calls `Hmac::<Sha256>::new_from_slice`, `update` and `finalize` of the
/// `hmac` crate: the tag is the HMAC-SHA256 of `message` under `key` (a name,
/// not stated here) and is 32 bytes long. Any key length is accepted.
#[verifier::external_body]
fn hmac_sha256(key: &[u8], message: &[u8]) -> (tag: Vec<u8>)
    ensures
        tag@ == hmac_sha256_spec(key@, message@),
        tag@.len() == 32,
{
    let mut mac = <Hmac<Sha256> as Mac>::new_from_slice(key).expect("HMAC takes keys of any size");
    mac.update(message);
    mac.finalize().into_bytes().to_vec()
}

/// Calls `hex::encode`: lower-case hexadecimal, two digits per byte, high
/// nibble first.
#[verifier::external_body]
fn hex_encode(bytes: &[u8]) -> (r: String)
    ensures
        r@ == hex_spec(bytes@),
{
    hex::encode(bytes)
}

/// Calls `ConstantTimeEq::ct_eq` of the `subtle` crate on two byte slices:
/// true exactly when the slices have the same length and the same bytes.
#[verifier::external_body]
fn ct_eq_bytes(a: &[u8], b: &[u8]) -> (r: bool)
    ensures
        r == (a@ == b@),
{
    a.ct_eq(b).into()
}

/// Calls `rand::thread_rng().gen()` for 32 random bytes; nothing is stated
/// of their values.
#[verifier::external_body]
fn random_bytes() -> (r: [u8; 32]) {
    rand::thread_rng().gen()
}

proof fn lemma_utf8_injective(a: Seq<char>, b: Seq<char>)
    ensures
        (encode_utf8(a) == encode_utf8(b)) == (a == b),
{
    encode_utf8_decode_utf8(a);
    encode_utf8_decode_utf8(b);
}

/// Equality of two strings, compared in constant time over their bytes.
pub fn constant_time_text_eq(a: &str, b: &str) -> (r: bool)
    ensures
        r == (a@ == b@),
{
    proof {
        lemma_utf8_injective(a@, b@);
    }
    ct_eq_bytes(a.as_bytes(), b.as_bytes())
}

/// The signature header that a GitHub delivery carries for a body with this digest.
pub open spec fn expected_signature(digest: Seq<u8>) -> Seq<char> {
    "sha256="@ + hex_spec(digest)
}

/// Whether `signature` is `sha256=` followed by the lower-case hex of `digest`.
pub fn signature_matches(digest: &[u8], signature: &str) -> (r: bool)
    ensures
        r == (signature@ == expected_signature(digest@)),
{
    let mut expected: String = String::from_str("sha256=");
    let hex: String = hex_encode(digest);
    expected.append(hex.as_str());
    constant_time_text_eq(expected.as_str(), signature)
}

/// A GitHub signature is valid: both it and the secret are non-empty, and it
/// names the HMAC-SHA256 of the payload under the secret's UTF-8 bytes.
pub open spec fn signature_valid(payload: Seq<u8>, signature: Seq<char>, secret: Seq<char>) -> bool {
    &&& secret.len() > 0
    &&& signature.len() > 0
    &&& signature == expected_signature(hmac_sha256_spec(encode_utf8(secret), payload))
}

/// Checks a GitHub `X-Hub-Signature-256` header against the payload and secret.
pub fn verify_signature(payload: &[u8], signature: &str, secret: &str) -> (r: bool)
    ensures
        r == signature_valid(payload@, signature@, secret@),
{
    if secret.is_empty() || signature.is_empty() {
        return false;
    }
    let digest: Vec<u8> = hmac_sha256(secret.as_bytes(), payload);
    signature_matches(digest.as_slice(), signature)
}

/// A token is accepted: both it and the secret are non-empty and they are equal.
pub open spec fn token_valid(token: Seq<char>, secret: Seq<char>) -> bool {
    secret.len() > 0 && token.len() > 0 && token == secret
}

/// Checks a Gitee or GitLab token header against the secret, in constant time.
pub fn verify_token(token: &str, secret: &str) -> (r: bool)
    ensures
        r == token_valid(token@, secret@),
{
    if secret.is_empty() || token.is_empty() {
        return false;
    }
    constant_time_text_eq(token, secret)
}

/// The session token that a run of random bytes gives: its lower-case hex.
pub fn token_from_bytes(bytes: &[u8]) -> (r: String)
    ensures
        r@ == hex_spec(bytes@),
{
    hex_encode(bytes)
}

/// A fresh session token: the lower-case hex of 32 random bytes.
pub fn generate_token() -> (r: String)
    ensures
        exists|b: Seq<u8>| b.len() == 32 && r@ == hex_spec(b),
        r@.len() == 64,
{
    let bytes: [u8; 32] = random_bytes();
    let r: String = token_from_bytes(&bytes);
    proof {
        lemma_hex_len(bytes@);
    }
    r
}

} // verus!
