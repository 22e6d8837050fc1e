//! The request signature.
//!
//! The remote verifier expects an HMAC-SHA256 whose *key* is the text
//! `"{timestamp}\n{secret}"` and whose message is empty, in base64. The scheme
//! is unusual, since the payload is not signed, but it is what the verifier
//! checks, so it is kept exactly.

use crate::decimal::{
    decimal_digits, decimal_string, is_digit_char, lemma_decimal_digits_injective,
    lemma_decimal_digits_shape,
};
use hmac::{Hmac, Mac, NewMac};
use sha2::Sha256;
use vstd::prelude::*;
use vstd::utf8::{encode_utf8, encode_utf8_decode_utf8};

verus! {

/// The HMAC-SHA256 tag of `message` under `key`.
pub uninterp spec fn hmac_sha256(key: Seq<u8>, message: Seq<u8>) -> Seq<u8>;

/// The base64 text of `bytes`, in the standard alphabet, with padding.
pub uninterp spec fn base64_standard(bytes: Seq<u8>) -> Seq<char>;

/// The text that serves as the HMAC key: the timestamp in decimal, a line
/// feed, then the secret as it is.
pub open spec fn signing_input(secret: Seq<char>, timestamp: nat) -> Seq<char> {
    decimal_digits(timestamp) + seq!['\n'] + secret
}

/// The bytes of the HMAC key: the signing input in UTF-8.
pub open spec fn signing_key(secret: Seq<char>, timestamp: nat) -> Seq<u8> {
    encode_utf8(signing_input(secret, timestamp))
}

/// The signature of a request stamped `timestamp` under `secret`: the tag of
/// the empty message under the signing key, in base64.
pub open spec fn signature(secret: Seq<char>, timestamp: nat) -> Seq<char> {
    base64_standard(hmac_sha256(signing_key(secret, timestamp), Seq::<u8>::empty()))
}

/// Calls `Hmac::<Sha256>::new_from_slice`, `update` and `finalize` of the
/// hmac crate. The contract names the tag after the key and the message, and
/// states its length, the 32 bytes of a SHA-256 output. `new_from_slice`
/// accepts a key of any length, so the call has no precondition.
#[verifier::external_body]
fn hmac_sha256_tag(key: &[u8], message: &[u8]) -> (tag: Vec<u8>)
    ensures
        tag@ == hmac_sha256(key@, message@),
        tag@.len() == 32,
{
    let mut mac = Hmac::<Sha256>::new_from_slice(key).expect("HMAC can take key of any size");
    mac.update(message);
    mac.finalize().into_bytes().to_vec()
}

/// Calls `base64::encode`. The contract names the text after the bytes. The
/// crate panics when the length of the text overflows `usize`; the
/// precondition keeps such inputs out.
#[verifier::external_body]
fn base64_encode(bytes: &[u8]) -> (text: String)
    requires
        (bytes@.len() / 3) * 4 + 4 <= usize::MAX,
    ensures
        text@ == base64_standard(bytes@),
{
    base64::encode(bytes)
}

/// Builds the signing input for `secret` and `timestamp`.
pub fn signing_input_string(secret: &str, timestamp: u64) -> (input: String)
    ensures
        input@ == signing_input(secret@, timestamp as nat),
{
    let mut input: String = decimal_string(timestamp);
    proof {
        reveal_strlit("\n");
    }
    assert("\n"@ =~= seq!['\n']);
    input.append("\n");
    input.append(secret);
    input
}

/// Signs a request stamped `timestamp` with `secret`.
pub fn gen_sign(secret: &str, timestamp: u64) -> (sign: String)
    ensures
        sign@ == signature(secret@, timestamp as nat),
{
    let input = signing_input_string(secret, timestamp);
    let message: Vec<u8> = Vec::new();
    let tag = hmac_sha256_tag(input.as_str().as_bytes(), message.as_slice());
    base64_encode(tag.as_slice())
}

/// The signing input determines the secret and the timestamp: the numeral
/// holds no line feed, so the first line feed marks where the secret starts.
pub proof fn lemma_signing_input_injective(
    secret1: Seq<char>,
    timestamp1: nat,
    secret2: Seq<char>,
    timestamp2: nat,
)
    requires
        signing_input(secret1, timestamp1) == signing_input(secret2, timestamp2),
    ensures
        secret1 == secret2,
        timestamp1 == timestamp2,
{
    let d1 = decimal_digits(timestamp1);
    let d2 = decimal_digits(timestamp2);
    let whole = signing_input(secret1, timestamp1);
    lemma_decimal_digits_shape(timestamp1);
    lemma_decimal_digits_shape(timestamp2);
    assert(whole[d1.len() as int] == '\n');
    assert(signing_input(secret2, timestamp2)[d2.len() as int] == '\n');
    if d1.len() < d2.len() {
        assert(whole[d1.len() as int] == d2[d1.len() as int]);
        assert(is_digit_char(d2[d1.len() as int]));
    }
    if d2.len() < d1.len() {
        assert(whole[d2.len() as int] == d1[d2.len() as int]);
        assert(is_digit_char(d1[d2.len() as int]));
    }
    assert(d1 =~= whole.subrange(0, d1.len() as int));
    assert(d2 =~= whole.subrange(0, d2.len() as int));
    lemma_decimal_digits_injective(timestamp1, timestamp2);
    assert(secret1 =~= whole.subrange(d1.len() as int + 1, whole.len() as int));
    assert(secret2 =~= whole.subrange(d2.len() as int + 1, whole.len() as int));
}

/// Signing is a function of the secret and the timestamp: the same two give
/// the same signature.
pub proof fn lemma_signature_deterministic(
    secret1: Seq<char>,
    timestamp1: nat,
    secret2: Seq<char>,
    timestamp2: nat,
)
    requires
        secret1 == secret2,
        timestamp1 == timestamp2,
    ensures
        signature(secret1, timestamp1) == signature(secret2, timestamp2),
{
}

/// A change of the secret or of the timestamp changes the key under which
/// the tag is computed.
pub proof fn lemma_signing_key_separates(
    secret1: Seq<char>,
    timestamp1: nat,
    secret2: Seq<char>,
    timestamp2: nat,
)
    requires
        secret1 != secret2 || timestamp1 != timestamp2,
    ensures
        signing_key(secret1, timestamp1) != signing_key(secret2, timestamp2),
{
    if signing_key(secret1, timestamp1) == signing_key(secret2, timestamp2) {
        encode_utf8_decode_utf8(signing_input(secret1, timestamp1));
        encode_utf8_decode_utf8(signing_input(secret2, timestamp2));
        lemma_signing_input_injective(secret1, timestamp1, secret2, timestamp2);
    }
}

} // verus!
