//! Verification of webhook signatures.

use hmac::Hmac;
use hmac::Mac;
use sha2::Sha256;
use subtle::ConstantTimeEq;
use vstd::prelude::*;
use vstd::string::StringSliceAdditionalSpecFns;
use vstd::utf8::encode_utf8;
use vstd::utf8::encode_utf8_decode_utf8;

verus! {

/// The HMAC-SHA256 tag of `message` under `key`.
pub uninterp spec fn hmac_sha256_of(key: Seq<u8>, message: Seq<u8>) -> Seq<u8>;

/// The lowercase hexadecimal digit for `n`, where `0 <= n < 16`.
pub open spec fn hex_digit(n: int) -> char {
    seq!['0', '1', '2', '3', '4', '5', '6', '7', '8', '9', 'a', 'b', 'c', 'd', 'e', 'f'][n]
}

/// The lowercase hexadecimal text of `bytes`: two digits per byte, the high
/// half first.
pub open spec fn hex_lower(bytes: Seq<u8>) -> Seq<char> {
    Seq::new(
        2 * bytes.len(),
        |i: int|
            if i % 2 == 0 {
                hex_digit(bytes[i / 2] as int / 16)
            } else {
                hex_digit(bytes[i / 2] as int % 16)
            },
    )
}

/// The signature that a payload carries when signed with `secret`.
pub open spec fn expected_signature(secret: Seq<u8>, payload: Seq<u8>) -> Seq<char> {
    hex_lower(hmac_sha256_of(secret, payload))
}

/// Relies on hmac's `Hmac<Sha256>`: `new_from_slice` takes a key of any
/// length (it never fails for HMAC), `update` feeds the message, and
/// `finalize` gives the tag, which depends on key and message alone and is
/// SHA-256's fixed output size of 32 bytes.
#[verifier::external_body]
fn hmac_sha256(key: &[u8], message: &[u8]) -> (r: Vec<u8>)
    ensures
        r@ == hmac_sha256_of(key@, message@),
        r@.len() == 32,
{
    let mut mac = <Hmac<Sha256> as Mac>::new_from_slice(key).expect("HMAC takes keys of any size");
    mac.update(message);
    mac.finalize().into_bytes().to_vec()
}

/// Relies on `hex::encode`: two lowercase digits per byte, high half first.
#[verifier::external_body]
fn to_hex(bytes: &[u8]) -> (r: String)
    ensures
        r@ == hex_lower(bytes@),
{
    hex::encode(bytes)
}

/// Relies on subtle's `ConstantTimeEq` for byte slices: the choice is 1
/// exactly when both slices have the same length and the same bytes; for
/// equal lengths the time taken does not depend on the contents.
#[verifier::external_body]
fn bytes_ct_eq(a: &[u8], b: &[u8]) -> (r: bool)
    ensures
        r == (a@ == b@),
{
    bool::from(a.ct_eq(b))
}

/// Checks `signature` against the lowercase hex text of the tag `mac`, in
/// constant time for a signature of the expected length.
pub fn signature_matches(mac: &[u8], signature: &str) -> (r: bool)
    ensures
        r == (signature@ == hex_lower(mac@)),
{
    let expected = to_hex(mac);
    let r = bytes_ct_eq(expected.as_str().as_bytes(), signature.as_bytes());
    proof {
        encode_utf8_decode_utf8(expected@);
        encode_utf8_decode_utf8(signature@);
        assert(r == (encode_utf8(expected@) == encode_utf8(signature@)));
    }
    r
}

/// Verifies the signature of a webhook payload: `true` exactly when
/// `signature` is the lowercase hex HMAC-SHA256 of `payload` under `secret`,
/// so a signature of other than 64 characters is always rejected.
pub fn verify_webhook_signature(secret: &str, payload: &[u8], signature: &str) -> (r: bool)
    ensures
        r == (signature@ == expected_signature(secret.spec_bytes(), payload@)),
        signature@.len() != 64 ==> !r,
{
    let mac = hmac_sha256(secret.as_bytes(), payload);
    signature_matches(mac.as_slice(), signature)
}

/// `c` is one of `0`-`9` or `a`-`f`.
pub open spec fn is_lower_hex_digit(c: char) -> bool {
    ('0' <= c && c <= '9') || ('a' <= c && c <= 'f')
}

/// The signature accepted for a secret and a payload is lowercase hex: one
/// that holds any character other than `0`-`9` and `a`-`f` (an uppercase
/// digit included) is rejected, whatever the secret and payload.
pub proof fn lemma_signature_is_lower_hex(
    secret: Seq<u8>,
    payload: Seq<u8>,
    signature: Seq<char>,
)
    ensures
        (exists|i: int| 0 <= i < signature.len() && !is_lower_hex_digit(#[trigger] signature[i]))
            ==> signature != expected_signature(secret, payload),
{
    let mac = hmac_sha256_of(secret, payload);
    let e = expected_signature(secret, payload);
    assert forall|i: int| 0 <= i < e.len() implies is_lower_hex_digit(#[trigger] e[i]) by {
        let n: int = if i % 2 == 0 { mac[i / 2] as int / 16 } else { mac[i / 2] as int % 16 };
        assert(0 <= n < 16);
        assert(e[i] == hex_digit(n));
        lemma_hex_digit_is_lower_hex(n);
    }
}

proof fn lemma_hex_digit_is_lower_hex(n: int)
    requires
        0 <= n < 16,
    ensures
        is_lower_hex_digit(hex_digit(n)),
{
    let d = seq!['0', '1', '2', '3', '4', '5', '6', '7', '8', '9', 'a', 'b', 'c', 'd', 'e', 'f'];
    assert(hex_digit(n) == d[n]);
    if n < 8 {
        if n < 4 {
            assert(n == 0 || n == 1 || n == 2 || n == 3);
        } else {
            assert(n == 4 || n == 5 || n == 6 || n == 7);
        }
    } else if n < 12 {
        assert(n == 8 || n == 9 || n == 10 || n == 11);
    } else {
        assert(n == 12 || n == 13 || n == 14 || n == 15);
    }
}

} // verus!
