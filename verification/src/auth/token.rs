//! Token generation, SHA-256 hashing and constant-time comparison.
//! Tokens are 32 random bytes rendered URL-safe; only their hash is
//! ever stored.

use vstd::prelude::*;
use vstd::string::StringSliceAdditionalSpecFns;

use base64::Engine;
use rand::RngCore;
use sha2::Digest;
use subtle::ConstantTimeEq;

verus! {

/// A raw token (shown to the user once) and the lowercase hex
/// SHA-256 digest of its UTF-8 bytes (persisted).
pub struct TokenPair {
    pub raw: String,
    pub hash: String,
}

/// SHA-256 digest of a byte string.
pub uninterp spec fn sha256(data: Seq<u8>) -> Seq<u8>;

/// Lowercase hex digit for `v` (`0 <= v < 16`).
pub open spec fn hex_digit(v: int) -> char {
    if v < 10 {
        (v + 48) as char
    } else {
        (v - 10 + 97) as char
    }
}

/// Lowercase hex rendering: two characters per byte, high nibble
/// first.
pub open spec fn hex_lower(bytes: Seq<u8>) -> Seq<char>
    decreases bytes.len(),
{
    if bytes.len() == 0 {
        Seq::empty()
    } else {
        seq![hex_digit(bytes[0] as int / 16), hex_digit(bytes[0] as int % 16)] + hex_lower(bytes.drop_first())
    }
}

/// Character of the URL-safe base64 alphabet for a six-bit value.
pub open spec fn b64url_char(v: int) -> char {
    if v < 26 {
        (v + 65) as char
    } else if v < 52 {
        (v - 26 + 97) as char
    } else if v < 62 {
        (v - 52 + 48) as char
    } else if v == 62 {
        '-'
    } else {
        '_'
    }
}

/// URL-safe base64 without padding: every three bytes become four
/// characters; a trailing pair of bytes becomes three characters and
/// a trailing single byte two.
pub open spec fn b64url_nopad(b: Seq<u8>) -> Seq<char>
    decreases b.len(),
{
    if b.len() == 0 {
        Seq::empty()
    } else if b.len() == 1 {
        seq![b64url_char((b[0] as int) / 4), b64url_char(((b[0] as int) % 4) * 16)]
    } else if b.len() == 2 {
        seq![
            b64url_char((b[0] as int) / 4),
            b64url_char(((b[0] as int) % 4) * 16 + (b[1] as int) / 16),
            b64url_char(((b[1] as int) % 16) * 4),
        ]
    } else {
        seq![
            b64url_char((b[0] as int) / 4),
            b64url_char(((b[0] as int) % 4) * 16 + (b[1] as int) / 16),
            b64url_char(((b[1] as int) % 16) * 4 + (b[2] as int) / 64),
            b64url_char((b[2] as int) % 64),
        ] + b64url_nopad(b.subrange(3, b.len() as int))
    }
}

/// The stored form of a raw token: hex of the SHA-256 of its bytes.
pub open spec fn token_hash(raw: Seq<char>) -> Seq<char> {
    hex_lower(sha256(vstd::utf8::encode_utf8(raw)))
}

/// Fills `bytes` from the thread-local CSPRNG (`rand::rng()` and
/// `RngCore::fill_bytes`). Nothing is claimed of the bytes drawn.
#[verifier::external_body]
fn fill_random(bytes: &mut [u8; 32]) {
    rand::rng().fill_bytes(bytes);
}

/// `base64::engine::general_purpose::URL_SAFE_NO_PAD.encode`: the
/// unpadded URL-safe base64 rendering of `bytes`.
#[verifier::external_body]
fn b64_url_safe_no_pad(bytes: &[u8]) -> (r: String)
    ensures
        r@ == b64url_nopad(bytes@),
{
    base64::engine::general_purpose::URL_SAFE_NO_PAD.encode(bytes)
}

/// `sha2::Sha256::digest`: the 32-byte SHA-256 digest of `data`.
#[verifier::external_body]
fn sha256_digest(data: &[u8]) -> (r: Vec<u8>)
    ensures
        r@ == sha256(data@),
        r@.len() == 32,
{
    sha2::Sha256::digest(data).to_vec()
}

/// `hex::encode`: lowercase hex, two characters per byte.
#[verifier::external_body]
fn hex_encode(data: &[u8]) -> (r: String)
    ensures
        r@ == hex_lower(data@),
{
    hex::encode(data)
}

/// `subtle::ConstantTimeEq::ct_eq` on byte slices, converted to
/// `bool`: true exactly when both slices hold the same bytes.
#[verifier::external_body]
fn ct_eq_bytes(a: &[u8], b: &[u8]) -> (r: bool)
    ensures
        r == (a@ == b@),
{
    a.ct_eq(b).into()
}

/// URL-safe base64 (no padding) of `bytes`.
pub fn base64_url_encode(bytes: &[u8]) -> (r: String)
    ensures
        r@ == b64url_nopad(bytes@),
{
    b64_url_safe_no_pad(bytes)
}

/// Lowercase hex SHA-256 digest of the UTF-8 bytes of `raw`.
pub fn sha256_hex(raw: &str) -> (r: String)
    ensures
        r@ == token_hash(raw@),
{
    let digest = sha256_digest(raw.as_bytes());
    hex_encode(digest.as_slice())
}

/// Generates a fresh token: 32 random bytes rendered URL-safe, and
/// the hash under which it is stored.
pub fn generate() -> (pair: TokenPair)
    ensures
        exists|b: Seq<u8>| b.len() == 32 && pair.raw@ == b64url_nopad(b),
        pair.hash@ == token_hash(pair.raw@),
{
    let mut bytes = [0u8; 32];
    fill_random(&mut bytes);
    let raw = base64_url_encode(bytes.as_slice());
    let hash = sha256_hex(raw.as_str());
    assert(bytes@.len() == 32);
    TokenPair { raw, hash }
}

/// Comparison of two hashes whose running time does not depend on
/// where they differ: true exactly when they are equal.
pub fn hashes_match(a: &str, b: &str) -> (r: bool)
    ensures
        r == (a@ == b@),
{
    proof {
        broadcast use vstd::utf8::encode_utf8_decode_utf8;
        assert(vstd::utf8::decode_utf8(vstd::utf8::encode_utf8(a@)) == a@);
        assert(vstd::utf8::decode_utf8(vstd::utf8::encode_utf8(b@)) == b@);
    }
    if a.len() != b.len() {
        return false;
    }
    ct_eq_bytes(a.as_bytes(), b.as_bytes())
}

/// A freshly generated token authenticates: hashing its raw form
/// gives back the stored hash, so `hashes_match` accepts it.
pub proof fn lemma_generated_token_authenticates(pair: TokenPair, presented: Seq<char>)
    requires
        pair.hash@ == token_hash(pair.raw@),
    ensures
        token_hash(presented) == pair.hash@ <== presented == pair.raw@,
{
}

} // verus!
