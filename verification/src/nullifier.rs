//! The nullifier: a stable pseudonym of a device key.
//!
//! A nullifier is a fixed tag followed by the SHA-256 digest, in hexadecimal,
//! of the secret salt and the device key. It depends on those two texts and
//! on nothing else, so the same key gives the same nullifier in every call
//! and in every run of the process.

use crate::text::{append_lower_hex, digit_char, lower_hex};
use sha2::{Digest, Sha256};
use vstd::prelude::*;
use vstd::string::{StringExecFns, StringSliceAdditionalSpecFns};
use vstd::utf8::encode_utf8;

verus! {

/// How every nullifier begins.
pub const NULLIFIER_TAG: &'static str = "nullifier-";

/// The SHA-256 digest of `data`.
pub uninterp spec fn sha256_digest(data: Seq<u8>) -> Seq<u8>;

/// Calls `sha2::Sha256::digest`, which feeds `data` to a fresh hasher and
/// finalizes it. Trusted: that the 32 bytes handed back are the SHA-256
/// digest of `data`, a function of `data` alone.
#[verifier::external_body]
fn sha256(data: &[u8]) -> (digest: [u8; 32])
    ensures
        digest@ == sha256_digest(data@),
{
    Sha256::digest(data).into()
}

/// The bytes that are hashed for a device key: the salt and then the key,
/// each in UTF-8, with nothing in between.
pub open spec fn salted_key_bytes(salt: Seq<char>, device_key: Seq<char>) -> Seq<u8> {
    encode_utf8(salt) + encode_utf8(device_key)
}

/// The nullifier that is written for a digest.
pub open spec fn nullifier_of_digest(digest: Seq<u8>) -> Seq<char> {
    NULLIFIER_TAG@ + lower_hex(digest)
}

/// The nullifier of a device key under a salt.
pub open spec fn nullifier_text(salt: Seq<char>, device_key: Seq<char>) -> Seq<char> {
    nullifier_of_digest(sha256_digest(salted_key_bytes(salt, device_key)))
}

/// Writes the nullifier for a digest: the tag, then the digest in small
/// hexadecimal digits.
pub fn nullifier_from_digest(digest: &[u8; 32]) -> (nullifier: String)
    ensures
        nullifier@ == nullifier_of_digest(digest@),
        nullifier@.len() == NULLIFIER_TAG@.len() + 64,
        NULLIFIER_TAG@.is_prefix_of(nullifier@),
{
    let mut nullifier = String::from_str(NULLIFIER_TAG);
    append_lower_hex(&mut nullifier, digest.as_slice());
    nullifier
}

/// Derives the nullifier of `device_key` under `salt`.
pub fn derive_nullifier(salt: &str, device_key: &str) -> (nullifier: String)
    ensures
        nullifier@ == nullifier_text(salt@, device_key@),
        nullifier@.len() == NULLIFIER_TAG@.len() + 64,
        NULLIFIER_TAG@.is_prefix_of(nullifier@),
{
    let mut input: Vec<u8> = Vec::new();
    input.extend_from_slice(salt.as_bytes());
    input.extend_from_slice(device_key.as_bytes());
    assert(input@ == salted_key_bytes(salt@, device_key@));
    let digest = sha256(input.as_slice());
    nullifier_from_digest(&digest)
}

/// No two of the sixteen digits are the same character.
proof fn lemma_digit_char_is_injective(a: int, b: int)
    requires
        0 <= a < 16,
        0 <= b < 16,
        digit_char(a) == digit_char(b),
    ensures
        a == b,
{
}

/// Two byte strings with the same hexadecimal text are the same.
pub proof fn lemma_lower_hex_is_injective(a: Seq<u8>, b: Seq<u8>)
    requires
        lower_hex(a) == lower_hex(b),
    ensures
        a == b,
{
    assert(a.len() == b.len()) by {
        assert(lower_hex(a).len() == 2 * a.len());
        assert(lower_hex(b).len() == 2 * b.len());
    }
    assert forall|i: int| 0 <= i < a.len() implies a[i] == b[i] by {
        let high = 2 * i;
        let low = 2 * i + 1;
        assert(high % 2 == 0 && high / 2 == i && low % 2 == 1 && low / 2 == i);
        assert(lower_hex(a)[high] == digit_char(a[i] as int / 16));
        assert(lower_hex(b)[high] == digit_char(b[i] as int / 16));
        assert(lower_hex(a)[low] == digit_char(a[i] as int % 16));
        assert(lower_hex(b)[low] == digit_char(b[i] as int % 16));
        lemma_digit_char_is_injective(a[i] as int / 16, b[i] as int / 16);
        lemma_digit_char_is_injective(a[i] as int % 16, b[i] as int % 16);
    }
    assert(a =~= b);
}

/// Equal device keys have equal nullifiers under one salt.
pub proof fn lemma_nullifier_is_stable(salt: Seq<char>, first: Seq<char>, second: Seq<char>)
    requires
        first == second,
    ensures
        nullifier_text(salt, first) == nullifier_text(salt, second),
{
}

/// Digests that differ are written as nullifiers that differ.
pub proof fn lemma_nullifier_of_digest_is_injective(first: Seq<u8>, second: Seq<u8>)
    requires
        nullifier_of_digest(first) == nullifier_of_digest(second),
    ensures
        first == second,
{
    let tag = NULLIFIER_TAG@;
    assert(lower_hex(first) =~= nullifier_of_digest(first).skip(tag.len() as int));
    assert(lower_hex(second) =~= nullifier_of_digest(second).skip(tag.len() as int));
    lemma_lower_hex_is_injective(first, second);
}

/// Different device keys have different nullifiers under one salt, unless
/// SHA-256 maps the two salted keys to one digest.
pub proof fn lemma_nullifiers_differ(salt: Seq<char>, first: Seq<char>, second: Seq<char>)
    requires
        first != second,
        sha256_digest(salted_key_bytes(salt, first)) != sha256_digest(
            salted_key_bytes(salt, second),
        ),
    ensures
        nullifier_text(salt, first) != nullifier_text(salt, second),
{
    if nullifier_text(salt, first) == nullifier_text(salt, second) {
        lemma_nullifier_of_digest_is_injective(
            sha256_digest(salted_key_bytes(salt, first)),
            sha256_digest(salted_key_bytes(salt, second)),
        );
    }
}

} // verus!
