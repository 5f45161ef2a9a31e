//! The calls this library makes into the Solana SDK, drillx and the ORE program
//! crates, each behind a trusted item whose contract is believed, not proved.

use vstd::prelude::*;
use vstd::utf8::{decode_utf8, valid_utf8};
use std::str::FromStr;
use base64::Engine;
use rand::Rng;

verus! {

/// What `solana_sdk::pubkey::Pubkey::from_str` yields for a string: the 32 key
/// bytes the base58 text decodes to, or `None`.
pub uninterp spec fn base58_pubkey(s: Seq<char>) -> Option<Seq<u8>>;

/// What `solana_sdk::signature::Signature::from_str` yields for a string: the 64
/// signature bytes the base58 text decodes to, or `None`.
pub uninterp spec fn base58_signature(s: Seq<char>) -> Option<Seq<u8>>;

/// What `solana_sdk::signature::Signature::verify` answers: whether `signature`
/// is a valid (strict) ed25519 signature of `message` under the key `pubkey`.
pub uninterp spec fn ed25519_verifies(signature: Seq<u8>, pubkey: Seq<u8>, message: Seq<u8>) -> bool;

/// What `drillx::Solution::is_valid` answers: whether `digest` is a valid equihash
/// solution for the seed made of `challenge` and `nonce`.
pub uninterp spec fn drillx_valid(challenge: Seq<u8>, nonce: Seq<u8>, digest: Seq<u8>) -> bool;

/// What `drillx::Solution::to_hash` yields as hash bytes: the keccak hash of the
/// sorted digest followed by the nonce.
pub uninterp spec fn drillx_hash(digest: Seq<u8>, nonce: Seq<u8>) -> Seq<u8>;

/// What `Pubkey`'s `Display` writes: the base58 text of the key bytes.
pub uninterp spec fn base58_text(key: Seq<u8>) -> Seq<char>;

/// What `base64`'s standard engine (`BASE64_STANDARD.encode`) yields for bytes.
pub uninterp spec fn base64_standard(bytes: Seq<u8>) -> Seq<char>;

/// Number of leading zero bits of a byte.
pub open spec fn byte_leading_zeros(b: u8) -> nat {
    if b >= 128 {
        0
    } else if b >= 64 {
        1
    } else if b >= 32 {
        2
    } else if b >= 16 {
        3
    } else if b >= 8 {
        4
    } else if b >= 4 {
        5
    } else if b >= 2 {
        6
    } else if b >= 1 {
        7
    } else {
        8
    }
}

/// Number of leading zero bits of a byte string read most significant byte first.
pub open spec fn leading_zero_bits(h: Seq<u8>) -> nat
    decreases h.len(),
{
    if h.len() == 0 {
        0
    } else if h[0] == 0 {
        8 + leading_zero_bits(h.drop_first())
    } else {
        byte_leading_zeros(h[0])
    }
}

/// A byte string has at most eight leading zero bits per byte.
pub proof fn lemma_leading_zero_bits_bound(h: Seq<u8>)
    ensures
        leading_zero_bits(h) <= 8 * h.len(),
    decreases h.len(),
{
    if h.len() > 0 {
        lemma_leading_zero_bits_bound(h.drop_first());
    }
}

/// `Pubkey::from_str` of the Solana SDK: base58 text to key bytes. The key bytes
/// are named by `base58_pubkey`; the decoding itself is not stated here.
#[verifier::external_body]
pub(crate) fn parse_pubkey(s: &str) -> (r: Option<[u8; 32]>)
    ensures
        match r {
            Some(k) => base58_pubkey(s@) == Some(k@),
            None => base58_pubkey(s@) is None,
        },
{
    match solana_sdk::pubkey::Pubkey::from_str(s) {
        Ok(k) => Some(k.to_bytes()),
        Err(_) => None,
    }
}

/// `Signature::from_str` of the Solana SDK: base58 text to signature bytes, named
/// by `base58_signature`.
#[verifier::external_body]
pub(crate) fn parse_signature(s: &str) -> (r: Option<[u8; 64]>)
    ensures
        match r {
            Some(sig) => base58_signature(s@) == Some(sig@),
            None => base58_signature(s@) is None,
        },
{
    match solana_sdk::signature::Signature::from_str(s) {
        Ok(sig) => Some(<[u8; 64]>::from(sig)),
        Err(_) => None,
    }
}

/// `Signature::verify` of the Solana SDK (strict ed25519 verification), named by
/// `ed25519_verifies`.
#[verifier::external_body]
pub(crate) fn verify_signature(signature: &[u8; 64], pubkey: &[u8; 32], message: &[u8]) -> (r: bool)
    ensures
        r == ed25519_verifies(signature@, pubkey@, message@),
{
    solana_sdk::signature::Signature::from(*signature).verify(pubkey, message)
}

/// `drillx::Solution::is_valid`, named by `drillx_valid`.
#[verifier::external_body]
pub(crate) fn drillx_is_valid(digest: &[u8; 16], nonce: &[u8; 8], challenge: &[u8; 32]) -> (r: bool)
    ensures
        r == drillx_valid(challenge@, nonce@, digest@),
{
    drillx::Solution::new(*digest, *nonce).is_valid(challenge)
}

/// The hash bytes of `drillx::Solution::to_hash`, named by `drillx_hash`.
#[verifier::external_body]
pub(crate) fn drillx_solution_hash(digest: &[u8; 16], nonce: &[u8; 8]) -> (r: [u8; 32])
    ensures
        r@ == drillx_hash(digest@, nonce@),
{
    drillx::Solution::new(*digest, *nonce).to_hash().h
}

/// `drillx::difficulty`: the number of leading zero bits of a hash, as its
/// source computes it byte by byte.
#[verifier::external_body]
pub(crate) fn drillx_difficulty(hash: [u8; 32]) -> (r: u32)
    ensures
        r == leading_zero_bits(hash@),
{
    drillx::difficulty(hash)
}

/// `String::from_utf8` of std: the bytes as a string exactly when they are valid UTF-8.
#[verifier::external_body]
pub(crate) fn utf8_to_string(bytes: Vec<u8>) -> (r: Option<String>)
    ensures
        r is Some <==> valid_utf8(bytes@),
        r matches Some(s) ==> s@ == decode_utf8(bytes@),
{
    String::from_utf8(bytes).ok()
}

/// `Pubkey::to_string` of the Solana SDK (base58 text of the key), named by `base58_text`.
#[verifier::external_body]
pub(crate) fn pubkey_to_base58(key: &[u8; 32]) -> (r: String)
    ensures
        r@ == base58_text(key@),
{
    solana_sdk::pubkey::Pubkey::new_from_array(*key).to_string()
}

/// `bincode::serialize` of a Solana blockhash. For this newtype of a 32-byte
/// array bincode writes the 32 bytes as they are (no length prefix). It always
/// succeeds: the default options set no size limit, serializing bytes raises no
/// error of its own, and writing into a `Vec` cannot fail.
#[verifier::external_body]
pub(crate) fn bincode_blockhash(hash: &[u8; 32]) -> (r: Option<Vec<u8>>)
    ensures
        r is Some,
        r matches Some(v) ==> v@ == hash@,
{
    bincode::serialize(&solana_sdk::hash::Hash::new_from_array(*hash)).ok()
}

/// `BASE64_STANDARD.encode` of the `base64` crate, named by `base64_standard`.
#[verifier::external_body]
pub(crate) fn base64_encode(bytes: &[u8]) -> (r: String)
    ensures
        r@ == base64_standard(bytes@),
{
    base64::prelude::BASE64_STANDARD.encode(bytes)
}

/// A bus of the ORE program picked at random: `rand::thread_rng().gen_range`
/// over `0..ore_api::consts::BUS_COUNT` (which is 8). Only the range of the
/// result is stated.
#[verifier::external_body]
pub(crate) fn random_bus() -> (r: usize)
    ensures
        r < 8,
{
    rand::thread_rng().gen_range(0..ore_api::consts::BUS_COUNT)
}

/// `OreError::NeedsReset` of `ore_api`, as the custom program error code it maps to.
#[verifier::external_body]
pub(crate) fn ore_needs_reset_code() -> (r: u32)
    ensures
        r == 0,
{
    u32::from(ore_api::error::OreError::NeedsReset)
}

/// `OreError::HashInvalid` of `ore_api`, as the custom program error code it maps to.
#[verifier::external_body]
pub(crate) fn ore_hash_invalid_code() -> (r: u32)
    ensures
        r == 1,
{
    u32::from(ore_api::error::OreError::HashInvalid)
}

} // verus!
