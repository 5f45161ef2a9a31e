//! Authentication of a miner opening a websocket connection: the miner signs the
//! current time with its key and sends key and signature as basic-auth
//! credentials.

use vstd::prelude::*;
use vstd::bytes::{spec_u64_to_le_bytes, u64_to_le_bytes};
use crate::chain::{base58_pubkey, base58_signature, ed25519_verifies, parse_pubkey, parse_signature, verify_signature};

verus! {

/// A signed connection timestamp is accepted while it is younger than this many seconds.
pub const AUTH_MAX_AGE_SECS: u64 = 5;

/// Why a connection attempt was refused (all answered with "unauthorized").
#[derive(Clone, Copy, Debug, PartialEq, Eq)]
pub enum AuthError {
    TimestampTooOld,
    InvalidPubkey,
    InvalidSignature,
    SignatureVerificationFailed,
}

impl AuthError {
    /// The text sent back with the refusal.
    pub fn message(&self) -> (r: &'static str)
        ensures
            r@ == auth_error_text(*self),
    {
        match self {
            AuthError::TimestampTooOld => "Timestamp too old.",
            AuthError::InvalidPubkey => "Invalid pubkey",
            AuthError::InvalidSignature => "Invalid signature",
            AuthError::SignatureVerificationFailed => "Sig verification failed",
        }
    }
}

/// The text of each refusal.
pub open spec fn auth_error_text(e: AuthError) -> Seq<char> {
    match e {
        AuthError::TimestampTooOld => "Timestamp too old."@,
        AuthError::InvalidPubkey => "Invalid pubkey"@,
        AuthError::InvalidSignature => "Invalid signature"@,
        AuthError::SignatureVerificationFailed => "Sig verification failed"@,
    }
}

/// The outcome of authenticating with key text `pubkey`, signature text
/// `signature` and signed `timestamp` at time `now`.
pub open spec fn spec_authenticate(now: u64, timestamp: u64, pubkey: Seq<char>, signature: Seq<char>) -> Result<Seq<u8>, AuthError> {
    if now - timestamp >= AUTH_MAX_AGE_SECS {
        Err(AuthError::TimestampTooOld)
    } else {
        match base58_pubkey(pubkey) {
            None => Err(AuthError::InvalidPubkey),
            Some(key) => match base58_signature(signature) {
                None => Err(AuthError::InvalidSignature),
                Some(sig) => if ed25519_verifies(sig, key, spec_u64_to_le_bytes(timestamp)) {
                    Ok(key)
                } else {
                    Err(AuthError::SignatureVerificationFailed)
                },
            },
        }
    }
}

/// Freshness depends on the timestamp's age alone: a signed timestamp is too
/// old exactly when it is five or more seconds old, and a fresher one whose key
/// and signature parse and verify is accepted, yielding the key.
pub proof fn lemma_auth_freshness(now: u64, timestamp: u64, pubkey: Seq<char>, signature: Seq<char>)
    requires
        timestamp <= now,
    ensures
        (spec_authenticate(now, timestamp, pubkey, signature) == Err::<Seq<u8>, AuthError>(AuthError::TimestampTooOld))
            <==> now - timestamp >= 5,
        now - timestamp < 5 ==> (base58_pubkey(pubkey) matches Some(key) ==> (base58_signature(signature) matches Some(sig)
            ==> (ed25519_verifies(sig, key, spec_u64_to_le_bytes(timestamp)) ==> spec_authenticate(now, timestamp, pubkey, signature) == Ok::<Seq<u8>, AuthError>(key)))),
{
}

/// Authenticates a connecting miner: the timestamp must be less than five
/// seconds old, the key and signature must parse, and the signature must be the
/// key's signature of the timestamp's little-endian bytes. Yields the miner's key.
pub fn authenticate(now: u64, timestamp: u64, pubkey: &str, signature: &str) -> (r: Result<[u8; 32], AuthError>)
    requires
        timestamp <= now,
    ensures
        match r {
            Ok(k) => spec_authenticate(now, timestamp, pubkey@, signature@) == Ok::<Seq<u8>, AuthError>(k@),
            Err(e) => spec_authenticate(now, timestamp, pubkey@, signature@) == Err::<Seq<u8>, AuthError>(e),
        },
        (r == Err::<[u8; 32], AuthError>(AuthError::TimestampTooOld)) <==> now - timestamp >= 5,
        now - timestamp < 5 ==> (base58_pubkey(pubkey@) matches Some(key) ==> (base58_signature(signature@) matches Some(sig)
            ==> (ed25519_verifies(sig, key, spec_u64_to_le_bytes(timestamp)) ==> (r matches Ok(k) && k@ == key)))),
{
    if now - timestamp >= AUTH_MAX_AGE_SECS {
        return Err(AuthError::TimestampTooOld);
    }
    let key = match parse_pubkey(pubkey) {
        Some(k) => k,
        None => {
            return Err(AuthError::InvalidPubkey);
        },
    };
    let sig = match parse_signature(signature) {
        Some(s) => s,
        None => {
            return Err(AuthError::InvalidSignature);
        },
    };
    let message = u64_to_le_bytes(timestamp);
    if verify_signature(&sig, &key, message.as_slice()) {
        Ok(key)
    } else {
        Err(AuthError::SignatureVerificationFailed)
    }
}

} // verus!
