use ore_hq_server::auth::{authenticate, AuthError};
use solana_sdk::signature::Signer;
use solana_sdk::signer::keypair::keypair_from_seed;

fn credentials(ts: u64) -> (String, String, [u8; 32]) {
    let kp = keypair_from_seed(&[3u8; 32]).unwrap();
    let sig = kp.sign_message(&ts.to_le_bytes());
    (kp.pubkey().to_string(), sig.to_string(), kp.pubkey().to_bytes())
}

#[test]
fn valid_credentials_accepted() {
    let (pk, sig, key) = credentials(1000);
    assert_eq!(authenticate(1004, 1000, &pk, &sig), Ok(key));
    assert_eq!(authenticate(1000, 1000, &pk, &sig), Ok(key));
}

#[test]
fn timestamp_too_old() {
    let (pk, sig, _) = credentials(1000);
    let e = authenticate(1005, 1000, &pk, &sig).unwrap_err();
    assert_eq!(e, AuthError::TimestampTooOld);
    assert_eq!(e.message(), "Timestamp too old.");
}

#[test]
fn invalid_pubkey() {
    let (_, sig, _) = credentials(1000);
    let e = authenticate(1000, 1000, "not-a-key", &sig).unwrap_err();
    assert_eq!(e, AuthError::InvalidPubkey);
    assert_eq!(e.message(), "Invalid pubkey");
}

#[test]
fn invalid_signature() {
    let (pk, _, _) = credentials(1000);
    let e = authenticate(1000, 1000, &pk, "xyz").unwrap_err();
    assert_eq!(e, AuthError::InvalidSignature);
    assert_eq!(e.message(), "Invalid signature");
}

#[test]
fn signature_of_other_timestamp_fails() {
    let (pk, sig, _) = credentials(999);
    let e = authenticate(1000, 1000, &pk, &sig).unwrap_err();
    assert_eq!(e, AuthError::SignatureVerificationFailed);
    assert_eq!(e.message(), "Sig verification failed");
}
