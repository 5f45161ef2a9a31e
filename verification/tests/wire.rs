use std::ops::ControlFlow;

use ore_hq_server::nonce::NonceRange;
use ore_hq_server::wire::{
    encode_start_frame, parse_client_frame, process_message, solution_message, ClientFrame,
    ClientMessage, CloseFrame, WsMessage,
};
use solana_sdk::signature::Signer;
use solana_sdk::signer::keypair::keypair_from_seed;

fn ready_frame(pubkey: [u8; 32], ts: u64) -> Vec<u8> {
    let mut d = vec![0u8];
    d.extend_from_slice(&pubkey);
    d.extend_from_slice(&ts.to_le_bytes());
    d
}

fn solution_frame(digest: [u8; 16], nonce: [u8; 8], pubkey: [u8; 32], sig: &[u8]) -> Vec<u8> {
    let mut d = vec![2u8];
    d.extend_from_slice(&digest);
    d.extend_from_slice(&nonce);
    d.extend_from_slice(&pubkey);
    d.extend_from_slice(sig);
    d
}

#[test]
fn parses_ready_frame() {
    let d = ready_frame([9u8; 32], 1_700_000_000);
    match parse_client_frame(&d) {
        ClientFrame::Ready { pubkey, timestamp } => {
            assert_eq!(pubkey, [9u8; 32]);
            assert_eq!(timestamp, 1_700_000_000);
        }
        other => panic!("unexpected frame {:?}", other),
    }
}

#[test]
fn parses_mining_and_unknown_frames() {
    assert!(matches!(parse_client_frame(&[1u8]), ClientFrame::Mining));
    assert!(matches!(parse_client_frame(&[7u8, 1, 2]), ClientFrame::Unknown { kind: 7 }));
}

#[test]
fn parses_solution_frame() {
    let d = solution_frame([1u8; 16], [2u8; 8], [3u8; 32], b"sig");
    match parse_client_frame(&d) {
        ClientFrame::Solution { digest, nonce, pubkey, signature } => {
            assert_eq!(digest, [1u8; 16]);
            assert_eq!(nonce, [2u8; 8]);
            assert_eq!(pubkey, [3u8; 32]);
            assert_eq!(signature, b"sig".to_vec());
        }
        other => panic!("unexpected frame {:?}", other),
    }
}

#[test]
fn solution_message_is_digest_then_nonce() {
    let m = solution_message(&[0xaa; 16], &[0xbb; 8]);
    assert_eq!(&m[..16], &[0xaa; 16]);
    assert_eq!(&m[16..], &[0xbb; 8]);
}

#[test]
fn start_frame_layout() {
    let challenge = [5u8; 32];
    let f = encode_start_frame(&challenge, -3, NonceRange { start: 2_000_000, end: 4_000_000 });
    assert_eq!(f.len(), 57);
    assert_eq!(f[0], 0);
    assert_eq!(&f[1..33], &challenge);
    assert_eq!(&f[33..41], &(-3i64).to_le_bytes());
    assert_eq!(&f[41..49], &2_000_000u64.to_le_bytes());
    assert_eq!(&f[49..57], &4_000_000u64.to_le_bytes());
}

#[test]
fn fresh_ready_is_forwarded() {
    let (flow, msg) = process_message(WsMessage::Binary(ready_frame([1; 32], 100)), 42u32, 105);
    assert_eq!(flow, ControlFlow::Continue(()));
    assert!(matches!(msg, Some(ClientMessage::Ready(42))));
}

#[test]
fn stale_ready_closes_connection() {
    let (flow, msg) = process_message(WsMessage::Binary(ready_frame([1; 32], 100)), 42u32, 106);
    assert_eq!(flow, ControlFlow::Break(()));
    assert!(msg.is_none());
}

#[test]
fn mining_is_forwarded() {
    let (flow, msg) = process_message(WsMessage::Binary(vec![1]), 7u32, 0);
    assert_eq!(flow, ControlFlow::Continue(()));
    assert!(matches!(msg, Some(ClientMessage::Mining(7))));
}

#[test]
fn close_text_ping_pong_unknown() {
    let (flow, msg) = process_message(WsMessage::Close(None), 1u8, 0);
    assert_eq!(flow, ControlFlow::Break(()));
    assert!(msg.is_none());
    let (flow, msg) = process_message(
        WsMessage::Close(Some(CloseFrame { code: 1000, reason: "bye".to_string() })),
        1u8,
        0,
    );
    assert_eq!(flow, ControlFlow::Break(()));
    assert!(msg.is_none());
    for m in [
        WsMessage::Text("hi".to_string()),
        WsMessage::Ping(vec![1, 2, 3]),
        WsMessage::Pong(vec![]),
        WsMessage::Binary(vec![9, 9]),
    ] {
        let (flow, msg) = process_message(m, 1u8, 0);
        assert_eq!(flow, ControlFlow::Continue(()));
        assert!(msg.is_none());
    }
}

#[test]
fn signed_solution_is_forwarded() {
    let kp = keypair_from_seed(&[7u8; 32]).unwrap();
    let pubkey = kp.pubkey().to_bytes();
    let digest = [4u8; 16];
    let nonce = 12345u64.to_le_bytes();
    let mut signed = [0u8; 24];
    signed[..16].copy_from_slice(&digest);
    signed[16..].copy_from_slice(&nonce);
    let sig = kp.sign_message(&signed).to_string();
    let d = solution_frame(digest, nonce, pubkey, sig.as_bytes());
    let (flow, msg) = process_message(WsMessage::Binary(d), 3u16, 0);
    assert_eq!(flow, ControlFlow::Continue(()));
    match msg {
        Some(ClientMessage::BestSolution(who, sol, key)) => {
            assert_eq!(who, 3);
            assert_eq!(sol.d, digest);
            assert_eq!(sol.n, nonce);
            assert_eq!(key, pubkey);
        }
        other => panic!("unexpected {:?}", other),
    }
}

#[test]
fn badly_signed_solution_is_dropped() {
    let kp = keypair_from_seed(&[7u8; 32]).unwrap();
    let pubkey = kp.pubkey().to_bytes();
    // signature of a different message
    let sig = kp.sign_message(b"something else").to_string();
    let d = solution_frame([4u8; 16], [0u8; 8], pubkey, sig.as_bytes());
    let (flow, msg) = process_message(WsMessage::Binary(d), 3u16, 0);
    assert_eq!(flow, ControlFlow::Continue(()));
    assert!(msg.is_none());
    // not base58
    let d = solution_frame([4u8; 16], [0u8; 8], pubkey, b"0OIl");
    assert!(process_message(WsMessage::Binary(d), 3u16, 0).1.is_none());
    // not UTF-8
    let d = solution_frame([4u8; 16], [0u8; 8], pubkey, &[0xff, 0xfe]);
    assert!(process_message(WsMessage::Binary(d), 3u16, 0).1.is_none());
}
