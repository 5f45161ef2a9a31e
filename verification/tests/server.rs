use ore_hq_server::epoch::{EpochHashes, SolutionVerdict};
use ore_hq_server::keyed::PubkeyMap;
use ore_hq_server::nonce::NonceRange;
use ore_hq_server::server::{authority_text, blockhash_text, handle_client_message, ready_ack, HandlerAction};
use ore_hq_server::solution::Solution;
use ore_hq_server::wire::ClientMessage;

#[test]
fn authority_is_base58() {
    assert_eq!(authority_text(&[0u8; 32]), "11111111111111111111111111111111");
    let key = [1u8; 32];
    assert_eq!(authority_text(&key), solana_sdk::pubkey::Pubkey::new_from_array(key).to_string());
}

#[test]
fn blockhash_is_base64_of_its_bytes() {
    assert_eq!(blockhash_text(&[0u8; 32]).unwrap(), "AAAAAAAAAAAAAAAAAAAAAAAAAAAAAAAAAAAAAAAAAAA=");
    assert_eq!(blockhash_text(&[0xffu8; 32]).unwrap(), "//////////////////////////////////////////8=");
}

#[test]
fn ready_and_mining_messages() {
    assert_eq!(ready_ack(), "Client successfully added.");
    let mut e = EpochHashes::new();
    let ranges = PubkeyMap::new();
    match handle_client_message(&mut e, &ranges, ClientMessage::Ready(5u8), true, &[0; 32], 5) {
        HandlerAction::AddReady(5) => {}
        other => panic!("unexpected {:?}", other),
    }
    assert!(matches!(
        handle_client_message(&mut e, &ranges, ClientMessage::Ready(5u8), false, &[0; 32], 5),
        HandlerAction::Ignore
    ));
    assert!(matches!(
        handle_client_message(&mut e, &ranges, ClientMessage::Mining(5u8), true, &[0; 32], 5),
        HandlerAction::Ignore
    ));
}

#[test]
fn solution_outside_range_is_rejected() {
    let mut e = EpochHashes::new();
    let mut ranges = PubkeyMap::new();
    ranges.insert([1u8; 32], NonceRange { start: 0, end: 10 });
    let s = Solution::new([0; 16], 10u64.to_le_bytes());
    match handle_client_message(&mut e, &ranges, ClientMessage::BestSolution(0u8, s, [1u8; 32]), true, &[0; 32], 5) {
        HandlerAction::Judged(SolutionVerdict::NonceOutOfRange) => {}
        other => panic!("unexpected {:?}", other),
    }
}
