use hex_escrow::bid::Bid;
use hex_escrow::external::u128_dec_format::{deserialize, serialize};
use hex_escrow::external::{empty_stream_id, read_single, Reply, StreamFinishReason, StreamStatus};
use hex_escrow::game::Player;
use hex_escrow::internal::{SagaError, StreamRequest};
use hex_escrow::roketo::{
    get_two_streams, pause_stream, roketo_create_stream, roketo_get_account, roketo_get_stream, start_stream,
    stop_stream, stream_call,
};
use hex_escrow::utils::{
    FEE, MAX_BID, MAX_PLAYTIME, MIN_BID, MIN_MAKE_BID_GAS, MIN_MAKE_MOVE_GAS, MIN_PLAYTIME, ONE_NEAR,
    ONE_TERA, ROKETO_ACC, WRAP_ACC,
};
use hex_escrow::StorageKey;

#[test]
fn limits_agree_with_the_chain() {
    assert_eq!(ONE_NEAR, near_sdk::ONE_NEAR);
    assert_eq!(ONE_TERA, near_sdk::Gas::ONE_TERA.0);
    assert_eq!(MIN_BID, 2 * near_sdk::ONE_NEAR);
    assert_eq!(MAX_BID, 100 * near_sdk::ONE_NEAR);
    assert_eq!(FEE, 2 * 10u128.pow(23));
    assert_eq!(MIN_PLAYTIME, 300);
    assert_eq!(MAX_PLAYTIME, 3600);
    assert_eq!(MIN_MAKE_BID_GAS, 300_000_000_000_000);
    assert_eq!(MIN_MAKE_MOVE_GAS, 300_000_000_000_000);
    assert_eq!(ROKETO_ACC, "streaming-r-v2.dcversus.testnet");
    assert_eq!(WRAP_ACC, "wrap.testnet");
    assert!(ROKETO_ACC.parse::<near_sdk::AccountId>().is_ok());
    assert!(WRAP_ACC.parse::<near_sdk::AccountId>().is_ok());
    assert_ne!(StorageKey::Games, StorageKey::Bid);
    assert_ne!(StorageKey::Field { game_id: 1 }, StorageKey::Field { game_id: 2 });
}

#[test]
fn stream_ids_convert_to_the_chain_hash() {
    let id = empty_stream_id();
    assert_eq!(id, [0u8; 32]);
    let hash = near_sdk::json_types::Base58CryptoHash::from(id);
    assert_eq!(hash, near_sdk::json_types::Base58CryptoHash::default());
    let back: [u8; 32] = hash.into();
    assert_eq!(back, id);
}

#[test]
fn amounts_are_written_in_decimal() {
    assert_eq!(serialize(&0), "0");
    assert_eq!(serialize(&7), "7");
    assert_eq!(serialize(&10), "10");
    assert_eq!(serialize(&1234567890), "1234567890");
    assert_eq!(serialize(&u128::MAX), "340282366920938463463374607431768211455");
}

#[test]
fn amounts_are_read_from_decimal() {
    assert_eq!(deserialize("0"), Some(0));
    assert_eq!(deserialize("42"), Some(42));
    assert_eq!(deserialize("+42"), Some(42));
    assert_eq!(deserialize("007"), Some(7));
    assert_eq!(deserialize("340282366920938463463374607431768211455"), Some(u128::MAX));
    assert_eq!(deserialize("340282366920938463463374607431768211456"), None);
    assert_eq!(deserialize(""), None);
    assert_eq!(deserialize("+"), None);
    assert_eq!(deserialize("-1"), None);
    assert_eq!(deserialize("1 "), None);
    assert_eq!(deserialize("12a"), None);
    assert_eq!(deserialize("++1"), None);
    assert_eq!(deserialize(&serialize(&987654321987654321)), Some(987654321987654321));
}

#[test]
fn stream_requests() {
    let id = [9u8; 32];
    let pause = pause_stream(id);
    assert_eq!(pause.request, StreamRequest::Pause);
    assert_eq!(pause.stream_id, id);
    assert_eq!(pause.deposit, 1);
    assert_eq!(pause.gas, Some(50_000_000_000_000));
    let stop = stop_stream(id);
    assert_eq!((stop.request, stop.stream_id, stop.deposit, stop.gas), (StreamRequest::Stop, id, 1, None));
    let start = start_stream(id);
    assert_eq!((start.request, start.stream_id, start.deposit, start.gas), (StreamRequest::Start, id, 1, None));
    assert_eq!(stream_call(StreamRequest::Pause, id), pause);
    assert_eq!(stream_call(StreamRequest::Stop, id), stop);
    assert_eq!(stream_call(StreamRequest::Start, id), start);
}

#[test]
fn create_stream_request() {
    let owner = String::from("ledger.testnet");
    let receiver = String::from("alice.testnet");
    let r = roketo_create_stream(10, 3, &owner, &receiver);
    assert_eq!(r.deposit, 11);
    assert_eq!(r.amount, 11);
    assert_eq!(r.memo, "Roketo transfer");
    assert_eq!(r.transfer_deposit, 1);
    assert_eq!(r.transfer_gas, 50_000_000_000_000);
    assert_eq!(
        r.message,
        "{\"Create\":{\"request\":{\"balance\":\"10\", \"owner_id\":\"ledger.testnet\",\"receiver_id\":\"alice.testnet\",\"token_name\": \"wrap.testnet\", \"tokens_per_sec\":\"4\"}}}"
    );
    let r = roketo_create_stream(9, 3, &owner, &receiver);
    assert_eq!(r.deposit, 10);
    assert!(r.message.ends_with("\"tokens_per_sec\":\"3\"}}}"));
    let r = roketo_create_stream(0, 1, &owner, &receiver);
    assert_eq!(r.deposit, 0);
    assert!(r.message.ends_with("\"tokens_per_sec\":\"0\"}}}"));
}

#[test]
fn escrow_record() {
    let mut bid = Bid::new(5);
    assert_eq!(bid.bid, 5);
    assert!(!bid.did_first_player_bet && !bid.did_second_player_bet);
    assert_eq!(bid.stream_to_first_player, [0u8; 32]);
    assert_eq!(bid.stream_to_second_player, [0u8; 32]);
    assert!(!bid.both_funded());
    bid.record_funding(Player::First, [3u8; 32]);
    assert!(bid.did_first_player_bet && !bid.did_second_player_bet);
    assert_eq!(bid.stream_to_first_player, [3u8; 32]);
    bid.record_funding(Player::First, [4u8; 32]);
    assert_eq!(bid.stream_to_first_player, [4u8; 32]);
    assert!(!bid.both_funded());
    bid.record_funding(Player::Second, [5u8; 32]);
    assert!(bid.both_funded());
    assert_eq!(bid.bid, 5);
    let (first, second) = bid.stop_streams();
    assert_eq!(first, stop_stream([4u8; 32]));
    assert_eq!(second, stop_stream([5u8; 32]));
}

#[test]
fn single_answer() {
    assert_eq!(read_single::<u8>(&vec![]), Err(SagaError::WrongResultsCount));
    assert_eq!(read_single(&vec![Reply::Received(1u8), Reply::Received(2u8)]), Err(SagaError::WrongResultsCount));
    assert_eq!(read_single::<u8>(&vec![Reply::Failed]), Err(SagaError::CallFailed));
    assert_eq!(read_single::<u8>(&vec![Reply::Malformed]), Err(SagaError::WrongValueReceived));
    assert_eq!(read_single(&vec![Reply::Received(3u8)]), Ok(3));
    assert!(StreamStatus::Finished { reason: StreamFinishReason::StoppedByReceiver }.has_finished());
    assert!(!StreamStatus::Paused.has_finished());
    assert!(!StreamStatus::Initialized.has_finished());
    assert!(!StreamStatus::Active.has_finished());
}

#[test]
fn queries() {
    assert_eq!(roketo_get_stream([3u8; 32]).stream_id, [3u8; 32]);
    let (first, second) = get_two_streams([1u8; 32], [2u8; 32]);
    assert_eq!(first.stream_id, [1u8; 32]);
    assert_eq!(second.stream_id, [2u8; 32]);
    let query = roketo_get_account(String::from("ledger.testnet"));
    assert_eq!(query.account_id, "ledger.testnet");
    assert_eq!(query.only_if_exist, None);
}
