use punk_watch::events::RawLogRecord;
use punk_watch::u256::U256;
use punk_watch::watch::{after_delivery, step, LoopState, WatchMode};
use tiny_keccak::{Hasher, Keccak};

fn keccak256(data: &[u8]) -> [u8; 32] {
    let mut k = Keccak::v256();
    k.update(data);
    let mut out = [0u8; 32];
    k.finalize(&mut out);
    out
}

fn sig_topic(sig: &str) -> Vec<u8> {
    keccak256(sig.as_bytes()).to_vec()
}

fn word_topic(n: u128) -> Vec<u8> {
    let mut v = vec![0u8; 32];
    v[16..32].copy_from_slice(&n.to_be_bytes());
    v
}

fn addr_topic(b: u8) -> Vec<u8> {
    let mut v = vec![0u8; 32];
    for i in 12..32 {
        v[i] = b;
    }
    v
}

fn bid_record(punk: u128, value: u128) -> RawLogRecord {
    RawLogRecord {
        topics: vec![
            sig_topic("PunkBidEntered(uint256,uint256,address)"),
            word_topic(punk),
            addr_topic(0x51),
        ],
        data: word_topic(value),
    }
}

fn bought_record(punk: u128) -> RawLogRecord {
    RawLogRecord {
        topics: vec![
            sig_topic("PunkBought(uint256,uint256,address,address)"),
            word_topic(punk),
            addr_topic(0xaa),
            addr_topic(0xbb),
        ],
        data: word_topic(10),
    }
}

#[test]
fn watch_all_always_keeps_listening() {
    let mode = WatchMode::All;
    let out = step(&mode, &bought_record(1));
    assert_eq!(out.next, LoopState::Listening);
    assert!(out.message.is_some());
    // Even an unrecognized record keeps the loop listening and messages.
    let junk = RawLogRecord { topics: vec![], data: vec![] };
    let out2 = step(&mode, &junk);
    assert_eq!(out2.next, LoopState::Listening);
    assert_eq!(out2.message.unwrap(), "Unknown event: topics [], data 0x");
}

#[test]
fn single_bid_matching_identifier_continues() {
    let mode = WatchMode::SingleBid { punk_index: U256::from_u64(42) };
    let out = step(&mode, &bid_record(42, 999));
    assert_eq!(out.next, LoopState::Listening);
    let msg = out.message.expect("a matching bid is notified");
    assert_eq!(
        msg,
        "PunkBidEntered: punk 42 bid 999 wei by 0x5151515151515151515151515151515151515151"
    );
}

#[test]
fn single_bid_other_identifier_stops() {
    let mode = WatchMode::SingleBid { punk_index: U256::from_u64(42) };
    let out = step(&mode, &bid_record(43, 999));
    assert_eq!(out.next, LoopState::Stopped);
    assert!(out.message.is_none());
}

#[test]
fn single_bid_other_shape_stops() {
    let mode = WatchMode::SingleBid { punk_index: U256::from_u64(42) };
    // A bought record for the very same identifier still stops the loop.
    let out = step(&mode, &bought_record(42));
    assert_eq!(out.next, LoopState::Stopped);
    assert!(out.message.is_none());
    // So does an unrecognized record.
    let junk = RawLogRecord { topics: vec![], data: vec![] };
    let out2 = step(&mode, &junk);
    assert_eq!(out2.next, LoopState::Stopped);
}

#[test]
fn delivery_failure_does_not_stop_the_loop() {
    let mode = WatchMode::All;
    let first = step(&mode, &bought_record(1));
    assert!(first.message.is_some());
    // The sink refuses the first message: the state is unchanged.
    let state = after_delivery(first.next, false);
    assert_eq!(state, LoopState::Listening);
    // The loop goes on to consume a second record.
    let second = step(&mode, &bid_record(2, 5));
    assert!(second.message.is_some());
    assert_eq!(after_delivery(second.next, true), LoopState::Listening);
}
