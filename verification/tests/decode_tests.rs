use punk_watch::decode::decode_event;
use punk_watch::events::{EventShape, RawLogRecord};
use punk_watch::events::{
    sel_assign_word, sel_punk_bid_entered_word, sel_punk_bid_withdrawn_word, sel_punk_bought_word,
    sel_punk_no_longer_for_sale_word, sel_punk_offered_word, sel_punk_transfer_word,
    sel_transfer_word,
};
use punk_watch::render::record_message;
use punk_watch::u256::U256;
use tiny_keccak::{Hasher, Keccak};

fn keccak256(data: &[u8]) -> [u8; 32] {
    let mut k = Keccak::v256();
    k.update(data);
    let mut out = [0u8; 32];
    k.finalize(&mut out);
    out
}

fn keccak_hex(sig: &str) -> String {
    keccak256(sig.as_bytes()).iter().map(|b| format!("{:02x}", b)).collect()
}

fn word_hex(w: &U256) -> String {
    format!("{:016x}{:016x}{:016x}{:016x}", w.w3, w.w2, w.w1, w.w0)
}

fn sig_topic(sig: &str) -> Vec<u8> {
    keccak256(sig.as_bytes()).to_vec()
}

fn word_topic(n: u128) -> Vec<u8> {
    let mut v = vec![0u8; 32];
    v[16..32].copy_from_slice(&n.to_be_bytes());
    v
}

fn addr_topic(b: u8) -> Vec<u8> {
    let mut v = vec![0u8; 32];
    for i in 12..32 {
        v[i] = b;
    }
    v
}

fn addr_hex(b: u8) -> String {
    let mut s = String::from("0x");
    for _ in 0..20 {
        s.push_str(&format!("{:02x}", b));
    }
    s
}

#[test]
fn selectors_match_signatures() {
    assert_eq!(word_hex(&sel_assign_word()), keccak_hex("Assign(address,uint256)"));
    assert_eq!(word_hex(&sel_transfer_word()), keccak_hex("Transfer(address,address,uint256)"));
    assert_eq!(
        word_hex(&sel_punk_transfer_word()),
        keccak_hex("PunkTransfer(address,address,uint256)")
    );
    assert_eq!(
        word_hex(&sel_punk_offered_word()),
        keccak_hex("PunkOffered(uint256,uint256,address)")
    );
    assert_eq!(
        word_hex(&sel_punk_bid_entered_word()),
        keccak_hex("PunkBidEntered(uint256,uint256,address)")
    );
    assert_eq!(
        word_hex(&sel_punk_bid_withdrawn_word()),
        keccak_hex("PunkBidWithdrawn(uint256,uint256,address)")
    );
    assert_eq!(
        word_hex(&sel_punk_bought_word()),
        keccak_hex("PunkBought(uint256,uint256,address,address)")
    );
    assert_eq!(
        word_hex(&sel_punk_no_longer_for_sale_word()),
        keccak_hex("PunkNoLongerForSale(uint256)")
    );
}

#[test]
fn decodes_assign() {
    let r = RawLogRecord {
        topics: vec![sig_topic("Assign(address,uint256)"), addr_topic(0x11)],
        data: word_topic(7),
    };
    match decode_event(&r) {
        Some(EventShape::Assign { to, punk_index }) => {
            assert_eq!(to.bytes, vec![0x11u8; 20]);
            assert!(punk_index.eq_value(&U256::from_u64(7)));
        }
        _ => panic!("expected Assign"),
    }
    assert_eq!(
        record_message(&r),
        format!("Assign: punk 7 assigned to {}", addr_hex(0x11))
    );
}

#[test]
fn decodes_transfer() {
    let r = RawLogRecord {
        topics: vec![
            sig_topic("Transfer(address,address,uint256)"),
            addr_topic(0x21),
            addr_topic(0x22),
        ],
        data: word_topic(5),
    };
    match decode_event(&r) {
        Some(EventShape::Transfer { from, to, value }) => {
            assert_eq!(from.bytes, vec![0x21u8; 20]);
            assert_eq!(to.bytes, vec![0x22u8; 20]);
            assert!(value.eq_value(&U256::from_u64(5)));
        }
        _ => panic!("expected Transfer"),
    }
    assert_eq!(
        record_message(&r),
        format!("Transfer: from {} to {}, value: 5", addr_hex(0x21), addr_hex(0x22))
    );
}

#[test]
fn decodes_punk_transfer() {
    let r = RawLogRecord {
        topics: vec![
            sig_topic("PunkTransfer(address,address,uint256)"),
            addr_topic(0x31),
            addr_topic(0x32),
        ],
        data: word_topic(9000),
    };
    match decode_event(&r) {
        Some(EventShape::PunkTransfer { from, to, punk_index }) => {
            assert_eq!(from.bytes, vec![0x31u8; 20]);
            assert_eq!(to.bytes, vec![0x32u8; 20]);
            assert!(punk_index.eq_value(&U256::from_u64(9000)));
        }
        _ => panic!("expected PunkTransfer"),
    }
    assert_eq!(
        record_message(&r),
        format!(
            "PunkTransfer: punk 9000 transferred from {} to {}",
            addr_hex(0x31),
            addr_hex(0x32)
        )
    );
}

#[test]
fn decodes_punk_offered() {
    let r = RawLogRecord {
        topics: vec![
            sig_topic("PunkOffered(uint256,uint256,address)"),
            word_topic(123),
            addr_topic(0x41),
        ],
        data: word_topic(55_000),
    };
    match decode_event(&r) {
        Some(EventShape::PunkOffered { punk_index, min_value, to_address }) => {
            assert!(punk_index.eq_value(&U256::from_u64(123)));
            assert!(min_value.eq_value(&U256::from_u64(55_000)));
            assert_eq!(to_address.bytes, vec![0x41u8; 20]);
        }
        _ => panic!("expected PunkOffered"),
    }
    assert_eq!(
        record_message(&r),
        format!("PunkOffered: punk 123 offered at minimum 55000 wei to {}", addr_hex(0x41))
    );
}

#[test]
fn decodes_punk_bid_entered() {
    let r = RawLogRecord {
        topics: vec![
            sig_topic("PunkBidEntered(uint256,uint256,address)"),
            word_topic(77),
            addr_topic(0x51),
        ],
        data: word_topic(1234),
    };
    match decode_event(&r) {
        Some(EventShape::PunkBidEntered { punk_index, value, from_address }) => {
            assert!(punk_index.eq_value(&U256::from_u64(77)));
            assert!(value.eq_value(&U256::from_u64(1234)));
            assert_eq!(from_address.bytes, vec![0x51u8; 20]);
        }
        _ => panic!("expected PunkBidEntered"),
    }
    assert_eq!(
        record_message(&r),
        format!("PunkBidEntered: punk 77 bid 1234 wei by {}", addr_hex(0x51))
    );
}

#[test]
fn decodes_punk_bid_withdrawn() {
    let r = RawLogRecord {
        topics: vec![
            sig_topic("PunkBidWithdrawn(uint256,uint256,address)"),
            word_topic(88),
            addr_topic(0x61),
        ],
        data: word_topic(4321),
    };
    match decode_event(&r) {
        Some(EventShape::PunkBidWithdrawn { punk_index, value, from_address }) => {
            assert!(punk_index.eq_value(&U256::from_u64(88)));
            assert!(value.eq_value(&U256::from_u64(4321)));
            assert_eq!(from_address.bytes, vec![0x61u8; 20]);
        }
        _ => panic!("expected PunkBidWithdrawn"),
    }
    assert_eq!(
        record_message(&r),
        format!("PunkBidWithdrawn: punk 88 bid withdrawn by {} for 4321 wei", addr_hex(0x61))
    );
}

#[test]
fn decodes_punk_bought_exact_message() {
    let r = RawLogRecord {
        topics: vec![
            sig_topic("PunkBought(uint256,uint256,address,address)"),
            word_topic(42),
            addr_topic(0xaa),
            addr_topic(0xbb),
        ],
        data: word_topic(1_000_000_000_000_000_000),
    };
    match decode_event(&r) {
        Some(EventShape::PunkBought { punk_index, value, from_address, to_address }) => {
            assert!(punk_index.eq_value(&U256::from_u64(42)));
            assert!(value.eq_value(&U256::from_u64(1_000_000_000_000_000_000)));
            assert_eq!(from_address.bytes, vec![0xaau8; 20]);
            assert_eq!(to_address.bytes, vec![0xbbu8; 20]);
        }
        _ => panic!("expected PunkBought"),
    }
    let msg = record_message(&r);
    assert_eq!(
        msg,
        "PunkBought: punk 42 bought for 1000000000000000000 wei \
         from 0xaaaaaaaaaaaaaaaaaaaaaaaaaaaaaaaaaaaaaaaa \
         to 0xbbbbbbbbbbbbbbbbbbbbbbbbbbbbbbbbbbbbbbbb"
    );
    // That exact text travels as the `content` field of the JSON body.
    assert_eq!(
        punk_watch::payload::notification_payload(&msg),
        format!("{{\"content\":\"{}\"}}", msg)
    );
}

#[test]
fn decodes_punk_no_longer_for_sale() {
    let r = RawLogRecord {
        topics: vec![sig_topic("PunkNoLongerForSale(uint256)"), word_topic(3100)],
        data: vec![],
    };
    match decode_event(&r) {
        Some(EventShape::PunkNoLongerForSale { punk_index }) => {
            assert!(punk_index.eq_value(&U256::from_u64(3100)));
        }
        _ => panic!("expected PunkNoLongerForSale"),
    }
    assert_eq!(record_message(&r), "PunkNoLongerForSale: punk 3100 is no longer for sale");
}

#[test]
fn unknown_selector_is_unrecognized() {
    let r = RawLogRecord {
        topics: vec![sig_topic("SomethingElse(uint256)"), word_topic(1)],
        data: word_topic(2),
    };
    assert!(decode_event(&r).is_none());
    let msg = record_message(&r);
    assert!(msg.starts_with("Unknown event: topics [0x"));
    assert!(msg.contains("], data 0x"));
}

#[test]
fn no_topics_is_unrecognized() {
    let r = RawLogRecord { topics: vec![], data: word_topic(2) };
    assert!(decode_event(&r).is_none());
    assert_eq!(record_message(&r), "Unknown event: topics [], data 0x".to_string() + &"0".repeat(62) + "02");
}

#[test]
fn wrong_structure_is_unrecognized() {
    // Right selector for a bid, but a fourth topic: matches no shape.
    let r = RawLogRecord {
        topics: vec![
            sig_topic("PunkBidEntered(uint256,uint256,address)"),
            word_topic(77),
            addr_topic(0x51),
            addr_topic(0x52),
        ],
        data: word_topic(1234),
    };
    assert!(decode_event(&r).is_none());
    // Right selector, data payload missing.
    let r2 = RawLogRecord {
        topics: vec![sig_topic("Assign(address,uint256)"), addr_topic(0x11)],
        data: vec![],
    };
    assert!(decode_event(&r2).is_none());
}

#[test]
fn decoding_is_deterministic() {
    let r = RawLogRecord {
        topics: vec![
            sig_topic("PunkBought(uint256,uint256,address,address)"),
            word_topic(42),
            addr_topic(0xaa),
            addr_topic(0xbb),
        ],
        data: word_topic(7),
    };
    let first = record_message(&r);
    let second = record_message(&r);
    assert_eq!(first, second);
}
