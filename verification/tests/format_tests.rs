use punk_watch::format::dec_string;
use punk_watch::payload::notification_payload;
use punk_watch::u256::U256;

#[test]
fn decimal_of_zero() {
    assert_eq!(dec_string(&U256::zero()), "0");
}

#[test]
fn decimal_of_small_values() {
    assert_eq!(dec_string(&U256::from_u64(7)), "7");
    assert_eq!(dec_string(&U256::from_u64(10)), "10");
    assert_eq!(dec_string(&U256::from_u64(12345)), "12345");
    assert_eq!(dec_string(&U256::from_u64(u64::MAX)), "18446744073709551615");
}

#[test]
fn decimal_of_multi_limb_values() {
    // 2^64 exactly.
    let two_64 = U256 { w0: 0, w1: 1, w2: 0, w3: 0 };
    assert_eq!(dec_string(&two_64), "18446744073709551616");
    // The largest 256-bit value.
    let max = U256 { w0: u64::MAX, w1: u64::MAX, w2: u64::MAX, w3: u64::MAX };
    assert_eq!(
        dec_string(&max),
        "115792089237316195423570985008687907853269984665640564039457584007913129639935"
    );
}

#[test]
fn u256_equality_and_zero_test() {
    assert!(U256::zero().is_zero());
    assert!(!U256::from_u64(1).is_zero());
    assert!(U256::from_u64(5).eq_value(&U256::from_u64(5)));
    assert!(!U256::from_u64(5).eq_value(&U256::from_u64(6)));
}

#[test]
fn payload_wraps_message_under_content() {
    assert_eq!(
        notification_payload("PunkBought: punk 42"),
        "{\"content\":\"PunkBought: punk 42\"}"
    );
}

#[test]
fn payload_escapes_quotes_and_backslashes() {
    assert_eq!(notification_payload("a\"b"), "{\"content\":\"a\\\"b\"}");
    assert_eq!(notification_payload("a\\b"), "{\"content\":\"a\\\\b\"}");
}

#[test]
fn payload_escapes_control_characters() {
    assert_eq!(notification_payload("a\nb\tc\rd"), "{\"content\":\"a\\nb\\tc\\rd\"}");
    assert_eq!(notification_payload("\u{8}\u{c}"), "{\"content\":\"\\b\\f\"}");
    assert_eq!(notification_payload("x\u{1}y\u{1f}z"), "{\"content\":\"x\\u0001y\\u001fz\"}");
}

#[test]
fn payload_keeps_ordinary_text() {
    assert_eq!(notification_payload(""), "{\"content\":\"\"}");
    assert_eq!(
        notification_payload("Transfer: from 0xaa to 0xbb, value: 5"),
        "{\"content\":\"Transfer: from 0xaa to 0xbb, value: 5\"}"
    );
}
