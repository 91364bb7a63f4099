use lagbot::bybit::{query_part, sign_bybit, signature_hex, signing_payload};
use lagbot::market::{orderbook_topic_symbol, public_base, public_stream_url, testnet_flag};

#[test]
fn testnet_flag_values() {
    assert!(testnet_flag("1"));
    assert!(testnet_flag("true"));
    assert!(testnet_flag("TRUE"));
    assert!(testnet_flag("True"));
    assert!(!testnet_flag("0"));
    assert!(!testnet_flag("yes"));
    assert!(!testnet_flag(""));
    assert!(!testnet_flag(" true"));
}

#[test]
fn stream_urls() {
    assert_eq!(public_stream_url(true), "wss://stream-testnet.bybit.com/v5/public/linear");
    assert_eq!(public_stream_url(false), "wss://stream.bybit.com/v5/public/linear");
    assert_eq!(public_base(true), "https://api-testnet.bybit.com");
    assert_eq!(public_base(false), "https://api.bybit.com");
}

#[test]
fn orderbook_topic_symbols() {
    assert_eq!(orderbook_topic_symbol("orderbook.1.BTCUSDT"), Some("BTCUSDT"));
    assert_eq!(orderbook_topic_symbol("orderbook.1."), Some(""));
    assert_eq!(orderbook_topic_symbol("orderbook.1.A.B"), Some("B"));
    assert_eq!(orderbook_topic_symbol("orderbook.50.BTCUSDT"), None);
    assert_eq!(orderbook_topic_symbol("tickers.BTCUSDT"), None);
    assert_eq!(orderbook_topic_symbol(""), None);
}

#[test]
fn signing_payload_layout() {
    assert_eq!(
        signing_payload(1_700_000_000_123, "KEY", 5000, "{\"a\":1}"),
        "1700000000123KEY5000{\"a\":1}"
    );
    assert_eq!(signing_payload(0, "", 0, ""), "00");
}

#[test]
fn query_part_after_first_question_mark() {
    assert_eq!(query_part("/v5/order/realtime?category=linear&symbol=X"), "category=linear&symbol=X");
    assert_eq!(query_part("/v5/position/list"), "");
    assert_eq!(query_part("/a?b?c"), "b?c");
    assert_eq!(query_part("?"), "");
}

#[test]
fn signed_request_depends_on_payload() {
    let p = signing_payload(1, "k", 5000, "body");
    let s1 = sign_bybit("secret", &p);
    let s2 = sign_bybit("secret", &signing_payload(2, "k", 5000, "body"));
    assert_eq!(s1.len(), 64);
    assert_ne!(s1, s2);
}

#[test]
fn signature_hex_renders_lower_case_pairs() {
    assert_eq!(signature_hex(&[0x00, 0xab, 0x5f, 0xff, 0x10]), "00ab5fff10");
    assert_eq!(signature_hex(&[]), "");
    assert_eq!(signature_hex(&[0x0a]), "0a");
}
