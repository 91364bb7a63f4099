use lagbot::bybit::{
    ensure_bybit_ok, extract_order_id, leverage_reply_ok, reply_verdict, time_in_force,
    trigger_direction, BybitReplyError,
};
use lagbot::market::binance_stream_url;
use lagbot::risk::{RiskDecision, RiskEngine, RiskFlags};
use lagbot::packet::PacketHeader;

#[test]
fn ensure_ok_accepts_zero() {
    assert!(ensure_bybit_ok(r#"{"retCode":0,"retMsg":"OK","result":{}}"#).is_ok());
    assert!(ensure_bybit_ok(r#"{"retCode":10001,"retMsg":"fail"}"#).is_err());
}

#[test]
fn reply_errors_carry_code_and_message() {
    assert_eq!(
        ensure_bybit_ok(r#"{"retCode":10001,"retMsg":"fail"}"#),
        Err(BybitReplyError::Rejected { ret_code: 10001, ret_msg: "fail".into() })
    );
    assert_eq!(
        ensure_bybit_ok(r#"{"result":{}}"#),
        Err(BybitReplyError::Rejected { ret_code: -1, ret_msg: String::new() })
    );
    assert_eq!(ensure_bybit_ok("not json"), Err(BybitReplyError::Malformed));
    assert_eq!(ensure_bybit_ok(""), Err(BybitReplyError::Malformed));
    assert_eq!(reply_verdict(Some(0), None), Ok(()));
    assert_eq!(
        reply_verdict(Some(7), Some("x".into())),
        Err(BybitReplyError::Rejected { ret_code: 7, ret_msg: "x".into() })
    );
}

#[test]
fn leverage_not_modified_is_accepted() {
    assert!(leverage_reply_ok(r#"{"retCode":110043,"retMsg":"leverage not modified"}"#).is_ok());
    assert!(leverage_reply_ok(r#"{"retCode":0,"retMsg":"OK"}"#).is_ok());
    assert_eq!(
        leverage_reply_ok(r#"{"retCode":10001,"retMsg":"bad"}"#),
        Err(BybitReplyError::Rejected { ret_code: 10001, ret_msg: "bad".into() })
    );
    assert_eq!(leverage_reply_ok("<html>"), Err(BybitReplyError::Malformed));
}

#[test]
fn order_ids_from_replies() {
    assert_eq!(
        extract_order_id(r#"{"retCode":0,"result":{"orderId":"abc-1"}}"#),
        Some("abc-1".to_string())
    );
    assert_eq!(extract_order_id(r#"{"retCode":0,"result":{"orderId":12}}"#), None);
    assert_eq!(extract_order_id(r#"{"retCode":0,"result":{}}"#), None);
    assert_eq!(extract_order_id("oops"), None);
}

#[test]
fn conditional_order_fields() {
    assert_eq!(trigger_direction("Sell"), 2);
    assert_eq!(trigger_direction("sell"), 2);
    assert_eq!(trigger_direction("Buy"), 1);
    assert_eq!(trigger_direction(""), 1);
    assert_eq!(time_in_force(true), "GTC");
    assert_eq!(time_in_force(false), "IOC");
}

#[test]
fn binance_stream_urls() {
    assert_eq!(
        binance_stream_url(&["BTCUSDT".to_string(), "EthUsdt".to_string()]),
        "wss://fstream.binance.com/stream?streams=btcusdt@bookTicker/ethusdt@bookTicker"
    );
    assert_eq!(
        binance_stream_url(&["SOLUSDT".to_string()]),
        "wss://fstream.binance.com/stream?streams=solusdt@bookTicker"
    );
    assert_eq!(binance_stream_url(&[]), "wss://fstream.binance.com/stream?streams=");
}

#[test]
fn configured_latency_budget() {
    let mut re = RiskEngine::with_max_latency(1_000);
    assert_eq!(re.max_latency_ns, 1_000);
    let flags = RiskFlags::all_futures();
    let mut p = PacketHeader::neutral(1, 10_000, 1);
    p.entry_valid = 1;
    assert_eq!(re.check_entry(&p, 11_001, true, flags), RiskDecision::Stale);
    assert_eq!(re.check_entry(&p, 11_000, true, flags), RiskDecision::Open);
    assert_eq!(RiskEngine::default().max_latency_ns, 150_000_000);
}
