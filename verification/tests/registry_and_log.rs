use lagbot::config::SymbolConfig;
use lagbot::ipc::{binance_tick_topic, bybit_mid_topic, heartbeat_from_payload, heartbeat_payload, topic_for_symbol, HEARTBEAT_TOPIC};
use lagbot::packet_log::{frame_record, split_records, LogFrameError, MAX_RECORD_BYTES};
use lagbot::registry::SymbolRegistry;

fn symbol(id: u16, name: &str) -> SymbolConfig {
    SymbolConfig {
        id,
        binance: name.into(),
        bybit: name.into(),
        instrument: "futures".into(),
        leverage: Some(3),
        enabled: true,
        futures_alloc_pct_bits: Some(0.05f64.to_bits()),
        spot_alloc_pct_bits: None,
        spot_margin_enabled: None,
    }
}

#[test]
fn registry_places_symbols_by_id() {
    let reg = SymbolRegistry::from_symbols(&[symbol(1, "BTCUSDT"), symbol(35, "ETHUSDT"), symbol(36, "XUSDT")]);
    assert_eq!(reg.active_count, 2);
    assert_eq!(reg.get(1).unwrap().binance, "BTCUSDT");
    assert_eq!(reg.get(35).unwrap().binance, "ETHUSDT");
    assert!(reg.get(2).is_none());
    assert!(reg.get(36).is_none());
    assert_eq!(f64::from_bits(reg.get(1).unwrap().futures_alloc_pct_bits.unwrap()), 0.05);
}

#[test]
fn registry_later_symbol_replaces_and_counts() {
    let reg = SymbolRegistry::from_symbols(&[symbol(2, "A"), symbol(2, "B"), symbol(0, "Z")]);
    assert_eq!(reg.active_count, 3);
    assert_eq!(reg.get(2).unwrap().binance, "B");
    // id 0 saturates to the first slot
    assert_eq!(reg.get(1).unwrap().binance, "Z");
}

#[test]
fn registry_set_enabled_reads_back() {
    let mut reg = SymbolRegistry::from_symbols(&[symbol(4, "BTCUSDT")]);
    reg.set_enabled(4, false);
    assert!(!reg.get(4).unwrap().enabled);
    reg.set_enabled(4, true);
    assert!(reg.get(4).unwrap().enabled);
    reg.set_enabled(5, false);
    assert!(reg.get(5).is_none());
    reg.set_enabled(40, false);
    assert_eq!(reg.active_count, 1);
}

#[test]
fn log_frames_read_back() {
    let a = vec![1u8, 2, 3];
    let b = vec![0xffu8; 300];
    let mut log = frame_record(&a).unwrap();
    assert_eq!(&log[..4], &[3, 0, 0, 0]);
    log.extend(frame_record(&b).unwrap());
    assert_eq!(log[7..11], [44, 1, 0, 0]);
    let recs = split_records(&log).unwrap();
    assert_eq!(recs, vec![a, b]);
}

#[test]
fn log_edge_cases() {
    assert_eq!(frame_record(&vec![0u8; MAX_RECORD_BYTES + 1]), Err(LogFrameError::RecordTooLarge));
    assert_eq!(frame_record(&vec![7u8; MAX_RECORD_BYTES]).unwrap().len(), MAX_RECORD_BYTES + 4);
    assert_eq!(split_records(&[]).unwrap(), Vec::<Vec<u8>>::new());
    // a trailing partial header ends the log
    let mut log = frame_record(&[9u8]).unwrap();
    log.extend([1u8, 0]);
    assert_eq!(split_records(&log).unwrap(), vec![vec![9u8]]);
    assert_eq!(split_records(&[0, 0, 0, 0]), Err(LogFrameError::InvalidLength(0)));
    assert_eq!(split_records(&[1, 16, 0, 0, 1]), Err(LogFrameError::InvalidLength(4097)));
    assert_eq!(split_records(&[3, 0, 0, 0, 1, 2]), Err(LogFrameError::Truncated));
}

#[test]
fn topics_render_symbol_ids() {
    assert_eq!(topic_for_symbol(1), "market/binance/1");
    assert_eq!(topic_for_symbol(65535), "market/binance/65535");
    assert_eq!(topic_for_symbol(0), "market/binance/0");
    assert_eq!(binance_tick_topic(12), "binance/tick/12");
    assert_eq!(bybit_mid_topic(340), "system/bybit_mid/340");
    assert_eq!(HEARTBEAT_TOPIC, "system/heartbeat/tokyo");
}

#[test]
fn heartbeat_payload_roundtrip() {
    let ts = 0x0102_0304_0506_0708u64;
    let p = heartbeat_payload(ts);
    assert_eq!(p, ts.to_le_bytes().to_vec());
    assert_eq!(heartbeat_from_payload(&p), Some(ts));
    assert_eq!(heartbeat_from_payload(&p[..7]), None);
    let mut longer = p.clone();
    longer.push(9);
    assert_eq!(heartbeat_from_payload(&longer), Some(ts));
}

#[test]
fn registry_default_is_empty() {
    let reg = SymbolRegistry::default();
    assert_eq!(reg.active_count, 0);
    assert_eq!(reg.slots.len(), 35);
    assert!(reg.get(1).is_none());
    assert!(reg.get(35).is_none());
    let reg = SymbolRegistry::from_symbols(&[]);
    assert_eq!(reg.active_count, 0);
    assert!(reg.slots.iter().all(|s| s.is_none()));
}
