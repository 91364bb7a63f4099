use lagbot::market::public_base;
use lagbot::packet::PacketHeader;
use lagbot::risk::{set_warm_flags, warm_flags, RiskDecision, RiskEngine, RiskFlags, WarmFlagStore};
use lagbot::safe_mode::{SafeMode, SafeModePhase};
use lagbot::trading_mode::{allow_live_orders, requires_edge_gate};

#[test]
fn public_base_urls() {
    assert!(public_base(true).contains("testnet"));
    assert!(public_base(false).contains("bybit.com"));
}

#[test]
fn public_base_exact_urls() {
    assert_eq!(public_base(true), "https://api-testnet.bybit.com");
    assert_eq!(public_base(false), "https://api.bybit.com");
}

#[test]
fn phase1_does_not_close() {
    let mut sm = SafeMode::new(1, 3, 5);
    sm.on_miss();
    assert_eq!(sm.phase, SafeModePhase::Caution);
    assert!(!sm.close_all());
}

#[test]
fn safe_mode_escalates_and_resets() {
    let mut sm = SafeMode::new(1, 3, 5);
    assert!(!sm.halt_entries());
    sm.on_miss();
    assert!(sm.halt_entries());
    sm.on_miss();
    assert_eq!(sm.phase, SafeModePhase::Caution);
    sm.on_miss();
    assert_eq!(sm.phase, SafeModePhase::Defensive);
    assert!(!sm.close_all());
    sm.on_miss();
    sm.on_miss();
    assert_eq!(sm.consecutive_misses, 5);
    assert_eq!(sm.phase, SafeModePhase::Emergency);
    assert!(sm.close_all());
    assert!(sm.halt_entries());
    sm.on_heartbeat();
    assert_eq!(sm.consecutive_misses, 0);
    assert_eq!(sm.phase, SafeModePhase::Normal);
    assert!(!sm.halt_entries());
    assert!(!sm.close_all());
}

#[test]
fn safe_mode_thresholds_checked_emergency_first() {
    let mut sm = SafeMode::new(5, 3, 2);
    sm.on_miss();
    assert_eq!(sm.phase, SafeModePhase::Normal);
    sm.on_miss();
    assert_eq!(sm.phase, SafeModePhase::Emergency);
}

#[test]
fn paper_never_live_orders() {
    assert!(!allow_live_orders("paper"));
    assert!(!allow_live_orders("dev"));
    assert!(allow_live_orders("live"));
}

#[test]
fn live_orders_ignore_ascii_case() {
    assert!(allow_live_orders("LIVE"));
    assert!(allow_live_orders("Live"));
    assert!(!allow_live_orders("live "));
    assert!(!allow_live_orders(""));
}

#[test]
fn unverified_paper_skips_edge() {
    assert!(!requires_edge_gate("paper", true));
    assert!(requires_edge_gate("paper", false));
    assert!(requires_edge_gate("live", true));
}

#[test]
fn dev_never_needs_edge_gate() {
    assert!(!requires_edge_gate("dev", false));
    assert!(!requires_edge_gate("dev", true));
    assert!(requires_edge_gate("PAPER", false));
    assert!(requires_edge_gate("LiVe", false));
}

#[test]
fn rejects_entry_valid_zero() {
    let mut re = RiskEngine::default();
    let mut p = PacketHeader::neutral(1, 1_000, 1);
    p.entry_valid = 0;
    assert_eq!(
        re.check_entry(&p, 1_000, true, RiskFlags::all_futures()),
        RiskDecision::Skip
    );
}

fn signal(symbol_id: u16, ts_ns: u64, seq: u32) -> PacketHeader {
    let mut p = PacketHeader::neutral(symbol_id, ts_ns, seq);
    p.entry_valid = 1;
    p.direction_bias = 1;
    p
}

#[test]
fn risk_engine_opens_then_refuses_replay() {
    let mut re = RiskEngine::default();
    let flags = RiskFlags::all_futures();
    let now = 10_000_000_000u64;
    assert_eq!(re.check_entry(&signal(3, now, 7), now, true, flags), RiskDecision::Open);
    assert_eq!(re.check_entry(&signal(3, now, 7), now, true, flags), RiskDecision::Duplicate);
    assert_eq!(re.check_entry(&signal(3, now, 6), now, true, flags), RiskDecision::Duplicate);
    assert_eq!(re.check_entry(&signal(3, now, 8), now, true, flags), RiskDecision::Open);
    // other symbols keep their own sequence
    assert_eq!(re.check_entry(&signal(4, now, 1), now, true, flags), RiskDecision::Open);
}

#[test]
fn risk_engine_stale_and_unknown_slot() {
    let mut re = RiskEngine::default();
    let flags = RiskFlags::all_futures();
    let now = 1_000_000_000u64;
    let old = signal(1, now - 150_000_001, 1);
    assert_eq!(re.check_entry(&old, now, true, flags), RiskDecision::Stale);
    let edge = signal(1, now - 150_000_000, 1);
    assert_eq!(re.check_entry(&edge, now, true, flags), RiskDecision::Open);
    assert_eq!(re.check_entry(&signal(0, now, 5), now, true, flags), RiskDecision::Skip);
    assert_eq!(re.check_entry(&signal(36, now, 5), now, true, flags), RiskDecision::Skip);
    assert_eq!(re.check_entry(&signal(35, now, 5), now, true, flags), RiskDecision::Open);
    // a packet from the future counts as fresh
    assert_eq!(re.check_entry(&signal(2, now + 5, 1), now, true, flags), RiskDecision::Open);
}

#[test]
fn risk_engine_records_sequence_even_when_gated_by_flags() {
    let mut re = RiskEngine::default();
    let now = 5u64;
    let halted = RiskFlags::all_futures().with_cleared(RiskFlags::PAUSE_OK);
    assert_eq!(re.check_entry(&signal(1, now, 9), now, true, halted), RiskDecision::Skip);
    assert_eq!(
        re.check_entry(&signal(1, now, 9), now, true, RiskFlags::all_futures()),
        RiskDecision::Duplicate
    );
    assert_eq!(
        re.check_entry(&signal(1, now, 10), now, false, RiskFlags::all_futures()),
        RiskDecision::Skip
    );
}

#[test]
fn risk_flags_bits_roundtrip() {
    assert_eq!(RiskFlags::from_bits(0xdead).bits(), 0xdead);
    assert_eq!(RiskFlags::all_futures().bits(), RiskFlags::ALL_FUTURES);
    assert!(RiskFlags::all_futures().all_required_futures());
    assert!(!RiskFlags::from_bits(0).all_required_futures());
    let f = RiskFlags::from_bits(RiskFlags::DD_OK | RiskFlags::BOOK_OK);
    assert!(f.contains_all(RiskFlags::DD_OK));
    assert!(!f.contains_all(RiskFlags::DD_OK | RiskFlags::CORR_OK));
    assert_eq!(
        RiskFlags::ALL_FUTURES,
        RiskFlags::CAPITAL_OK
            | RiskFlags::DD_OK
            | RiskFlags::CORR_OK
            | RiskFlags::BOOK_OK
            | RiskFlags::FUNDING_OK
            | RiskFlags::BASIS_OK
            | RiskFlags::MICRO_OK
            | RiskFlags::PAUSE_OK
            | RiskFlags::PAIR_ENABLED
            | RiskFlags::ENTRIES_FUTURES_OK
            | RiskFlags::FEE_EDGE_OK
    );
}

#[test]
fn dd_clears_entries() {
    let mut store = WarmFlagStore::new();
    // a day at -2% against a 1.5% drawdown limit breaches the limit
    set_warm_flags(&mut store, RiskFlags::from_warm_conditions(true, false, false, false));
    assert!(!warm_flags(&store).all_required_futures());
    set_warm_flags(&mut store, RiskFlags::all_futures());
    assert!(warm_flags(&store).all_required_futures());
}

#[test]
fn warm_conditions_clear_their_flags() {
    assert_eq!(
        RiskFlags::from_warm_conditions(false, false, false, false).bits(),
        RiskFlags::ALL_FUTURES
    );
    let f = RiskFlags::from_warm_conditions(false, true, false, false);
    assert!(!f.contains_all(RiskFlags::FUNDING_OK));
    assert!(f.contains_all(RiskFlags::DD_OK));
    let b = RiskFlags::from_warm_conditions(false, false, true, false);
    assert_eq!(b.bits(), RiskFlags::ALL_FUTURES & !(RiskFlags::BOOK_OK | RiskFlags::MICRO_OK));
    let h = RiskFlags::from_warm_conditions(false, false, false, true);
    assert!(!h.all_required_futures());
    assert!(!h.contains_all(RiskFlags::PAUSE_OK));
}

#[test]
fn warm_store_starts_open_and_reads_back() {
    let mut store = WarmFlagStore::new();
    assert!(warm_flags(&store).all_required_futures());
    set_warm_flags(&mut store, RiskFlags::from_bits(0x42));
    assert_eq!(warm_flags(&store).bits(), 0x42);
}

#[test]
fn warm_breach_blocks_an_otherwise_open_entry() {
    let now = 2_000_000_000u64;
    let breaches = [
        (true, false, false, false),
        (false, true, false, false),
        (false, false, true, false),
        (false, false, false, true),
    ];
    for (i, (dd, funding, book, halted)) in breaches.iter().enumerate() {
        let mut re = RiskEngine::default();
        let flags = RiskFlags::from_warm_conditions(*dd, *funding, *book, *halted);
        let seq = i as u32 + 1;
        assert_eq!(re.check_entry(&signal(1, now, seq), now, true, flags), RiskDecision::Skip);
    }
    let mut re = RiskEngine::default();
    let clear = RiskFlags::from_warm_conditions(false, false, false, false);
    assert_eq!(re.check_entry(&signal(1, now, 1), now, true, clear), RiskDecision::Open);
}
