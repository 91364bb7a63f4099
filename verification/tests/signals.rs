use lagbot::bybit::{leverage_change_accepted, order_fully_filled, ret_code_ok, sign_bybit};
use lagbot::entry::{entry_verdict, EntrySignals};
use lagbot::follow_through::{outcome_due, OutcomeWindow, OUTCOME_HORIZON_NS};
use lagbot::packet::{close_side, entry_side, position_side, regime_allows_long, PacketHeader, Side, PACKET_VERSION};
use lagbot::position::{exit_reason, time_stop_elapsed, ExitReason, ExitSignals};
use lagbot::receiver::{bybit_mid_is_stale, freshness_ok};
use lagbot::ring::RingCursor;
use lagbot::text::eq_ignore_ascii_case;

#[test]
fn blocks_when_ft_low() {
    let mut ft = OutcomeWindow::new(50);
    for _ in 0..30 {
        ft.record(false);
    }
    // The rate gate is enforced and no outcome was aligned: 0 of 30.
    assert!(ft.enforcing());
    assert_eq!(ft.len(), 30);
    assert_eq!(ft.wins(), 0);
}

#[test]
fn allows_when_ft_high() {
    let mut ft = OutcomeWindow::new(50);
    for _ in 0..30 {
        ft.record(true);
    }
    // The rate gate is enforced and every outcome was aligned: 30 of 30.
    assert!(ft.enforcing());
    assert_eq!(ft.len(), 30);
    assert_eq!(ft.wins(), 30);
}

#[test]
fn outcome_window_keeps_latest() {
    let mut w = OutcomeWindow::new(3);
    assert_eq!(w.capacity(), 10);
    for i in 0..25 {
        w.record(i % 2 == 0);
    }
    assert_eq!(w.len(), 10);
    assert_eq!(w.wins(), 5);
    assert!(!w.enforcing());
    let mut big = OutcomeWindow::new(40);
    for _ in 0..19 {
        big.record(true);
    }
    assert!(!big.enforcing());
    big.record(false);
    assert!(big.enforcing());
    assert_eq!(big.wins(), 19);
}

#[test]
fn sign_bybit_matches_rfc4231() {
    // RFC 4231 HMAC-SHA256 vector with the key "Jefe"
    let sig = sign_bybit("Jefe", "what do ya want for nothing?");
    assert_eq!(sig, "5bdcc146bf60754e6a042426089575c75a003f089d2739839dec58b964ec3843");
    assert_eq!(sign_bybit("k", "a").len(), 64);
    assert_ne!(sign_bybit("k", "a"), sign_bybit("k", "b"));
}

#[test]
fn bybit_reply_codes() {
    assert!(ret_code_ok(Some(0)));
    assert!(!ret_code_ok(Some(10001)));
    assert!(!ret_code_ok(None));
    assert!(leverage_change_accepted(Some(110043)));
    assert!(leverage_change_accepted(Some(0)));
    assert!(!leverage_change_accepted(Some(10001)));
    assert!(!leverage_change_accepted(None));
    assert!(order_fully_filled("Filled"));
    assert!(order_fully_filled("partiallyfilledcanceled"));
    assert!(order_fully_filled(""));
    assert!(!order_fully_filled("New"));
    assert!(!order_fully_filled("PartiallyFilled"));
}

#[test]
fn entry_verdicts() {
    let open = EntrySignals {
        bybit_stale: false,
        trade_hour_ok: true,
        lag_open: true,
        impulse_ok: true,
        edge_ok: true,
        atr_ok: true,
        z_ok: true,
        long_momentum: true,
        short_momentum: false,
        regime: 2,
    };
    assert_eq!(entry_verdict(&open), (1, 1));
    assert_eq!(entry_verdict(&EntrySignals { long_momentum: false, short_momentum: true, ..open }), (1, -1));
    assert_eq!(entry_verdict(&EntrySignals { bybit_stale: true, ..open }), (0, 0));
    assert_eq!(entry_verdict(&EntrySignals { edge_ok: false, ..open }), (0, 0));
    assert_eq!(entry_verdict(&EntrySignals { regime: 3, ..open }), (0, 0));
    assert_eq!(entry_verdict(&EntrySignals { long_momentum: false, ..open }), (0, 0));
    assert!(regime_allows_long(0));
    assert!(!regime_allows_long(7));
}

#[test]
fn exit_reasons_in_priority_order() {
    let none = ExitSignals { converged: false, time_stop_due: false, invalidated: false, stop_hit: false, target_hit: false };
    assert_eq!(exit_reason(&none), None);
    assert_eq!(exit_reason(&ExitSignals { converged: true, stop_hit: true, ..none }), Some(ExitReason::LagConvergence));
    assert_eq!(exit_reason(&ExitSignals { time_stop_due: true, invalidated: true, ..none }), Some(ExitReason::TimeStop));
    assert_eq!(exit_reason(&ExitSignals { invalidated: true, stop_hit: true, ..none }), Some(ExitReason::Invalidation));
    assert_eq!(exit_reason(&ExitSignals { stop_hit: true, target_hit: true, ..none }), Some(ExitReason::StopLoss));
    assert_eq!(exit_reason(&ExitSignals { target_hit: true, ..none }), Some(ExitReason::TakeProfit));
    assert!(time_stop_elapsed(9_000_000_000, 0, 8000));
    assert!(!time_stop_elapsed(8_000_999_999, 0, 8000));
    assert!(!time_stop_elapsed(0, 5, 0));
}

#[test]
fn sides_and_freshness() {
    assert_eq!(close_side(Side::Long), "Sell");
    assert_eq!(close_side(Side::Short), "Buy");
    assert_eq!(entry_side(1), "Buy");
    assert_eq!(entry_side(0), "Sell");
    assert_eq!(position_side(-1), Side::Short);
    let p = PacketHeader::neutral(3, 1_000, 9);
    assert_eq!(p.packet_version, PACKET_VERSION);
    assert_eq!(p.entry_valid, 0);
    assert!(freshness_ok(&p, 10, 1_010));
    assert!(!freshness_ok(&p, 10, 1_011));
    assert!(freshness_ok(&p, 0, 5));
    assert!(bybit_mid_is_stale(0, 200, 1));
    assert!(!bybit_mid_is_stale(1, 200, 200_999_999));
    assert!(bybit_mid_is_stale(1, 200, 201_000_001));
}

#[test]
fn ring_cursor_lookback() {
    let mut c = RingCursor::new();
    assert_eq!(c.lookback_slot(3), 2047);
    for i in 0..5usize {
        assert_eq!(c.advance(), i);
    }
    assert_eq!(c.lookback_slot(1), 4);
    assert_eq!(c.lookback_slot(3), 2);
    assert_eq!(c.lookback_slot(5), 4);
    for _ in 0..3000 {
        c.advance();
    }
    assert_eq!(c.len, 2048);
    assert_eq!(c.head, 3005 % 2048);
    assert_eq!(c.lookback_slot(2047), (3005 - 2047) % 2048);
}

#[test]
fn ascii_case_folding() {
    assert!(eq_ignore_ascii_case("Hello", "hELLO"));
    assert!(!eq_ignore_ascii_case("Hello", "Hell"));
    assert!(eq_ignore_ascii_case("ÄB", "Äb"));
    assert!(!eq_ignore_ascii_case("Ä", "ä"));
}

#[test]
fn outcome_due_after_horizon() {
    assert_eq!(OUTCOME_HORIZON_NS, 300_000_000);
    assert!(!outcome_due(1_000, 0));
    assert!(!outcome_due(299_999_999, 0));
    assert!(outcome_due(300_000_000, 0));
    assert!(outcome_due(1_300_000_001, 1_000_000_000));
    assert!(!outcome_due(0, 500));
}
