//! Entry verdict of the entry engine, from the gates its price statistics
//! pass.
use vstd::prelude::*;
use crate::packet::{regime_allows_long, regime_allows_short};

verus! {

/// The outcomes of the entry engine's tests on one tick.
#[derive(Debug, Clone, Copy, PartialEq, Eq, Structural)]
pub struct EntrySignals {
    /// The local Bybit mid is missing or too old.
    pub bybit_stale: bool,
    /// The hour is a trade hour and the follow-through gate allows entries.
    pub trade_hour_ok: bool,
    /// |lag residual| reaches the minimum lag.
    pub lag_open: bool,
    /// |impulse| reaches the minimum impulse.
    pub impulse_ok: bool,
    /// Expected move and expected capture both clear the fee floor.
    pub edge_ok: bool,
    /// Volatility (ATR over mid) reaches its minimum, or no minimum is set.
    pub atr_ok: bool,
    /// |z-score| reaches the threshold.
    pub z_ok: bool,
    /// Residual, impulse and velocity point up, and EMA50 is above EMA200.
    pub long_momentum: bool,
    /// Residual, impulse and velocity point down, and EMA50 is below EMA200.
    pub short_momentum: bool,
    /// Regime code of the symbol.
    pub regime: u8,
}

/// All direction-free gates pass.
pub open spec fn gates_open(s: EntrySignals) -> bool {
    !s.bybit_stale && s.trade_hour_ok && s.lag_open && s.impulse_ok && s.edge_ok && s.atr_ok
        && s.z_ok
}

/// `(entry_valid, direction_bias)`: long when the gates pass and the long
/// setup holds, else short when the short setup holds, else no entry.
pub open spec fn entry_verdict_spec(s: EntrySignals) -> (u8, i8) {
    if gates_open(s) && s.long_momentum && s.regime <= 2 {
        (1u8, 1i8)
    } else if gates_open(s) && s.short_momentum && s.regime <= 2 {
        (1u8, -1i8)
    } else {
        (0u8, 0i8)
    }
}

pub fn entry_verdict(s: &EntrySignals) -> (r: (u8, i8))
    ensures
        r == entry_verdict_spec(*s),
{
    let mut entry_valid: u8 = 0;
    let mut direction_bias: i8 = 0;
    if !s.bybit_stale && s.trade_hour_ok && s.lag_open && s.impulse_ok && s.edge_ok && s.atr_ok {
        if s.z_ok {
            if s.long_momentum && regime_allows_long(s.regime) {
                entry_valid = 1;
                direction_bias = 1;
            } else if s.short_momentum && regime_allows_short(s.regime) {
                entry_valid = 1;
                direction_bias = -1;
            }
        }
    }
    (entry_valid, direction_bias)
}

/// Fail-closed entry: a stale Bybit mid, a closed trade hour or any failed
/// gate gives no entry; an entry always carries a direction, and a short
/// needs the short setup.
pub proof fn law_entry_fails_closed(s: EntrySignals)
    ensures
        !gates_open(s) ==> entry_verdict_spec(s) == (0u8, 0i8),
        s.bybit_stale ==> entry_verdict_spec(s).0 == 0,
        entry_verdict_spec(s).0 == 1 <==> (entry_verdict_spec(s).1 == 1i8 || entry_verdict_spec(s).1
            == -1i8),
        entry_verdict_spec(s).1 == -1i8 ==> s.short_momentum && !(s.long_momentum),
        entry_verdict_spec(s).1 == 1 ==> s.long_momentum,
{
}

/// When every direction-free gate passes in a regime the packet defines
/// (codes 0, 1 and 2), the long setup opens a long entry and the short setup
/// alone opens a short one; in any other regime, or without a setup, there
/// is no entry.
pub proof fn law_entry_opens_on_setup(s: EntrySignals)
    ensures
        ({
            let all_gates = !s.bybit_stale && s.trade_hour_ok && s.lag_open && s.impulse_ok
                && s.edge_ok && s.atr_ok && s.z_ok;
            &&& all_gates && s.long_momentum && s.regime <= 2 ==> entry_verdict_spec(s) == (1u8, 1i8)
            &&& all_gates && s.short_momentum && !s.long_momentum && s.regime <= 2
                ==> entry_verdict_spec(s) == (1u8, -1i8)
            &&& s.regime > 2 ==> entry_verdict_spec(s) == (0u8, 0i8)
            &&& !s.long_momentum && !s.short_momentum ==> entry_verdict_spec(s) == (0u8, 0i8)
            &&& !all_gates ==> entry_verdict_spec(s) == (0u8, 0i8)
        }),
{
}

} // verus!
