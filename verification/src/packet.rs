//! Wire-level vocabulary shared by the observer and the executor.
use vstd::prelude::*;

verus! {

/// Version of the market-state packet layout.
pub const PACKET_VERSION: u8 = 3;

/// Number of symbol slots (symbol ids run from 1 to this bound).
pub const MAX_SYMBOLS: usize = 35;

#[derive(Debug, Clone, Copy, PartialEq, Eq, Structural)]
pub enum Regime {
    Range,
    Transition,
    Trend,
}

/// The numeric code of a regime as carried in a packet.
pub open spec fn regime_code_spec(r: Regime) -> u8 {
    match r {
        Regime::Range => 0,
        Regime::Transition => 1,
        Regime::Trend => 2,
    }
}

pub fn regime_code(r: Regime) -> (c: u8)
    ensures
        c == regime_code_spec(r),
{
    match r {
        Regime::Range => 0,
        Regime::Transition => 1,
        Regime::Trend => 2,
    }
}

#[derive(Debug, Clone, Copy, PartialEq, Eq, Structural)]
pub enum Side {
    Long,
    Short,
}

#[derive(Debug, Clone, Copy, PartialEq, Eq, Structural)]
pub enum InstrumentType {
    Spot,
    Futures,
}

/// Operator interventions that reach the executor.
#[derive(Debug, Clone, Copy, PartialEq, Eq, Structural)]
pub enum OperatorAction {
    HaltEntries,
    ResumeEntries,
    FlattenAll,
    StatusPing,
}

/// An operator command together with its origin.
#[derive(Debug, Clone)]
pub struct OperatorCommand {
    pub action: OperatorAction,
    pub ts_ns: u64,
    pub source: String,
}

/// The integer part of a market-state packet: identity, ordering and the
/// entry verdict. The price statistics that travel with it are not held here.
#[derive(Debug, Clone, Copy, PartialEq, Eq, Structural)]
pub struct PacketHeader {
    pub packet_version: u8,
    pub ts_ns: u64,
    pub seq_num: u32,
    pub symbol_id: u16,
    pub entry_valid: u8,
    pub direction_bias: i8,
    pub regime: u8,
}

impl PacketHeader {
    /// Header of a packet that carries no entry signal.
    pub fn neutral(symbol_id: u16, ts_ns: u64, seq_num: u32) -> (p: PacketHeader)
        ensures
            p == (PacketHeader {
                packet_version: PACKET_VERSION,
                ts_ns,
                seq_num,
                symbol_id,
                entry_valid: 0,
                direction_bias: 0,
                regime: regime_code_spec(Regime::Range),
            }),
    {
        PacketHeader {
            packet_version: PACKET_VERSION,
            ts_ns,
            seq_num,
            symbol_id,
            entry_valid: 0,
            direction_bias: 0,
            regime: regime_code(Regime::Range),
        }
    }
}

/// Side of the order that closes a position.
pub fn close_side(side: Side) -> (s: &'static str)
    ensures
        side == Side::Long ==> s@ == "Sell"@,
        side == Side::Short ==> s@ == "Buy"@,
{
    match side {
        Side::Long => "Sell",
        Side::Short => "Buy",
    }
}

/// Position side opened for a directional bias: positive is long, anything
/// else short.
pub fn position_side(direction_bias: i8) -> (s: Side)
    ensures
        s == (if direction_bias > 0 { Side::Long } else { Side::Short }),
{
    if direction_bias > 0 {
        Side::Long
    } else {
        Side::Short
    }
}

/// Side of the order that opens a position for a directional bias.
pub fn entry_side(direction_bias: i8) -> (s: &'static str)
    ensures
        direction_bias > 0 ==> s@ == "Buy"@,
        direction_bias <= 0 ==> s@ == "Sell"@,
{
    if direction_bias > 0 {
        "Buy"
    } else {
        "Sell"
    }
}

/// Regimes in which a long entry may open (every regime code the packet
/// defines).
pub fn regime_allows_long(regime: u8) -> (r: bool)
    ensures
        r == (regime <= 2),
{
    regime == 0 || regime == 1 || regime == regime_code(Regime::Trend)
}

/// Regimes in which a short entry may open (every regime code the packet
/// defines).
pub fn regime_allows_short(regime: u8) -> (r: bool)
    ensures
        r == (regime <= 2),
{
    regime == 0 || regime == 1 || regime == regime_code(Regime::Trend)
}

} // verus!
