//! Entry risk gating: warm-path risk flags and the per-packet entry check.
use vstd::prelude::*;
use crate::packet::{PacketHeader, MAX_SYMBOLS};

verus! {

/// A set of risk conditions, one bit each; entries need every required bit.
#[derive(Clone, Copy, Debug, Default)]
pub struct RiskFlags(u64);

/// The bits the warm path clears for its four conditions.
pub open spec fn warm_cleared_mask(
    dd_breached: bool,
    funding_breached: bool,
    book_thin: bool,
    entries_halted: bool,
) -> u64 {
    (if dd_breached { RiskFlags::DD_OK | RiskFlags::ENTRIES_FUTURES_OK } else { 0u64 }) | (if funding_breached {
        RiskFlags::FUNDING_OK
    } else {
        0u64
    }) | (if book_thin { RiskFlags::BOOK_OK | RiskFlags::MICRO_OK } else { 0u64 }) | (if entries_halted {
        RiskFlags::ENTRIES_FUTURES_OK | RiskFlags::PAUSE_OK
    } else {
        0u64
    })
}

impl View for RiskFlags {
    type V = u64;

    closed spec fn view(&self) -> u64 {
        self.0
    }
}

impl RiskFlags {
    pub const CAPITAL_OK: u64 = 0x1;
    pub const DD_OK: u64 = 0x2;
    pub const CORR_OK: u64 = 0x4;
    pub const BOOK_OK: u64 = 0x8;
    pub const FUNDING_OK: u64 = 0x10;
    pub const BASIS_OK: u64 = 0x20;
    pub const MICRO_OK: u64 = 0x40;
    pub const PAUSE_OK: u64 = 0x100;
    pub const PAIR_ENABLED: u64 = 0x200;
    pub const ENTRIES_FUTURES_OK: u64 = 0x800;
    pub const FEE_EDGE_OK: u64 = 0x1000;

    /// Every flag a futures entry requires: the union of the flags above.
    pub const ALL_FUTURES: u64 = 0x1b7f;

    pub proof fn lemma_all_futures_is_union()
        ensures
            RiskFlags::ALL_FUTURES == RiskFlags::CAPITAL_OK | RiskFlags::DD_OK | RiskFlags::CORR_OK
                | RiskFlags::BOOK_OK | RiskFlags::FUNDING_OK | RiskFlags::BASIS_OK
                | RiskFlags::MICRO_OK | RiskFlags::PAUSE_OK | RiskFlags::PAIR_ENABLED
                | RiskFlags::ENTRIES_FUTURES_OK | RiskFlags::FEE_EDGE_OK,
    {
        assert(0x1b7fu64 == 0x1u64 | 0x2u64 | 0x4u64 | 0x8u64 | 0x10u64 | 0x20u64 | 0x40u64
            | 0x100u64 | 0x200u64 | 0x800u64 | 0x1000u64) by (bit_vector);
    }

    pub fn all_futures() -> (r: Self)
        ensures
            r@ == RiskFlags::ALL_FUTURES,
    {
        RiskFlags(RiskFlags::ALL_FUTURES)
    }

    pub fn contains_all(&self, required: u64) -> (r: bool)
        ensures
            r == (self@ & required == required),
    {
        self.0 & required == required
    }

    pub fn bits(self) -> (r: u64)
        ensures
            r == self@,
    {
        self.0
    }

    pub fn from_bits(bits: u64) -> (r: Self)
        ensures
            r@ == bits,
    {
        RiskFlags(bits)
    }

    pub fn all_required_futures(self) -> (r: bool)
        ensures
            r == (self@ & RiskFlags::ALL_FUTURES == RiskFlags::ALL_FUTURES),
    {
        self.contains_all(RiskFlags::ALL_FUTURES)
    }

    /// The same flags with every bit of `mask` cleared.
    pub fn with_cleared(self, mask: u64) -> (r: Self)
        ensures
            r@ == self@ & !mask,
    {
        RiskFlags(self.0 & !mask)
    }

    /// Flags published by the warm path: all futures flags, minus drawdown
    /// and entries on a drawdown breach, minus funding on a funding breach,
    /// minus book and microstructure on a thin book, minus entries and pause
    /// when entries are halted.
    pub fn from_warm_conditions(
        dd_breached: bool,
        funding_breached: bool,
        book_thin: bool,
        entries_halted: bool,
    ) -> (r: Self)
        ensures
            r@ == RiskFlags::ALL_FUTURES & !warm_cleared_mask(
                dd_breached,
                funding_breached,
                book_thin,
                entries_halted,
            ),
    {
        let mut bits = RiskFlags::all_futures();
        let ghost b0 = bits@;
        if dd_breached {
            bits = bits.with_cleared(RiskFlags::DD_OK | RiskFlags::ENTRIES_FUTURES_OK);
        }
        let ghost b1 = bits@;
        if funding_breached {
            bits = bits.with_cleared(RiskFlags::FUNDING_OK);
        }
        let ghost b2 = bits@;
        if book_thin {
            bits = bits.with_cleared(RiskFlags::BOOK_OK | RiskFlags::MICRO_OK);
        }
        let ghost b3 = bits@;
        if entries_halted {
            bits = bits.with_cleared(RiskFlags::ENTRIES_FUTURES_OK | RiskFlags::PAUSE_OK);
        }
        let ghost m1: u64 = if dd_breached { RiskFlags::DD_OK | RiskFlags::ENTRIES_FUTURES_OK } else { 0u64 };
        let ghost m2: u64 = if funding_breached { RiskFlags::FUNDING_OK } else { 0u64 };
        let ghost m3: u64 = if book_thin { RiskFlags::BOOK_OK | RiskFlags::MICRO_OK } else { 0u64 };
        let ghost m4: u64 = if entries_halted { RiskFlags::ENTRIES_FUTURES_OK | RiskFlags::PAUSE_OK } else { 0u64 };
        assert(b1 == b0 & !m1) by {
            assert(b0 & !0u64 == b0) by (bit_vector);
        }
        assert(b2 == b1 & !m2) by {
            assert(b1 & !0u64 == b1) by (bit_vector);
        }
        assert(b3 == b2 & !m3) by {
            assert(b2 & !0u64 == b2) by (bit_vector);
        }
        assert(bits@ == b3 & !m4) by {
            assert(b3 & !0u64 == b3) by (bit_vector);
        }
        assert((((b0 & !m1) & !m2) & !m3) & !m4 == b0 & !(m1 | m2 | m3 | m4)) by (bit_vector);
        bits
    }
}

/// Holder of the flags the warm path publishes and the entry path reads.
pub struct WarmFlagStore {
    bits: u64,
}

impl View for WarmFlagStore {
    type V = u64;

    closed spec fn view(&self) -> u64 {
        self.bits
    }
}

impl WarmFlagStore {
    /// A store that starts with every futures flag set.
    pub fn new() -> (s: Self)
        ensures
            s@ == RiskFlags::ALL_FUTURES,
    {
        WarmFlagStore { bits: RiskFlags::ALL_FUTURES }
    }
}

/// Publish `flags` as the current warm-path flags.
pub fn set_warm_flags(store: &mut WarmFlagStore, flags: RiskFlags)
    ensures
        final(store)@ == flags@,
{
    store.bits = flags.bits();
}

/// The flags most recently published.
pub fn warm_flags(store: &WarmFlagStore) -> (r: RiskFlags)
    ensures
        r@ == store@,
{
    RiskFlags::from_bits(store.bits)
}

#[derive(Debug, Clone, Copy, PartialEq, Eq, Structural)]
pub enum RiskDecision {
    Open,
    Skip,
    Stale,
    Duplicate,
}

/// `a - b`, or 0 when `b > a`.
pub open spec fn saturating_sub_spec(a: u64, b: u64) -> u64 {
    if a >= b {
        (a - b) as u64
    } else {
        0
    }
}

/// The symbol id names one of the slots.
pub open spec fn slot_in_range(symbol_id: u16) -> bool {
    1 <= symbol_id <= MAX_SYMBOLS
}

/// The entry check passes its staleness and slot tests and the sequence
/// number is new for the slot, so it is recorded.
pub open spec fn records_sequence(
    seen: Seq<u32>,
    max_latency_ns: u64,
    packet: PacketHeader,
    now_ns: u64,
) -> bool {
    &&& packet.entry_valid != 0
    &&& saturating_sub_spec(now_ns, packet.ts_ns) <= max_latency_ns
    &&& slot_in_range(packet.symbol_id)
    &&& packet.seq_num > seen[packet.symbol_id - 1]
}

/// The last sequence numbers after the entry check.
pub open spec fn seen_after(
    seen: Seq<u32>,
    max_latency_ns: u64,
    packet: PacketHeader,
    now_ns: u64,
) -> Seq<u32> {
    if records_sequence(seen, max_latency_ns, packet, now_ns) {
        seen.update(packet.symbol_id - 1, packet.seq_num)
    } else {
        seen
    }
}

/// The decision of the entry check, tested in order: no entry signal, stale
/// packet, unknown slot, replayed sequence, missing warm flag, expected move
/// below the fee floor.
pub open spec fn entry_decision(
    seen: Seq<u32>,
    max_latency_ns: u64,
    packet: PacketHeader,
    now_ns: u64,
    edge_clears_floor: bool,
    warm: u64,
) -> RiskDecision {
    if packet.entry_valid == 0 {
        RiskDecision::Skip
    } else if saturating_sub_spec(now_ns, packet.ts_ns) > max_latency_ns {
        RiskDecision::Stale
    } else if !slot_in_range(packet.symbol_id) {
        RiskDecision::Skip
    } else if packet.seq_num <= seen[packet.symbol_id - 1] {
        RiskDecision::Duplicate
    } else if warm & RiskFlags::ALL_FUTURES != RiskFlags::ALL_FUTURES {
        RiskDecision::Skip
    } else if !edge_clears_floor {
        RiskDecision::Skip
    } else {
        RiskDecision::Open
    }
}

/// Per-symbol entry gate with replay protection.
pub struct RiskEngine {
    pub max_latency_ns: u64,
    /// Last accepted sequence number of each symbol slot.
    last_seq: [u32; 35],
}

impl View for RiskEngine {
    type V = Seq<u32>;

    /// The last accepted sequence number of each slot.
    closed spec fn view(&self) -> Seq<u32> {
        self.last_seq@
    }
}

impl RiskEngine {
    /// The staleness budget of the engine, in nanoseconds.
    pub closed spec fn max_latency(&self) -> u64 {
        self.max_latency_ns
    }

    /// An engine with the given staleness budget and no sequence seen.
    pub fn with_max_latency(max_latency_ns: u64) -> (r: Self)
        ensures
            r.max_latency() == max_latency_ns,
            r@ == Seq::new(MAX_SYMBOLS as nat, |i: int| 0u32),
    {
        let r = RiskEngine { max_latency_ns, last_seq: [0u32; 35] };
        assert(r@ =~= Seq::new(MAX_SYMBOLS as nat, |i: int| 0u32));
        r
    }

    /// The engine keeps one sequence number per symbol slot.
    pub proof fn lemma_slots(&self)
        ensures
            self@.len() == MAX_SYMBOLS,
    {
    }

    /// Decide whether `packet` may open a position at time `now_ns`.
    /// `edge_clears_floor` says whether the packet's expected move reaches its
    /// fee floor; `warm` are the warm-path flags in force.
    pub fn check_entry(
        &mut self,
        packet: &PacketHeader,
        now_ns: u64,
        edge_clears_floor: bool,
        warm: RiskFlags,
    ) -> (d: RiskDecision)
        ensures
            d == entry_decision(
                old(self)@,
                old(self).max_latency(),
                *packet,
                now_ns,
                edge_clears_floor,
                warm@,
            ),
            final(self)@ == seen_after(old(self)@, old(self).max_latency(), *packet, now_ns),
            final(self).max_latency() == old(self).max_latency(),
    {
        if packet.entry_valid == 0 {
            return RiskDecision::Skip;
        }
        let latency = now_ns.saturating_sub(packet.ts_ns);
        if latency > self.max_latency_ns {
            return RiskDecision::Stale;
        }
        let idx = packet.symbol_id as usize;
        if idx == 0 || idx > MAX_SYMBOLS {
            return RiskDecision::Skip;
        }
        let slot = idx - 1;
        if packet.seq_num <= self.last_seq[slot] {
            return RiskDecision::Duplicate;
        }
        self.last_seq[slot] = packet.seq_num;
        if !warm.all_required_futures() {
            return RiskDecision::Skip;
        }
        if !edge_clears_floor {
            return RiskDecision::Skip;
        }
        RiskDecision::Open
    }
}

impl Default for RiskEngine {
    /// An engine with a 150 ms staleness budget and no sequence seen.
    fn default() -> (r: Self)
        ensures
            r.max_latency() == 150_000_000,
            r@ == Seq::new(MAX_SYMBOLS as nat, |i: int| 0u32),
    {
        RiskEngine::with_max_latency(150_000_000)
    }
}

/// Clearing any required flag blocks entries.
pub proof fn law_cleared_flag_blocks_entries(bits: u64, mask: u64)
    requires
        mask & RiskFlags::ALL_FUTURES != 0,
    ensures
        (bits & !mask) & RiskFlags::ALL_FUTURES != RiskFlags::ALL_FUTURES,
{
    assert(mask & 0x1b7fu64 != 0 ==> (bits & !mask) & 0x1b7fu64 != 0x1b7fu64) by (bit_vector);
}

/// The warm path blocks entries on a drawdown breach, a funding breach, a
/// thin book or an operator/safe-mode halt, and allows them when none holds.
pub proof fn law_warm_conditions_gate_entries(
    dd_breached: bool,
    funding_breached: bool,
    book_thin: bool,
    entries_halted: bool,
)
    ensures
        (RiskFlags::ALL_FUTURES & !warm_cleared_mask(dd_breached, funding_breached, book_thin, entries_halted))
            & RiskFlags::ALL_FUTURES == RiskFlags::ALL_FUTURES <==> !(dd_breached || funding_breached || book_thin
            || entries_halted),
{
    let m = warm_cleared_mask(dd_breached, funding_breached, book_thin, entries_halted);
    let m1: u64 = if dd_breached { RiskFlags::DD_OK | RiskFlags::ENTRIES_FUTURES_OK } else { 0u64 };
    let m2: u64 = if funding_breached { RiskFlags::FUNDING_OK } else { 0u64 };
    let m3: u64 = if book_thin { RiskFlags::BOOK_OK | RiskFlags::MICRO_OK } else { 0u64 };
    let m4: u64 = if entries_halted { RiskFlags::ENTRIES_FUTURES_OK | RiskFlags::PAUSE_OK } else { 0u64 };
    assert(m == m1 | m2 | m3 | m4);
    assert(0x2u64 | 0x800u64 == 0x802u64) by (bit_vector);
    assert(0x8u64 | 0x40u64 == 0x48u64) by (bit_vector);
    assert(0x800u64 | 0x100u64 == 0x900u64) by (bit_vector);
    assert((m1 == 0u64 || m1 == 0x802u64) && (m2 == 0u64 || m2 == 0x10u64) && (m3 == 0u64 || m3
        == 0x48u64) && (m4 == 0u64 || m4 == 0x900u64) ==> ((0x1b7fu64 & !(m1 | m2 | m3 | m4))
        & 0x1b7fu64 == 0x1b7fu64 <==> (m1 == 0 && m2 == 0 && m3 == 0 && m4 == 0)))
        by (bit_vector);
}

/// A packet whose sequence number was recorded for its slot is refused as a
/// duplicate when the same or an older sequence number comes again, and
/// recorded sequence numbers never decrease.
pub proof fn law_replay_is_refused(
    seen: Seq<u32>,
    max_latency_ns: u64,
    first: PacketHeader,
    now1: u64,
    again: PacketHeader,
    now2: u64,
    edge_clears_floor: bool,
    warm: u64,
)
    requires
        seen.len() == MAX_SYMBOLS,
        records_sequence(seen, max_latency_ns, first, now1),
        again.symbol_id == first.symbol_id,
        again.seq_num <= first.seq_num,
        again.entry_valid != 0,
        saturating_sub_spec(now2, again.ts_ns) <= max_latency_ns,
    ensures
        entry_decision(
            seen_after(seen, max_latency_ns, first, now1),
            max_latency_ns,
            again,
            now2,
            edge_clears_floor,
            warm,
        ) == RiskDecision::Duplicate,
        forall|i: int|
            0 <= i < seen.len() ==> seen[i] <= #[trigger] seen_after(
                seen,
                max_latency_ns,
                first,
                now1,
            )[i],
{
}

/// An entry opens only for a fresh, valid, in-range, new packet with every
/// warm flag set and an expected move that clears its fee floor.
pub proof fn law_open_requires_every_gate(
    seen: Seq<u32>,
    max_latency_ns: u64,
    packet: PacketHeader,
    now_ns: u64,
    edge_clears_floor: bool,
    warm: u64,
)
    requires
        entry_decision(seen, max_latency_ns, packet, now_ns, edge_clears_floor, warm)
            == RiskDecision::Open,
    ensures
        packet.entry_valid != 0,
        saturating_sub_spec(now_ns, packet.ts_ns) <= max_latency_ns,
        slot_in_range(packet.symbol_id),
        packet.seq_num > seen[packet.symbol_id - 1],
        warm & RiskFlags::ALL_FUTURES == RiskFlags::ALL_FUTURES,
        edge_clears_floor,
{
}

/// End to end: when the warm path publishes its flags for a drawdown
/// breach, a funding breach, a thin book or a halt, the entry check opens
/// nothing, whatever the packet.
pub proof fn law_warm_breach_never_opens(
    seen: Seq<u32>,
    max_latency_ns: u64,
    packet: PacketHeader,
    now_ns: u64,
    edge_clears_floor: bool,
    dd_breached: bool,
    funding_breached: bool,
    book_thin: bool,
    entries_halted: bool,
)
    requires
        dd_breached || funding_breached || book_thin || entries_halted,
    ensures
        entry_decision(
            seen,
            max_latency_ns,
            packet,
            now_ns,
            edge_clears_floor,
            RiskFlags::ALL_FUTURES & !warm_cleared_mask(
                dd_breached,
                funding_breached,
                book_thin,
                entries_halted,
            ),
        ) != RiskDecision::Open,
{
    law_warm_conditions_gate_entries(dd_breached, funding_breached, book_thin, entries_halted);
}

/// An entry opens whenever every gate passes, whatever the direction of the
/// signal: a valid, fresh packet for a known slot with a new sequence
/// number, every warm flag set and an expected move over the fee floor.
pub proof fn law_every_gate_opens(
    seen: Seq<u32>,
    max_latency_ns: u64,
    packet: PacketHeader,
    now_ns: u64,
    warm: u64,
)
    requires
        packet.entry_valid != 0,
        saturating_sub_spec(now_ns, packet.ts_ns) <= max_latency_ns,
        1 <= packet.symbol_id <= MAX_SYMBOLS,
        packet.seq_num > seen[packet.symbol_id - 1],
        warm & RiskFlags::ALL_FUTURES == RiskFlags::ALL_FUTURES,
    ensures
        entry_decision(seen, max_latency_ns, packet, now_ns, true, warm) == RiskDecision::Open,
        forall|d: i8|
            entry_decision(seen, max_latency_ns, PacketHeader { direction_bias: d, ..packet }, now_ns, true, warm)
                == RiskDecision::Open,
{
}

/// What each refusal means: no entry signal is skipped; a signal older than
/// the budget is stale; a fresh signal for a known slot whose sequence number
/// is not new is a duplicate; a fresh, new signal is skipped exactly when a
/// warm flag is missing, the move misses the fee floor, or its slot is
/// unknown. The direction of the signal never changes the decision.
pub proof fn law_entry_outcomes(
    seen: Seq<u32>,
    max_latency_ns: u64,
    packet: PacketHeader,
    now_ns: u64,
    edge_clears_floor: bool,
    warm: u64,
)
    ensures
        packet.entry_valid == 0 ==> entry_decision(seen, max_latency_ns, packet, now_ns, edge_clears_floor, warm)
            == RiskDecision::Skip,
        packet.entry_valid != 0 && saturating_sub_spec(now_ns, packet.ts_ns) > max_latency_ns
            ==> entry_decision(seen, max_latency_ns, packet, now_ns, edge_clears_floor, warm)
            == RiskDecision::Stale,
        packet.entry_valid != 0 && saturating_sub_spec(now_ns, packet.ts_ns) <= max_latency_ns
            && (packet.symbol_id == 0 || packet.symbol_id > MAX_SYMBOLS) ==> entry_decision(
            seen,
            max_latency_ns,
            packet,
            now_ns,
            edge_clears_floor,
            warm,
        ) == RiskDecision::Skip,
        packet.entry_valid != 0 && saturating_sub_spec(now_ns, packet.ts_ns) <= max_latency_ns && 1
            <= packet.symbol_id <= MAX_SYMBOLS && packet.seq_num <= seen[packet.symbol_id - 1]
            ==> entry_decision(seen, max_latency_ns, packet, now_ns, edge_clears_floor, warm)
            == RiskDecision::Duplicate,
        packet.entry_valid != 0 && saturating_sub_spec(now_ns, packet.ts_ns) <= max_latency_ns && 1
            <= packet.symbol_id <= MAX_SYMBOLS && packet.seq_num > seen[packet.symbol_id - 1] ==> (
        entry_decision(seen, max_latency_ns, packet, now_ns, edge_clears_floor, warm)
            == RiskDecision::Open <==> (warm & RiskFlags::ALL_FUTURES == RiskFlags::ALL_FUTURES
            && edge_clears_floor)),
        forall|d: i8|
            entry_decision(
                seen,
                max_latency_ns,
                PacketHeader { direction_bias: d, ..packet },
                now_ns,
                edge_clears_floor,
                warm,
            ) == entry_decision(seen, max_latency_ns, packet, now_ns, edge_clears_floor, warm),
{
}

/// The sequence record changes only for a valid, fresh signal of a known
/// slot with a new sequence number, and then only that slot, to that number,
/// whatever the flags and the fee floor say.
pub proof fn law_sequence_record(
    seen: Seq<u32>,
    max_latency_ns: u64,
    packet: PacketHeader,
    now_ns: u64,
)
    requires
        seen.len() == MAX_SYMBOLS,
    ensures
        seen_after(seen, max_latency_ns, packet, now_ns).len() == MAX_SYMBOLS,
        packet.entry_valid != 0 && saturating_sub_spec(now_ns, packet.ts_ns) <= max_latency_ns && 1
            <= packet.symbol_id <= MAX_SYMBOLS && packet.seq_num > seen[packet.symbol_id - 1]
            ==> seen_after(seen, max_latency_ns, packet, now_ns)[packet.symbol_id - 1]
            == packet.seq_num,
        forall|i: int|
            0 <= i < MAX_SYMBOLS && i != packet.symbol_id - 1 ==> #[trigger] seen_after(
                seen,
                max_latency_ns,
                packet,
                now_ns,
            )[i] == seen[i],
        !(packet.entry_valid != 0 && saturating_sub_spec(now_ns, packet.ts_ns) <= max_latency_ns
            && 1 <= packet.symbol_id <= MAX_SYMBOLS && packet.seq_num > seen[packet.symbol_id - 1])
            ==> seen_after(seen, max_latency_ns, packet, now_ns) == seen,
{
}

/// Which flags each warm condition clears: a drawdown breach clears the
/// drawdown and futures-entry flags, a funding breach the funding flag, a thin
/// book the book and microstructure flags, a halt the futures-entry and
/// pause flags; several conditions clear the union of their flags, and no
/// condition clears nothing.
pub proof fn law_warm_masks(dd_breached: bool, funding_breached: bool, book_thin: bool, entries_halted: bool)
    ensures
        warm_cleared_mask(false, false, false, false) == 0,
        warm_cleared_mask(true, false, false, false) == 0x802u64,
        warm_cleared_mask(false, true, false, false) == 0x10u64,
        warm_cleared_mask(false, false, true, false) == 0x48u64,
        warm_cleared_mask(false, false, false, true) == 0x900u64,
        warm_cleared_mask(dd_breached, funding_breached, book_thin, entries_halted) == warm_cleared_mask(
            dd_breached,
            false,
            false,
            false,
        ) | warm_cleared_mask(false, funding_breached, false, false) | warm_cleared_mask(
            false,
            false,
            book_thin,
            false,
        ) | warm_cleared_mask(false, false, false, entries_halted),
{
    let m1: u64 = if dd_breached { 0x802u64 } else { 0u64 };
    let m2: u64 = if funding_breached { 0x10u64 } else { 0u64 };
    let m3: u64 = if book_thin { 0x48u64 } else { 0u64 };
    let m4: u64 = if entries_halted { 0x900u64 } else { 0u64 };
    assert(0x2u64 | 0x800u64 == 0x802u64) by (bit_vector);
    assert(0x8u64 | 0x40u64 == 0x48u64) by (bit_vector);
    assert(0x800u64 | 0x100u64 == 0x900u64) by (bit_vector);
    assert(0u64 | 0u64 | 0u64 | 0u64 == 0u64) by (bit_vector);
    assert(0x802u64 | 0u64 | 0u64 | 0u64 == 0x802u64) by (bit_vector);
    assert(0u64 | 0x10u64 | 0u64 | 0u64 == 0x10u64) by (bit_vector);
    assert(0u64 | 0u64 | 0x48u64 | 0u64 == 0x48u64) by (bit_vector);
    assert(0u64 | 0u64 | 0u64 | 0x900u64 == 0x900u64) by (bit_vector);
    assert((m1 | 0u64 | 0u64 | 0u64) | (0u64 | m2 | 0u64 | 0u64) | (0u64 | 0u64 | m3 | 0u64) | (0u64
        | 0u64 | 0u64 | m4) == m1 | m2 | m3 | m4) by (bit_vector);
}

} // verus!
