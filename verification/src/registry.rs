//! Fixed-size symbol registry indexed by symbol id.
use vstd::prelude::*;
use crate::config::SymbolConfig;
pub use crate::packet::MAX_SYMBOLS;

verus! {

/// Slot of a symbol id: `id - 1`, saturating at 0.
pub open spec fn slot_of(id: u16) -> int {
    if id >= 1 {
        id - 1
    } else {
        0
    }
}

/// Slots after registering `symbols` in order into an empty registry; a
/// later symbol with the same slot replaces an earlier one, ids beyond the
/// last slot are ignored.
pub open spec fn registered_slots(symbols: Seq<SymbolConfig>) -> Seq<Option<SymbolConfig>>
    decreases symbols.len(),
{
    if symbols.len() == 0 {
        Seq::new(MAX_SYMBOLS as nat, |i: int| None)
    } else {
        let prev = registered_slots(symbols.drop_last());
        let s = symbols.last();
        if slot_of(s.id) < MAX_SYMBOLS {
            prev.update(slot_of(s.id), Some(s))
        } else {
            prev
        }
    }
}

/// Number of symbols whose slot is in range (each registration counts, also
/// one that replaces an earlier symbol).
pub open spec fn registered_count(symbols: Seq<SymbolConfig>) -> nat
    decreases symbols.len(),
{
    if symbols.len() == 0 {
        0
    } else {
        registered_count(symbols.drop_last()) + if slot_of(symbols.last().id) < MAX_SYMBOLS {
            1nat
        } else {
            0nat
        }
    }
}

pub proof fn lemma_registered_slots_len(symbols: Seq<SymbolConfig>)
    ensures
        registered_slots(symbols).len() == MAX_SYMBOLS,
    decreases symbols.len(),
{
    if symbols.len() > 0 {
        lemma_registered_slots_len(symbols.drop_last());
    }
}

#[derive(Debug)]
pub struct SymbolRegistry {
    pub slots: [Option<SymbolConfig>; 35],
    /// Registrations made, modulo 2^16.
    pub active_count: u16,
}

impl Default for SymbolRegistry {
    /// An empty registry.
    fn default() -> (r: Self)
        ensures
            r.slots@ == Seq::new(MAX_SYMBOLS as nat, |i: int| None::<SymbolConfig>),
            r.active_count == 0,
    {
        let r = SymbolRegistry {
            slots: [
                None, None, None, None, None, None, None, None, None, None, None, None, None,
                None, None, None, None, None, None, None, None, None, None, None, None, None,
                None, None, None, None, None, None, None, None, None,
            ],
            active_count: 0,
        };
        assert(r.slots@ =~= Seq::new(MAX_SYMBOLS as nat, |i: int| None::<SymbolConfig>));
        r
    }
}

impl SymbolRegistry {
    /// Register `symbols` in order.
    pub fn from_symbols(symbols: &[SymbolConfig]) -> (r: Self)
        ensures
            r.slots@ == registered_slots(symbols@),
            r.active_count == registered_count(symbols@) % 0x10000,
    {
        let mut reg = SymbolRegistry::default();
        let mut i: usize = 0;
        assert(symbols@.subrange(0, 0) =~= Seq::<SymbolConfig>::empty());
        while i < symbols.len()
            invariant
                i <= symbols@.len(),
                reg.slots@ == registered_slots(symbols@.subrange(0, i as int)),
                reg.active_count == registered_count(symbols@.subrange(0, i as int)) % 0x10000,
            decreases symbols.len() - i,
        {
            let s = &symbols[i];
            proof {
                lemma_registered_slots_len(symbols@.subrange(0, i as int));
                assert(symbols@.subrange(0, i + 1).drop_last() =~= symbols@.subrange(0, i as int));
                assert(symbols@.subrange(0, i + 1).last() == symbols@[i as int]);
            }
            let idx: usize = (s.id as usize).saturating_sub(1);
            if idx < MAX_SYMBOLS {
                reg.slots[idx] = Some(s.clone());
                reg.active_count = reg.active_count.wrapping_add(1);
            }
            i += 1;
        }
        assert(symbols@.subrange(0, symbols@.len() as int) =~= symbols@);
        reg
    }

    /// The symbol registered under `id`, if any.
    pub fn get(&self, id: u16) -> (r: Option<&SymbolConfig>)
        requires
            id >= 1,
        ensures
            r.is_some() == (id <= MAX_SYMBOLS && self.slots@[id - 1] is Some),
            r matches Some(c) ==> self.slots@[id - 1] == Some(*c),
    {
        let idx = (id - 1) as usize;
        if idx < MAX_SYMBOLS {
            match &self.slots[idx] {
                Some(c) => Some(c),
                None => None,
            }
        } else {
            None
        }
    }

    /// Turn the symbol under `id` on or off; ids with no symbol are ignored.
    pub fn set_enabled(&mut self, id: u16, enabled: bool)
        requires
            id >= 1,
        ensures
            final(self).active_count == old(self).active_count,
            (id <= MAX_SYMBOLS && old(self).slots@[id - 1] is Some) ==> final(self).slots@
                == old(self).slots@.update(
                id - 1,
                Some(SymbolConfig { enabled, ..old(self).slots@[id - 1]->0 }),
            ),
            !(id <= MAX_SYMBOLS && old(self).slots@[id - 1] is Some) ==> final(self).slots@
                == old(self).slots@,
    {
        let idx = (id - 1) as usize;
        if idx < MAX_SYMBOLS {
            let cur = match &self.slots[idx] {
                Some(c) => Some(c.clone()),
                None => None,
            };
            match cur {
                Some(c) => {
                    let updated = SymbolConfig { enabled, ..c };
                    self.slots[idx] = Some(updated);
                    assert(self.slots@ =~= old(self).slots@.update(
                        id - 1,
                        Some(SymbolConfig { enabled, ..old(self).slots@[id - 1]->0 }),
                    ));
                },
                None => {},
            }
        }
    }
}

/// Reading a symbol back after toggling it gives the toggled symbol.
pub proof fn law_get_after_set_enabled(
    before: Seq<Option<SymbolConfig>>,
    after: Seq<Option<SymbolConfig>>,
    id: u16,
    enabled: bool,
)
    requires
        before.len() == MAX_SYMBOLS,
        1 <= id <= MAX_SYMBOLS,
        before[id - 1] is Some,
        after == before.update(id - 1, Some(SymbolConfig { enabled, ..before[id - 1]->0 })),
    ensures
        after[id - 1] is Some,
        after[id - 1]->0.enabled == enabled,
        after[id - 1]->0.id == before[id - 1]->0.id,
        forall|j: int| 0 <= j < MAX_SYMBOLS && j != id - 1 ==> after[j] == before[j],
{
}

/// After registration every symbol with an in-range id can be found under
/// its id, unless a later symbol took the same slot (id 0 shares the
/// first slot).
pub proof fn law_registered_symbol_is_found(symbols: Seq<SymbolConfig>, k: int)
    requires
        0 <= k < symbols.len(),
        1 <= symbols[k].id <= MAX_SYMBOLS,
        forall|j: int|
            k < j < symbols.len() ==> (#[trigger] symbols[j].id) != symbols[k].id && !(
            symbols[j].id == 0 && symbols[k].id == 1),
    ensures
        registered_slots(symbols)[symbols[k].id - 1] == Some(symbols[k]),
    decreases symbols.len(),
{
    let last = symbols.len() - 1;
    lemma_registered_slots_len(symbols.drop_last());
    if k == last {
    } else {
        assert(symbols.drop_last()[k] == symbols[k]);
        assert forall|j: int| k < j < symbols.drop_last().len() implies (
            #[trigger] symbols.drop_last()[j].id) != symbols.drop_last()[k].id && !(
            symbols.drop_last()[j].id == 0 && symbols.drop_last()[k].id == 1) by {
            assert(symbols.drop_last()[j] == symbols[j]);
        }
        law_registered_symbol_is_found(symbols.drop_last(), k);
        assert(slot_of(symbols[last].id) != symbols[k].id - 1);
    }
}

/// A slot that no registered symbol names stays empty: slot `i` holds a
/// symbol only if some symbol has id `i + 1` (or id 0, for the first slot).
pub proof fn law_unnamed_slot_is_empty(symbols: Seq<SymbolConfig>, i: int)
    requires
        0 <= i < MAX_SYMBOLS,
        forall|j: int|
            0 <= j < symbols.len() ==> (#[trigger] symbols[j].id) != i + 1 && !(symbols[j].id == 0
                && i == 0),
    ensures
        registered_slots(symbols)[i] is None,
    decreases symbols.len(),
{
    if symbols.len() > 0 {
        let t = symbols.drop_last();
        assert forall|j: int| 0 <= j < t.len() implies (#[trigger] t[j].id) != i + 1 && !(t[j].id == 0
            && i == 0) by {
            assert(t[j] == symbols[j]);
        }
        law_unnamed_slot_is_empty(t, i);
        lemma_registered_slots_len(t);
        assert(symbols.last() == symbols[symbols.len() - 1]);
    }
}

} // verus!
