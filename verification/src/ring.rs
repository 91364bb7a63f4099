//! Cursor of the fixed price ring of the symbol metrics.
use vstd::prelude::*;

verus! {

/// Number of slots in the price ring.
pub const RING_SLOTS: usize = 2048;

/// Write position and fill level of the price ring.
#[derive(Debug, Clone, Copy, PartialEq, Eq, Structural)]
pub struct RingCursor {
    pub head: usize,
    pub len: usize,
}

pub open spec fn ring_wf(c: RingCursor) -> bool {
    c.head < RING_SLOTS && c.len <= RING_SLOTS
}

/// Slot of the price pushed `k` pushes ago (1 is the latest).
pub open spec fn slot_back(head: usize, k: int) -> int {
    (head - k) % (RING_SLOTS as int)
}

impl RingCursor {
    pub fn new() -> (c: Self)
        ensures
            c.head == 0,
            c.len == 0,
    {
        RingCursor { head: 0, len: 0 }
    }

    /// Advance past one pushed price; returns the slot it is written to.
    pub fn advance(&mut self) -> (slot: usize)
        requires
            ring_wf(*old(self)),
        ensures
            ring_wf(*final(self)),
            slot == old(self).head,
            final(self).head == (old(self).head + 1) % (RING_SLOTS as int),
            final(self).len == if old(self).len < RING_SLOTS {
                old(self).len + 1
            } else {
                RING_SLOTS as int
            },
    {
        let slot = self.head;
        self.head = (self.head + 1) % RING_SLOTS;
        if self.len < RING_SLOTS {
            self.len += 1;
        }
        slot
    }

    /// Slot of the price `samples` pushes back (1 is the latest); with no
    /// more than `samples` prices held, the latest.
    pub fn lookback_slot(&self, samples: usize) -> (slot: usize)
        requires
            ring_wf(*self),
        ensures
            slot < RING_SLOTS,
            self.len <= samples ==> slot == slot_back(self.head, 1),
            self.len > samples ==> slot == slot_back(self.head, samples as int),
    {
        if self.len <= samples {
            (self.head + RING_SLOTS - 1) % RING_SLOTS
        } else {
            (self.head + RING_SLOTS - samples) % RING_SLOTS
        }
    }
}

/// The slot `k` pushes back after one more push is the slot `k - 1` pushes
/// back before it: looking back follows the order of the pushes.
pub proof fn law_lookback_follows_pushes(head: usize, k: int)
    requires
        head < RING_SLOTS,
        1 <= k <= RING_SLOTS,
    ensures
        slot_back(((head + 1) % (RING_SLOTS as int)) as usize, k) == if k == 1 {
            head as int
        } else {
            slot_back(head, k - 1)
        },
{
}

} // verus!
