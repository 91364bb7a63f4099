//! Rolling window of trade outcomes behind the follow-through entry gate.
use vstd::prelude::*;
use std::collections::VecDeque;
use crate::risk::saturating_sub_spec;

verus! {

/// Number of `true` entries.
pub open spec fn count_true(s: Seq<bool>) -> nat
    decreases s.len(),
{
    if s.len() == 0 {
        0
    } else {
        count_true(s.drop_last()) + if s.last() {
            1nat
        } else {
            0nat
        }
    }
}

/// The window after recording `aligned`: the outcome is appended, and the
/// oldest one dropped when the window was full.
pub open spec fn recorded(window: Seq<bool>, capacity: nat, aligned: bool) -> Seq<bool> {
    if window.len() >= capacity {
        window.drop_first().push(aligned)
    } else {
        window.push(aligned)
    }
}

/// Time after an entry at which its follow-through is scored.
pub const OUTCOME_HORIZON_NS: u64 = 300_000_000;

/// The outcome of an entry taken at `entry_ns` is due at `now_ns`: at least
/// the horizon has passed (nothing has when the clock reads earlier).
pub fn outcome_due(now_ns: u64, entry_ns: u64) -> (r: bool)
    ensures
        r == (saturating_sub_spec(now_ns, entry_ns) >= OUTCOME_HORIZON_NS),
{
    now_ns.saturating_sub(entry_ns) >= OUTCOME_HORIZON_NS
}

/// Samples needed before the follow-through rate is enforced.
pub const MIN_SAMPLES: usize = 20;

/// Bounded FIFO of the most recent outcomes (aligned or not).
pub struct OutcomeWindow {
    window: VecDeque<bool>,
    capacity: usize,
}

impl View for OutcomeWindow {
    type V = Seq<bool>;

    closed spec fn view(&self) -> Seq<bool> {
        self.window@
    }
}

impl OutcomeWindow {
    /// Bound on the number of outcomes kept.
    pub closed spec fn capacity_spec(&self) -> nat {
        self.capacity as nat
    }

    pub closed spec fn wf(&self) -> bool {
        self.window@.len() <= self.capacity && self.capacity >= 10
    }

    /// An empty window keeping at most `capacity` outcomes, at least ten.
    pub fn new(capacity: usize) -> (w: Self)
        ensures
            w.wf(),
            w@ == Seq::<bool>::empty(),
            w.capacity_spec() == if capacity >= 10 { capacity as nat } else { 10 },
    {
        let cap = if capacity >= 10 { capacity } else { 10 };
        OutcomeWindow { window: VecDeque::with_capacity(capacity), capacity: cap }
    }

    pub fn capacity(&self) -> (c: usize)
        ensures
            c == self.capacity_spec(),
    {
        self.capacity
    }

    /// Record one outcome, dropping the oldest when full.
    pub fn record(&mut self, aligned: bool)
        requires
            old(self).wf(),
        ensures
            final(self).wf(),
            final(self).capacity_spec() == old(self).capacity_spec(),
            final(self)@ == recorded(old(self)@, old(self).capacity_spec(), aligned),
            final(self)@.len() <= final(self).capacity_spec(),
    {
        let ghost before = self.window@;
        if self.window.len() >= self.capacity {
            self.window.pop_front();
            assert(self.window@ =~= before.drop_first());
        }
        self.window.push_back(aligned);
    }

    pub fn len(&self) -> (n: usize)
        ensures
            n == self@.len(),
    {
        self.window.len()
    }

    pub fn is_empty(&self) -> (r: bool)
        ensures
            r == (self@.len() == 0),
    {
        self.window.len() == 0
    }

    /// Outcomes that were aligned.
    pub fn wins(&self) -> (n: usize)
        ensures
            n == count_true(self@),
    {
        let mut n: usize = 0;
        let mut i: usize = 0;
        let len = self.window.len();
        while i < len
            invariant
                len == self@.len(),
                i <= len,
                n == count_true(self@.subrange(0, i as int)),
                n <= i,
            decreases len - i,
        {
            assert(self@.subrange(0, i + 1).drop_last() =~= self@.subrange(0, i as int));
            if self.window[i] {
                n += 1;
            }
            i += 1;
        }
        assert(self@.subrange(0, len as int) =~= self@);
        n
    }

    /// The rate gate applies only once `MIN_SAMPLES` outcomes are known.
    pub fn enforcing(&self) -> (r: bool)
        ensures
            r == (self@.len() >= MIN_SAMPLES),
    {
        self.window.len() >= MIN_SAMPLES
    }
}

/// The window keeps exactly the most recent outcomes: recording into a
/// window of at most `capacity` outcomes yields the last
/// `min(len + 1, capacity)` outcomes of the extended history.
pub proof fn law_window_keeps_latest(window: Seq<bool>, capacity: nat, aligned: bool)
    requires
        window.len() <= capacity,
        capacity >= 1,
    ensures
        recorded(window, capacity, aligned).len() <= capacity,
        recorded(window, capacity, aligned) == window.push(aligned).subrange(
            window.push(aligned).len() - recorded(window, capacity, aligned).len(),
            window.push(aligned).len() as int,
        ),
        recorded(window, capacity, aligned).last() == aligned,
{
    let ext = window.push(aligned);
    let r = recorded(window, capacity, aligned);
    if window.len() >= capacity {
        assert(r =~= ext.subrange(1, ext.len() as int));
    } else {
        assert(r =~= ext.subrange(0, ext.len() as int));
    }
}

/// The win count counts aligned outcomes: none in an empty window, one
/// more for each aligned outcome appended, never more than the outcomes.
pub proof fn law_win_count(s: Seq<bool>, b: bool)
    ensures
        count_true(Seq::<bool>::empty()) == 0,
        count_true(s.push(b)) == count_true(s) + if b { 1nat } else { 0nat },
        count_true(s) <= s.len(),
    decreases s.len(),
{
    assert(s.push(b).drop_last() =~= s);
    if s.len() > 0 {
        law_win_count(s.drop_last(), b);
    }
}

} // verus!
