//! Heartbeat-driven safe mode: consecutive missed heartbeats escalate the
//! executor from normal trading to a full flatten.
use vstd::prelude::*;

verus! {

#[derive(Debug, Clone, Copy, PartialEq, Eq, Structural)]
pub enum SafeModePhase {
    Normal,
    Caution,
    Defensive,
    Emergency,
}

/// Severity rank of a phase (Normal lowest, Emergency highest).
pub open spec fn severity(p: SafeModePhase) -> int {
    match p {
        SafeModePhase::Normal => 0,
        SafeModePhase::Caution => 1,
        SafeModePhase::Defensive => 2,
        SafeModePhase::Emergency => 3,
    }
}

/// The phase reached after `misses` consecutive missed heartbeats; the
/// emergency threshold is tested first, then defensive, then caution.
pub open spec fn phase_for(misses: u32, caution: u32, defensive: u32, emergency: u32) -> SafeModePhase {
    if misses >= emergency {
        SafeModePhase::Emergency
    } else if misses >= defensive {
        SafeModePhase::Defensive
    } else if misses >= caution {
        SafeModePhase::Caution
    } else {
        SafeModePhase::Normal
    }
}

pub struct SafeMode {
    pub miss_caution: u32,
    pub miss_defensive: u32,
    pub miss_emergency: u32,
    pub consecutive_misses: u32,
    pub phase: SafeModePhase,
}

impl SafeMode {
    pub fn new(miss_caution: u32, miss_defensive: u32, miss_emergency: u32) -> (s: Self)
        ensures
            s.miss_caution == miss_caution,
            s.miss_defensive == miss_defensive,
            s.miss_emergency == miss_emergency,
            s.consecutive_misses == 0,
            s.phase == SafeModePhase::Normal,
    {
        SafeMode {
            miss_caution,
            miss_defensive,
            miss_emergency,
            consecutive_misses: 0,
            phase: SafeModePhase::Normal,
        }
    }

    /// A heartbeat arrived: the miss count resets and trading is normal again.
    pub fn on_heartbeat(&mut self)
        ensures
            final(self).consecutive_misses == 0,
            final(self).phase == SafeModePhase::Normal,
            final(self).miss_caution == old(self).miss_caution,
            final(self).miss_defensive == old(self).miss_defensive,
            final(self).miss_emergency == old(self).miss_emergency,
    {
        self.consecutive_misses = 0;
        self.phase = SafeModePhase::Normal;
    }

    /// A heartbeat was missed: the count grows by one and the phase follows
    /// the thresholds.
    pub fn on_miss(&mut self)
        requires
            old(self).consecutive_misses < u32::MAX,
        ensures
            final(self).consecutive_misses == old(self).consecutive_misses + 1,
            final(self).phase == phase_for(
                final(self).consecutive_misses,
                old(self).miss_caution,
                old(self).miss_defensive,
                old(self).miss_emergency,
            ),
            final(self).miss_caution == old(self).miss_caution,
            final(self).miss_defensive == old(self).miss_defensive,
            final(self).miss_emergency == old(self).miss_emergency,
    {
        self.consecutive_misses += 1;
        self.phase = if self.consecutive_misses >= self.miss_emergency {
            SafeModePhase::Emergency
        } else if self.consecutive_misses >= self.miss_defensive {
            SafeModePhase::Defensive
        } else if self.consecutive_misses >= self.miss_caution {
            SafeModePhase::Caution
        } else {
            SafeModePhase::Normal
        };
    }

    /// New entries are refused in every phase but Normal.
    pub fn halt_entries(&self) -> (r: bool)
        ensures
            r == (self.phase != SafeModePhase::Normal),
    {
        match self.phase {
            SafeModePhase::Caution | SafeModePhase::Defensive | SafeModePhase::Emergency => true,
            SafeModePhase::Normal => false,
        }
    }

    /// Open positions are flattened only in Emergency.
    pub fn close_all(&self) -> (r: bool)
        ensures
            r == (self.phase == SafeModePhase::Emergency),
    {
        self.phase == SafeModePhase::Emergency
    }
}

/// More consecutive misses never lower the phase, whatever the thresholds.
pub proof fn law_escalation_is_monotone(m1: u32, m2: u32, caution: u32, defensive: u32, emergency: u32)
    requires
        m1 <= m2,
    ensures
        severity(phase_for(m1, caution, defensive, emergency)) <= severity(
            phase_for(m2, caution, defensive, emergency),
        ),
{
}

/// Flattening implies halting: the phase in which `close_all` holds is one in
/// which `halt_entries` holds.
pub proof fn law_flatten_implies_halt(p: SafeModePhase)
    ensures
        p == SafeModePhase::Emergency ==> p != SafeModePhase::Normal,
{
}

/// Once the miss count reaches the emergency threshold the executor is in
/// Emergency; below the caution, defensive and emergency thresholds it is
/// Normal.
pub proof fn law_thresholds(misses: u32, caution: u32, defensive: u32, emergency: u32)
    ensures
        misses >= emergency ==> phase_for(misses, caution, defensive, emergency)
            == SafeModePhase::Emergency,
        misses < caution && misses < defensive && misses < emergency ==> phase_for(
            misses,
            caution,
            defensive,
            emergency,
        ) == SafeModePhase::Normal,
        misses >= caution ==> phase_for(misses, caution, defensive, emergency)
            != SafeModePhase::Normal,
{
}

/// The phase after a run of missed heartbeats, threshold by threshold: at
/// or past the emergency count Emergency; else at or past the defensive count
/// Defensive; else at or past the caution count Caution; else Normal. Only
/// Emergency flattens, and every phase but Normal halts entries.
pub proof fn law_phase_by_misses(misses: u32, caution: u32, defensive: u32, emergency: u32)
    ensures
        misses >= emergency ==> phase_for(misses, caution, defensive, emergency)
            == SafeModePhase::Emergency,
        misses < emergency && misses >= defensive ==> phase_for(misses, caution, defensive, emergency)
            == SafeModePhase::Defensive,
        misses < emergency && misses < defensive && misses >= caution ==> phase_for(
            misses,
            caution,
            defensive,
            emergency,
        ) == SafeModePhase::Caution,
        misses < emergency && misses < defensive && misses < caution ==> phase_for(
            misses,
            caution,
            defensive,
            emergency,
        ) == SafeModePhase::Normal,
{
}

} // verus!
