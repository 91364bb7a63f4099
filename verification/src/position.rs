//! Exit verdict of the position manager, from the tests its prices pass.
use vstd::prelude::*;
use crate::risk::saturating_sub_spec;

verus! {

#[derive(Debug, Clone, Copy, PartialEq, Eq, Structural)]
pub enum ExitReason {
    LagConvergence,
    TimeStop,
    Invalidation,
    StopLoss,
    TakeProfit,
    SafeMode,
    Manual,
}

/// The time stop is due: more than `time_stop_ms` whole milliseconds since
/// the position opened.
pub fn time_stop_elapsed(now_ns: u64, open_time_ns: u64, time_stop_ms: u64) -> (r: bool)
    ensures
        r == (saturating_sub_spec(now_ns, open_time_ns) / 1_000_000 > time_stop_ms),
{
    now_ns.saturating_sub(open_time_ns) / 1_000_000 > time_stop_ms
}

/// The outcomes of the position manager's tests on one position.
#[derive(Debug, Clone, Copy, PartialEq, Eq, Structural)]
pub struct ExitSignals {
    /// Lag capture reached the convergence ratio.
    pub converged: bool,
    /// Time stop elapsed while capture stayed below 30%.
    pub time_stop_due: bool,
    /// Residual, impulse and velocity flipped materially against the side.
    pub invalidated: bool,
    /// A stop is set and the Bybit mid crossed it.
    pub stop_hit: bool,
    /// A target is set and the Bybit mid crossed it.
    pub target_hit: bool,
}

/// The exit reason, first match in priority order: convergence, time stop,
/// invalidation, stop loss, take profit.
pub open spec fn exit_reason_spec(s: ExitSignals) -> Option<ExitReason> {
    if s.converged {
        Some(ExitReason::LagConvergence)
    } else if s.time_stop_due {
        Some(ExitReason::TimeStop)
    } else if s.invalidated {
        Some(ExitReason::Invalidation)
    } else if s.stop_hit {
        Some(ExitReason::StopLoss)
    } else if s.target_hit {
        Some(ExitReason::TakeProfit)
    } else {
        None
    }
}

pub fn exit_reason(s: &ExitSignals) -> (r: Option<ExitReason>)
    ensures
        r == exit_reason_spec(*s),
{
    if s.converged {
        return Some(ExitReason::LagConvergence);
    }
    if s.time_stop_due {
        return Some(ExitReason::TimeStop);
    }
    if s.invalidated {
        return Some(ExitReason::Invalidation);
    }
    if s.stop_hit {
        return Some(ExitReason::StopLoss);
    }
    if s.target_hit {
        return Some(ExitReason::TakeProfit);
    }
    None
}

/// A position exits exactly when one of the tests fires, and a stop-loss
/// exit is never reported while an earlier reason holds.
pub proof fn law_exit_priority(s: ExitSignals)
    ensures
        exit_reason_spec(s) is Some <==> (s.converged || s.time_stop_due || s.invalidated
            || s.stop_hit || s.target_hit),
        exit_reason_spec(s) == Some(ExitReason::StopLoss) ==> !s.converged && !s.time_stop_due
            && !s.invalidated,
        s.converged ==> exit_reason_spec(s) == Some(ExitReason::LagConvergence),
{
}

/// Each exit reason is reported exactly when its test fires and no test
/// before it in priority order (convergence, time stop, invalidation, stop
/// loss, take profit) fires.
pub proof fn law_exit_reason_order(s: ExitSignals)
    ensures
        exit_reason_spec(s) == Some(ExitReason::LagConvergence) <==> s.converged,
        exit_reason_spec(s) == Some(ExitReason::TimeStop) <==> !s.converged && s.time_stop_due,
        exit_reason_spec(s) == Some(ExitReason::Invalidation) <==> !s.converged && !s.time_stop_due
            && s.invalidated,
        exit_reason_spec(s) == Some(ExitReason::StopLoss) <==> !s.converged && !s.time_stop_due
            && !s.invalidated && s.stop_hit,
        exit_reason_spec(s) == Some(ExitReason::TakeProfit) <==> !s.converged && !s.time_stop_due
            && !s.invalidated && !s.stop_hit && s.target_hit,
        exit_reason_spec(s) is None <==> !s.converged && !s.time_stop_due && !s.invalidated
            && !s.stop_hit && !s.target_hit,
{
}

} // verus!
