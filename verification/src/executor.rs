//! Decisions of the executor's event loop: operator commands, entry
//! permission, flattening and trade hours.
use vstd::prelude::*;
use crate::packet::OperatorAction;
use crate::text::{ascii_lower, eq_ignore_ascii_case};

verus! {

/// Operator commands are honoured only from the panel, the chat bridge or
/// the command line (source name in any ASCII case).
pub fn trusted_command_source(source: &str) -> (r: bool)
    ensures
        r == (ascii_lower(source@) == "panel"@ || ascii_lower(source@) == "telegram"@
            || ascii_lower(source@) == "cli"@),
{
    proof {
        reveal_strlit("panel");
        reveal_strlit("telegram");
        reveal_strlit("cli");
    }
    assert(ascii_lower("panel"@) =~= "panel"@);
    assert(ascii_lower("telegram"@) =~= "telegram"@);
    assert(ascii_lower("cli"@) =~= "cli"@);
    eq_ignore_ascii_case(source, "panel") || eq_ignore_ascii_case(source, "telegram")
        || eq_ignore_ascii_case(source, "cli")
}

/// UTC hour of day of a nanosecond timestamp.
pub open spec fn hour_of_day(now_ns: u64) -> u32 {
    ((now_ns / 3_600_000_000_000) % 24) as u32
}

/// Trading is allowed in this hour: no hours configured, or the current UTC
/// hour is one of them.
pub fn trade_hour_ok(hours: &[u32], now_ns: u64) -> (r: bool)
    ensures
        r == (hours@.len() == 0 || hours@.contains(hour_of_day(now_ns))),
{
    if hours.len() == 0 {
        return true;
    }
    let hour = ((now_ns / 3_600_000_000_000) % 24) as u32;
    let mut i: usize = 0;
    while i < hours.len()
        invariant
            i <= hours@.len(),
            hour == hour_of_day(now_ns),
            forall|j: int| 0 <= j < i ==> hours@[j] != hour,
        decreases hours.len() - i,
    {
        if hours[i] == hour {
            return true;
        }
        i += 1;
    }
    false
}

/// Operator state of the executor: entries halted by an operator, and a
/// pending request to flatten every position.
#[derive(Debug, Clone, Copy, PartialEq, Eq, Structural)]
pub struct OperatorControl {
    pub operator_halt: bool,
    pub flatten_request: bool,
}

/// Entries may open: no operator halt, no safe-mode halt, no warm-path halt.
pub open spec fn entries_allowed_spec(c: OperatorControl, safe_mode_halts: bool, warm_halted: bool) -> bool {
    !(c.operator_halt || safe_mode_halts || warm_halted)
}

/// State after an operator command.
pub open spec fn after_command(c: OperatorControl, action: OperatorAction) -> OperatorControl {
    match action {
        OperatorAction::HaltEntries => OperatorControl { operator_halt: true, ..c },
        OperatorAction::ResumeEntries => OperatorControl { operator_halt: false, ..c },
        OperatorAction::FlattenAll => OperatorControl { operator_halt: true, flatten_request: true },
        OperatorAction::StatusPing => c,
    }
}

/// Entries-halted flag the warm path publishes after an operator command,
/// if the command changes it.
pub open spec fn published_halt(action: OperatorAction, safe_mode_halts: bool) -> Option<bool> {
    match action {
        OperatorAction::HaltEntries => Some(true),
        OperatorAction::ResumeEntries => Some(safe_mode_halts),
        OperatorAction::FlattenAll => Some(true),
        OperatorAction::StatusPing => None,
    }
}

impl OperatorControl {
    pub fn new() -> (c: Self)
        ensures
            !c.operator_halt,
            !c.flatten_request,
    {
        OperatorControl { operator_halt: false, flatten_request: false }
    }

    /// Apply an operator command; returns the entries-halted flag to
    /// publish, or `None` when the command only asks for status.
    pub fn apply(&mut self, action: OperatorAction, safe_mode_halts: bool) -> (r: Option<bool>)
        ensures
            *final(self) == after_command(*old(self), action),
            r == published_halt(action, safe_mode_halts),
    {
        match action {
            OperatorAction::HaltEntries => {
                self.operator_halt = true;
                Some(true)
            },
            OperatorAction::ResumeEntries => {
                self.operator_halt = false;
                Some(safe_mode_halts)
            },
            OperatorAction::FlattenAll => {
                self.flatten_request = true;
                self.operator_halt = true;
                Some(true)
            },
            OperatorAction::StatusPing => None,
        }
    }

    /// Entries-halted flag published on a heartbeat or a heartbeat miss.
    pub fn halted_by_safety(&self, safe_mode_halts: bool) -> (r: bool)
        ensures
            r == (self.operator_halt || safe_mode_halts),
    {
        self.operator_halt || safe_mode_halts
    }

    pub fn entries_allowed(&self, safe_mode_halts: bool, warm_halted: bool) -> (r: bool)
        ensures
            r == entries_allowed_spec(*self, safe_mode_halts, warm_halted),
    {
        !(self.operator_halt || safe_mode_halts || warm_halted)
    }

    /// Flatten now when safe mode demands it or an operator asked, and there
    /// are positions; the operator request is then consumed.
    pub fn take_flatten(&mut self, close_all: bool, has_positions: bool) -> (r: bool)
        ensures
            r == ((close_all || old(self).flatten_request) && has_positions),
            final(self).operator_halt == old(self).operator_halt,
            final(self).flatten_request == (old(self).flatten_request && !r),
    {
        if (close_all || self.flatten_request) && has_positions {
            self.flatten_request = false;
            true
        } else {
            false
        }
    }
}

/// The kill switch: after a halt or flatten command no entry opens whatever
/// safe mode and the warm path say; after a flatten command the next check
/// with open positions flattens them; a resume re-opens entries when neither
/// safe mode nor the warm path halts them.
pub proof fn law_kill_switch(c: OperatorControl, safe_mode_halts: bool, warm_halted: bool)
    ensures
        !entries_allowed_spec(after_command(c, OperatorAction::HaltEntries), safe_mode_halts, warm_halted),
        !entries_allowed_spec(after_command(c, OperatorAction::FlattenAll), safe_mode_halts, warm_halted),
        after_command(c, OperatorAction::FlattenAll).flatten_request,
        entries_allowed_spec(after_command(c, OperatorAction::ResumeEntries), false, false),
        published_halt(OperatorAction::HaltEntries, safe_mode_halts) == Some(true),
        published_halt(OperatorAction::ResumeEntries, safe_mode_halts) == Some(safe_mode_halts),
{
}

/// What each operator command does to the operator state: a status request
/// changes nothing and publishes nothing; halt sets the halt and resume
/// clears it, neither touching a pending flatten; flatten sets both. Only a
/// flatten command ever raises the flatten request.
pub proof fn law_operator_commands(c: OperatorControl, action: OperatorAction, safe_mode_halts: bool)
    ensures
        after_command(c, OperatorAction::StatusPing) == c,
        published_halt(OperatorAction::StatusPing, safe_mode_halts) is None,
        after_command(c, OperatorAction::HaltEntries).operator_halt,
        after_command(c, OperatorAction::HaltEntries).flatten_request == c.flatten_request,
        !after_command(c, OperatorAction::ResumeEntries).operator_halt,
        after_command(c, OperatorAction::ResumeEntries).flatten_request == c.flatten_request,
        after_command(c, OperatorAction::FlattenAll).operator_halt,
        after_command(c, OperatorAction::FlattenAll).flatten_request,
        !c.flatten_request && after_command(c, action).flatten_request ==> action
            == OperatorAction::FlattenAll,
        action != OperatorAction::StatusPing ==> published_halt(action, safe_mode_halts) == Some(
            after_command(c, action).operator_halt || (action == OperatorAction::ResumeEntries
                && safe_mode_halts),
        ),
{
}

/// Entries are allowed exactly when no operator halt, no safe-mode halt and
/// no warm-path halt holds; any one of them blocks entries.
pub proof fn law_entries_allowed(c: OperatorControl, safe_mode_halts: bool, warm_halted: bool)
    ensures
        entries_allowed_spec(c, safe_mode_halts, warm_halted) <==> (!c.operator_halt
            && !safe_mode_halts && !warm_halted),
        c.operator_halt ==> !entries_allowed_spec(c, false, false),
        safe_mode_halts ==> !entries_allowed_spec((OperatorControl { operator_halt: false, flatten_request: false }), true, false),
        warm_halted ==> !entries_allowed_spec((OperatorControl { operator_halt: false, flatten_request: false }), false, true),
        entries_allowed_spec((OperatorControl { operator_halt: false, flatten_request: false }), false, false),
{
}

/// The trade hour is the UTC hour of the day: `d` days, `h` hours and `r`
/// nanoseconds under an hour after the epoch is hour `h`.
pub proof fn law_hour_of_day(d: u64, h: u64, r: u64)
    requires
        h < 24,
        r < 3_600_000_000_000,
        d * 86_400_000_000_000 + h * 3_600_000_000_000 + r <= u64::MAX,
    ensures
        hour_of_day((d * 86_400_000_000_000 + h * 3_600_000_000_000 + r) as u64) == h,
{
    let n = d * 86_400_000_000_000 + h * 3_600_000_000_000 + r;
    assert(n / 3_600_000_000_000 == d * 24 + h) by (nonlinear_arith)
        requires
            n == d * 86_400_000_000_000 + h * 3_600_000_000_000 + r,
            r < 3_600_000_000_000,
            h < 24,
    ;
    assert((d * 24 + h) % 24 == h) by (nonlinear_arith)
        requires
            h < 24,
    ;
}

} // verus!
