//! Deployment-mode gating: which modes may route real orders and which must
//! pass the edge-research gate first.
use vstd::prelude::*;
use crate::text::{ascii_lower, eq_ignore_ascii_case};

verus! {

/// Live order routing: the mode is "live" in any ASCII case.
pub open spec fn live_mode(mode: Seq<char>) -> bool {
    ascii_lower(mode) == "live"@
}

/// Paper trading: the mode is "paper" in any ASCII case.
pub open spec fn paper_mode(mode: Seq<char>) -> bool {
    ascii_lower(mode) == "paper"@
}

/// The edge-research gate applies: always for live, for paper unless
/// unverified paper trading is allowed, never for other modes.
pub open spec fn edge_gate_required(mode: Seq<char>, allow_unverified_paper: bool) -> bool {
    live_mode(mode) || (paper_mode(mode) && !allow_unverified_paper)
}

/// True only when the deployment mode is live; never for paper or dev.
pub fn allow_live_orders(mode: &str) -> (r: bool)
    ensures
        r == live_mode(mode@),
{
    proof {
        reveal_strlit("live");
    }
    let r = eq_ignore_ascii_case(mode, "live");
    assert(ascii_lower("live"@) =~= "live"@);
    r
}

/// Live always needs the edge gate; paper needs it unless unverified paper
/// trading is allowed; every other mode (dev) does not.
pub fn requires_edge_gate(mode: &str, allow_unverified_paper: bool) -> (r: bool)
    ensures
        r == edge_gate_required(mode@, allow_unverified_paper),
{
    proof {
        reveal_strlit("live");
        reveal_strlit("paper");
    }
    assert(ascii_lower("live"@) =~= "live"@);
    assert(ascii_lower("paper"@) =~= "paper"@);
    assert(!("live"@ =~= "paper"@));
    if eq_ignore_ascii_case(mode, "live") {
        true
    } else if eq_ignore_ascii_case(mode, "paper") {
        !allow_unverified_paper
    } else {
        false
    }
}

/// A mode that routes live orders always passes the edge gate, whatever the
/// unverified-paper setting; a paper mode never routes live orders.
pub proof fn law_live_orders_need_edge_gate(mode: Seq<char>, allow_unverified_paper: bool)
    ensures
        live_mode(mode) ==> edge_gate_required(mode, allow_unverified_paper),
        paper_mode(mode) ==> !live_mode(mode),
        !live_mode(mode) && !paper_mode(mode) ==> !edge_gate_required(mode, allow_unverified_paper),
{
    reveal_strlit("live");
    reveal_strlit("paper");
    assert(!("live"@ =~= "paper"@));
}

/// Orders and research by deployment mode: "live" sends exchange orders
/// and needs passed edge research; "paper" sends none, and needs passed
/// research unless unverified paper trading is allowed; every other mode
/// sends none and needs no research. Case of the mode name does not matter.
pub proof fn law_modes_table(mode: Seq<char>, allow_unverified_paper: bool)
    ensures
        ascii_lower(mode) == "live"@ ==> live_mode(mode) && edge_gate_required(
            mode,
            allow_unverified_paper,
        ),
        ascii_lower(mode) == "paper"@ ==> !live_mode(mode) && (edge_gate_required(
            mode,
            allow_unverified_paper,
        ) <==> !allow_unverified_paper),
        ascii_lower(mode) != "live"@ && ascii_lower(mode) != "paper"@ ==> !live_mode(mode)
            && !edge_gate_required(mode, allow_unverified_paper),
{
    reveal_strlit("live");
    reveal_strlit("paper");
    assert(!("live"@ =~= "paper"@));
}

} // verus!
