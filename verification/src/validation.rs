//! Startup validation: configuration consistency and the edge-research gate
//! that paper and live trading must pass.
use vstd::prelude::*;
use crate::config::{EdgeMeta, SymbolConfig};
use crate::packet::PACKET_VERSION;
use crate::text::{ascii_lower, decimal, eq_ignore_ascii_case, push_decimal, str_equal};
use crate::trading_mode::{live_mode, paper_mode};

verus! {

/// The deployment settings startup validation reads. `target_below_fee_floor`
/// records whether the initial take-profit target lies below the
/// round-trip futures fee floor.
#[derive(Debug)]
pub struct StartupConfig {
    pub mode: String,
    pub spot_enabled: bool,
    pub allow_unverified_paper: bool,
    pub packet_version: u8,
    pub target_below_fee_floor: bool,
}

/// One symbol of an edge profile: whether its net edge is positive, and its
/// trade hours.
#[derive(Debug)]
pub struct EdgeGateSymbol {
    pub net_edge_positive: bool,
    pub trade_hours_utc: Vec<u32>,
}

/// An edge-research profile: its provenance and its symbols.
#[derive(Debug)]
pub struct EdgeGateProfile {
    pub meta: EdgeMeta,
    pub edges: Vec<EdgeGateSymbol>,
}

#[derive(Debug)]
pub enum ValidationError {
    Message(String),
}

pub type ValidationResult = Result<(), ValidationError>;

/// The text of an optional string, empty when absent.
pub open spec fn opt_text(o: Option<String>) -> Seq<char> {
    match o {
        Some(s) => s@,
        None => Seq::empty(),
    }
}

/// Binance name of the first enabled spot symbol, if any.
pub open spec fn first_enabled_spot(symbols: Seq<SymbolConfig>) -> Option<Seq<char>>
    decreases symbols.len(),
{
    if symbols.len() == 0 {
        None
    } else if symbols[0].enabled && symbols[0].instrument@ == "spot"@ {
        Some(symbols[0].binance@)
    } else {
        first_enabled_spot(symbols.drop_first())
    }
}

/// Some symbol has a positive net edge over at least three trade hours.
pub open spec fn has_tradable_edge(edges: Seq<EdgeGateSymbol>) -> bool {
    exists|i: int|
        0 <= i < edges.len() && #[trigger] edges[i].net_edge_positive
            && edges[i].trade_hours_utc@.len() >= 3
}

/// Research ran on real market data: the data source is "live" or
/// "binance_vision" (in any ASCII case); empty and "synthetic" sources are not.
pub open spec fn real_data_source(source: Seq<char>) -> bool {
    ascii_lower(source) == "live"@ || ascii_lower(source) == "binance_vision"@
}

/// Unverified paper trading skips the edge gate.
pub open spec fn skips_edge_gate(cfg: StartupConfig) -> bool {
    cfg.allow_unverified_paper && paper_mode(cfg.mode@)
}

/// The edge-research gate of paper and live trading: `None` when it passes,
/// else the message of the first failed check.
pub open spec fn edge_gate_verdict(cfg: StartupConfig, edge: EdgeGateProfile) -> Option<Seq<char>> {
    let source = opt_text(edge.meta.data_source);
    if live_mode(cfg.mode@) && cfg.allow_unverified_paper {
        Some("allow_unverified_paper cannot be used with mode=live"@)
    } else if skips_edge_gate(cfg) {
        None
    } else if edge.meta.status@ != "pass"@ {
        Some("edge_profile.meta.status must be 'pass' for paper/live"@)
    } else if !real_data_source(source) {
        Some(
            "edge_profile.meta.data_source must be live/binance_vision (synthetic forbidden for paper/live)"@,
        )
    } else if edge.meta.research_period_days < 14 {
        Some(
            "edge_profile.meta.research_period_days="@ + decimal(
                edge.meta.research_period_days as nat,
            ) + " < 14 required for paper/live"@,
        )
    } else if opt_text(edge.meta.research_method) != "l2_vwap"@ {
        Some("edge_profile.meta.research_method must be 'l2_vwap' for paper/live"@)
    } else if !has_tradable_edge(edge.edges@) {
        Some("edge_profile: need ≥1 symbol with net_edge_bps > 0 and ≥3 trade hours"@)
    } else {
        None
    }
}

/// Outcome of startup validation: `None` when startup goes ahead, else the
/// message of the first test that fails.
pub open spec fn startup_verdict(
    cfg: StartupConfig,
    symbols: Seq<SymbolConfig>,
    edge: EdgeGateProfile,
    paper_or_live: bool,
) -> Option<Seq<char>> {
    if cfg.packet_version != PACKET_VERSION {
        Some(
            "packet_version mismatch: config="@ + decimal(cfg.packet_version as nat) + " binary="@
                + decimal(PACKET_VERSION as nat),
        )
    } else if cfg.target_below_fee_floor {
        Some("initial_target_pct < D_min_net_futures"@)
    } else if !cfg.spot_enabled && first_enabled_spot(symbols) is Some {
        Some(
            "spot symbol "@ + first_enabled_spot(symbols)->0 + " enabled but spot_enabled=false"@,
        )
    } else if paper_or_live {
        edge_gate_verdict(cfg, edge)
    } else {
        None
    }
}

fn text(lit: &str) -> (s: String)
    ensures
        s@ == lit@,
{
    String::from_str(lit)
}

fn fail(m: String) -> (r: ValidationResult)
    ensures
        r matches Err(ValidationError::Message(s)) && s == m,
{
    Err(ValidationError::Message(m))
}

fn find_enabled_spot(symbols: &Vec<SymbolConfig>) -> (r: Option<usize>)
    ensures
        first_enabled_spot(symbols@) is None <==> r is None,
        r matches Some(i) ==> i < symbols@.len() && first_enabled_spot(symbols@) == Some(
            symbols@[i as int].binance@,
        ),
{
    let mut i: usize = 0;
    assert(symbols@.subrange(0, symbols@.len() as int) =~= symbols@);
    while i < symbols.len()
        invariant
            i <= symbols@.len(),
            first_enabled_spot(symbols@) == first_enabled_spot(symbols@.subrange(i as int, symbols@.len() as int)),
        decreases symbols.len() - i,
    {
        let s = &symbols[i];
        let ghost tail = symbols@.subrange(i as int, symbols@.len() as int);
        assert(tail[0] == symbols@[i as int]);
        assert(tail.drop_first() =~= symbols@.subrange(i + 1, symbols@.len() as int));
        if s.enabled && str_equal(s.instrument.as_str(), "spot") {
            return Some(i);
        }
        i += 1;
    }
    assert(symbols@.subrange(i as int, symbols@.len() as int).len() == 0);
    None
}

fn find_tradable_edge(edges: &Vec<EdgeGateSymbol>) -> (r: bool)
    ensures
        r == has_tradable_edge(edges@),
{
    let mut i: usize = 0;
    while i < edges.len()
        invariant
            i <= edges@.len(),
            forall|j: int|
                0 <= j < i ==> !(#[trigger] edges@[j].net_edge_positive
                    && edges@[j].trade_hours_utc@.len() >= 3),
        decreases edges.len() - i,
    {
        if edges[i].net_edge_positive && edges[i].trade_hours_utc.len() >= 3 {
            return true;
        }
        i += 1;
    }
    false
}

fn opt_str(o: &Option<String>) -> (r: &str)
    ensures
        r@ == opt_text(*o),
{
    match o {
        Some(s) => s.as_str(),
        None => {
            proof {
                reveal_strlit("");
            }
            ""
        },
    }
}

/// Check the configuration, the symbol list and, for paper or live
/// trading, the edge-research profile, in the order `startup_verdict` gives.
pub fn validate_startup(
    cfg: &StartupConfig,
    symbols: &Vec<SymbolConfig>,
    edge: &EdgeGateProfile,
    paper_or_live: bool,
) -> (r: ValidationResult)
    ensures
        r is Ok <==> startup_verdict(*cfg, symbols@, *edge, paper_or_live) is None,
        r matches Err(ValidationError::Message(m)) ==> startup_verdict(
            *cfg,
            symbols@,
            *edge,
            paper_or_live,
        ) == Some(m@),
{
    if cfg.packet_version != PACKET_VERSION {
        let mut m = text("packet_version mismatch: config=");
        push_decimal(&mut m, cfg.packet_version as u64);
        m.append(" binary=");
        push_decimal(&mut m, PACKET_VERSION as u64);
        return fail(m);
    }
    if cfg.target_below_fee_floor {
        return fail(text("initial_target_pct < D_min_net_futures"));
    }
    if !cfg.spot_enabled {
        match find_enabled_spot(symbols) {
            Some(i) => {
                let mut m = text("spot symbol ");
                m.append(symbols[i].binance.as_str());
                m.append(" enabled but spot_enabled=false");
                return fail(m);
            },
            None => {},
        }
    }
    if paper_or_live {
        proof {
            reveal_strlit("live");
            reveal_strlit("paper");
        }
        assert(ascii_lower("live"@) =~= "live"@);
        assert(ascii_lower("paper"@) =~= "paper"@);
        let live = eq_ignore_ascii_case(cfg.mode.as_str(), "live");
        if live && cfg.allow_unverified_paper {
            return fail(text("allow_unverified_paper cannot be used with mode=live"));
        }
        let skip_edge = cfg.allow_unverified_paper && eq_ignore_ascii_case(
            cfg.mode.as_str(),
            "paper",
        );
        if !skip_edge {
            if !str_equal(edge.meta.status.as_str(), "pass") {
                return fail(text("edge_profile.meta.status must be 'pass' for paper/live"));
            }
            let source = opt_str(&edge.meta.data_source);
            proof {
                reveal_strlit("binance_vision");
            }
            assert(ascii_lower("binance_vision"@) =~= "binance_vision"@);
            if !(eq_ignore_ascii_case(source, "live") || eq_ignore_ascii_case(source, "binance_vision")) {
                return fail(
                    text(
                        "edge_profile.meta.data_source must be live/binance_vision (synthetic forbidden for paper/live)",
                    ),
                );
            }
            if edge.meta.research_period_days < 14 {
                let mut m = text("edge_profile.meta.research_period_days=");
                push_decimal(&mut m, edge.meta.research_period_days as u64);
                m.append(" < 14 required for paper/live");
                return fail(m);
            }
            let method = opt_str(&edge.meta.research_method);
            if !str_equal(method, "l2_vwap") {
                return fail(
                    text("edge_profile.meta.research_method must be 'l2_vwap' for paper/live"),
                );
            }
            if !find_tradable_edge(&edge.edges) {
                return fail(
                    text(
                        "edge_profile: need ≥1 symbol with net_edge_bps > 0 and ≥3 trade hours",
                    ),
                );
            }
        }
    }
    Ok(())
}

/// Paper or live trading starts only on an edge profile that passed
/// research on real data: status "pass", a live or Binance Vision data
/// source, at least 14 days, the L2 VWAP method and a tradable positive edge, unless
/// unverified paper trading was chosen.
pub proof fn law_trading_requires_passed_edge(
    cfg: StartupConfig,
    symbols: Seq<SymbolConfig>,
    edge: EdgeGateProfile,
)
    requires
        startup_verdict(cfg, symbols, edge, true) is None,
        !skips_edge_gate(cfg),
    ensures
        edge.meta.status@ == "pass"@,
        real_data_source(opt_text(edge.meta.data_source)),
        edge.meta.research_period_days >= 14,
        opt_text(edge.meta.research_method) == "l2_vwap"@,
        has_tradable_edge(edge.edges@),
        cfg.packet_version == PACKET_VERSION,
        !cfg.target_below_fee_floor,
{
}

/// The edge gate is skipped only on the unverified-paper opt-in: a profile
/// that did not pass research (status other than "pass", a data source other
/// than live or Binance Vision, under 14 days, a method other than L2 VWAP,
/// or no tradable positive edge) lets paper or live trading start only when
/// unverified paper trading was allowed and the mode is paper.
pub proof fn law_edge_gate_needs_opt_in(
    cfg: StartupConfig,
    symbols: Seq<SymbolConfig>,
    edge: EdgeGateProfile,
)
    requires
        startup_verdict(cfg, symbols, edge, true) is None,
        !(edge.meta.status@ == "pass"@ && (ascii_lower(opt_text(edge.meta.data_source)) == "live"@
            || ascii_lower(opt_text(edge.meta.data_source)) == "binance_vision"@)
            && edge.meta.research_period_days >= 14 && opt_text(edge.meta.research_method)
            == "l2_vwap"@ && (exists|i: int|
            0 <= i < edge.edges@.len() && #[trigger] edge.edges@[i].net_edge_positive
                && edge.edges@[i].trade_hours_utc@.len() >= 3)),
    ensures
        cfg.allow_unverified_paper,
        ascii_lower(cfg.mode@) == "paper"@,
{
}

/// Without the unverified-paper opt-in, a profile whose status is not
/// "pass" stops paper or live startup, in every mode; once the packet
/// version, fee floor and spot checks pass, with the status message.
pub proof fn law_unpassed_profile_refused(
    cfg: StartupConfig,
    symbols: Seq<SymbolConfig>,
    edge: EdgeGateProfile,
)
    requires
        !cfg.allow_unverified_paper,
        edge.meta.status@ != "pass"@,
    ensures
        startup_verdict(cfg, symbols, edge, true) is Some,
        cfg.packet_version == PACKET_VERSION && !cfg.target_below_fee_floor && (cfg.spot_enabled
            || first_enabled_spot(symbols) is None) ==> startup_verdict(cfg, symbols, edge, true)
            == Some("edge_profile.meta.status must be 'pass' for paper/live"@),
{
}

/// With the unverified-paper opt-in in paper mode, the edge profile is not
/// consulted: startup goes ahead whenever the packet version, fee floor and
/// spot checks pass.
pub proof fn law_unverified_paper_ignores_edge(
    cfg: StartupConfig,
    symbols: Seq<SymbolConfig>,
    edge: EdgeGateProfile,
)
    requires
        cfg.allow_unverified_paper,
        ascii_lower(cfg.mode@) == "paper"@,
        cfg.packet_version == PACKET_VERSION,
        !cfg.target_below_fee_floor,
        cfg.spot_enabled || first_enabled_spot(symbols) is None,
    ensures
        startup_verdict(cfg, symbols, edge, true) is None,
{
    reveal_strlit("live");
    reveal_strlit("paper");
    assert("live"@[0] != "paper"@[0]);
    assert(ascii_lower(cfg.mode@) != "live"@);
}

/// The configuration checks come first and refuse on their own: a packet
/// version other than this binary's, a take-profit target below the fee
/// floor, or (with spot trading off) an enabled spot symbol stops startup in
/// every mode, naming the first such symbol. When they pass, startup outside
/// paper and live always goes ahead, and paper or live with a profile that
/// passed research goes ahead unless unverified paper is asked for in live
/// mode.
pub proof fn law_startup_outcomes(
    cfg: StartupConfig,
    symbols: Seq<SymbolConfig>,
    edge: EdgeGateProfile,
    paper_or_live: bool,
    k: int,
)
    ensures
        cfg.packet_version != PACKET_VERSION ==> startup_verdict(cfg, symbols, edge, paper_or_live)
            == Some(
            "packet_version mismatch: config="@ + decimal(cfg.packet_version as nat) + " binary="@
                + decimal(3),
        ),
        cfg.packet_version == PACKET_VERSION && cfg.target_below_fee_floor ==> startup_verdict(
            cfg,
            symbols,
            edge,
            paper_or_live,
        ) == Some("initial_target_pct < D_min_net_futures"@),
        cfg.packet_version == PACKET_VERSION && !cfg.target_below_fee_floor && !cfg.spot_enabled
            && 0 <= k < symbols.len() && symbols[k].enabled && symbols[k].instrument@ == "spot"@
            && (forall|j: int| 0 <= j < k ==> !(symbols[j].enabled && symbols[j].instrument@ == "spot"@))
            ==> startup_verdict(cfg, symbols, edge, paper_or_live) == Some(
            "spot symbol "@ + symbols[k].binance@ + " enabled but spot_enabled=false"@,
        ),
        cfg.packet_version == PACKET_VERSION && !cfg.target_below_fee_floor && (cfg.spot_enabled
            || first_enabled_spot(symbols) is None) && !paper_or_live ==> startup_verdict(
            cfg,
            symbols,
            edge,
            paper_or_live,
        ) is None,
        cfg.packet_version == PACKET_VERSION && !cfg.target_below_fee_floor && (cfg.spot_enabled
            || first_enabled_spot(symbols) is None) && !cfg.allow_unverified_paper
            && edge.meta.status@ == "pass"@ && (ascii_lower(opt_text(edge.meta.data_source))
            == "live"@ || ascii_lower(opt_text(edge.meta.data_source)) == "binance_vision"@)
            && edge.meta.research_period_days >= 14 && opt_text(edge.meta.research_method)
            == "l2_vwap"@ && (exists|i: int|
            0 <= i < edge.edges@.len() && #[trigger] edge.edges@[i].net_edge_positive
                && edge.edges@[i].trade_hours_utc@.len() >= 3) ==> startup_verdict(
            cfg,
            symbols,
            edge,
            true,
        ) is None,
        ascii_lower(cfg.mode@) == "live"@ && cfg.allow_unverified_paper ==> startup_verdict(
            cfg,
            symbols,
            edge,
            true,
        ) is Some,
        (forall|j: int| 0 <= j < symbols.len() ==> !(symbols[j].enabled && symbols[j].instrument@ == "spot"@))
            ==> first_enabled_spot(symbols) is None,
{
    lemma_first_spot_at(symbols, k);
    lemma_no_spot_anywhere(symbols);
}

proof fn lemma_first_spot_at(symbols: Seq<SymbolConfig>, k: int)
    ensures
        0 <= k < symbols.len() && symbols[k].enabled && symbols[k].instrument@ == "spot"@ && (forall|
            j: int,
        | 0 <= j < k ==> !(symbols[j].enabled && symbols[j].instrument@ == "spot"@))
            ==> first_enabled_spot(symbols) == Some(symbols[k].binance@),
    decreases symbols.len(),
{
    if 0 < k < symbols.len() && symbols[k].enabled && symbols[k].instrument@ == "spot"@ && (forall|
        j: int,
    | 0 <= j < k ==> !(symbols[j].enabled && symbols[j].instrument@ == "spot"@)) {
        let t = symbols.drop_first();
        assert forall|j: int| 0 <= j < k - 1 implies !(t[j].enabled && t[j].instrument@ == "spot"@) by {
            assert(t[j] == symbols[j + 1]);
        }
        assert(t[k - 1] == symbols[k]);
        assert(!(symbols[0].enabled && symbols[0].instrument@ == "spot"@));
        lemma_first_spot_at(t, k - 1);
    }
}

proof fn lemma_no_spot_anywhere(symbols: Seq<SymbolConfig>)
    ensures
        (forall|j: int| 0 <= j < symbols.len() ==> !(symbols[j].enabled && symbols[j].instrument@ == "spot"@))
            ==> first_enabled_spot(symbols) is None,
    decreases symbols.len(),
{
    if symbols.len() > 0 {
        let t = symbols.drop_first();
        if forall|j: int| 0 <= j < symbols.len() ==> !(symbols[j].enabled && symbols[j].instrument@ == "spot"@) {
            assert(!(symbols[0].enabled && symbols[0].instrument@ == "spot"@));
            assert forall|j: int| 0 <= j < t.len() implies !(t[j].enabled && t[j].instrument@ == "spot"@) by {
                assert(t[j] == symbols[j + 1]);
            }
        }
        lemma_no_spot_anywhere(t);
    }
}

/// Live trading never starts with unverified paper trading allowed.
pub proof fn law_live_rejects_unverified_paper(
    cfg: StartupConfig,
    symbols: Seq<SymbolConfig>,
    edge: EdgeGateProfile,
)
    requires
        live_mode(cfg.mode@),
        cfg.allow_unverified_paper,
    ensures
        startup_verdict(cfg, symbols, edge, true) is Some,
{
}

/// Outside paper and live trading the edge profile is not consulted: the
/// verdict depends on the configuration and symbols alone.
pub proof fn law_dev_ignores_edge(
    cfg: StartupConfig,
    symbols: Seq<SymbolConfig>,
    edge1: EdgeGateProfile,
    edge2: EdgeGateProfile,
)
    ensures
        startup_verdict(cfg, symbols, edge1, false) == startup_verdict(cfg, symbols, edge2, false),
{
}

/// With spot trading disabled, a configuration that validates has no enabled
/// spot symbol.
pub proof fn law_no_enabled_spot_when_disabled(
    cfg: StartupConfig,
    symbols: Seq<SymbolConfig>,
    edge: EdgeGateProfile,
    paper_or_live: bool,
    k: int,
)
    requires
        startup_verdict(cfg, symbols, edge, paper_or_live) is None,
        !cfg.spot_enabled,
        0 <= k < symbols.len(),
        symbols[k].enabled,
    ensures
        symbols[k].instrument@ != "spot"@,
    decreases k,
{
    lemma_no_spot_found(symbols, k);
}

proof fn lemma_no_spot_found(symbols: Seq<SymbolConfig>, k: int)
    requires
        first_enabled_spot(symbols) is None,
        0 <= k < symbols.len(),
        symbols[k].enabled,
    ensures
        symbols[k].instrument@ != "spot"@,
    decreases k,
{
    if k > 0 {
        assert(symbols.drop_first()[k - 1] == symbols[k]);
        lemma_no_spot_found(symbols.drop_first(), k - 1);
    }
}

} // verus!
