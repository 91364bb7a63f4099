use lagbot::config::{EdgeMeta, SymbolConfig};
use lagbot::packet::PACKET_VERSION;
use lagbot::validation::{validate_startup, EdgeGateProfile, EdgeGateSymbol, StartupConfig, ValidationError};

fn base_cfg() -> StartupConfig {
    // an initial target of 0.5% lies above the 0.19% round-trip fee floor
    StartupConfig {
        mode: "start".into(),
        spot_enabled: false,
        allow_unverified_paper: false,
        packet_version: PACKET_VERSION,
        target_below_fee_floor: false,
    }
}

fn meta(days: u32, status: &str, method: Option<&str>, source: Option<&str>) -> EdgeMeta {
    EdgeMeta {
        generated_at: "".into(),
        research_period_days: days,
        injected_latency_ms: 150,
        status: status.into(),
        research_method: method.map(|s| s.to_string()),
        data_source: source.map(|s| s.to_string()),
    }
}

fn btc_edge() -> EdgeGateSymbol {
    // a net edge of 5 bps is positive
    EdgeGateSymbol { net_edge_positive: true, trade_hours_utc: vec![13, 14, 15] }
}

fn message(r: Result<(), ValidationError>) -> String {
    match r {
        Err(ValidationError::Message(m)) => m,
        Ok(()) => panic!("expected an error"),
    }
}

fn symbol(id: u16, name: &str, instrument: &str, enabled: bool) -> SymbolConfig {
    SymbolConfig {
        id,
        binance: name.into(),
        bybit: name.into(),
        instrument: instrument.into(),
        leverage: None,
        enabled,
        futures_alloc_pct_bits: None,
        spot_alloc_pct_bits: None,
        spot_margin_enabled: None,
    }
}

#[test]
fn rejects_pending_edge_on_live() {
    let cfg = base_cfg();
    let symbols: Vec<SymbolConfig> = vec![];
    let edge = EdgeGateProfile { meta: meta(0, "pending", None, None), edges: vec![] };
    assert!(validate_startup(&cfg, &symbols, &edge, true).is_err());
}

#[test]
fn rejects_synthetic_pass_on_paper() {
    let cfg = base_cfg();
    let symbols: Vec<SymbolConfig> = vec![];
    let edge = EdgeGateProfile {
        meta: meta(14, "pass", Some("l2_vwap"), Some("synthetic")),
        edges: vec![btc_edge()],
    };
    assert!(validate_startup(&cfg, &symbols, &edge, true).is_err());
}

#[test]
fn rejects_short_research_period() {
    let cfg = base_cfg();
    let symbols: Vec<SymbolConfig> = vec![];
    let edge = EdgeGateProfile {
        meta: meta(7, "pass", Some("l2_vwap"), Some("binance_vision")),
        edges: vec![btc_edge()],
    };
    assert!(validate_startup(&cfg, &symbols, &edge, true).is_err());
}

#[test]
fn allows_unverified_paper_without_edge() {
    let mut cfg = base_cfg();
    cfg.mode = "paper".into();
    cfg.allow_unverified_paper = true;
    let symbols: Vec<SymbolConfig> = vec![];
    let edge = EdgeGateProfile {
        meta: meta(1, "fail", Some("l2_vwap"), Some("synthetic")),
        edges: vec![],
    };
    assert!(validate_startup(&cfg, &symbols, &edge, true).is_ok());
}

#[test]
fn validation_messages_name_the_failed_check() {
    let cfg = base_cfg();
    let symbols: Vec<SymbolConfig> = vec![];
    let good = || EdgeGateProfile {
        meta: meta(14, "pass", Some("l2_vwap"), Some("binance_vision")),
        edges: vec![btc_edge()],
    };
    assert!(validate_startup(&cfg, &symbols, &good(), true).is_ok());

    let mut e = good();
    e.meta.research_period_days = 7;
    assert_eq!(
        message(validate_startup(&cfg, &symbols, &e, true)),
        "edge_profile.meta.research_period_days=7 < 14 required for paper/live"
    );
    let mut e = good();
    e.meta.data_source = None;
    assert!(message(validate_startup(&cfg, &symbols, &e, true)).starts_with("edge_profile.meta.data_source"));
    let mut e = good();
    e.meta.data_source = Some("SYNTHETIC".into());
    assert!(message(validate_startup(&cfg, &symbols, &e, true)).starts_with("edge_profile.meta.data_source"));
    let mut e = good();
    e.meta.data_source = Some("csv_export".into());
    assert_eq!(
        message(validate_startup(&cfg, &symbols, &e, true)),
        "edge_profile.meta.data_source must be live/binance_vision (synthetic forbidden for paper/live)"
    );
    let mut e = good();
    e.meta.data_source = Some("LIVE".into());
    assert!(validate_startup(&cfg, &symbols, &e, true).is_ok());
    let mut e = good();
    e.meta.research_method = Some("mid".into());
    assert_eq!(
        message(validate_startup(&cfg, &symbols, &e, true)),
        "edge_profile.meta.research_method must be 'l2_vwap' for paper/live"
    );
    let mut e = good();
    e.edges[0].trade_hours_utc = vec![13, 14];
    assert_eq!(
        message(validate_startup(&cfg, &symbols, &e, true)),
        "edge_profile: need ≥1 symbol with net_edge_bps > 0 and ≥3 trade hours"
    );
    let mut e = good();
    e.meta.status = "Pass".into();
    assert_eq!(
        message(validate_startup(&cfg, &symbols, &e, true)),
        "edge_profile.meta.status must be 'pass' for paper/live"
    );
    // dev mode does not consult the edge profile
    assert!(validate_startup(&cfg, &symbols, &e, false).is_ok());
}

#[test]
fn validation_checks_config_before_edge() {
    let mut cfg = base_cfg();
    cfg.packet_version = 2;
    let edge = EdgeGateProfile { meta: meta(0, "pending", None, None), edges: vec![] };
    assert_eq!(
        message(validate_startup(&cfg, &vec![], &edge, false)),
        "packet_version mismatch: config=2 binary=3"
    );
    let mut cfg = base_cfg();
    cfg.target_below_fee_floor = true;
    assert_eq!(
        message(validate_startup(&cfg, &vec![], &edge, false)),
        "initial_target_pct < D_min_net_futures"
    );
    let cfg = base_cfg();
    let symbols = vec![
        symbol(1, "BTCUSDT", "futures", true),
        symbol(2, "ETHUSDT", "spot", false),
        symbol(3, "SOLUSDT", "spot", true),
    ];
    assert_eq!(
        message(validate_startup(&cfg, &symbols, &edge, false)),
        "spot symbol SOLUSDT enabled but spot_enabled=false"
    );
    let mut cfg = base_cfg();
    cfg.spot_enabled = true;
    assert!(validate_startup(&cfg, &symbols, &edge, false).is_ok());
}

#[test]
fn live_refuses_unverified_paper_flag() {
    let mut cfg = base_cfg();
    cfg.mode = "LIVE".into();
    cfg.allow_unverified_paper = true;
    let edge = EdgeGateProfile {
        meta: meta(14, "pass", Some("l2_vwap"), Some("binance_vision")),
        edges: vec![btc_edge()],
    };
    assert_eq!(
        message(validate_startup(&cfg, &vec![], &edge, true)),
        "allow_unverified_paper cannot be used with mode=live"
    );
}
