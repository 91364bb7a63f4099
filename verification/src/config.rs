//! Configuration records the verified logic reads.
use vstd::prelude::*;

verus! {

#[derive(Debug, Clone, Copy, PartialEq, Eq, Structural)]
pub struct SafeModeConfig {
    pub heartbeat_miss_caution: u32,
    pub heartbeat_miss_defensive: u32,
    pub heartbeat_miss_emergency: u32,
    pub heartbeat_emergency_timeout_ms: u64,
}

#[derive(Debug, Clone, Copy, PartialEq, Eq, Structural)]
pub struct ResourcesConfig {
    pub depth_enabled: bool,
    pub binance_ws_connections: u32,
    pub zenoh_publish_hz_cap: u32,
    pub observer_ram_soft_limit_mib: u32,
    pub executor_ram_soft_limit_mib: u32,
    pub log_tick_debug: bool,
    pub tokio_worker_threads: u32,
}

#[derive(Debug, Clone, Copy, PartialEq, Eq, Structural)]
pub struct NetworkConfig {
    pub max_latency_ms: u64,
    pub heartbeat_interval_ms: u64,
    pub heartbeat_timeout_ms: u64,
    pub safe_mode_latency_p95_ms: u64,
    pub packet_version: u8,
    pub seq_gap_pause_threshold: u32,
    pub seq_gap_pause_duration_sec: u64,
}

/// Provenance of an edge-research profile.
#[derive(Debug)]
pub struct EdgeMeta {
    pub generated_at: String,
    pub research_period_days: u32,
    pub injected_latency_ms: u32,
    pub status: String,
    pub research_method: Option<String>,
    pub data_source: Option<String>,
}

/// One tradable symbol. The allocation fractions are carried as IEEE-754
/// bit patterns: the library stores and returns them, never computes on them.
#[derive(Debug)]
pub struct SymbolConfig {
    pub id: u16,
    pub binance: String,
    pub bybit: String,
    pub instrument: String,
    pub leverage: Option<u32>,
    pub enabled: bool,
    pub futures_alloc_pct_bits: Option<u64>,
    pub spot_alloc_pct_bits: Option<u64>,
    pub spot_margin_enabled: Option<bool>,
}

fn clone_opt_string(s: &Option<String>) -> (r: Option<String>)
    ensures
        r == *s,
{
    match s {
        Some(v) => Some(v.clone()),
        None => None,
    }
}

impl Clone for EdgeMeta {
    fn clone(&self) -> (r: Self)
        ensures
            r == *self,
    {
        EdgeMeta {
            generated_at: self.generated_at.clone(),
            research_period_days: self.research_period_days,
            injected_latency_ms: self.injected_latency_ms,
            status: self.status.clone(),
            research_method: clone_opt_string(&self.research_method),
            data_source: clone_opt_string(&self.data_source),
        }
    }
}

impl Clone for SymbolConfig {
    fn clone(&self) -> (r: Self)
        ensures
            r == *self,
    {
        SymbolConfig {
            id: self.id,
            binance: self.binance.clone(),
            bybit: self.bybit.clone(),
            instrument: self.instrument.clone(),
            leverage: self.leverage,
            enabled: self.enabled,
            futures_alloc_pct_bits: self.futures_alloc_pct_bits,
            spot_alloc_pct_bits: self.spot_alloc_pct_bits,
            spot_margin_enabled: self.spot_margin_enabled,
        }
    }
}

#[derive(Debug, Clone)]
pub struct SymbolsFile {
    pub symbol: Vec<SymbolConfig>,
}

} // verus!
