//! Freshness of received data.
use vstd::prelude::*;
use crate::packet::PacketHeader;
use crate::risk::saturating_sub_spec;

verus! {

/// The packet is no older than `max_latency_ns` at time `now_ns` (a packet
/// stamped in the future counts as age 0).
pub fn freshness_ok(packet: &PacketHeader, max_latency_ns: u64, now_ns: u64) -> (r: bool)
    ensures
        r == (saturating_sub_spec(now_ns, packet.ts_ns) <= max_latency_ns),
{
    now_ns.saturating_sub(packet.ts_ns) <= max_latency_ns
}

/// The local Bybit mid is unusable: never received, or older than
/// `max_staleness_ms` whole milliseconds at time `now_ns`.
pub fn bybit_mid_is_stale(bybit_ts_ns: u64, max_staleness_ms: u64, now_ns: u64) -> (r: bool)
    ensures
        r == (bybit_ts_ns == 0 || saturating_sub_spec(now_ns, bybit_ts_ns) / 1_000_000
            > max_staleness_ms),
{
    if bybit_ts_ns == 0 {
        return true;
    }
    let age_ms = now_ns.saturating_sub(bybit_ts_ns) / 1_000_000;
    age_ms > max_staleness_ms
}

} // verus!
