//! Message keys and heartbeat payloads of the observer/executor link.
use vstd::prelude::*;
use crate::text::{decimal, push_decimal};

verus! {

/// Key on which the observer publishes its heartbeat.
pub const HEARTBEAT_TOPIC: &'static str = "system/heartbeat/tokyo";

/// Key on which operator commands travel.
pub const COMMAND_TOPIC: &'static str = "system/command";

fn keyed(prefix: &str, symbol_id: u16) -> (s: String)
    ensures
        s@ == prefix@ + decimal(symbol_id as nat),
{
    let mut s = String::from_str(prefix);
    push_decimal(&mut s, symbol_id as u64);
    s
}

/// Key of the market-state packets of one symbol.
pub fn topic_for_symbol(symbol_id: u16) -> (s: String)
    ensures
        s@ == "market/binance/"@ + decimal(symbol_id as nat),
{
    keyed("market/binance/", symbol_id)
}

/// Key of the forwarded Binance ticks of one symbol.
pub fn binance_tick_topic(symbol_id: u16) -> (s: String)
    ensures
        s@ == "binance/tick/"@ + decimal(symbol_id as nat),
{
    keyed("binance/tick/", symbol_id)
}

/// Key of the Bybit mid feed of one symbol.
pub fn bybit_mid_topic(symbol_id: u16) -> (s: String)
    ensures
        s@ == "system/bybit_mid/"@ + decimal(symbol_id as nat),
{
    keyed("system/bybit_mid/", symbol_id)
}

/// Little-endian bytes of a `u64`.
pub open spec fn u64_le_bytes(n: u64) -> Seq<u8> {
    seq![
        (n & 0xff) as u8,
        ((n >> 8u64) & 0xff) as u8,
        ((n >> 16u64) & 0xff) as u8,
        ((n >> 24u64) & 0xff) as u8,
        ((n >> 32u64) & 0xff) as u8,
        ((n >> 40u64) & 0xff) as u8,
        ((n >> 48u64) & 0xff) as u8,
        ((n >> 56u64) & 0xff) as u8,
    ]
}

/// The `u64` whose little-endian bytes are the first eight of `b`.
pub open spec fn u64_from_le(b: Seq<u8>) -> u64 {
    (b[0] as u64) | ((b[1] as u64) << 8u64) | ((b[2] as u64) << 16u64) | ((b[3] as u64)
        << 24u64) | ((b[4] as u64) << 32u64) | ((b[5] as u64) << 40u64) | ((b[6] as u64)
        << 48u64) | ((b[7] as u64) << 56u64)
}

/// Heartbeat payload: the timestamp as eight little-endian bytes.
pub fn heartbeat_payload(ts_ns: u64) -> (b: Vec<u8>)
    ensures
        b@ == u64_le_bytes(ts_ns),
{
    let b = vec![
        (ts_ns & 0xff) as u8,
        ((ts_ns >> 8u64) & 0xff) as u8,
        ((ts_ns >> 16u64) & 0xff) as u8,
        ((ts_ns >> 24u64) & 0xff) as u8,
        ((ts_ns >> 32u64) & 0xff) as u8,
        ((ts_ns >> 40u64) & 0xff) as u8,
        ((ts_ns >> 48u64) & 0xff) as u8,
        ((ts_ns >> 56u64) & 0xff) as u8,
    ];
    assert(b@ =~= u64_le_bytes(ts_ns));
    b
}

/// Timestamp of a heartbeat payload: its first eight bytes, little-endian;
/// shorter payloads carry none.
pub fn heartbeat_from_payload(bytes: &[u8]) -> (r: Option<u64>)
    ensures
        bytes@.len() < 8 ==> r is None,
        bytes@.len() >= 8 ==> r == Some(u64_from_le(bytes@)),
{
    if bytes.len() < 8 {
        return None;
    }
    Some(
        (bytes[0] as u64) | ((bytes[1] as u64) << 8u64) | ((bytes[2] as u64) << 16u64) | ((
        bytes[3] as u64) << 24u64) | ((bytes[4] as u64) << 32u64) | ((bytes[5] as u64)
            << 40u64) | ((bytes[6] as u64) << 48u64) | ((bytes[7] as u64) << 56u64),
    )
}

/// A heartbeat payload reads back as the timestamp it was made from.
pub proof fn law_heartbeat_roundtrip(ts_ns: u64)
    ensures
        u64_le_bytes(ts_ns).len() == 8,
        u64_from_le(u64_le_bytes(ts_ns)) == ts_ns,
{
    let b = u64_le_bytes(ts_ns);
    assert(((ts_ns & 0xff) as u8) as u64 | (((((ts_ns >> 8u64) & 0xff) as u8) as u64) << 8u64)
        | (((((ts_ns >> 16u64) & 0xff) as u8) as u64) << 16u64) | (((((ts_ns >> 24u64) & 0xff)
        as u8) as u64) << 24u64) | (((((ts_ns >> 32u64) & 0xff) as u8) as u64) << 32u64) | (((((
        ts_ns >> 40u64) & 0xff) as u8) as u64) << 40u64) | (((((ts_ns >> 48u64) & 0xff) as u8)
        as u64) << 48u64) | (((((ts_ns >> 56u64) & 0xff) as u8) as u64) << 56u64) == ts_ns)
        by (bit_vector);
}

} // verus!
