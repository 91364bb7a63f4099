//! Verified core of a cross-exchange lead-lag trading bot: entry risk gating,
//! safe-mode escalation, startup validation, symbol registry, packet-log
//! framing, operator command parsing and request signing.

pub mod text;
pub mod packet;
pub mod safe_mode;
pub mod trading_mode;
pub mod risk;
pub mod config;
pub mod registry;
pub mod validation;
pub mod packet_log;
pub mod ipc;
pub mod market;
pub mod receiver;
pub mod telegram;
pub mod panel;
pub mod bybit;
pub mod executor;
pub mod follow_through;
pub mod entry;
pub mod position;
pub mod ring;
