//! Verified core of a gas-price service for EVM-compatible chains: a
//! per-chain gas-price cache with a stale-while-revalidate policy and
//! single-flight background refresh, and the L1 data-fee calculator for
//! Optimism-style rollups.

pub mod cache;
pub mod clock;
pub mod config;
pub mod entry;
pub mod errors;
pub mod hexutil;
pub mod history;
pub mod l2;
pub mod maps;
pub mod models;
pub mod network;
pub mod optimism;
pub mod u256;
