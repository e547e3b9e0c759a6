//! Metrics of the sx contracts, derived block by block.
//!
//! `sink::prom_out` turns one decoded block into an ordered list of metric
//! operations: counters for transfers, profit, mining submissions and balance
//! changes, and a gauge for the mining configuration.

pub mod abi;
pub mod block;
pub mod chain;
pub mod json;
pub mod metrics;
pub mod rules;
pub mod settings;
pub mod sink;
pub mod text;
pub mod utils;

pub use sink::prom_out;
