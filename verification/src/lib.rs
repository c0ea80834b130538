//! Market-data ingestion and signal-detection core.
//!
//! Decodes SBE-framed binary market-data messages, maintains prediction-market
//! order books with derived ask sides, evaluates a depth-imbalance signal,
//! and coordinates alert gating and monitoring sessions.

pub mod auth;
pub mod binance;
pub mod book;
pub mod config;
pub mod errors;
pub mod imbalance;
pub mod kalshi;
pub mod monitor;
pub mod price;
pub mod sbe;
pub mod state;
pub mod strings;
