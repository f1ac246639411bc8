//! Deterministic trading domain, risk gate, market-data integrity checks and
//! Binance USDⓈ-M public market-data rules.

pub mod decimal;
pub mod time;
pub mod text;
pub mod domain;
pub mod config;
pub mod market_data;
pub mod risk;
pub mod exchange;
pub mod storage;
pub mod json;
pub mod binance;
pub mod collector;
