//! Read-only Binance USDⓈ-M Futures public market-data rules.
//!
//! This module intentionally contains no API-key, signing, account, or order code.

pub mod error;
pub mod filters;
pub mod websocket;
pub mod stream;
pub mod models;
pub mod parse;
pub mod context;
pub mod rest;
