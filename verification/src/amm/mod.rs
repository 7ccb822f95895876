//! The constant-product pool and the fee strategy it consults.

pub mod cfmm;
pub mod curve;
pub mod strategy;

pub use cfmm::{FeeQuote, PoolView, TradeResult, CFMM};
pub use strategy::{FeeStrategy, StrategyError};
