//! The callbacks through which a pool asks a fee strategy for its fees.

use crate::types::trade_info::{TradeInfo, TradeInfoV2};
use crate::types::wad::Wad;
use vstd::prelude::*;

verus! {

/// Failure reported by a strategy: its bytecode was rejected, or a callback
/// did not complete.
#[derive(Debug)]
pub struct StrategyError {
    pub message: String,
}

/// A fee strategy, as the pool sees it.
///
/// Each callback answers with the next `(bid_fee, ask_fee)` or fails. The
/// pool promises nothing about a strategy and expects nothing of its answers:
/// whatever comes back is clamped before use, and a failure after
/// initialization leaves the fees as they are.
pub trait FeeStrategy: Sized {
    /// Instantiates a strategy from its bytecode.
    fn load(bytecode: &Vec<u8>, name: String) -> Result<Self, StrategyError>;

    /// The name the strategy was loaded under.
    fn name(&self) -> String;

    /// Called once when a pool starts, with its initial reserves.
    fn after_initialize(&mut self, reserve_x: Wad, reserve_y: Wad) -> Result<
        (Wad, Wad),
        StrategyError,
    >;

    /// Called after every executed swap.
    fn after_swap(&mut self, trade: &TradeInfo) -> Result<(Wad, Wad), StrategyError>;

    /// Multi-asset variant of `after_initialize`, which also identifies the
    /// pool and its two tokens.
    fn after_initialize_v2(
        &mut self,
        reserve_a: Wad,
        reserve_b: Wad,
        pool_id: u64,
        token_a: u64,
        token_b: u64,
    ) -> Result<(Wad, Wad), StrategyError>;

    /// Multi-asset variant of `after_swap`.
    fn after_swap_v2(&mut self, trade: &TradeInfoV2) -> Result<(Wad, Wad), StrategyError>;

    /// Clears whatever state the strategy has kept since it was loaded.
    fn reset(&mut self) -> Result<(), StrategyError>;
}

} // verus!
