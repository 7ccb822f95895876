//! The record of one executed swap, as handed to a fee strategy.

use crate::types::wad::Wad;
use vstd::prelude::*;

verus! {

/// One executed swap on a single-pair pool.
#[derive(Clone, Copy, Debug, PartialEq, Eq, Structural)]
pub struct TradeInfo {
    /// True when the pool bought X from the trader.
    pub is_buy: bool,
    /// Amount of X that changed hands.
    pub amount_x: Wad,
    /// Amount of Y that changed hands.
    pub amount_y: Wad,
    /// Step of the simulation at which the swap took place.
    pub timestamp: u64,
    /// Reserve of X after the swap.
    pub reserve_x: Wad,
    /// Reserve of Y after the swap.
    pub reserve_y: Wad,
}

impl TradeInfo {
    pub fn new(
        is_buy: bool,
        amount_x: Wad,
        amount_y: Wad,
        timestamp: u64,
        reserve_x: Wad,
        reserve_y: Wad,
    ) -> (t: TradeInfo)
        ensures
            t == (TradeInfo { is_buy, amount_x, amount_y, timestamp, reserve_x, reserve_y }),
    {
        TradeInfo { is_buy, amount_x, amount_y, timestamp, reserve_x, reserve_y }
    }
}

/// One executed swap on a pool of a multi-asset universe: the same record
/// with X and Y named A and B, and with the pool and its tokens identified.
#[derive(Clone, Copy, Debug, PartialEq, Eq, Structural)]
pub struct TradeInfoV2 {
    pub is_buy: bool,
    pub amount_a: Wad,
    pub amount_b: Wad,
    pub timestamp: u64,
    pub reserve_a: Wad,
    pub reserve_b: Wad,
    pub pool_id: u64,
    pub token_a: u64,
    pub token_b: u64,
}

/// The record of `trade` as a pool of a multi-asset universe hands it to its
/// strategy: X and Y named A and B, amount for amount and reserve for
/// reserve, with the pool's number and its two tokens.
pub fn v2_record(trade: &TradeInfo, pool_id: usize, token_a: usize, token_b: usize) -> (t:
    TradeInfoV2)
    ensures
        t == (TradeInfoV2 {
            is_buy: trade.is_buy,
            amount_a: trade.amount_x,
            amount_b: trade.amount_y,
            timestamp: trade.timestamp,
            reserve_a: trade.reserve_x,
            reserve_b: trade.reserve_y,
            pool_id: pool_id as u64,
            token_a: token_a as u64,
            token_b: token_b as u64,
        }),
{
    TradeInfoV2 {
        is_buy: trade.is_buy,
        amount_a: trade.amount_x,
        amount_b: trade.amount_y,
        timestamp: trade.timestamp,
        reserve_a: trade.reserve_x,
        reserve_b: trade.reserve_y,
        pool_id: pool_id as u64,
        token_a: token_a as u64,
        token_b: token_b as u64,
    }
}

} // verus!
