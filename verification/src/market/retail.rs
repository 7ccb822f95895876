//! Single-asset retail flow.

use crate::market::retail_v2::{floored, MIN_PARAMETER};
use crate::types::wad::Wad;
use vstd::prelude::*;

verus! {

/// Direction of a retail order, from the trader's side.
#[derive(Debug, Clone, Copy, PartialEq, Eq, Structural)]
pub enum RetailSide {
    /// The trader buys X and pays Y.
    Buy,
    /// The trader sells X and receives Y.
    Sell,
}

/// Retail order on the single pair.
#[derive(Debug, Clone, Copy, PartialEq, Eq, Structural)]
pub struct RetailOrder {
    pub side: RetailSide,
    /// Order size in Y terms.
    pub size: Wad,
}

/// The order that a direction draw and a size draw stand for.
pub open spec fn order_of(draw: (bool, Wad)) -> RetailOrder {
    RetailOrder {
        side: if draw.0 {
            RetailSide::Buy
        } else {
            RetailSide::Sell
        },
        size: draw.1,
    }
}

/// Generates retail flow on the single pair.
#[derive(Debug, Clone, Copy, PartialEq, Eq, Structural)]
pub struct RetailTrader {
    /// Poisson rate of arrivals per step, at least `MIN_PARAMETER`.
    pub arrival_rate: Wad,
    /// Mean order size in Y terms, at least `MIN_PARAMETER`.
    pub mean_size: Wad,
    /// Sigma of the order size in log space, at least `MIN_PARAMETER`.
    pub size_sigma: Wad,
    /// Probability that an order is a buy.
    pub buy_prob: Wad,
}

impl RetailTrader {
    /// Degenerate parameters are raised to their floor.
    pub fn new(arrival_rate: Wad, mean_size: Wad, size_sigma: Wad, buy_prob: Wad) -> (t: Self)
        ensures
            t == (RetailTrader {
                arrival_rate: floored(arrival_rate),
                mean_size: floored(mean_size),
                size_sigma: floored(size_sigma),
                buy_prob,
            }),
    {
        RetailTrader {
            arrival_rate: Self::floor(arrival_rate),
            mean_size: Self::floor(mean_size),
            size_sigma: Self::floor(size_sigma),
            buy_prob,
        }
    }

    fn floor(x: Wad) -> (r: Wad)
        ensures
            r == floored(x),
    {
        if x.0 < MIN_PARAMETER {
            Wad(MIN_PARAMETER)
        } else {
            x
        }
    }

    /// The orders of one step, one per pair of draws (whether the order is
    /// a buy, and its size) and in the order drawn.
    pub fn generate_orders(&self, draws: &Vec<(bool, Wad)>) -> (out: Vec<RetailOrder>)
        ensures
            out@.len() == draws@.len(),
            forall|i: int| 0 <= i < out@.len() ==> #[trigger] out@[i] == order_of(draws@[i]),
    {
        let mut out: Vec<RetailOrder> = Vec::new();
        let mut i: usize = 0;
        while i < draws.len()
            invariant
                i <= draws@.len(),
                out@.len() == i,
                forall|j: int| 0 <= j < i ==> #[trigger] out@[j] == order_of(draws@[j]),
            decreases draws@.len() - i,
        {
            let (buy, size) = draws[i];
            let side = if buy {
                RetailSide::Buy
            } else {
                RetailSide::Sell
            };
            out.push(RetailOrder { side, size });
            i = i + 1;
        }
        out
    }
}

} // verus!
