//! Single-asset fair-price process.
//!
//! The price moves by one multiplicative growth factor per step, drawn
//! outside: for geometric Brownian motion,
//! `exp((mu - sigma^2 / 2) * dt + sigma * sqrt(dt) * Z)` with `Z` standard
//! normal.

use crate::market::price_process_v2::{next_price, MIN_PRICE};
use crate::math::wide::mul_div_floor;
use crate::types::wad::{Wad, WAD};
use vstd::prelude::*;

verus! {

/// The price after the first `n` of the growth factors `growth`.
pub open spec fn price_after(initial: Wad, growth: Seq<Wad>, n: int) -> Wad
    decreases n,
{
    if n <= 0 {
        initial
    } else {
        Wad(next_price(price_after(initial, growth, n - 1).0 as int, growth[n - 1].0 as int) as u128)
    }
}

/// Generates the fair price of X in Y.
#[derive(Debug, Clone, Copy, PartialEq, Eq, Structural)]
pub struct GBMPriceProcess {
    /// The current price.
    pub price: Wad,
}

impl GBMPriceProcess {
    pub fn new(initial_price: Wad) -> (p: Self)
        ensures
            p.price == initial_price,
    {
        GBMPriceProcess { price: initial_price }
    }

    pub fn current_price(&self) -> (p: Wad)
        ensures
            p == self.price,
    {
        self.price
    }

    /// Moves the price by `growth` and returns it: the product, rounded
    /// down, never below `MIN_PRICE` and never above the largest raw value.
    pub fn step(&mut self, growth: Wad) -> (p: Wad)
        ensures
            p == final(self).price,
            p.0 == next_price(old(self).price.0 as int, growth.0 as int),
            p.0 > 0,
    {
        let next: u128 = match mul_div_floor(self.price.0, growth.0, WAD) {
            Some(v) => if v == 0 {
                MIN_PRICE
            } else {
                v
            },
            None => u128::MAX,
        };
        self.price = Wad(next);
        self.price
    }
}

} // verus!
