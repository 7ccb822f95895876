//! Multi-asset fair-price process.
//!
//! Each asset other than the numeraire moves by a multiplicative growth
//! factor per step; the numeraire stays at one. The factors are drawn
//! outside: for geometric Brownian motion each is
//! `exp((mu - sigma^2 / 2) * dt + sigma * sqrt(dt) * Z)` with `Z` standard
//! normal.

use crate::math::wide::mul_div_floor;
use crate::types::wad::{Wad, WAD};
use vstd::prelude::*;

verus! {

/// Smallest price the process will hold: 10^-9, as a raw value.
pub const MIN_PRICE: u128 = 1_000_000_000;

/// A price after one step: the price times the growth factor, rounded down;
/// the least price where that is zero, the largest raw value where it
/// exceeds every raw value.
pub open spec fn next_price(price: int, growth: int) -> int {
    let p = (price * growth) / (WAD as int);
    if p <= 0 {
        MIN_PRICE as int
    } else if p > u128::MAX {
        u128::MAX as int
    } else {
        p
    }
}

/// The growth factor of asset `i` in `growth`; an asset without one keeps
/// its price.
pub open spec fn growth_at(growth: Seq<Wad>, i: int) -> int {
    if 0 <= i < growth.len() {
        growth[i].0 as int
    } else {
        WAD as int
    }
}

/// The prices after one step.
pub open spec fn stepped(prices: Seq<Wad>, numeraire: usize, growth: Seq<Wad>) -> Seq<Wad> {
    Seq::new(
        prices.len(),
        |i: int|
            if i == numeraire {
                Wad(WAD)
            } else {
                Wad(next_price(prices[i].0 as int, growth_at(growth, i)) as u128)
            },
    )
}

/// The state of a price process.
pub struct PriceView {
    pub prices: Seq<Wad>,
    pub numeraire: usize,
}

/// Generates fair prices for multiple assets in numeraire terms.
pub struct MultiAssetPriceProcess {
    prices: Vec<Wad>,
    numeraire_token: usize,
}

impl View for MultiAssetPriceProcess {
    type V = PriceView;

    closed spec fn view(&self) -> PriceView {
        PriceView { prices: self.prices@, numeraire: self.numeraire_token }
    }
}

impl MultiAssetPriceProcess {
    /// Starts from `initial_prices`, with the numeraire's price set to one.
    pub fn new(initial_prices: Vec<Wad>, numeraire_token: usize) -> (p: Self)
        ensures
            p@.numeraire == numeraire_token,
            p@.prices == if numeraire_token < initial_prices@.len() {
                initial_prices@.update(numeraire_token as int, Wad(WAD))
            } else {
                initial_prices@
            },
    {
        let mut prices = initial_prices;
        if numeraire_token < prices.len() {
            prices.set(numeraire_token, Wad(WAD));
        }
        MultiAssetPriceProcess { prices, numeraire_token }
    }

    pub fn current_prices(&self) -> (p: &Vec<Wad>)
        ensures
            p@ == self@.prices,
    {
        &self.prices
    }

    /// Moves every price by its growth factor and pins the numeraire to one.
    pub fn step(&mut self, growth: &Vec<Wad>)
        ensures
            final(self)@.numeraire == old(self)@.numeraire,
            final(self)@.prices == stepped(old(self)@.prices, old(self)@.numeraire, growth@),
            old(self)@.numeraire < old(self)@.prices.len() ==> final(self)@.prices[old(
                self,
            )@.numeraire as int] == Wad(WAD),
            forall|i: int|
                0 <= i < final(self)@.prices.len() ==> (#[trigger] final(self)@.prices[i]).0 > 0,
    {
        let n: usize = self.prices.len();
        let mut idx: usize = 0;
        while idx < n
            invariant
                idx <= n,
                n == self.prices@.len(),
                n == old(self)@.prices.len(),
                self.numeraire_token == old(self).numeraire_token,
                forall|i: int|
                    0 <= i < idx ==> self.prices@[i] == stepped(
                        old(self)@.prices,
                        old(self)@.numeraire,
                        growth@,
                    )[i],
                forall|i: int| idx <= i < n ==> self.prices@[i] == old(self)@.prices[i],
            decreases n - idx,
        {
            if idx == self.numeraire_token {
                self.prices.set(idx, Wad(WAD));
            } else {
                let g: u128 = if idx < growth.len() {
                    growth[idx].0
                } else {
                    WAD
                };
                let p: u128 = match mul_div_floor(self.prices[idx].0, g, WAD) {
                    Some(v) => if v == 0 {
                        MIN_PRICE
                    } else {
                        v
                    },
                    None => u128::MAX,
                };
                self.prices.set(idx, Wad(p));
            }
            idx = idx + 1;
        }
        proof {
            assert(self.prices@ =~= stepped(old(self)@.prices, old(self)@.numeraire, growth@));
        }
    }
}

} // verus!
