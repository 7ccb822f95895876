//! Multi-asset retail flow.
//!
//! A retail order is made from four draws: two token indices, a direction
//! and a size. The draws come from outside; what is done with them is here.

use crate::types::wad::Wad;
use vstd::prelude::*;

verus! {

/// Floor for the arrival rate, the mean size and the size sigma: 0.01, as a
/// raw value. Below it the distributions they parameterize are not defined.
pub const MIN_PARAMETER: u128 = 10_000_000_000_000_000;

/// Multi-asset retail order in token-index space.
#[derive(Debug, Clone, Copy, PartialEq, Eq, Structural)]
pub struct RetailOrderV2 {
    pub token_in: usize,
    pub token_out: usize,
    /// Order notional measured in numeraire terms.
    pub size_numeraire: Wad,
}

/// The draws behind one retail order, in the order they are made.
#[derive(Debug, Clone, Copy, PartialEq, Eq, Structural)]
pub struct RetailDraw {
    /// Uniform over all tokens.
    pub first: usize,
    /// Uniform over all tokens but one.
    pub second: usize,
    /// True with the buy probability.
    pub buy: bool,
    /// Lognormal order size, in numeraire terms.
    pub size: Wad,
}

impl RetailDraw {
    /// The draw can have come from a universe of `n_assets` tokens.
    pub open spec fn fits(self, n_assets: usize) -> bool {
        self.first < n_assets && self.second + 1 < n_assets
    }

    /// The order the draw stands for. The second index skips the first, so
    /// the pair `(a, b)` is uniform over pairs of distinct tokens; a buy
    /// pays `b` for `a`, a sell pays `a` for `b`.
    pub open spec fn order(self) -> RetailOrderV2 {
        let a = self.first;
        let b = if self.second >= self.first {
            (self.second + 1) as usize
        } else {
            self.second
        };
        if self.buy {
            RetailOrderV2 { token_in: b, token_out: a, size_numeraire: self.size }
        } else {
            RetailOrderV2 { token_in: a, token_out: b, size_numeraire: self.size }
        }
    }
}

/// `x` raised to the floor `MIN_PARAMETER`.
pub open spec fn floored(x: Wad) -> Wad {
    if x.0 < MIN_PARAMETER {
        Wad(MIN_PARAMETER)
    } else {
        x
    }
}

/// Generates retail flow across a token universe.
///
/// Buy probability controls direction for a sampled pair (a,b):
/// - buy: token_in=b, token_out=a
/// - sell: token_in=a, token_out=b
#[derive(Debug, Clone, Copy, PartialEq, Eq, Structural)]
pub struct RetailTraderV2 {
    /// Number of tokens in the universe.
    pub n_assets: usize,
    /// Poisson rate of arrivals per step, at least `MIN_PARAMETER`.
    pub arrival_rate: Wad,
    /// Mean order size in numeraire terms, at least `MIN_PARAMETER`.
    pub mean_size: Wad,
    /// Sigma of the order size in log space, at least `MIN_PARAMETER`.
    pub size_sigma: Wad,
    /// Probability that an order is a buy.
    pub buy_prob: Wad,
}

impl RetailTraderV2 {
    /// Degenerate parameters are raised to their floor.
    pub fn new(
        n_assets: usize,
        arrival_rate: Wad,
        mean_size_numeraire: Wad,
        size_sigma: Wad,
        buy_prob: Wad,
    ) -> (t: Self)
        ensures
            t == (RetailTraderV2 {
                n_assets,
                arrival_rate: floored(arrival_rate),
                mean_size: floored(mean_size_numeraire),
                size_sigma: floored(size_sigma),
                buy_prob,
            }),
    {
        RetailTraderV2 {
            n_assets,
            arrival_rate: Self::floor(arrival_rate),
            mean_size: Self::floor(mean_size_numeraire),
            size_sigma: Self::floor(size_sigma),
            buy_prob,
        }
    }

    fn floor(x: Wad) -> (r: Wad)
        ensures
            r == floored(x),
    {
        if x.0 < MIN_PARAMETER {
            Wad(MIN_PARAMETER)
        } else {
            x
        }
    }

    /// Whether `draw` can have come from this trader's universe.
    pub fn accepts(&self, draw: &RetailDraw) -> (b: bool)
        ensures
            b == draw.fits(self.n_assets),
    {
        draw.first < self.n_assets && draw.second < self.n_assets && draw.second + 1
            < self.n_assets
    }

    /// Whether every draw of `draws` can have come from this trader's universe.
    pub fn accepts_all(&self, draws: &Vec<RetailDraw>) -> (b: bool)
        ensures
            b == forall|i: int| 0 <= i < draws@.len() ==> (#[trigger] draws@[i]).fits(self.n_assets),
    {
        let mut i: usize = 0;
        while i < draws.len()
            invariant
                i <= draws@.len(),
                forall|j: int| 0 <= j < i ==> (#[trigger] draws@[j]).fits(self.n_assets),
            decreases draws@.len() - i,
        {
            if !self.accepts(&draws[i]) {
                return false;
            }
            i = i + 1;
        }
        true
    }

    /// The orders of one step, one per draw and in the order drawn.
    pub fn generate_orders(&self, draws: &Vec<RetailDraw>) -> (out: Vec<RetailOrderV2>)
        requires
            forall|i: int| 0 <= i < draws@.len() ==> (#[trigger] draws@[i]).fits(self.n_assets),
        ensures
            out@.len() == draws@.len(),
            forall|i: int| 0 <= i < out@.len() ==> #[trigger] out@[i] == draws@[i].order(),
            forall|i: int|
                0 <= i < out@.len() ==> (#[trigger] out@[i]).token_in != out@[i].token_out
                    && out@[i].token_in < self.n_assets && out@[i].token_out < self.n_assets,
    {
        let mut out: Vec<RetailOrderV2> = Vec::new();
        let mut i: usize = 0;
        while i < draws.len()
            invariant
                i <= draws@.len(),
                out@.len() == i,
                forall|j: int| 0 <= j < draws@.len() ==> (#[trigger] draws@[j]).fits(self.n_assets),
                forall|j: int| 0 <= j < i ==> #[trigger] out@[j] == draws@[j].order(),
            decreases draws@.len() - i,
        {
            let draw = draws[i];
            let a: usize = draw.first;
            let mut b: usize = draw.second;
            if b >= a {
                b = b + 1;
            }
            let (token_in, token_out) = if draw.buy {
                (b, a)
            } else {
                (a, b)
            };
            out.push(RetailOrderV2 { token_in, token_out, size_numeraire: draw.size });
            i = i + 1;
        }
        out
    }
}

} // verus!
