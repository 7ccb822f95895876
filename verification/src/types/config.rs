//! Simulation configuration.

use crate::types::wad::{SignedWad, Wad};
use rand::{Rng, SeedableRng};
use rand_pcg::Pcg64;
use vstd::prelude::*;

verus! {

/// Configuration for a simulation run.
#[derive(Debug, Clone, Copy, PartialEq, Eq, Structural)]
pub struct SimulationConfig {
    /// Number of simulation steps
    pub n_steps: u32,
    /// Initial fair price
    pub initial_price: Wad,
    /// Initial X reserves
    pub initial_x: Wad,
    /// Initial Y reserves
    pub initial_y: Wad,
    /// GBM drift (annualized)
    pub gbm_mu: SignedWad,
    /// GBM volatility (annualized)
    pub gbm_sigma: Wad,
    /// GBM time step
    pub gbm_dt: Wad,
    /// Retail order arrival rate (Poisson lambda)
    pub retail_arrival_rate: Wad,
    /// Mean retail order size (lognormal mean)
    pub retail_mean_size: Wad,
    /// Lognormal sigma for retail order sizes (log-space)
    pub retail_size_sigma: Wad,
    /// Probability of buy order
    pub retail_buy_prob: Wad,
    /// Random seed for reproducibility (None = random)
    pub seed: Option<u64>,
}

impl SimulationConfig {
    pub fn new(
        n_steps: u32,
        initial_price: Wad,
        initial_x: Wad,
        initial_y: Wad,
        gbm_mu: SignedWad,
        gbm_sigma: Wad,
        gbm_dt: Wad,
        retail_arrival_rate: Wad,
        retail_mean_size: Wad,
        retail_size_sigma: Wad,
        retail_buy_prob: Wad,
        seed: Option<u64>,
    ) -> (c: Self)
        ensures
            c == (SimulationConfig {
                n_steps,
                initial_price,
                initial_x,
                initial_y,
                gbm_mu,
                gbm_sigma,
                gbm_dt,
                retail_arrival_rate,
                retail_mean_size,
                retail_size_sigma,
                retail_buy_prob,
                seed,
            }),
    {
        SimulationConfig {
            n_steps,
            initial_price,
            initial_x,
            initial_y,
            gbm_mu,
            gbm_sigma,
            gbm_dt,
            retail_arrival_rate,
            retail_mean_size,
            retail_size_sigma,
            retail_buy_prob,
            seed,
        }
    }
}

/// Pool configuration for multi-asset simulations.
#[derive(Debug, Clone, Copy, PartialEq, Eq, Structural)]
pub struct PoolConfigV2 {
    /// First token index in the pair
    pub token_a: usize,
    /// Second token index in the pair
    pub token_b: usize,
    /// Initial reserve for token_a
    pub initial_a: Wad,
    /// Initial reserve for token_b
    pub initial_b: Wad,
}

impl PoolConfigV2 {
    pub fn new(token_a: usize, token_b: usize, initial_a: Wad, initial_b: Wad) -> (c: Self)
        ensures
            c == (PoolConfigV2 { token_a, token_b, initial_a, initial_b }),
    {
        PoolConfigV2 { token_a, token_b, initial_a, initial_b }
    }
}

/// Configuration for a multi-asset simulation run.
#[derive(Debug)]
pub struct SimulationConfigV2 {
    /// Number of simulation steps
    pub n_steps: u32,
    /// Initial token prices in numeraire terms
    pub initial_prices: Vec<Wad>,
    /// GBM drift (annualized)
    pub gbm_mu: SignedWad,
    /// GBM volatility (annualized)
    pub gbm_sigma: Wad,
    /// GBM time step
    pub gbm_dt: Wad,
    /// Retail order arrival rate (Poisson lambda)
    pub retail_arrival_rate: Wad,
    /// Mean retail order size (lognormal mean, numeraire terms)
    pub retail_mean_size: Wad,
    /// Lognormal sigma for retail order sizes (log-space)
    pub retail_size_sigma: Wad,
    /// Probability of buy order
    pub retail_buy_prob: Wad,
    /// Numeraire token index
    pub numeraire_token: usize,
    /// Pair pools to include in the simulation as tuples:
    /// (token_a, token_b, initial_a, initial_b)
    pub pools: Vec<(usize, usize, Wad, Wad)>,
    /// Random seed for reproducibility (None = random)
    pub seed: Option<u64>,
}

impl SimulationConfigV2 {
    pub fn new(
        n_steps: u32,
        initial_prices: Vec<Wad>,
        gbm_mu: SignedWad,
        gbm_sigma: Wad,
        gbm_dt: Wad,
        retail_arrival_rate: Wad,
        retail_mean_size: Wad,
        retail_size_sigma: Wad,
        retail_buy_prob: Wad,
        numeraire_token: usize,
        pools: Vec<(usize, usize, Wad, Wad)>,
        seed: Option<u64>,
    ) -> (c: Self)
        ensures
            c.n_steps == n_steps,
            c.initial_prices == initial_prices,
            c.gbm_mu == gbm_mu,
            c.gbm_sigma == gbm_sigma,
            c.gbm_dt == gbm_dt,
            c.retail_arrival_rate == retail_arrival_rate,
            c.retail_mean_size == retail_mean_size,
            c.retail_size_sigma == retail_size_sigma,
            c.retail_buy_prob == retail_buy_prob,
            c.numeraire_token == numeraire_token,
            c.pools == pools,
            c.seed == seed,
    {
        SimulationConfigV2 {
            n_steps,
            initial_prices,
            gbm_mu,
            gbm_sigma,
            gbm_dt,
            retail_arrival_rate,
            retail_mean_size,
            retail_size_sigma,
            retail_buy_prob,
            numeraire_token,
            pools,
            seed,
        }
    }
}

#[verifier::external_type_specification]
#[verifier::external_body]
pub struct ExPcg64(Pcg64);

/// `rand_pcg::Pcg64::seed_from_u64`: a generator whose stream is fixed by
/// `seed`. Nothing is claimed of it.
#[verifier::external_body]
fn seeded_generator(seed: u64) -> Pcg64 {
    Pcg64::seed_from_u64(seed)
}

/// `rand::Rng::gen_range` on a half-open range of raw values: some value of
/// the range. The call panics on an empty range, which the precondition
/// excludes.
#[verifier::external_body]
fn draw_between(rng: &mut Pcg64, low: u128, high: u128) -> (r: u128)
    requires
        low < high,
    ensures
        low <= r < high,
{
    rng.gen_range(low..high)
}

/// Configuration for hyperparameter variance across simulations.
#[derive(Debug, Clone, Copy, PartialEq, Eq, Structural)]
pub struct HyperparameterVariance {
    pub retail_mean_size_min: Wad,
    pub retail_mean_size_max: Wad,
    pub vary_retail_mean_size: bool,
    pub retail_arrival_rate_min: Wad,
    pub retail_arrival_rate_max: Wad,
    pub vary_retail_arrival_rate: bool,
    pub gbm_sigma_min: Wad,
    pub gbm_sigma_max: Wad,
    pub vary_gbm_sigma: bool,
}

impl HyperparameterVariance {
    /// Every range that is to be varied is not empty.
    pub open spec fn wf(&self) -> bool {
        &&& self.vary_retail_mean_size ==> self.retail_mean_size_min.0
            < self.retail_mean_size_max.0
        &&& self.vary_retail_arrival_rate ==> self.retail_arrival_rate_min.0
            < self.retail_arrival_rate_max.0
        &&& self.vary_gbm_sigma ==> self.gbm_sigma_min.0 < self.gbm_sigma_max.0
    }

    /// Computes `wf`.
    pub fn is_valid(&self) -> (b: bool)
        ensures
            b == self.wf(),
    {
        (!self.vary_retail_mean_size || self.retail_mean_size_min.0 < self.retail_mean_size_max.0)
            && (!self.vary_retail_arrival_rate || self.retail_arrival_rate_min.0
            < self.retail_arrival_rate_max.0) && (!self.vary_gbm_sigma || self.gbm_sigma_min.0
            < self.gbm_sigma_max.0)
    }

    /// `base` with the three parameters that may vary set to the given
    /// values, and with the given seed.
    pub open spec fn varied(
        base: SimulationConfig,
        seed: u64,
        retail_mean_size: Wad,
        retail_arrival_rate: Wad,
        gbm_sigma: Wad,
    ) -> SimulationConfig {
        SimulationConfig {
            retail_mean_size,
            retail_arrival_rate,
            gbm_sigma,
            seed: Some(seed),
            ..base
        }
    }

    /// Computes `varied`.
    pub fn with_values(
        base: &SimulationConfig,
        seed: u64,
        retail_mean_size: Wad,
        retail_arrival_rate: Wad,
        gbm_sigma: Wad,
    ) -> (c: SimulationConfig)
        ensures
            c == Self::varied(*base, seed, retail_mean_size, retail_arrival_rate, gbm_sigma),
    {
        SimulationConfig {
            n_steps: base.n_steps,
            initial_price: base.initial_price,
            initial_x: base.initial_x,
            initial_y: base.initial_y,
            gbm_mu: base.gbm_mu,
            gbm_sigma,
            gbm_dt: base.gbm_dt,
            retail_arrival_rate,
            retail_mean_size,
            retail_size_sigma: base.retail_size_sigma,
            retail_buy_prob: base.retail_buy_prob,
            seed: Some(seed),
        }
    }

    /// Apply variance to create a new config based on seed.
    ///
    /// A generator seeded with `seed` draws, in this order, the mean retail
    /// size, the arrival rate and the volatility, each only if it is to be
    /// varied and each from its half-open range; what is not varied is
    /// taken from `base`.
    pub fn apply(&self, base: &SimulationConfig, seed: u64) -> (c: SimulationConfig)
        requires
            self.wf(),
        ensures
            c == Self::varied(*base, seed, c.retail_mean_size, c.retail_arrival_rate, c.gbm_sigma),
            if self.vary_retail_mean_size {
                self.retail_mean_size_min.0 <= c.retail_mean_size.0 < self.retail_mean_size_max.0
            } else {
                c.retail_mean_size == base.retail_mean_size
            },
            if self.vary_retail_arrival_rate {
                self.retail_arrival_rate_min.0 <= c.retail_arrival_rate.0
                    < self.retail_arrival_rate_max.0
            } else {
                c.retail_arrival_rate == base.retail_arrival_rate
            },
            if self.vary_gbm_sigma {
                self.gbm_sigma_min.0 <= c.gbm_sigma.0 < self.gbm_sigma_max.0
            } else {
                c.gbm_sigma == base.gbm_sigma
            },
    {
        let mut rng = seeded_generator(seed);
        let retail_mean_size = if self.vary_retail_mean_size {
            Wad(draw_between(&mut rng, self.retail_mean_size_min.0, self.retail_mean_size_max.0))
        } else {
            base.retail_mean_size
        };
        let retail_arrival_rate = if self.vary_retail_arrival_rate {
            Wad(
                draw_between(
                    &mut rng,
                    self.retail_arrival_rate_min.0,
                    self.retail_arrival_rate_max.0,
                ),
            )
        } else {
            base.retail_arrival_rate
        };
        let gbm_sigma = if self.vary_gbm_sigma {
            Wad(draw_between(&mut rng, self.gbm_sigma_min.0, self.gbm_sigma_max.0))
        } else {
            base.gbm_sigma
        };
        Self::with_values(base, seed, retail_mean_size, retail_arrival_rate, gbm_sigma)
    }
}

} // verus!
