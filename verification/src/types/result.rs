//! Simulation result types.
//!
//! Whatever is kept per strategy is a list in the order of `strategies`: the
//! entry at position `i` belongs to the strategy named at position `i`.

use crate::types::wad::{SignedWad, Wad};
use vstd::prelude::*;

verus! {

/// Lightweight step result for charting (minimal memory footprint).
#[derive(Debug)]
pub struct LightweightStepResult {
    /// Simulation step number
    pub timestamp: u32,
    /// Fair price at this step
    pub fair_price: Wad,
    /// Spot prices by strategy
    pub spot_prices: Vec<Wad>,
    /// Running PnL by strategy
    pub pnls: Vec<SignedWad>,
    /// Fees (bid, ask) by strategy
    pub fees: Vec<(Wad, Wad)>,
}

/// The score by which strategy `i` is ranked: its edge, the sum of its
/// trades' value deltas. Where none was recorded the score is zero; a
/// profit never stands in for an edge.
pub open spec fn score(edges: Seq<SignedWad>, i: int) -> int {
    if 0 <= i < edges.len() {
        edges[i].0 as int
    } else {
        0
    }
}

/// The PnL recorded for strategy `i`, zero where none was.
pub open spec fn pnl_of(pnl: Seq<SignedWad>, i: int) -> int {
    if 0 <= i < pnl.len() {
        pnl[i].0 as int
    } else {
        0
    }
}

/// Computes `score`.
fn score_at(edges: &Vec<SignedWad>, i: usize) -> (s: i128)
    ensures
        s == score(edges@, i as int),
{
    if i < edges.len() {
        edges[i].0
    } else {
        0
    }
}

/// Lightweight simulation result for charting.
#[derive(Debug)]
pub struct LightweightSimResult {
    /// Seed used for this simulation
    pub seed: u64,
    /// Strategy names
    pub strategies: Vec<String>,
    /// Final PnL by strategy
    pub pnl: Vec<SignedWad>,
    /// Edge by strategy (sum over trades)
    pub edges: Vec<SignedWad>,
    /// Initial fair price
    pub initial_fair_price: Wad,
    /// Initial reserves by strategy: (reserve_x, reserve_y)
    pub initial_reserves: Vec<(Wad, Wad)>,
    /// Step results for charting
    pub steps: Vec<LightweightStepResult>,
    /// Total arb volume (in Y) by strategy
    pub arb_volume_y: Vec<Wad>,
    /// Total retail volume (in Y) by strategy
    pub retail_volume_y: Vec<Wad>,
    /// Average fees (bid, ask) by strategy over the simulation
    pub average_fees: Vec<(Wad, Wad)>,
}

/// How a comparison of two strategies ended.
#[derive(Debug, Clone, Copy, PartialEq, Eq, Structural)]
pub enum Outcome {
    /// The first strategy scored higher.
    First,
    /// The second strategy scored higher.
    Second,
    Draw,
}

impl LightweightSimResult {
    /// How the run ended between the first and the second strategy.
    pub open spec fn outcome(&self) -> Outcome {
        let a = score(self.edges@, 0);
        let b = score(self.edges@, 1);
        if a > b {
            Outcome::First
        } else if b > a {
            Outcome::Second
        } else {
            Outcome::Draw
        }
    }

    /// Computes `outcome`.
    pub fn compare(&self) -> (o: Outcome)
        ensures
            o == self.outcome(),
    {
        let a: i128 = score_at(&self.edges, 0);
        let b: i128 = score_at(&self.edges, 1);
        if a > b {
            Outcome::First
        } else if b > a {
            Outcome::Second
        } else {
            Outcome::Draw
        }
    }

    /// Get the winner of this simulation: the name of the strategy with the
    /// higher score. There is none unless exactly two strategies ran, and
    /// none in a draw.
    pub fn winner(&self) -> (w: Option<String>)
        ensures
            w is Some <==> self.strategies@.len() == 2 && self.outcome() != Outcome::Draw,
            w matches Some(name) ==> name == if self.outcome() == Outcome::First {
                self.strategies@[0]
            } else {
                self.strategies@[1]
            },
    {
        if self.strategies.len() != 2 {
            return None;
        }
        match self.compare() {
            Outcome::First => Some(self.strategies[0].clone()),
            Outcome::Second => Some(self.strategies[1].clone()),
            Outcome::Draw => None,
        }
    }
}

/// How many of the first `n` results ended with `outcome`.
pub open spec fn count_outcomes(results: Seq<LightweightSimResult>, outcome: Outcome, n: int) -> int
    decreases n,
{
    if n <= 0 {
        0
    } else {
        count_outcomes(results, outcome, n - 1) + if results[n - 1].outcome() == outcome {
            1int
        } else {
            0int
        }
    }
}

/// The PnL of strategy `i` summed over the first `n` results, each partial
/// sum saturated.
pub open spec fn summed_pnl(results: Seq<LightweightSimResult>, i: int, n: int) -> int
    decreases n,
{
    if n <= 0 {
        0
    } else {
        SignedWad::saturate(summed_pnl(results, i, n - 1) + pnl_of(results[n - 1].pnl@, i))
    }
}

/// An outcome cannot be counted more often than there are results.
pub proof fn lemma_count_bounded(results: Seq<LightweightSimResult>, outcome: Outcome, n: int)
    requires
        0 <= n,
    ensures
        0 <= count_outcomes(results, outcome, n) <= n,
    decreases n,
{
    if n > 0 {
        lemma_count_bounded(results, outcome, n - 1);
    }
}

/// Every result is counted under exactly one outcome.
pub proof fn lemma_counts_partition(results: Seq<LightweightSimResult>, n: int)
    requires
        0 <= n,
    ensures
        count_outcomes(results, Outcome::First, n) + count_outcomes(results, Outcome::Second, n)
            + count_outcomes(results, Outcome::Draw, n) == n,
    decreases n,
{
    if n > 0 {
        lemma_counts_partition(results, n - 1);
    }
}

/// Batch result containing all simulation results.
#[derive(Debug)]
pub struct BatchSimulationResult {
    /// Individual simulation results
    pub results: Vec<LightweightSimResult>,
    /// Strategy names
    pub strategies: Vec<String>,
}

impl BatchSimulationResult {
    /// Get win counts: (wins_a, wins_b, draws). All three are zero unless
    /// the batch names exactly two strategies.
    pub fn win_counts(&self) -> (c: (u32, u32, u32))
        requires
            self.results@.len() <= u32::MAX,
        ensures
            self.strategies@.len() != 2 ==> c == (0u32, 0u32, 0u32),
            self.strategies@.len() == 2 ==> {
                &&& c.0 == count_outcomes(self.results@, Outcome::First, self.results@.len() as int)
                &&& c.1 == count_outcomes(
                    self.results@,
                    Outcome::Second,
                    self.results@.len() as int,
                )
                &&& c.2 == count_outcomes(self.results@, Outcome::Draw, self.results@.len() as int)
                &&& c.0 + c.1 + c.2 == self.results@.len()
            },
    {
        if self.strategies.len() != 2 {
            return (0, 0, 0);
        }
        let mut wins_a: u32 = 0;
        let mut wins_b: u32 = 0;
        let mut draws: u32 = 0;
        let mut i: usize = 0;
        while i < self.results.len()
            invariant
                i <= self.results@.len(),
                self.results@.len() <= u32::MAX,
                wins_a == count_outcomes(self.results@, Outcome::First, i as int),
                wins_b == count_outcomes(self.results@, Outcome::Second, i as int),
                draws == count_outcomes(self.results@, Outcome::Draw, i as int),
            decreases self.results@.len() - i,
        {
            proof {
                lemma_count_bounded(self.results@, Outcome::First, i as int);
                lemma_count_bounded(self.results@, Outcome::Second, i as int);
                lemma_count_bounded(self.results@, Outcome::Draw, i as int);
            }
            match self.results[i].compare() {
                Outcome::First => {
                    wins_a = wins_a + 1;
                },
                Outcome::Second => {
                    wins_b = wins_b + 1;
                },
                Outcome::Draw => {
                    draws = draws + 1;
                },
            }
            i = i + 1;
        }
        proof {
            lemma_counts_partition(self.results@, self.results@.len() as int);
        }
        (wins_a, wins_b, draws)
    }

    /// Get total PnL: (total_pnl_a, total_pnl_b). Both are zero unless the
    /// batch names exactly two strategies.
    pub fn total_pnl(&self) -> (t: (SignedWad, SignedWad))
        ensures
            self.strategies@.len() != 2 ==> t.0.0 == 0 && t.1.0 == 0,
            self.strategies@.len() == 2 ==> {
                &&& t.0.0 == summed_pnl(self.results@, 0, self.results@.len() as int)
                &&& t.1.0 == summed_pnl(self.results@, 1, self.results@.len() as int)
            },
    {
        if self.strategies.len() != 2 {
            return (SignedWad(0), SignedWad(0));
        }
        let mut total_a = SignedWad(0);
        let mut total_b = SignedWad(0);
        let mut i: usize = 0;
        while i < self.results.len()
            invariant
                i <= self.results@.len(),
                total_a.0 == summed_pnl(self.results@, 0, i as int),
                total_b.0 == summed_pnl(self.results@, 1, i as int),
            decreases self.results@.len() - i,
        {
            let pnl = &self.results[i].pnl;
            let a: i128 = if 0 < pnl.len() {
                pnl[0].0
            } else {
                0
            };
            let b: i128 = if 1 < pnl.len() {
                pnl[1].0
            } else {
                0
            };
            total_a = total_a.saturating_add(SignedWad(a));
            total_b = total_b.saturating_add(SignedWad(b));
            i = i + 1;
        }
        (total_a, total_b)
    }

    /// Get the overall winner based on win count: the name of the strategy
    /// that won more runs, and none where they won equally many.
    pub fn overall_winner(&self) -> (w: Option<String>)
        requires
            self.results@.len() <= u32::MAX,
        ensures
            ({
                let n = self.results@.len() as int;
                let a = count_outcomes(self.results@, Outcome::First, n);
                let b = count_outcomes(self.results@, Outcome::Second, n);
                &&& w is Some <==> self.strategies@.len() == 2 && a != b
                &&& w matches Some(name) ==> name == if a > b {
                    self.strategies@[0]
                } else {
                    self.strategies@[1]
                }
            }),
    {
        let (wins_a, wins_b, _) = self.win_counts();
        if wins_a > wins_b {
            Some(self.strategies[0].clone())
        } else if wins_b > wins_a {
            Some(self.strategies[1].clone())
        } else {
            None
        }
    }

    /// Number of simulations in the batch.
    pub fn len(&self) -> (n: usize)
        ensures
            n == self.results@.len(),
    {
        self.results.len()
    }
}

/// Per-pool state snapshot at end of simulation (V2).
#[derive(Debug, Clone, Copy, PartialEq, Eq, Structural)]
pub struct PoolStateV2 {
    pub pool_id: usize,
    pub token_a: usize,
    pub token_b: usize,
    pub reserve_a: Wad,
    pub reserve_b: Wad,
}

/// Lightweight simulation result for multi-asset mode.
#[derive(Debug)]
pub struct LightweightSimResultV2 {
    /// Seed used for this simulation
    pub seed: u64,
    /// Strategy names
    pub strategies: Vec<String>,
    /// Final PnL in numeraire by strategy
    pub pnl: Vec<SignedWad>,
    /// Edge in numeraire by strategy
    pub edges: Vec<SignedWad>,
    /// Final token fair prices in numeraire terms
    pub final_prices: Vec<Wad>,
    /// Final reserves by pool id
    pub pools: Vec<PoolStateV2>,
}

/// Batch result for multi-asset simulations.
#[derive(Debug)]
pub struct BatchSimulationResultV2 {
    /// Individual simulation results
    pub results: Vec<LightweightSimResultV2>,
    /// Strategy names
    pub strategies: Vec<String>,
}

impl BatchSimulationResultV2 {
    /// Number of simulations in the batch.
    pub fn len(&self) -> (n: usize)
        ensures
            n == self.results@.len(),
    {
        self.results.len()
    }
}

} // verus!
