//! Multi-asset simulation engine (N assets, many 2-token pools).
//!
//! Two sets of pools, one per competing strategy, trade against the same
//! fair prices and the same retail flow. In each step the prices move, every
//! pool is arbitraged against its own fair cross-rate, and every retail order
//! is routed to the pool that pays most for it. Pools stand in construction
//! order: the pool at an even position belongs to the submission, the one
//! after it to the normalizer.

use crate::amm::cfmm::{pool_views, pools_follow, pools_sound, PoolView, CFMM};
use crate::amm::strategy::FeeStrategy;
use crate::market::arbitrageur::Arbitrageur;
use crate::market::price_process_v2::MultiAssetPriceProcess;
use crate::market::retail_v2::{RetailDraw, RetailOrderV2, RetailTraderV2};
use crate::market::router::{best_among, lemma_best_unique, quoted_out, OrderRouter};
use crate::math::wide::mul_div_floor;
use crate::simulation::error::{ConfigFault, SimulationError};
use crate::simulation::ledger::{arb_edge, holdings_value, trade_edge, Ledger};
use crate::simulation::model_v2::{
    arbitrage_edges, arbitraged_all, orders_of, paid_for, pool_arbitrage_step, prices_along,
    profit, ran, ran_nth, routed, routed_all, routed_nth, routed_to, stepped_via,
    strategy_worth, world_stepped, World,
};
use crate::types::config::SimulationConfigV2;
use crate::types::result::{LightweightSimResultV2, PoolStateV2};
use crate::types::wad::{SignedWad, Wad, WAD};
use vstd::prelude::*;

verus! {

/// What the market does in one step, drawn outside the engine.
#[derive(Debug)]
pub struct MarketStep {
    /// Growth factor of each asset's fair price.
    pub growth: Vec<Wad>,
    /// Draws of the step's retail orders, in order of arrival.
    pub draws: Vec<RetailDraw>,
}

/// Every draw of the step can have come from a universe of `n_assets` tokens.
pub open spec fn step_fits(step: MarketStep, n_assets: usize) -> bool {
    forall|i: int| 0 <= i < step.draws@.len() ==> (#[trigger] step.draws@[i]).fits(n_assets)
}

/// The growth factors of a market path, step by step.
pub open spec fn growth_of(market: Seq<MarketStep>) -> Seq<Seq<Wad>> {
    Seq::new(market.len(), |t: int| market[t].growth@)
}

/// The draws of a market path, step by step.
pub open spec fn draws_of(market: Seq<MarketStep>) -> Seq<Seq<RetailDraw>> {
    Seq::new(market.len(), |t: int| market[t].draws@)
}

/// The pools and the edges of a run in progress.
pub open spec fn world_of<S: FeeStrategy>(amms: Seq<CFMM<S>>, edges: Ledger) -> World {
    World { pools: pool_views(amms), edges }
}

/// What is wrong with the configuration as a whole or with the market path,
/// the first fault in this order: too few assets, numeraire out of bounds,
/// no pools, a path of the wrong length, a draw that does not fit.
pub open spec fn global_fault(config: SimulationConfigV2, market: Seq<MarketStep>) -> Option<
    ConfigFault,
> {
    let n_assets = config.initial_prices@.len();
    if n_assets < 2 {
        Some(ConfigFault::TooFewAssets)
    } else if config.numeraire_token >= n_assets {
        Some(ConfigFault::NumeraireOutOfBounds)
    } else if config.pools@.len() == 0 {
        Some(ConfigFault::NoPools)
    } else if market.len() != config.n_steps {
        Some(ConfigFault::MarketLength)
    } else if exists|t: int| 0 <= t < market.len() && !step_fits(#[trigger] market[t], n_assets as usize) {
        Some(ConfigFault::MarketDraws)
    } else {
        None
    }
}

/// What is wrong with one configured pool at position `index`: its tokens
/// first, then its reserves.
pub open spec fn pool_fault(pool: (usize, usize, Wad, Wad), index: usize, n_assets: int) -> Option<
    ConfigFault,
> {
    if pool.0 == pool.1 || pool.0 >= n_assets || pool.1 >= n_assets {
        Some(ConfigFault::PoolTokens { index })
    } else if pool.2.0 == 0 || pool.3.0 == 0 {
        Some(ConfigFault::PoolReserves { index })
    } else {
        None
    }
}

/// The first `n` configured pools are without fault.
pub open spec fn pools_valid(config: SimulationConfigV2, n: int) -> bool {
    forall|i: int|
        0 <= i < n ==> pool_fault(
            #[trigger] config.pools@[i],
            i as usize,
            config.initial_prices@.len() as int,
        ) is None
}

/// The pools built from the first `n` configured pools: two per configured
/// pool, numbered in order, with its tokens and its reserves.
pub open spec fn pools_built<S: FeeStrategy>(
    amms: Seq<CFMM<S>>,
    config: SimulationConfigV2,
    n: int,
) -> bool {
    &&& amms.len() == 2 * n
    &&& forall|i: int|
        0 <= i < amms.len() ==> {
            &&& (#[trigger] amms[i])@.pool_id == i
            &&& amms[i]@.token_a == config.pools@[i / 2].0
            &&& amms[i]@.token_b == config.pools@[i / 2].1
            &&& amms[i]@.reserve_x == config.pools@[i / 2].2.0
            &&& amms[i]@.reserve_y == config.pools@[i / 2].3.0
            &&& amms[i]@.fees_x == 0
            &&& amms[i]@.fees_y == 0
            &&& amms[i]@.initialized
            &&& amms[i]@.name == owner_name(i)
        }
}

/// The name of the strategy that owns the pool at `position`: the
/// submission at even positions, the normalizer at odd ones.
pub open spec fn owner_name(position: int) -> Seq<char> {
    if position % 2 == 0 {
        "submission"@
    } else {
        "normalizer"@
    }
}

/// Computes `owner_name`.
pub fn strategy_name(position: usize) -> (name: String)
    ensures
        name@ == owner_name(position as int),
{
    if position % 2 == 0 {
        "submission".to_owned()
    } else {
        "normalizer".to_owned()
    }
}

/// The bytecode of the strategy that owns the pool at `position`: the
/// submission's at even positions, the baseline's at odd ones.
pub fn strategy_bytecode<'a>(
    position: usize,
    submission_bytecode: &'a Vec<u8>,
    baseline_bytecode: &'a Vec<u8>,
) -> (code: &'a Vec<u8>)
    ensures
        code == if position % 2 == 0 {
            submission_bytecode
        } else {
            baseline_bytecode
        },
{
    if position % 2 == 0 {
        submission_bytecode
    } else {
        baseline_bytecode
    }
}

/// The snapshot of a pool.
pub open spec fn snapshot_of(v: PoolView) -> PoolStateV2 {
    PoolStateV2 {
        pool_id: v.pool_id,
        token_a: v.token_a,
        token_b: v.token_b,
        reserve_a: Wad(v.reserve_x as u128),
        reserve_b: Wad(v.reserve_y as u128),
    }
}

/// A copy of `prices`.
fn copy_prices(prices: &Vec<Wad>) -> (out: Vec<Wad>)
    ensures
        out@ == prices@,
{
    let mut out: Vec<Wad> = Vec::new();
    let mut i: usize = 0;
    while i < prices.len()
        invariant
            i <= prices@.len(),
            out@ == prices@.subrange(0, i as int),
        decreases prices@.len() - i,
    {
        out.push(prices[i]);
        proof {
            assert(out@ =~= prices@.subrange(0, i + 1));
        }
        i = i + 1;
    }
    proof {
        assert(prices@.subrange(0, prices@.len() as int) =~= prices@);
    }
    out
}

/// Computes `strategy_worth` for both strategies: the submission's worth
/// first.
pub fn portfolio_values<S: FeeStrategy>(amms: &Vec<CFMM<S>>, prices: &Vec<Wad>, with_fees: bool) -> (w:
    (Wad, Wad))
    requires
        forall|i: int|
            0 <= i < amms@.len() ==> (#[trigger] amms@[i])@.token_a < prices@.len()
                && amms@[i]@.token_b < prices@.len(),
    ensures
        w.0.0 == strategy_worth(pool_views(amms@), prices@, true, with_fees, amms@.len() as int),
        w.1.0 == strategy_worth(pool_views(amms@), prices@, false, with_fees, amms@.len() as int),
{
    let mut submission = Wad(0);
    let mut normalizer = Wad(0);
    let mut i: usize = 0;
    while i < amms.len()
        invariant
            i <= amms@.len(),
            forall|j: int|
                0 <= j < amms@.len() ==> (#[trigger] amms@[j])@.token_a < prices@.len()
                    && amms@[j]@.token_b < prices@.len(),
            submission.0 == strategy_worth(pool_views(amms@), prices@, true, with_fees, i as int),
            normalizer.0 == strategy_worth(pool_views(amms@), prices@, false, with_fees, i as int),
        decreases amms@.len() - i,
    {
        let (token_a, token_b) = amms[i].tokens();
        let value = holdings_value(&amms[i], prices[token_a], prices[token_b], with_fees);
        if i % 2 == 0 {
            submission = submission.saturating_add(value);
        } else {
            normalizer = normalizer.saturating_add(value);
        }
        i = i + 1;
    }
    (submission, normalizer)
}

/// Arbitrages every pool, in order, against its fair cross-rate
/// `price(token_b) / price(token_a)`, and credits each pool's edge to its
/// strategy. A pool whose cross-rate exceeds every raw value is left alone.
pub fn arbitrage_pools<S: FeeStrategy>(
    amms: &mut Vec<CFMM<S>>,
    prices: &Vec<Wad>,
    timestamp: u64,
    edges: &mut Ledger,
)
    requires
        pools_sound(old(amms)@, prices@.len() as int),
        forall|i: int| 0 <= i < prices@.len() ==> (#[trigger] prices@[i]).0 > 0,
    ensures
        pools_sound(final(amms)@, prices@.len() as int),
        pools_follow(final(amms)@, old(amms)@),
        arbitraged_all(
            world_of(old(amms)@, *old(edges)),
            prices@,
            world_of(final(amms)@, *final(edges)),
        ),
{
    let arbitrageur = Arbitrageur::new();
    let ghost start = amms@;
    let ghost opening = *edges;
    let mut idx: usize = 0;
    while idx < amms.len()
        invariant
            idx <= amms@.len(),
            pools_sound(amms@, prices@.len() as int),
            pools_follow(amms@, start),
            forall|i: int| 0 <= i < prices@.len() ==> (#[trigger] prices@[i]).0 > 0,
            forall|i: int|
                0 <= i < idx ==> pool_arbitrage_step(
                    start[i]@,
                    prices@,
                    (#[trigger] amms@[i])@,
                ),
            forall|i: int| idx <= i < amms@.len() ==> #[trigger] amms@[i] == start[i],
            *edges == arbitrage_edges(
                pool_views(start),
                prices@,
                opening,
                idx as int,
            ),
        decreases amms@.len() - idx,
    {
        let (token_a, token_b) = amms[idx].tokens();
        let price_a = prices[token_a];
        let price_b = prices[token_b];
        if let Some(fair_price) = mul_div_floor(price_b.0, WAD, price_a.0) {
            let ghost before = amms@;
            let outcome = arbitrageur.execute_arb(&mut amms[idx], Wad(fair_price), timestamp);
            if let Some(result) = outcome {
                edges.credit(idx % 2 == 0, arb_edge(&result, price_a, price_b));
            }
            proof {
                assert forall|i: int| 0 <= i < amms@.len() implies (#[trigger] amms@[i])@.follows(
                    start[i]@,
                ) by {
                    assert(before[i]@.follows(start[i]@));
                }
            }
        }
        idx = idx + 1;
    }
    proof {
        let after = world_of(amms@, *edges);
        assert forall|i: int| 0 <= i < after.pools.len() implies
            pool_arbitrage_step(
            pool_views(start)[i],
            prices@,
            #[trigger] after.pools[i],
        ) by {
            assert(amms@[i]@ == after.pools[i]);
        }
    }
}

/// Routes the orders of one step, in order, and credits each executed
/// order's edge to the strategy whose pool took it.
pub fn route_orders<S: FeeStrategy>(
    amms: &mut Vec<CFMM<S>>,
    orders: &Vec<RetailOrderV2>,
    prices: &Vec<Wad>,
    timestamp: u64,
    edges: &mut Ledger,
)
    requires
        pools_sound(old(amms)@, prices@.len() as int),
        forall|i: int|
            0 <= i < orders@.len() ==> (#[trigger] orders@[i]).token_in < prices@.len()
                && orders@[i].token_out < prices@.len(),
    ensures
        pools_sound(final(amms)@, prices@.len() as int),
        pools_follow(final(amms)@, old(amms)@),
        routed_all(
            world_of(old(amms)@, *old(edges)),
            orders@,
            prices@,
            orders@.len() as int,
            world_of(final(amms)@, *final(edges)),
        ),
{
    let router = OrderRouter::new();
    let ghost start = amms@;
    let ghost opening = world_of(amms@, *edges);
    let mut k: usize = 0;
    while k < orders.len()
        invariant
            k <= orders@.len(),
            pools_sound(amms@, prices@.len() as int),
            pools_follow(amms@, start),
            forall|i: int|
                0 <= i < orders@.len() ==> (#[trigger] orders@[i]).token_in < prices@.len()
                    && orders@[i].token_out < prices@.len(),
            routed_all(opening, orders@, prices@, k as int, world_of(amms@, *edges)),
        decreases orders@.len() - k,
    {
        let order = orders[k];
        let price_in = prices[order.token_in];
        let price_out = prices[order.token_out];
        let ghost before = amms@;
        let ghost mid = world_of(amms@, *edges);
        let outcome = router.route(amms, &order, price_in, timestamp);
        if let Some((best, paid, received)) = outcome {
            edges.credit(best % 2 == 0, trade_edge(paid, price_in, received, price_out));
        }
        proof {
            assert forall|i: int| 0 <= i < amms@.len() implies (#[trigger] amms@[i])@.follows(
                start[i]@,
            ) by {
                assert(amms@[i]@.follows(before[i]@));
                assert(before[i]@.follows(start[i]@));
            }
            assert forall|i: int| 0 <= i < amms@.len() implies {
                &&& (#[trigger] amms@[i]).wf()
                &&& amms@[i]@.has_liquidity()
                &&& amms@[i]@.token_a < prices@.len()
                &&& amms@[i]@.token_b < prices@.len()
            } by {
                assert(before[i].wf());
                assert(amms@[i]@.follows(before[i]@));
            }
            let after = world_of(amms@, *edges);
            let paid_spec = paid_for(order, prices@);
            match outcome {
                Some((best, paid, received)) => {
                    assert forall|other: int|
                        best_among(
                            mid.pools,
                            order.token_in,
                            order.token_out,
                            paid_spec,
                            other,
                        ) implies routed_to(
                        mid,
                        order,
                        prices@,
                        other,
                        after,
                    ) by {
                        lemma_best_unique(
                            mid.pools,
                            order.token_in,
                            order.token_out,
                            paid_spec,
                            other,
                            best as int,
                        );
                        assert(after.pools[best as int] == amms@[best as int]@);
                        assert forall|i: int|
                            0 <= i < after.pools.len() && i != best implies #[trigger] after.pools[i]
                            == mid.pools[i] by {
                            assert(amms@[i] == before[i]);
                        }
                    }
                },
                None => {
                    assert forall|other: int|
                        !best_among(
                            mid.pools,
                            order.token_in,
                            order.token_out,
                            paid_spec,
                            other,
                        ) by {
                        if 0 <= other < mid.pools.len() {
                            assert(quoted_out(
                                pool_views(before)[other],
                                order.token_in,
                                order.token_out,
                                paid_spec,
                            ) <= 0);
                        }
                    }
                    assert(after.pools =~= mid.pools) by {
                        assert forall|i: int| 0 <= i < after.pools.len() implies after.pools[i]
                            == mid.pools[i] by {
                            assert(amms@[i]@ == before[i]@);
                        }
                    }
                },
            }
            assert(routed(mid, order, prices@, after));
            assert(routed_nth(mid, orders@, prices@, k + 1, after));
        }
        k = k + 1;
    }
}

/// The snapshots of all pools, in order.
pub fn snapshot<S: FeeStrategy>(amms: &Vec<CFMM<S>>) -> (out: Vec<PoolStateV2>)
    ensures
        out@.len() == amms@.len(),
        forall|i: int| 0 <= i < out@.len() ==> #[trigger] out@[i] == snapshot_of(amms@[i]@),
{
    let mut out: Vec<PoolStateV2> = Vec::new();
    let mut i: usize = 0;
    while i < amms.len()
        invariant
            i <= amms@.len(),
            out@.len() == i,
            forall|j: int| 0 <= j < i ==> #[trigger] out@[j] == snapshot_of(amms@[j]@),
        decreases amms@.len() - i,
    {
        let (rx, ry) = amms[i].reserves();
        let (token_a, token_b) = amms[i].tokens();
        out.push(
            PoolStateV2 {
                pool_id: amms[i].id(),
                token_a,
                token_b,
                reserve_a: rx,
                reserve_b: ry,
            },
        );
        i = i + 1;
    }
    out
}

/// `start` are the pools a run of `config` starts from: two per configured
/// pool, numbered in order and named after the strategy that owns it, with
/// its tokens and its reserves, with empty accumulators, initialized, and
/// with whatever clamped fees their strategies chose.
pub open spec fn starts_as(config: SimulationConfigV2, start: Seq<PoolView>) -> bool {
    &&& start.len() == 2 * config.pools@.len()
    &&& forall|i: int|
        0 <= i < start.len() ==> {
            let v = #[trigger] start[i];
            &&& v.pool_id == i
            &&& v.token_a == config.pools@[i / 2].0
            &&& v.token_b == config.pools@[i / 2].1
            &&& v.reserve_x == config.pools@[i / 2].2.0
            &&& v.reserve_y == config.pools@[i / 2].3.0
            &&& v.fees_x == 0
            &&& v.fees_y == 0
            &&& v.initialized
            &&& v.fees.is_clamped()
            &&& v.name == owner_name(i)
        }
}

/// `result` is the result of a run of `config` over `market` that led the
/// pools from `start` to `end`.
///
/// It carries the seed, zero where none is configured, and names the
/// submission and the normalizer, in this order. Its final prices are those
/// the market path leads to. Its pools are the snapshots of `end`, which the
/// market path can lead to from `start`. Its edges are those booked on the
/// way, and its profits the worth of `end`, fees included, at the final
/// prices, less the worth of `start` at the starting prices.
pub open spec fn is_run(
    config: SimulationConfigV2,
    market: Seq<MarketStep>,
    start: Seq<PoolView>,
    end: Seq<PoolView>,
    result: LightweightSimResultV2,
) -> bool {
    let initial = config.initial_prices@;
    let numeraire = config.numeraire_token;
    let growth = growth_of(market);
    let steps = market.len() as int;
    &&& result.seed == match config.seed {
        Some(seed) => seed,
        None => 0,
    }
    &&& result.strategies@.len() == 2
    &&& result.strategies@[0]@ == "submission"@
    &&& result.strategies@[1]@ == "normalizer"@
    &&& result.final_prices@ == prices_along(initial, numeraire, growth, steps)
    &&& starts_as(config, start)
    &&& result.edges@.len() == 2
    &&& ran(
        World { pools: start, edges: Ledger { submission: SignedWad(0), normalizer: SignedWad(0) } },
        initial,
        numeraire,
        growth,
        draws_of(market),
        steps,
        World {
            pools: end,
            edges: Ledger { submission: result.edges@[0], normalizer: result.edges@[1] },
        },
    )
    &&& result.pools@ == Seq::new(end.len(), |i: int| snapshot_of(end[i]))
    &&& result.pnl@.len() == 2
    &&& result.pnl@[0].0 == profit(
        start,
        prices_along(initial, numeraire, growth, 0),
        end,
        result.final_prices@,
        true,
    )
    &&& result.pnl@[1].0 == profit(
        start,
        prices_along(initial, numeraire, growth, 0),
        end,
        result.final_prices@,
        false,
    )
}

/// Every pool is reported with its number and its tokens, and with
/// reserves that are positive and whose product is no smaller than it was
/// configured.
pub open spec fn reported_pools_sound(
    config: SimulationConfigV2,
    result: LightweightSimResultV2,
) -> bool {
    forall|i: int|
        0 <= i < result.pools@.len() ==> {
            &&& (#[trigger] result.pools@[i]).pool_id == i
            &&& result.pools@[i].token_a == config.pools@[i / 2].0
            &&& result.pools@[i].token_b == config.pools@[i / 2].1
            &&& result.pools@[i].reserve_a.0 > 0
            &&& result.pools@[i].reserve_b.0 > 0
            &&& result.pools@[i].reserve_a.0 * result.pools@[i].reserve_b.0 >= config.pools@[i
                / 2].2.0 * config.pools@[i / 2].3.0
        }
}

/// Runs built pools over `market`: the part of a run that no strategy can
/// fail. A strategy that fails on the way leaves its pool's fees as they
/// are.
///
/// The result is that of a run, as `is_run` describes it, from these pools:
/// the strategies choose the fees, and everything else follows from the
/// configuration and the market path. Its final prices hold the numeraire
/// at one, and every pool is reported with its number and tokens and with
/// reserves that are positive and whose product is no smaller than it was
/// configured.
pub fn simulate<S: FeeStrategy>(
    config: &SimulationConfigV2,
    amms: Vec<CFMM<S>>,
    market: &Vec<MarketStep>,
) -> (result: LightweightSimResultV2)
    requires
        global_fault(*config, market@) is None,
        pools_valid(*config, config.pools@.len() as int),
        pools_built(amms@, *config, config.pools@.len() as int),
        pools_sound(amms@, config.initial_prices@.len() as int),
    ensures
        exists|end: Seq<PoolView>| is_run(*config, market@, pool_views(amms@), end, result),
        result.final_prices@[config.numeraire_token as int] == Wad(WAD),
        reported_pools_sound(*config, result),
{
    let seed: u64 = match config.seed {
        Some(s) => s,
        None => 0,
    };
    let mut amms = amms;
    let n_assets: usize = config.initial_prices.len();
    let numeraire: usize = config.numeraire_token;
    let mut price_process = MultiAssetPriceProcess::new(
        copy_prices(&config.initial_prices),
        numeraire,
    );
    let retail_trader = RetailTraderV2::new(
        n_assets,
        config.retail_arrival_rate,
        config.retail_mean_size,
        config.retail_size_sigma,
        config.retail_buy_prob,
    );
    let ghost built = amms@;
    let ghost initial = config.initial_prices@;
    let ghost growth = growth_of(market@);
    let ghost draws = draws_of(market@);
    let opening = portfolio_values(&amms, price_process.current_prices(), false);
    let mut edges = Ledger::new();
    let ghost start = world_of(built, edges);
    let mut t: usize = 0;
    while t < market.len()
        invariant
            t <= market@.len(),
            market@.len() == config.n_steps,
            initial == config.initial_prices@,
            growth == growth_of(market@),
            draws == draws_of(market@),
            n_assets == config.initial_prices@.len(),
            numeraire == config.numeraire_token,
            numeraire < n_assets,
            retail_trader.n_assets == n_assets,
            price_process@.numeraire == numeraire,
            price_process@.prices == prices_along(initial, numeraire, growth, t as int),
            price_process@.prices.len() == n_assets,
            price_process@.prices[numeraire as int] == Wad(WAD),
            pools_sound(amms@, n_assets as int),
            pools_follow(amms@, built),
            forall|s: int| 0 <= s < market@.len() ==> step_fits(#[trigger] market@[s], n_assets),
            ran(start, initial, numeraire, growth, draws, t as int, world_of(amms@, edges)),
        decreases market@.len() - t,
    {
        price_process.step(&market[t].growth);
        let prices = price_process.current_prices();
        let ghost before = amms@;
        let ghost world_before = world_of(amms@, edges);
        arbitrage_pools(&mut amms, prices, t as u64, &mut edges);
        let ghost between = amms@;
        let ghost world_between = world_of(amms@, edges);
        assert(step_fits(market@[t as int], n_assets));
        let orders = retail_trader.generate_orders(&market[t].draws);
        route_orders(&mut amms, &orders, prices, t as u64, &mut edges);
        proof {
            assert forall|i: int| 0 <= i < amms@.len() implies (#[trigger] amms@[i])@.follows(
                built[i]@,
            ) by {
                assert(amms@[i]@.follows(between[i]@));
                assert(between[i]@.follows(before[i]@));
                assert(before[i]@.follows(built[i]@));
            }
            assert(growth[t as int] == market@[t as int].growth@);
            assert(orders@ =~= orders_of(draws[t as int]));
            assert(prices@ == prices_along(initial, numeraire, growth, t + 1));
            let world_after = world_of(amms@, edges);
            assert(stepped_via(world_before, prices@, orders@, world_between, world_after));
            assert(world_stepped(world_before, prices@, orders@, world_after));
            assert(ran_nth(world_before, initial, numeraire, growth, draws, t + 1, world_after));
        }
        t = t + 1;
    }
    let prices = price_process.current_prices();
    let closing = portfolio_values(&amms, prices, true);
    let mut strategies: Vec<String> = Vec::new();
    strategies.push("submission".to_owned());
    strategies.push("normalizer".to_owned());
    let mut pnl: Vec<SignedWad> = Vec::new();
    pnl.push(SignedWad::difference(closing.0, opening.0));
    pnl.push(SignedWad::difference(closing.1, opening.1));
    let mut edge_list: Vec<SignedWad> = Vec::new();
    edge_list.push(edges.submission);
    edge_list.push(edges.normalizer);
    let pools = snapshot(&amms);
    let final_prices = copy_prices(prices);
    proof {
        amms@[0].lemma_view_in_range();
        assert forall|i: int| 0 <= i < pools@.len() implies {
            &&& (#[trigger] pools@[i]).pool_id == i
            &&& pools@[i].token_a == config.pools@[i / 2].0
            &&& pools@[i].token_b == config.pools@[i / 2].1
            &&& pools@[i].reserve_a.0 > 0
            &&& pools@[i].reserve_b.0 > 0
            &&& pools@[i].reserve_a.0 * pools@[i].reserve_b.0 >= config.pools@[i / 2].2.0
                * config.pools@[i / 2].3.0
        } by {
            amms@[i].lemma_view_in_range();
            assert(pools@[i] == snapshot_of(amms@[i]@));
            assert(amms@[i]@.follows(built[i]@));
            assert(amms@[i].wf());
            assert(built[i]@.pool_id == i);
        }
    }
    let result = LightweightSimResultV2 {
        seed,
        strategies,
        pnl,
        edges: edge_list,
        final_prices,
        pools,
    };
    proof {
        let end = pool_views(amms@);
        assert(result.pools@ =~= Seq::new(end.len(), |i: int| snapshot_of(end[i])));
        assert forall|i: int| 0 <= i < pool_views(built).len() implies {
            let v = #[trigger] pool_views(built)[i];
            &&& v.pool_id == i
            &&& v.token_a == config.pools@[i / 2].0
            &&& v.token_b == config.pools@[i / 2].1
            &&& v.reserve_x == config.pools@[i / 2].2.0
            &&& v.reserve_y == config.pools@[i / 2].3.0
            &&& v.fees_x == 0
            &&& v.fees_y == 0
            &&& v.initialized
            &&& v.fees.is_clamped()
            &&& v.name == owner_name(i)
        } by {
            assert(built[i]@ == pool_views(built)[i]);
            assert(built[i].wf());
        }
        assert(is_run(*config, market@, pool_views(built), end, result));
    }
    proof {
        assert(reported_pools_sound(*config, result));
    }
    result
}

/// Main simulation engine for multi-asset competition mode.
pub struct SimulationEngineV2 {
    config: SimulationConfigV2,
}

impl View for SimulationEngineV2 {
    type V = SimulationConfigV2;

    closed spec fn view(&self) -> SimulationConfigV2 {
        self.config
    }
}

impl SimulationEngineV2 {
    pub fn new(config: SimulationConfigV2) -> (e: Self)
        ensures
            e@ == config,
    {
        SimulationEngineV2 { config }
    }

    /// The configuration the engine runs.
    pub fn config(&self) -> (c: &SimulationConfigV2)
        ensures
            *c == self@,
    {
        &self.config
    }

    /// Computes `global_fault`.
    pub fn check(&self, market: &Vec<MarketStep>) -> (f: Option<ConfigFault>)
        ensures
            f == global_fault(self@, market@),
    {
        let n_assets: usize = self.config.initial_prices.len();
        if n_assets < 2 {
            return Some(ConfigFault::TooFewAssets);
        }
        if self.config.numeraire_token >= n_assets {
            return Some(ConfigFault::NumeraireOutOfBounds);
        }
        if self.config.pools.len() == 0 {
            return Some(ConfigFault::NoPools);
        }
        if market.len() != self.config.n_steps as usize {
            return Some(ConfigFault::MarketLength);
        }
        let trader = RetailTraderV2::new(n_assets, Wad(0), Wad(0), Wad(0), Wad(0));
        let mut t: usize = 0;
        while t < market.len()
            invariant
                t <= market@.len(),
                trader.n_assets == n_assets,
                n_assets == self@.initial_prices@.len(),
                n_assets >= 2,
                self@.numeraire_token < n_assets,
                0 < self@.pools@.len(),
                market@.len() == self@.n_steps,
                forall|s: int| 0 <= s < t ==> step_fits(#[trigger] market@[s], n_assets),
            decreases market@.len() - t,
        {
            if !trader.accepts_all(&market[t].draws) {
                assert(!step_fits(market@[t as int], n_assets));
                return Some(ConfigFault::MarketDraws);
            }
            t = t + 1;
        }
        None
    }

    /// Builds and initializes the pools: for each configured pool, in order,
    /// one for the submission and one for the normalizer, each with a
    /// strategy instance of its own.
    ///
    /// A configured pool with a fault stops the build with that fault; so
    /// does a strategy that cannot be loaded or does not initialize, with
    /// the strategy's message. A fault is reported only of the first faulty
    /// pool, and a strategy is only asked once every pool up to its own is
    /// without fault.
    pub fn build_pools<S: FeeStrategy>(
        &self,
        submission_bytecode: &Vec<u8>,
        baseline_bytecode: &Vec<u8>,
    ) -> (r: Result<Vec<CFMM<S>>, SimulationError>)
        ensures
            self@.pools@.len() == 0 ==> r is Ok,
            self@.pools@.len() > 0 ==> (pool_fault(
                self@.pools@[0],
                0,
                self@.initial_prices@.len() as int,
            ) matches Some(fault) ==> r matches Err(SimulationError::InvalidConfig(reported))
                && reported == fault),
            match r {
                Ok(amms) => {
                    &&& pools_valid(self@, self@.pools@.len() as int)
                    &&& pools_built(amms@, self@, self@.pools@.len() as int)
                    &&& pools_sound(amms@, self@.initial_prices@.len() as int)
                },
                Err(SimulationError::InvalidConfig(fault)) => exists|i: int|
                    0 <= i < self@.pools@.len() && pools_valid(self@, i) && pool_fault(
                        #[trigger] self@.pools@[i],
                        i as usize,
                        self@.initial_prices@.len() as int,
                    ) == Some(fault),
                Err(SimulationError::EVMError(_)) => self@.pools@.len() > 0 && pool_fault(
                    self@.pools@[0],
                    0,
                    self@.initial_prices@.len() as int,
                ) is None,
            },
    {
        let n_assets: usize = self.config.initial_prices.len();
        let mut amms: Vec<CFMM<S>> = Vec::new();
        let mut pool_idx: usize = 0;
        while pool_idx < self.config.pools.len()
            invariant
                pool_idx <= self@.pools@.len(),
                n_assets == self@.initial_prices@.len(),
                self.config == self@,
                pools_valid(self@, pool_idx as int),
                pools_built(amms@, self@, pool_idx as int),
                pools_sound(amms@, n_assets as int),
            decreases self@.pools@.len() - pool_idx,
        {
            let (token_a, token_b, initial_a, initial_b) = self.config.pools[pool_idx];
            if token_a == token_b || token_a >= n_assets || token_b >= n_assets {
                return Err(
                    SimulationError::InvalidConfig(ConfigFault::PoolTokens { index: pool_idx }),
                );
            }
            if initial_a.0 == 0 || initial_b.0 == 0 {
                return Err(
                    SimulationError::InvalidConfig(ConfigFault::PoolReserves { index: pool_idx }),
                );
            }
            let first: usize = amms.len();
            assert(first < usize::MAX) by {
                assert(first == 2 * pool_idx);
                assert(usize::MAX % 2 == 1);
            }
            let second: usize = first + 1;
            let submission = match S::load(
                strategy_bytecode(first, submission_bytecode, baseline_bytecode),
                strategy_name(first),
            ) {
                Ok(s) => s,
                Err(e) => { return Err(SimulationError::EVMError(e.message)); },
            };
            let baseline = match S::load(
                strategy_bytecode(second, submission_bytecode, baseline_bytecode),
                strategy_name(second),
            ) {
                Ok(s) => s,
                Err(e) => { return Err(SimulationError::EVMError(e.message)); },
            };
            let mut amm_submission = CFMM::new_with_pair(
                submission,
                initial_a,
                initial_b,
                token_a,
                token_b,
                first,
            );
            amm_submission.set_name(strategy_name(first));
            match amm_submission.initialize_v2_or_fallback() {
                Ok(()) => {},
                Err(e) => { return Err(SimulationError::EVMError(e.message)); },
            }
            let mut amm_baseline = CFMM::new_with_pair(
                baseline,
                initial_a,
                initial_b,
                token_a,
                token_b,
                second,
            );
            amm_baseline.set_name(strategy_name(second));
            match amm_baseline.initialize_v2_or_fallback() {
                Ok(()) => {},
                Err(e) => { return Err(SimulationError::EVMError(e.message)); },
            }
            let ghost before = amms@;
            amms.push(amm_submission);
            amms.push(amm_baseline);
            proof {
                assert forall|i: int| 0 <= i < amms@.len() implies {
                    &&& (#[trigger] amms@[i])@.pool_id == i
                    &&& amms@[i]@.token_a == self@.pools@[i / 2].0
                    &&& amms@[i]@.token_b == self@.pools@[i / 2].1
                    &&& amms@[i]@.reserve_x == self@.pools@[i / 2].2.0
                    &&& amms@[i]@.reserve_y == self@.pools@[i / 2].3.0
                    &&& amms@[i]@.fees_x == 0
                    &&& amms@[i]@.fees_y == 0
                    &&& amms@[i]@.initialized
                    &&& amms@[i]@.name == owner_name(i)
                } by {
                    if i < before.len() {
                        assert(amms@[i] == before[i]);
                    }
                }
                assert forall|i: int| 0 <= i < amms@.len() implies {
                    &&& (#[trigger] amms@[i]).wf()
                    &&& amms@[i]@.has_liquidity()
                    &&& amms@[i]@.token_a < n_assets
                    &&& amms@[i]@.token_b < n_assets
                } by {
                    if i < before.len() {
                        assert(amms@[i] == before[i]);
                    }
                }
            }
            pool_idx = pool_idx + 1;
        }
        Ok(amms)
    }
    /// Runs the simulation over `market`, one market step per simulation
    /// step.
    ///
    /// A fault of the configuration as a whole or of the market path is
    /// reported before anything else; then the pools are built as by
    /// `build_pools`, which may report a pool's fault or a strategy's
    /// failure. After that the run cannot fail: the built pools are run as
    /// by `simulate`, and the result is what `simulate` gives.
    ///
    /// The result is that of a run as `is_run` describes it: the strategies
    /// choose the fees, and everything else follows from the configuration
    /// and the market path.
    pub fn run<S: FeeStrategy>(
        &mut self,
        submission_bytecode: &Vec<u8>,
        baseline_bytecode: &Vec<u8>,
        market: &Vec<MarketStep>,
    ) -> (r: Result<LightweightSimResultV2, SimulationError>)
        ensures
            final(self)@ == old(self)@,
            global_fault(old(self)@, market@) matches Some(fault) ==> r matches Err(
                SimulationError::InvalidConfig(reported),
            ) && reported == fault,
            global_fault(old(self)@, market@) is None ==> (pool_fault(
                old(self)@.pools@[0],
                0,
                old(self)@.initial_prices@.len() as int,
            ) matches Some(fault) ==> r matches Err(SimulationError::InvalidConfig(reported))
                && reported == fault),
            match r {
                Ok(result) => {
                    let config = old(self)@;
                    &&& global_fault(config, market@) is None
                    &&& pools_valid(config, config.pools@.len() as int)
                    &&& exists|start: Seq<PoolView>, end: Seq<PoolView>|
                        is_run(config, market@, start, end, result)
                    &&& result.final_prices@[config.numeraire_token as int] == Wad(WAD)
                    &&& reported_pools_sound(config, result)
                },
                Err(SimulationError::InvalidConfig(fault)) => {
                    let config = old(self)@;
                    ||| global_fault(config, market@) == Some(fault)
                    ||| global_fault(config, market@) is None && exists|i: int|
                        0 <= i < config.pools@.len() && pools_valid(config, i) && pool_fault(
                            #[trigger] config.pools@[i],
                            i as usize,
                            config.initial_prices@.len() as int,
                        ) == Some(fault)
                },
                Err(SimulationError::EVMError(_)) => {
                    let config = old(self)@;
                    &&& global_fault(config, market@) is None
                    &&& pool_fault(config.pools@[0], 0, config.initial_prices@.len() as int) is None
                },
            },
    {
        if let Some(fault) = self.check(market) {
            return Err(SimulationError::InvalidConfig(fault));
        }
        let amms: Vec<CFMM<S>> = match self.build_pools::<S>(
            submission_bytecode,
            baseline_bytecode,
        ) {
            Ok(amms) => amms,
            Err(e) => { return Err(e); },
        };
        Ok(simulate(&self.config, amms, market))
    }
}

} // verus!
