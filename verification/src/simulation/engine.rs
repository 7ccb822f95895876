//! Single-asset simulation engine: one pair, two competing pools.
//!
//! Both pools start from the same reserves and meet the same market: in
//! each step the fair price of X in Y moves, each pool is arbitraged toward
//! it, and each retail order is executed on each pool independently.

use crate::amm::cfmm::{PoolView, CFMM};
use crate::amm::strategy::FeeStrategy;
use crate::market::arbitrageur::Arbitrageur;
use crate::market::price_process::{price_after, GBMPriceProcess};
use crate::market::retail::{RetailOrder, RetailSide, RetailTrader};
use crate::market::router::OrderRouter;
use crate::simulation::error::{ConfigFault, SimulationError};
use crate::simulation::ledger::{arb_edge, holdings_value, trade_edge};
use crate::simulation::model::{
    arb_step, is_path, mean_of, orders_of, path_step, pool_pnl, pool_stepped, retail_all,
    retail_nth, retail_step, stepped_through, PoolState, PoolTally,
};
use crate::types::config::SimulationConfig;
use crate::types::result::{LightweightSimResult, LightweightStepResult};
use crate::types::wad::{SignedWad, Wad, MAX_FEE, WAD};
use vstd::prelude::*;

verus! {

/// What the market does in one step, drawn outside the engine.
#[derive(Debug)]
pub struct SingleStep {
    /// Growth factor of the fair price.
    pub growth: Wad,
    /// For each retail order of the step, in order of arrival: whether it
    /// is a buy, and its size in Y.
    pub draws: Vec<(bool, Wad)>,
}

/// The growth factors of a market path.
pub open spec fn growth_of(market: Seq<SingleStep>) -> Seq<Wad> {
    Seq::new(market.len(), |i: int| market[i].growth)
}

/// The draws of a market path, step by step.
pub open spec fn draws_of(market: Seq<SingleStep>) -> Seq<Seq<(bool, Wad)>> {
    Seq::new(market.len(), |i: int| market[i].draws@)
}

/// What is wrong with the configuration or the market path: an empty
/// initial reserve first, then a path of the wrong length.
pub open spec fn single_fault(config: SimulationConfig, market: Seq<SingleStep>) -> Option<
    ConfigFault,
> {
    if config.initial_x.0 == 0 || config.initial_y.0 == 0 {
        Some(ConfigFault::EmptyReserves)
    } else if market.len() != config.n_steps {
        Some(ConfigFault::MarketLength)
    } else {
        None
    }
}

/// The worth both pools start from: both initial reserves marked at the
/// initial price.
pub open spec fn starting_worth(config: SimulationConfig) -> int {
    Wad::saturate(
        Wad::worth(config.initial_x.0 as int, config.initial_price.0 as int) + Wad::worth(
            config.initial_y.0 as int,
            config.initial_price.0 as int,
        ),
    )
}

/// `start` is a pool as a run of `config` starts it: on the pair (0, 1),
/// with the configured reserves and empty accumulators, initialized in
/// single-pair mode with whatever clamped fees its strategy chose, and with
/// nothing earned or traded.
pub open spec fn starts_as(config: SimulationConfig, start: PoolState) -> bool {
    &&& start.tally == PoolTally::zero()
    &&& start.pool.pool_id == 0
    &&& start.pool.token_a == 0
    &&& start.pool.token_b == 1
    &&& start.pool.reserve_x == config.initial_x.0
    &&& start.pool.reserve_y == config.initial_y.0
    &&& start.pool.fees_x == 0
    &&& start.pool.fees_y == 0
    &&& start.pool.fees.is_clamped()
    &&& start.pool.initialized
    &&& !start.pool.use_v2
}

/// `step` records step `t` at `price`, after which the two pools stood at
/// `submission` and `baseline`: for each its spot price, its running
/// profit and its fees.
pub open spec fn step_recorded(
    step: LightweightStepResult,
    t: int,
    price: Wad,
    submission: PoolView,
    baseline: PoolView,
    initial_value: int,
) -> bool {
    &&& step.timestamp == t
    &&& step.fair_price == price
    &&& step.spot_prices@ == seq![Wad(submission.spot() as u128), Wad(baseline.spot() as u128)]
    &&& step.pnls@ == seq![
        SignedWad(pool_pnl(submission, price.0 as int, initial_value) as i128),
        SignedWad(pool_pnl(baseline, price.0 as int, initial_value) as i128),
    ]
    &&& step.fees@ == seq![
        (submission.fees.bid_fee, submission.fees.ask_fee),
        (baseline.fees.bid_fee, baseline.fees.ask_fee),
    ]
}

/// What a run reports of one pool at its end, at position `i` of each list.
pub open spec fn pool_reported(
    result: LightweightSimResult,
    i: int,
    end: PoolState,
    price: Wad,
    config: SimulationConfig,
) -> bool {
    &&& result.strategies@[i]@ == end.pool.name
    &&& result.pnl@[i].0 == pool_pnl(end.pool, price.0 as int, starting_worth(config))
    &&& result.edges@[i] == end.tally.edge
    &&& result.initial_reserves@[i] == (config.initial_x, config.initial_y)
    &&& result.arb_volume_y@[i] == end.tally.arb_volume_y
    &&& result.retail_volume_y@[i] == end.tally.retail_volume_y
    &&& result.average_fees@[i].0.0 == mean_of(
        end.tally.bid_fee_sum,
        config.n_steps as int,
        end.pool.fees.bid_fee,
    )
    &&& result.average_fees@[i].1.0 == mean_of(
        end.tally.ask_fee_sum,
        config.n_steps as int,
        end.pool.fees.ask_fee,
    )
}

/// `result` is the result of a run of `config` over `market` that led the
/// submission's pool along `submission` and the baseline's along
/// `baseline`.
///
/// Each path starts as `starts_as` says and follows the market path. The
/// result carries the seed, zero where none is configured, the initial
/// price and, per strategy and submission first, the name, the profit, the
/// edge, the initial reserves, the volumes and the mean fees of its pool at
/// the end of its path. It records every step with the state of both pools
/// after it.
pub open spec fn is_run(
    config: SimulationConfig,
    market: Seq<SingleStep>,
    submission: Seq<PoolState>,
    baseline: Seq<PoolState>,
    result: LightweightSimResult,
) -> bool {
    let growth = growth_of(market);
    let draws = draws_of(market);
    let n = market.len() as int;
    let closing = price_after(config.initial_price, growth, n);
    &&& result.seed == match config.seed {
        Some(seed) => seed,
        None => 0,
    }
    &&& result.initial_fair_price == config.initial_price
    &&& is_path(submission, config.initial_price, growth, draws)
    &&& is_path(baseline, config.initial_price, growth, draws)
    &&& starts_as(config, submission[0])
    &&& starts_as(config, baseline[0])
    &&& result.strategies@.len() == 2
    &&& result.pnl@.len() == 2
    &&& result.edges@.len() == 2
    &&& result.initial_reserves@.len() == 2
    &&& result.arb_volume_y@.len() == 2
    &&& result.retail_volume_y@.len() == 2
    &&& result.average_fees@.len() == 2
    &&& pool_reported(result, 0, submission[n], closing, config)
    &&& pool_reported(result, 1, baseline[n], closing, config)
    &&& result.steps@.len() == n
    &&& forall|t: int|
        0 <= t < n ==> step_recorded(
            #[trigger] result.steps@[t],
            t,
            price_after(config.initial_price, growth, t + 1),
            submission[t + 1].pool,
            baseline[t + 1].pool,
            starting_worth(config),
        )
}

/// `result` is the result of some run of `config` over `market`, and every
/// fee it reports is clamped.
pub open spec fn ran_as(
    config: SimulationConfig,
    market: Seq<SingleStep>,
    result: LightweightSimResult,
) -> bool {
    &&& exists|submission: Seq<PoolState>, baseline: Seq<PoolState>|
        is_run(config, market, submission, baseline, result)
    &&& forall|i: int|
        0 <= i < 2 ==> (#[trigger] result.average_fees@[i]).0.is_fee()
            && result.average_fees@[i].1.is_fee()
    &&& forall|t: int, i: int|
        0 <= t < result.steps@.len() && 0 <= i < 2 ==> (#[trigger] result.steps@[t].fees@[i]).0.is_fee()
            && result.steps@[t].fees@[i].1.is_fee()
}

impl PoolTally {
    pub fn new() -> (t: PoolTally)
        ensures
            t == PoolTally::zero(),
    {
        PoolTally {
            edge: SignedWad(0),
            arb_volume_y: Wad(0),
            retail_volume_y: Wad(0),
            bid_fee_sum: Wad(0),
            ask_fee_sum: Wad(0),
        }
    }
}

/// The pool and the tally of a run in progress.
pub open spec fn state_of<S: FeeStrategy>(amm: &CFMM<S>, tally: PoolTally) -> PoolState {
    PoolState { pool: amm@, tally }
}

/// Computes `starting_worth`.
pub fn initial_value(config: &SimulationConfig) -> (w: Wad)
    ensures
        w.0 == starting_worth(*config),
{
    config.initial_x.value_at(config.initial_price).saturating_add(
        config.initial_y.value_at(config.initial_price),
    )
}

/// Arbitrages `amm` toward `price` and books the edge and the volume.
pub fn arbitrage_pool<S: FeeStrategy>(
    amm: &mut CFMM<S>,
    price: Wad,
    timestamp: u64,
    tally: &mut PoolTally,
)
    requires
        old(amm).wf(),
    ensures
        final(amm).wf(),
        final(amm)@.follows(old(amm)@),
        old(amm)@.has_liquidity() ==> final(amm)@.has_liquidity(),
        arb_step(
            state_of(old(amm), *old(tally)),
            price.0 as int,
            state_of(final(amm), *final(tally)),
        ),
{
    let arbitrageur = Arbitrageur::new();
    if let Some(result) = arbitrageur.execute_arb(amm, price, timestamp) {
        tally.edge = tally.edge.saturating_add(arb_edge(&result, price, Wad(WAD)));
        tally.arb_volume_y = tally.arb_volume_y.saturating_add(result.amount_y);
    }
}

/// Executes one retail order on `amm` and books the edge and the volume.
///
/// A buy pays the order's size in Y for X. A sell offers X worth the
/// order's size at the fair price.
pub fn retail_on_pool<S: FeeStrategy>(
    amm: &mut CFMM<S>,
    order: &RetailOrder,
    price: Wad,
    timestamp: u64,
    tally: &mut PoolTally,
)
    requires
        old(amm).wf(),
    ensures
        final(amm).wf(),
        final(amm)@.follows(old(amm)@),
        old(amm)@.has_liquidity() ==> final(amm)@.has_liquidity(),
        retail_step(
            state_of(old(amm), *old(tally)),
            *order,
            price.0 as int,
            state_of(final(amm), *final(tally)),
        ),
{
    match order.side {
        RetailSide::Buy => {
            if let Some(trade) = amm.execute_buy_x_with_y(order.size, timestamp) {
                let edge = trade_edge(order.size, Wad(WAD), trade.trade_info.amount_x, price);
                tally.edge = tally.edge.saturating_add(edge);
                tally.retail_volume_y = tally.retail_volume_y.saturating_add(order.size);
            }
        },
        RetailSide::Sell => {
            let amount_x = OrderRouter::new().amount_in(order.size, price);
            if let Some(trade) = amm.execute_buy_x(amount_x, timestamp) {
                let edge = trade_edge(amount_x, price, trade.trade_info.amount_y, Wad(WAD));
                tally.edge = tally.edge.saturating_add(edge);
                tally.retail_volume_y = tally.retail_volume_y.saturating_add(
                    trade.trade_info.amount_y,
                );
            }
        },
    }
}

/// One step of one pool: arbitrage toward `price`, then every order in
/// turn; at the end the fees in force are added to the fee sums.
pub fn step_pool<S: FeeStrategy>(
    amm: &mut CFMM<S>,
    orders: &Vec<RetailOrder>,
    price: Wad,
    timestamp: u64,
    tally: &mut PoolTally,
)
    requires
        old(amm).wf(),
    ensures
        final(amm).wf(),
        final(amm)@.follows(old(amm)@),
        old(amm)@.has_liquidity() ==> final(amm)@.has_liquidity(),
        pool_stepped(
            state_of(old(amm), *old(tally)),
            price.0 as int,
            orders@,
            state_of(final(amm), *final(tally)),
        ),
        final(tally).bid_fee_sum.0 == Wad::saturate(
            old(tally).bid_fee_sum.0 + final(amm)@.fees.bid_fee.0,
        ),
        final(tally).ask_fee_sum.0 == Wad::saturate(
            old(tally).ask_fee_sum.0 + final(amm)@.fees.ask_fee.0,
        ),
{
    let ghost start = amm@;
    let ghost before = state_of(amm, *tally);
    arbitrage_pool(amm, price, timestamp, tally);
    let ghost arbitraged = state_of(amm, *tally);
    let mut k: usize = 0;
    while k < orders.len()
        invariant
            k <= orders@.len(),
            amm.wf(),
            amm@.follows(start),
            start.has_liquidity() ==> amm@.has_liquidity(),
            tally.bid_fee_sum == before.tally.bid_fee_sum,
            tally.ask_fee_sum == before.tally.ask_fee_sum,
            retail_all(arbitraged, orders@, price.0 as int, k as int, state_of(amm, *tally)),
        decreases orders@.len() - k,
    {
        let ghost mid = state_of(amm, *tally);
        retail_on_pool(amm, &orders[k], price, timestamp, tally);
        proof {
            assert(retail_nth(mid, orders@, price.0 as int, k + 1, state_of(amm, *tally)));
        }
        k = k + 1;
    }
    let ghost served = state_of(amm, *tally);
    let fees = amm.fees();
    tally.bid_fee_sum = tally.bid_fee_sum.saturating_add(fees.bid_fee);
    tally.ask_fee_sum = tally.ask_fee_sum.saturating_add(fees.ask_fee);
    proof {
        assert(stepped_through(
            before,
            price.0 as int,
            orders@,
            arbitraged,
            served,
            state_of(amm, *tally),
        ));
    }
}

/// The running profit of a pool: its worth in Y, fees included, less the
/// worth it started from.
pub fn running_pnl<S: FeeStrategy>(amm: &CFMM<S>, price: Wad, initial_value: Wad) -> (p: SignedWad)
    ensures
        p.0 == pool_pnl(amm@, price.0 as int, initial_value.0 as int),
{
    SignedWad::difference(holdings_value(amm, price, Wad(WAD), true), initial_value)
}

/// Computes `mean_of`.
pub fn mean_fee(sum: Wad, steps: u32, current: Wad) -> (m: Wad)
    ensures
        m.0 == mean_of(sum, steps as int, current),
{
    if steps == 0 {
        current
    } else {
        Wad(sum.0 / (steps as u128))
    }
}

/// Records a step.
fn record_step<S: FeeStrategy>(
    timestamp: u32,
    price: Wad,
    submission: &CFMM<S>,
    baseline: &CFMM<S>,
    initial_value: Wad,
) -> (step: LightweightStepResult)
    ensures
        step_recorded(
            step,
            timestamp as int,
            price,
            submission@,
            baseline@,
            initial_value.0 as int,
        ),
{
    let mut spot_prices: Vec<Wad> = Vec::new();
    spot_prices.push(submission.spot_price());
    spot_prices.push(baseline.spot_price());
    let mut pnls: Vec<SignedWad> = Vec::new();
    pnls.push(running_pnl(submission, price, initial_value));
    pnls.push(running_pnl(baseline, price, initial_value));
    let mut fees: Vec<(Wad, Wad)> = Vec::new();
    let fees_submission = submission.fees();
    let fees_baseline = baseline.fees();
    fees.push((fees_submission.bid_fee, fees_submission.ask_fee));
    fees.push((fees_baseline.bid_fee, fees_baseline.ask_fee));
    proof {
        assert(spot_prices@ =~= seq![
            Wad(submission@.spot() as u128),
            Wad(baseline@.spot() as u128),
        ]);
        assert(pnls@ =~= seq![
            SignedWad(pool_pnl(submission@, price.0 as int, initial_value.0 as int) as i128),
            SignedWad(pool_pnl(baseline@, price.0 as int, initial_value.0 as int) as i128),
        ]);
        assert(fees@ =~= seq![
            (submission@.fees.bid_fee, submission@.fees.ask_fee),
            (baseline@.fees.bid_fee, baseline@.fees.ask_fee),
        ]);
    }
    LightweightStepResult { timestamp, fair_price: price, spot_prices, pnls, fees }
}

/// `result` is the result of a run of `config` over `market` that took the
/// submission's pool from `submission` and the baseline's from `baseline`,
/// and every fee it reports is clamped.
pub open spec fn ran_from(
    config: SimulationConfig,
    market: Seq<SingleStep>,
    submission: PoolView,
    baseline: PoolView,
    result: LightweightSimResult,
) -> bool {
    &&& exists|a: Seq<PoolState>, b: Seq<PoolState>|
        is_run_from(config, market, a, b, submission, baseline, result)
    &&& ran_as(config, market, result)
}

/// `result` is the result of the run along `a` and `b`, which start at the
/// pools `submission` and `baseline`.
pub open spec fn is_run_from(
    config: SimulationConfig,
    market: Seq<SingleStep>,
    a: Seq<PoolState>,
    b: Seq<PoolState>,
    submission: PoolView,
    baseline: PoolView,
    result: LightweightSimResult,
) -> bool {
    is_run(config, market, a, b, result) && a[0].pool == submission && b[0].pool == baseline
}

/// The two pools of a run before their strategies were asked anything: the
/// first owns `submission`, the second `baseline`, and both hold the
/// configured reserves on the pair (0, 1).
pub fn open_pools<S: FeeStrategy>(config: &SimulationConfig, submission: S, baseline: S) -> (pools: (
    CFMM<S>,
    CFMM<S>,
))
    ensures
        pools.0.owned_strategy() == submission,
        pools.1.owned_strategy() == baseline,
        pools.0.wf(),
        pools.1.wf(),
        pools.0@ == PoolView::fresh(pools.0@.name, config.initial_x, config.initial_y, 0, 1, 0),
        pools.1@ == PoolView::fresh(pools.1@.name, config.initial_x, config.initial_y, 0, 1, 0),
{
    (
        CFMM::new(submission, config.initial_x, config.initial_y),
        CFMM::new(baseline, config.initial_x, config.initial_y),
    )
}

/// Runs two initialized pools over `market`: the part of a run that no
/// strategy can fail. A strategy that fails on the way leaves its pool's
/// fees as they are.
///
/// The result is that of a run, as `is_run` describes it, from these two
/// pools: the strategies choose the fees, and everything else follows from
/// the configuration and the market path. Every fee it reports is clamped.
pub fn simulate<S: FeeStrategy>(
    config: &SimulationConfig,
    amm_submission: CFMM<S>,
    amm_baseline: CFMM<S>,
    market: &Vec<SingleStep>,
) -> (result: LightweightSimResult)
    requires
        single_fault(*config, market@) is None,
        amm_submission.wf(),
        amm_baseline.wf(),
        starts_as(*config, state_of(&amm_submission, PoolTally::zero())),
        starts_as(*config, state_of(&amm_baseline, PoolTally::zero())),
    ensures
        ran_from(*config, market@, amm_submission@, amm_baseline@, result),
{
    let seed: u64 = match config.seed {
        Some(s) => s,
        None => 0,
    };
    let initial_x = config.initial_x;
    let initial_y = config.initial_y;
    let initial_price = config.initial_price;
    let n_steps: u32 = config.n_steps;
    let ghost given_a = amm_submission@;
    let ghost given_b = amm_baseline@;
    let mut amm_submission = amm_submission;
    let mut amm_baseline = amm_baseline;
    let opening = initial_value(config);
    let mut price_process = GBMPriceProcess::new(initial_price);
    let retail_trader = RetailTrader::new(
        config.retail_arrival_rate,
        config.retail_mean_size,
        config.retail_size_sigma,
        config.retail_buy_prob,
    );
    let mut tally_submission = PoolTally::new();
    let mut tally_baseline = PoolTally::new();
    let mut steps: Vec<LightweightStepResult> = Vec::new();
    let ghost growth = growth_of(market@);
    let ghost draws = draws_of(market@);
    let ghost mut path_a: Seq<PoolState> = seq![state_of(&amm_submission, tally_submission)];
    let ghost mut path_b: Seq<PoolState> = seq![state_of(&amm_baseline, tally_baseline)];
    let mut t: u32 = 0;
    while t < n_steps
        invariant
            t <= n_steps,
            n_steps == config.n_steps,
            market@.len() == n_steps,
            initial_price == config.initial_price,
            opening.0 == starting_worth(*config),
            growth == growth_of(market@),
            draws == draws_of(market@),
            amm_submission.wf(),
            amm_baseline.wf(),
            tally_submission.bid_fee_sum.0 <= t * MAX_FEE,
            tally_submission.ask_fee_sum.0 <= t * MAX_FEE,
            tally_baseline.bid_fee_sum.0 <= t * MAX_FEE,
            tally_baseline.ask_fee_sum.0 <= t * MAX_FEE,
            price_process.price == price_after(initial_price, growth, t as int),
            path_a.len() == t + 1,
            path_b.len() == t + 1,
            starts_as(*config, path_a[0]),
            starts_as(*config, path_b[0]),
            path_a[0].pool == given_a,
            path_b[0].pool == given_b,
            path_a[t as int] == state_of(&amm_submission, tally_submission),
            path_b[t as int] == state_of(&amm_baseline, tally_baseline),
            forall|s: int|
                0 <= s < t ==> #[trigger] path_step(path_a, initial_price, growth, draws, s),
            forall|s: int|
                0 <= s < t ==> #[trigger] path_step(path_b, initial_price, growth, draws, s),
            steps@.len() == t,
            forall|s: int|
                0 <= s < t ==> step_recorded(
                    #[trigger] steps@[s],
                    s,
                    price_after(initial_price, growth, s + 1),
                    path_a[s + 1].pool,
                    path_b[s + 1].pool,
                    starting_worth(*config),
                ),
            forall|s: int, i: int|
                0 <= s < t && 0 <= i < 2 ==> (#[trigger] steps@[s].fees@[i]).0.is_fee()
                    && steps@[s].fees@[i].1.is_fee(),
        decreases n_steps - t,
    {
        let step = &market[t as usize];
        let price = price_process.step(step.growth);
        let orders = retail_trader.generate_orders(&step.draws);
        let ghost old_a = path_a;
        let ghost old_b = path_b;
        let ghost old_steps = steps@;
        step_pool(&mut amm_submission, &orders, price, t as u64, &mut tally_submission);
        step_pool(&mut amm_baseline, &orders, price, t as u64, &mut tally_baseline);
        let record = record_step(t, price, &amm_submission, &amm_baseline, opening);
        steps.push(record);
        proof {
            path_a = path_a.push(state_of(&amm_submission, tally_submission));
            path_b = path_b.push(state_of(&amm_baseline, tally_baseline));
            assert(growth[t as int] == step.growth);
            assert(orders@ =~= orders_of(draws[t as int]));
            assert(price == price_after(initial_price, growth, t + 1));
            assert forall|s: int| 0 <= s < t + 1 implies #[trigger] path_step(
                path_a,
                initial_price,
                growth,
                draws,
                s,
            ) by {
                if s < t {
                    assert(path_step(old_a, initial_price, growth, draws, s));
                    assert(path_a[s] == old_a[s] && path_a[s + 1] == old_a[s + 1]);
                }
            }
            assert forall|s: int| 0 <= s < t + 1 implies #[trigger] path_step(
                path_b,
                initial_price,
                growth,
                draws,
                s,
            ) by {
                if s < t {
                    assert(path_step(old_b, initial_price, growth, draws, s));
                    assert(path_b[s] == old_b[s] && path_b[s + 1] == old_b[s + 1]);
                }
            }
            assert forall|s: int| 0 <= s < t + 1 implies step_recorded(
                #[trigger] steps@[s],
                s,
                price_after(initial_price, growth, s + 1),
                path_a[s + 1].pool,
                path_b[s + 1].pool,
                starting_worth(*config),
            ) by {
                if s < t {
                    assert(steps@[s] == old_steps[s]);
                    assert(path_a[s + 1] == old_a[s + 1] && path_b[s + 1] == old_b[s + 1]);
                }
            }
            assert forall|s: int, i: int| 0 <= s < t + 1 && 0 <= i < 2 implies (
            #[trigger] steps@[s].fees@[i]).0.is_fee() && steps@[s].fees@[i].1.is_fee() by {
                if s < t {
                    assert(steps@[s] == old_steps[s]);
                }
            }
        }
        t = t + 1;
    }
    let price = price_process.current_price();
    let mut strategies: Vec<String> = Vec::new();
    strategies.push(amm_submission.name());
    strategies.push(amm_baseline.name());
    let mut pnl: Vec<SignedWad> = Vec::new();
    pnl.push(running_pnl(&amm_submission, price, opening));
    pnl.push(running_pnl(&amm_baseline, price, opening));
    let mut edges: Vec<SignedWad> = Vec::new();
    edges.push(tally_submission.edge);
    edges.push(tally_baseline.edge);
    let mut initial_reserves: Vec<(Wad, Wad)> = Vec::new();
    initial_reserves.push((initial_x, initial_y));
    initial_reserves.push((initial_x, initial_y));
    let mut arb_volume_y: Vec<Wad> = Vec::new();
    arb_volume_y.push(tally_submission.arb_volume_y);
    arb_volume_y.push(tally_baseline.arb_volume_y);
    let mut retail_volume_y: Vec<Wad> = Vec::new();
    retail_volume_y.push(tally_submission.retail_volume_y);
    retail_volume_y.push(tally_baseline.retail_volume_y);
    let fees_submission = amm_submission.fees();
    let fees_baseline = amm_baseline.fees();
    let mut average_fees: Vec<(Wad, Wad)> = Vec::new();
    proof {
        lemma_mean_within(tally_submission.bid_fee_sum.0 as int, n_steps as int);
        lemma_mean_within(tally_submission.ask_fee_sum.0 as int, n_steps as int);
        lemma_mean_within(tally_baseline.bid_fee_sum.0 as int, n_steps as int);
        lemma_mean_within(tally_baseline.ask_fee_sum.0 as int, n_steps as int);
    }
    average_fees.push(
        (
            mean_fee(tally_submission.bid_fee_sum, n_steps, fees_submission.bid_fee),
            mean_fee(tally_submission.ask_fee_sum, n_steps, fees_submission.ask_fee),
        ),
    );
    average_fees.push(
        (
            mean_fee(tally_baseline.bid_fee_sum, n_steps, fees_baseline.bid_fee),
            mean_fee(tally_baseline.ask_fee_sum, n_steps, fees_baseline.ask_fee),
        ),
    );
    let result = LightweightSimResult {
        seed,
        strategies,
        pnl,
        edges,
        initial_fair_price: initial_price,
        initial_reserves,
        steps,
        arb_volume_y,
        retail_volume_y,
        average_fees,
    };
    proof {
        assert(is_path(path_a, initial_price, growth, draws));
        assert(is_path(path_b, initial_price, growth, draws));
        assert(is_run(*config, market@, path_a, path_b, result));
        assert(exists|a: Seq<PoolState>, b: Seq<PoolState>|
            is_run(*config, market@, a, b, result));
        assert forall|i: int| 0 <= i < 2 implies (#[trigger] result.average_fees@[i]).0.is_fee()
            && result.average_fees@[i].1.is_fee() by {}
        assert forall|s: int, i: int| 0 <= s < result.steps@.len() && 0 <= i < 2 implies (
        #[trigger] result.steps@[s].fees@[i]).0.is_fee() && result.steps@[s].fees@[i].1.is_fee() by {}
        assert(ran_as(*config, market@, result));
    }
    proof {
        assert(is_run_from(*config, market@, path_a, path_b, given_a, given_b, result));
    }
    result
}

/// Main simulation engine for the single pair.
pub struct SimulationEngine {
    config: SimulationConfig,
}

impl View for SimulationEngine {
    type V = SimulationConfig;

    closed spec fn view(&self) -> SimulationConfig {
        self.config
    }
}

impl SimulationEngine {
    pub fn new(config: SimulationConfig) -> (e: Self)
        ensures
            e@ == config,
    {
        SimulationEngine { config }
    }

    /// Computes `single_fault`.
    pub fn check(&self, market: &Vec<SingleStep>) -> (f: Option<ConfigFault>)
        ensures
            f == single_fault(self@, market@),
    {
        if self.config.initial_x.0 == 0 || self.config.initial_y.0 == 0 {
            return Some(ConfigFault::EmptyReserves);
        }
        if market.len() != self.config.n_steps as usize {
            return Some(ConfigFault::MarketLength);
        }
        None
    }

    /// Runs the simulation over `market`, one market step per simulation
    /// step, with a pool for each of the two strategies.
    ///
    /// A fault of the configuration or of the market path is reported
    /// before a strategy is asked anything. Then the pools are opened as by
    /// `open_pools` and each strategy is asked for its starting fees, the
    /// submission first; a failure there ends the run with the strategy's
    /// message. After that the run cannot fail: the two pools are run as by
    /// `simulate`, and the result is what `simulate` gives.
    ///
    /// The result is that of a run as `is_run` describes it: the strategies
    /// choose the fees, and everything else follows from the configuration
    /// and the market path. Every fee it reports is clamped.
    pub fn run<S: FeeStrategy>(&mut self, submission: S, baseline: S, market: &Vec<SingleStep>) -> (r:
        Result<LightweightSimResult, SimulationError>)
        ensures
            final(self)@ == old(self)@,
            single_fault(old(self)@, market@) matches Some(fault) ==> r matches Err(
                SimulationError::InvalidConfig(reported),
            ) && reported == fault,
            match r {
                Ok(result) => single_fault(old(self)@, market@) is None && ran_as(
                    old(self)@,
                    market@,
                    result,
                ),
                Err(SimulationError::InvalidConfig(fault)) => single_fault(old(self)@, market@)
                    == Some(fault),
                Err(SimulationError::EVMError(_)) => single_fault(old(self)@, market@) is None,
            },
    {
        if let Some(fault) = self.check(market) {
            return Err(SimulationError::InvalidConfig(fault));
        }
        let (mut amm_submission, mut amm_baseline) = open_pools(&self.config, submission, baseline);
        match amm_submission.initialize() {
            Ok(()) => {},
            Err(e) => { return Err(SimulationError::EVMError(e.message)); },
        }
        match amm_baseline.initialize() {
            Ok(()) => {},
            Err(e) => { return Err(SimulationError::EVMError(e.message)); },
        }
        Ok(simulate(&self.config, amm_submission, amm_baseline, market))
    }
}

/// The mean of a sum of `steps` clamped fees is a clamped fee.
proof fn lemma_mean_within(sum: int, steps: int)
    requires
        0 <= sum <= steps * MAX_FEE,
        0 <= steps,
    ensures
        steps > 0 ==> sum / steps <= MAX_FEE,
{
    if steps > 0 {
        vstd::arithmetic::div_mod::lemma_multiply_divide_le(sum, steps, MAX_FEE as int);
    }
}

} // verus!
