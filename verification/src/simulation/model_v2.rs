//! The multi-asset run as a relation between states.
//!
//! A strategy may answer anything, so a run is not a function of its
//! configuration and its market path. What the strategies do not decide is
//! pinned here: given the state before, each arbitrage and each routed order
//! leaves reserves, accumulators and edges that are determined, and fees
//! that are clamped.

use crate::amm::cfmm::PoolView;
use crate::market::arbitrageur::ArbSide;
use crate::market::band::{
    arb_record, arbitraged, is_buy_plan, is_sell_plan, lemma_buy_plan_settles,
    lemma_sell_plan_settles, planned,
};
use crate::market::price_process_v2::stepped;
use crate::market::retail_v2::{RetailDraw, RetailOrderV2};
use crate::market::router::{best_among, order_amount, quoted_out};
use crate::simulation::ledger::{arb_edge_of, edge_of, holdings_worth, Ledger};
use crate::types::wad::{SignedWad, Wad, WAD};
use vstd::prelude::*;

verus! {

/// The pools of a run, in construction order, and the edges booked so far.
pub struct World {
    pub pools: Seq<PoolView>,
    pub edges: Ledger,
}

/// `after` is the pool `before` after a trade that left it with the
/// reserves and accumulators of `holdings`: the strategy may have set new
/// fees, nothing else is open.
pub open spec fn traded(before: PoolView, holdings: PoolView, after: PoolView) -> bool {
    after.same_holdings(holdings) && after.refreshed_from(before)
}

/// The prices a process starts from: the initial prices with the numeraire at one.
pub open spec fn starting_prices(initial: Seq<Wad>, numeraire: usize) -> Seq<Wad> {
    if numeraire < initial.len() {
        initial.update(numeraire as int, Wad(WAD))
    } else {
        initial
    }
}

/// The fair prices after the first `n` steps, each step moving every price
/// by the step's growth factor.
pub open spec fn prices_along(
    initial: Seq<Wad>,
    numeraire: usize,
    growth: Seq<Seq<Wad>>,
    n: int,
) -> Seq<Wad>
    decreases n,
{
    if n <= 0 {
        starting_prices(initial, numeraire)
    } else {
        stepped(prices_along(initial, numeraire, growth, n - 1), numeraire, growth[n - 1])
    }
}

/// The orders that a list of draws stands for.
pub open spec fn orders_of(draws: Seq<RetailDraw>) -> Seq<RetailOrderV2> {
    Seq::new(draws.len(), |i: int| draws[i].order())
}

/// The fair cross-rate of a pool, `price(token_b) / price(token_a)` rounded
/// down; none where it exceeds every raw value.
pub open spec fn cross_rate(prices: Seq<Wad>, v: PoolView) -> Option<int> {
    let rate = (prices[v.token_b as int].0 * WAD) / (prices[v.token_a as int].0 as int);
    if rate <= u128::MAX {
        Some(rate)
    } else {
        None
    }
}

/// Reserves and accumulators of a pool after its arbitrage of one step.
pub open spec fn pool_arbitraged(v: PoolView, prices: Seq<Wad>) -> PoolView {
    match cross_rate(prices, v) {
        Some(rate) => arbitraged(v, rate),
        None => v,
    }
}

/// `after` is the pool `before` after its arbitrage of one step: traded as
/// planned, or left as it was where nothing is planned.
pub open spec fn pool_arbitrage_step(before: PoolView, prices: Seq<Wad>, after: PoolView) -> bool {
    match cross_rate(prices, before) {
        Some(rate) => if planned(before, rate) is Some {
            traded(before, arbitraged(before, rate), after)
        } else {
            after == before
        },
        None => after == before,
    }
}

/// The ledger after the arbitrage of the first `n` pools: each pool that
/// traded has its edge credited to its strategy. The submission owns the
/// pools at even positions.
pub open spec fn arbitrage_edges(pools: Seq<PoolView>, prices: Seq<Wad>, start: Ledger, n: int) -> Ledger
    decreases n,
{
    if n <= 0 {
        start
    } else {
        let before = arbitrage_edges(pools, prices, start, n - 1);
        let v = pools[n - 1];
        match cross_rate(prices, v) {
            Some(rate) => match arb_record(v, rate) {
                Some(record) => before.credited(
                    (n - 1) % 2 == 0,
                    SignedWad(
                        arb_edge_of(
                            record,
                            prices[v.token_a as int].0 as int,
                            prices[v.token_b as int].0 as int,
                        ) as i128,
                    ),
                ),
                None => before,
            },
            None => before,
        }
    }
}

/// `after` is `before` once every pool was arbitraged against its fair
/// cross-rate at `prices`.
pub open spec fn arbitraged_all(before: World, prices: Seq<Wad>, after: World) -> bool {
    &&& after.pools.len() == before.pools.len()
    &&& forall|i: int|
        0 <= i < after.pools.len() ==> pool_arbitrage_step(
            before.pools[i],
            prices,
            #[trigger] after.pools[i],
        )
    &&& after.edges == arbitrage_edges(before.pools, prices, before.edges, before.pools.len() as int)
}

/// What an order pays, in units of its token, at `prices`.
pub open spec fn paid_for(order: RetailOrderV2, prices: Seq<Wad>) -> int {
    order_amount(order.size_numeraire.0 as int, prices[order.token_in as int].0 as int)
}

/// `after` is `before` once `order` was executed on pool `best`: that pool
/// traded, the others are as they were, and the pool's edge is credited to
/// its strategy.
pub open spec fn routed_to(
    before: World,
    order: RetailOrderV2,
    prices: Seq<Wad>,
    best: int,
    after: World,
) -> bool {
    let paid = paid_for(order, prices);
    let pool = before.pools[best];
    &&& after.pools.len() == before.pools.len()
    &&& traded(
        pool,
        pool.after_exact_in(order.token_in, order.token_out, paid),
        after.pools[best],
    )
    &&& forall|i: int|
        0 <= i < after.pools.len() && i != best ==> #[trigger] after.pools[i] == before.pools[i]
    &&& after.edges == before.edges.credited(
        best % 2 == 0,
        SignedWad(
            edge_of(
                paid,
                prices[order.token_in as int].0 as int,
                quoted_out(pool, order.token_in, order.token_out, paid),
                prices[order.token_out as int].0 as int,
            ) as i128,
        ),
    )
}

/// `after` is `before` once `order` was routed at `prices`: executed on the
/// best pool, or dropped, with nothing changed, where no pool pays for it.
pub open spec fn routed(before: World, order: RetailOrderV2, prices: Seq<Wad>, after: World) -> bool {
    let paid = paid_for(order, prices);
    &&& forall|best: int|
        best_among(before.pools, order.token_in, order.token_out, paid, best) ==> routed_to(
            before,
            order,
            prices,
            best,
            after,
        )
    &&& (forall|best: int|
        !best_among(before.pools, order.token_in, order.token_out, paid, best)) ==> after.pools
        =~= before.pools && after.edges == before.edges
}

/// `after` is `mid` once order `n` of `orders`, counting from one, was routed.
pub open spec fn routed_nth(
    mid: World,
    orders: Seq<RetailOrderV2>,
    prices: Seq<Wad>,
    n: int,
    after: World,
) -> bool {
    routed(mid, orders[n - 1], prices, after)
}

/// `after` is `before` once the first `n` of `orders` were routed in turn.
pub open spec fn routed_all(
    before: World,
    orders: Seq<RetailOrderV2>,
    prices: Seq<Wad>,
    n: int,
    after: World,
) -> bool
    decreases n,
{
    if n <= 0 {
        after.pools =~= before.pools && after.edges == before.edges
    } else {
        exists|mid: World|
            #[trigger] routed_nth(mid, orders, prices, n, after) && routed_all(
                before,
                orders,
                prices,
                n - 1,
                mid,
            )
    }
}

/// `mid` is the state of one step between arbitrage and retail flow.
pub open spec fn stepped_via(
    before: World,
    prices: Seq<Wad>,
    orders: Seq<RetailOrderV2>,
    mid: World,
    after: World,
) -> bool {
    arbitraged_all(before, prices, mid) && routed_all(mid, orders, prices, orders.len() as int, after)
}

/// `after` is `before` after one step at `prices`: every pool arbitraged,
/// then every order routed.
pub open spec fn world_stepped(
    before: World,
    prices: Seq<Wad>,
    orders: Seq<RetailOrderV2>,
    after: World,
) -> bool {
    exists|mid: World| stepped_via(before, prices, orders, mid, after)
}

/// `end` is `mid` after step `n` of a market path, counting from one: the
/// step is made at the prices after `n` steps, with the orders of the
/// step's draws.
pub open spec fn ran_nth(
    mid: World,
    initial: Seq<Wad>,
    numeraire: usize,
    growth: Seq<Seq<Wad>>,
    draws: Seq<Seq<RetailDraw>>,
    n: int,
    end: World,
) -> bool {
    world_stepped(mid, prices_along(initial, numeraire, growth, n), orders_of(draws[n - 1]), end)
}

/// `end` is a state that the first `n` steps of a market path can lead to
/// from `start`.
pub open spec fn ran(
    start: World,
    initial: Seq<Wad>,
    numeraire: usize,
    growth: Seq<Seq<Wad>>,
    draws: Seq<Seq<RetailDraw>>,
    n: int,
    end: World,
) -> bool
    decreases n,
{
    if n <= 0 {
        end.pools =~= start.pools && end.edges == start.edges
    } else {
        exists|mid: World|
            #[trigger] ran_nth(mid, initial, numeraire, growth, draws, n, end) && ran(
                start,
                initial,
                numeraire,
                growth,
                draws,
                n - 1,
                mid,
            )
    }
}

/// The worth of what the first `n` pools of one strategy hold at `prices`,
/// each partial sum saturated. The submission owns the pools at even
/// positions.
pub open spec fn strategy_worth(
    pools: Seq<PoolView>,
    prices: Seq<Wad>,
    submission: bool,
    with_fees: bool,
    n: int,
) -> int
    decreases n,
{
    if n <= 0 {
        0
    } else {
        let rest = strategy_worth(pools, prices, submission, with_fees, n - 1);
        if ((n - 1) % 2 == 0) == submission {
            Wad::saturate(
                rest + holdings_worth(
                    pools[n - 1],
                    prices[pools[n - 1].token_a as int].0 as int,
                    prices[pools[n - 1].token_b as int].0 as int,
                    with_fees,
                ),
            )
        } else {
            rest
        }
    }
}

/// A strategy's profit: the worth of its pools at the end, fees included,
/// at the final prices, less the worth of their reserves at the start, at
/// the starting prices.
pub open spec fn profit(
    start: Seq<PoolView>,
    starting: Seq<Wad>,
    end: Seq<PoolView>,
    closing: Seq<Wad>,
    submission: bool,
) -> int {
    SignedWad::saturate(
        strategy_worth(end, closing, submission, true, end.len() as int) - strategy_worth(
            start,
            starting,
            submission,
            false,
            start.len() as int,
        ),
    )
}

/// Two worlds hold the same: pool by pool the same reserves and
/// accumulators, and the same edges.
pub open spec fn same_books(a: World, b: World) -> bool {
    &&& a.pools.len() == b.pools.len()
    &&& forall|i: int| 0 <= i < a.pools.len() ==> (#[trigger] a.pools[i]).same_holdings(b.pools[i])
    &&& a.edges == b.edges
}

/// Arbitrage is determined: from one state and one set of prices, whatever
/// the strategies answer, the arbitrage of all pools leaves the same
/// reserves, accumulators and edges.
pub proof fn lemma_arbitrage_determined(before: World, prices: Seq<Wad>, first: World, second: World)
    requires
        arbitraged_all(before, prices, first),
        arbitraged_all(before, prices, second),
    ensures
        same_books(first, second),
{
    assert forall|i: int| 0 <= i < first.pools.len() implies (#[trigger] first.pools[i]).same_holdings(
        second.pools[i],
    ) by {
        assert(pool_arbitrage_step(before.pools[i], prices, first.pools[i]));
        assert(pool_arbitrage_step(before.pools[i], prices, second.pools[i]));
    }
}

/// Routing is determined: from one state and one set of prices, whatever
/// the strategies answer, an order leaves the same reserves, accumulators
/// and edges.
pub proof fn lemma_routing_determined(
    before: World,
    order: RetailOrderV2,
    prices: Seq<Wad>,
    first: World,
    second: World,
)
    requires
        routed(before, order, prices, first),
        routed(before, order, prices, second),
    ensures
        same_books(first, second),
{
    let paid = paid_for(order, prices);
    if exists|best: int| best_among(before.pools, order.token_in, order.token_out, paid, best) {
        let best = choose|best: int|
            best_among(before.pools, order.token_in, order.token_out, paid, best);
        assert(routed_to(before, order, prices, best, first));
        assert(routed_to(before, order, prices, best, second));
        assert forall|i: int| 0 <= i < first.pools.len() implies (
        #[trigger] first.pools[i]).same_holdings(second.pools[i]) by {
            if i != best {
                assert(first.pools[i] == before.pools[i]);
                assert(second.pools[i] == before.pools[i]);
            }
        }
    } else {
        assert(first.pools =~= before.pools);
        assert(second.pools =~= before.pools);
    }
}

/// A pool that was arbitraged against a rate, and whose fees are what they
/// were, has nothing planned against the same rate.
pub proof fn lemma_arbitraged_pool_rests(before: PoolView, prices: Seq<Wad>, after: PoolView)
    requires
        pool_arbitrage_step(before, prices, after),
        after.fees == before.fees,
    ensures
        cross_rate(prices, after) == cross_rate(prices, before),
        cross_rate(prices, after) matches Some(rate) ==> planned(after, rate) is None,
{
    match cross_rate(prices, before) {
        Some(rate) => {
            match planned(before, rate) {
                Some((ArbSide::Buy, amount)) => {
                    assert(is_buy_plan(before, rate, amount));
                    lemma_buy_plan_settles(before, rate, amount);
                    assert(after == before.after_buy_x(amount));
                },
                Some((ArbSide::Sell, amount)) => {
                    assert(is_sell_plan(before, rate, amount));
                    lemma_sell_plan_settles(before, rate, amount);
                    assert(after == before.after_sell_x(amount));
                },
                None => {
                    assert(after == before);
                },
            }
        },
        None => {},
    }
}

/// Where no pool has anything planned, arbitrage books no edge.
pub proof fn lemma_resting_pools_book_nothing(
    pools: Seq<PoolView>,
    prices: Seq<Wad>,
    start: Ledger,
    n: int,
)
    requires
        0 <= n <= pools.len(),
        forall|i: int|
            0 <= i < n ==> (cross_rate(prices, #[trigger] pools[i]) matches Some(rate) ==> planned(
                pools[i],
                rate,
            ) is None),
    ensures
        arbitrage_edges(pools, prices, start, n) == start,
    decreases n,
{
    if n > 0 {
        lemma_resting_pools_book_nothing(pools, prices, start, n - 1);
        assert(cross_rate(prices, pools[n - 1]) matches Some(rate) ==> planned(pools[n - 1], rate)
            is None);
    }
}

/// Arbitrage is idempotent along a run: after a step without retail
/// orders that left every pool's fees as they were, a second such step at
/// the same prices changes no pool and books no edge.
pub proof fn lemma_second_step_trades_nothing(
    before: World,
    prices: Seq<Wad>,
    after: World,
    again: World,
)
    requires
        world_stepped(before, prices, Seq::<RetailOrderV2>::empty(), after),
        world_stepped(after, prices, Seq::<RetailOrderV2>::empty(), again),
        forall|i: int|
            0 <= i < before.pools.len() ==> (#[trigger] after.pools[i]).fees
                == before.pools[i].fees,
    ensures
        again.pools =~= after.pools,
        again.edges == after.edges,
{
    let none = Seq::<RetailOrderV2>::empty();
    let first = choose|mid: World| stepped_via(before, prices, none, mid, after);
    let second = choose|mid: World| stepped_via(after, prices, none, mid, again);
    assert(after.pools =~= first.pools);
    assert(again.pools =~= second.pools);
    assert forall|i: int| 0 <= i < after.pools.len() implies (cross_rate(
        prices,
        #[trigger] after.pools[i],
    ) matches Some(rate) ==> planned(after.pools[i], rate) is None) by {
        assert(pool_arbitrage_step(before.pools[i], prices, first.pools[i]));
        lemma_arbitraged_pool_rests(before.pools[i], prices, after.pools[i]);
    }
    lemma_resting_pools_book_nothing(after.pools, prices, after.edges, after.pools.len() as int);
    assert forall|i: int| 0 <= i < again.pools.len() implies again.pools[i] == after.pools[i] by {
        assert(pool_arbitrage_step(after.pools[i], prices, second.pools[i]));
    }
}

} // verus!
