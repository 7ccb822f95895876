//! The single-pair run as a relation between states.
//!
//! A strategy may answer anything, so a run is not a function of its
//! configuration and its market path. What the strategy does not decide is
//! pinned here: given the state before, each arbitrage and each retail
//! order leaves reserves, accumulators and a tally that are determined, and
//! fees that are clamped.

use crate::amm::cfmm::{FeeQuote, PoolView};
use crate::market::arbitrageur::ArbResult;
use crate::market::band::{arb_record, arbitraged, planned};
use crate::market::price_process::price_after;
use crate::market::retail::{order_of, RetailOrder, RetailSide};
use crate::market::router::order_amount;
use crate::simulation::ledger::{arb_edge_of, edge_of, holdings_worth};
use crate::simulation::model_v2::traded;
use crate::types::wad::{SignedWad, Wad, WAD};
use vstd::prelude::*;

verus! {

/// What one pool has earned and traded so far.
#[derive(Debug, Clone, Copy, PartialEq, Eq, Structural)]
pub struct PoolTally {
    /// Sum of the pool's edges, saturated.
    pub edge: SignedWad,
    /// Y that changed hands in arbitrage, saturated.
    pub arb_volume_y: Wad,
    /// Y that changed hands in retail trades, saturated.
    pub retail_volume_y: Wad,
    /// Sum over the steps so far of the bid fee at the end of the step,
    /// saturated.
    pub bid_fee_sum: Wad,
    /// Sum over the steps so far of the ask fee at the end of the step,
    /// saturated.
    pub ask_fee_sum: Wad,
}

/// Whether `order` trades on the pool `v` at `price`: a buy pays the
/// order's size in Y for X, a sell offers X worth the order's size at the
/// price, and either trades where its quote is not zero.
pub open spec fn retail_trades(v: PoolView, order: RetailOrder, price: int) -> bool {
    match order.side {
        RetailSide::Buy => v.x_for_y_quote(order.size.0 as int).0 > 0,
        RetailSide::Sell => v.buy_x_quote(order_amount(order.size.0 as int, price)).0 > 0,
    }
}

/// Reserves and accumulators of the pool `v` after `order` met it at `price`.
pub open spec fn retail_traded(v: PoolView, order: RetailOrder, price: int) -> PoolView {
    if !retail_trades(v, order, price) {
        v
    } else {
        match order.side {
            RetailSide::Buy => v.after_x_for_y(order.size.0 as int),
            RetailSide::Sell => v.after_buy_x(order_amount(order.size.0 as int, price)),
        }
    }
}

impl PoolTally {
    /// Nothing earned, nothing traded.
    pub open spec fn zero() -> PoolTally {
        PoolTally {
            edge: SignedWad(0),
            arb_volume_y: Wad(0),
            retail_volume_y: Wad(0),
            bid_fee_sum: Wad(0),
            ask_fee_sum: Wad(0),
        }
    }

    /// The tally after an arbitrage at `price` that moved `record`, if any:
    /// its edge and its Y are added.
    pub open spec fn after_arb(self, record: Option<ArbResult>, price: int) -> PoolTally {
        match record {
            Some(r) => PoolTally {
                edge: SignedWad(
                    SignedWad::saturate(self.edge.0 + arb_edge_of(r, price, WAD as int)) as i128,
                ),
                arb_volume_y: Wad(Wad::saturate(self.arb_volume_y.0 + r.amount_y.0) as u128),
                ..self
            },
            None => self,
        }
    }

    /// The tally after `order` met the pool `v` at `price`: where the order
    /// traded, its edge and the Y that changed hands are added.
    pub open spec fn after_retail(self, v: PoolView, order: RetailOrder, price: int) -> PoolTally {
        if !retail_trades(v, order, price) {
            self
        } else {
            match order.side {
                RetailSide::Buy => {
                    let q = v.x_for_y_quote(order.size.0 as int);
                    PoolTally {
                        edge: SignedWad(
                            SignedWad::saturate(
                                self.edge.0 + edge_of(order.size.0 as int, WAD as int, q.0, price),
                            ) as i128,
                        ),
                        retail_volume_y: Wad(
                            Wad::saturate(self.retail_volume_y.0 + order.size.0) as u128,
                        ),
                        ..self
                    }
                },
                RetailSide::Sell => {
                    let amount = order_amount(order.size.0 as int, price);
                    let q = v.buy_x_quote(amount);
                    PoolTally {
                        edge: SignedWad(
                            SignedWad::saturate(
                                self.edge.0 + edge_of(amount, price, q.0, WAD as int),
                            ) as i128,
                        ),
                        retail_volume_y: Wad(Wad::saturate(self.retail_volume_y.0 + q.0) as u128),
                        ..self
                    }
                },
            }
        }
    }

    /// The tally at the end of a step that leaves the pool with `fees`.
    pub open spec fn after_fees(self, fees: FeeQuote) -> PoolTally {
        PoolTally {
            bid_fee_sum: Wad(Wad::saturate(self.bid_fee_sum.0 + fees.bid_fee.0) as u128),
            ask_fee_sum: Wad(Wad::saturate(self.ask_fee_sum.0 + fees.ask_fee.0) as u128),
            ..self
        }
    }
}

/// One pool of a run and its tally.
pub struct PoolState {
    pub pool: PoolView,
    pub tally: PoolTally,
}

/// `after` is `before` once the pool was arbitraged against `price`:
/// traded as planned, or left as it was where nothing is planned.
pub open spec fn arb_step(before: PoolState, price: int, after: PoolState) -> bool {
    &&& if planned(before.pool, price) is Some {
        traded(before.pool, arbitraged(before.pool, price), after.pool)
    } else {
        after.pool == before.pool
    }
    &&& after.tally == before.tally.after_arb(arb_record(before.pool, price), price)
}

/// `after` is `before` once `order` met the pool at `price`.
pub open spec fn retail_step(before: PoolState, order: RetailOrder, price: int, after: PoolState) -> bool {
    &&& if retail_trades(before.pool, order, price) {
        traded(before.pool, retail_traded(before.pool, order, price), after.pool)
    } else {
        after.pool == before.pool
    }
    &&& after.tally == before.tally.after_retail(before.pool, order, price)
}

/// `after` is `mid` once order `n` of `orders`, counting from one, met the pool.
pub open spec fn retail_nth(
    mid: PoolState,
    orders: Seq<RetailOrder>,
    price: int,
    n: int,
    after: PoolState,
) -> bool {
    retail_step(mid, orders[n - 1], price, after)
}

/// `after` is `before` once the first `n` of `orders` met the pool in turn.
pub open spec fn retail_all(
    before: PoolState,
    orders: Seq<RetailOrder>,
    price: int,
    n: int,
    after: PoolState,
) -> bool
    decreases n,
{
    if n <= 0 {
        after == before
    } else {
        exists|mid: PoolState|
            #[trigger] retail_nth(mid, orders, price, n, after) && retail_all(
                before,
                orders,
                price,
                n - 1,
                mid,
            )
    }
}

/// The states of one step: `arbitraged` after arbitrage, `served` after the
/// retail orders, `after` with the fees of the step booked.
pub open spec fn stepped_through(
    before: PoolState,
    price: int,
    orders: Seq<RetailOrder>,
    arbitraged: PoolState,
    served: PoolState,
    after: PoolState,
) -> bool {
    &&& arb_step(before, price, arbitraged)
    &&& retail_all(arbitraged, orders, price, orders.len() as int, served)
    &&& after.pool == served.pool
    &&& after.tally == served.tally.after_fees(served.pool.fees)
}

/// `after` is `before` after one step at `price`: the pool arbitraged,
/// then every order executed on it, then the fees in force booked.
pub open spec fn pool_stepped(
    before: PoolState,
    price: int,
    orders: Seq<RetailOrder>,
    after: PoolState,
) -> bool {
    exists|arbitraged: PoolState, served: PoolState|
        stepped_through(before, price, orders, arbitraged, served, after)
}

/// The orders that a list of draws stands for.
pub open spec fn orders_of(draws: Seq<(bool, Wad)>) -> Seq<RetailOrder> {
    Seq::new(draws.len(), |i: int| order_of(draws[i]))
}

/// Step `t` of `path`, counting from zero, is a step of the market path:
/// made at the price after `t + 1` growth factors, with the orders of the
/// step's draws.
pub open spec fn path_step(
    path: Seq<PoolState>,
    initial_price: Wad,
    growth: Seq<Wad>,
    draws: Seq<Seq<(bool, Wad)>>,
    t: int,
) -> bool {
    pool_stepped(
        path[t],
        price_after(initial_price, growth, t + 1).0 as int,
        orders_of(draws[t]),
        path[t + 1],
    )
}

/// `path` holds the states of one pool along a market path: the state it
/// starts from, and the state after each step.
pub open spec fn is_path(
    path: Seq<PoolState>,
    initial_price: Wad,
    growth: Seq<Wad>,
    draws: Seq<Seq<(bool, Wad)>>,
) -> bool {
    &&& path.len() == growth.len() + 1
    &&& forall|t: int|
        0 <= t < growth.len() ==> #[trigger] path_step(path, initial_price, growth, draws, t)
}

/// The worth in Y of what a pool holds, fees included, with X at `price`.
pub open spec fn marked_worth(v: PoolView, price: int) -> int {
    holdings_worth(v, price, WAD as int, true)
}

/// The profit of a pool: its worth in Y, fees included, less the worth it
/// started from.
pub open spec fn pool_pnl(v: PoolView, price: int, initial_value: int) -> int {
    SignedWad::saturate(marked_worth(v, price) - initial_value)
}

/// The mean of a fee sum over `steps` steps; the fee in force where no step
/// was made.
pub open spec fn mean_of(sum: Wad, steps: int, current: Wad) -> int {
    if steps == 0 {
        current.0 as int
    } else {
        (sum.0 as int) / steps
    }
}

} // verus!
