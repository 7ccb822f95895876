//! Routing of exact-input orders to the best direct pool.

use crate::amm::cfmm::{pool_views, pools_follow, PoolView, CFMM};
use crate::market::retail_v2::RetailOrderV2;
use crate::amm::strategy::FeeStrategy;
use crate::market::price_process_v2::MIN_PRICE;
use crate::math::wide::mul_div_floor;
use crate::types::wad::{Wad, WAD};
use vstd::prelude::*;

verus! {

/// Smallest amount an order is routed with: 10^-12, as a raw value.
pub const MIN_AMOUNT: u128 = 1_000_000;

/// What `pool` would pay for `amount` of `token_in` in `token_out`; zero
/// where the pool does not connect the two tokens or the amount is zero.
pub open spec fn quoted_out(pool: PoolView, token_in: usize, token_out: usize, amount: int) -> int {
    if amount > 0 && pool.connects(token_in, token_out) {
        pool.exact_in(token_in, token_out, amount).0
    } else {
        0
    }
}

/// An order's size in units of the token it pays: the size in numeraire
/// divided by the token's price, the price taken as at least `MIN_PRICE`,
/// the quotient rounded down, saturated, and raised to `MIN_AMOUNT`.
pub open spec fn order_amount(size_numeraire: int, price: int) -> int {
    let p = if price < MIN_PRICE {
        MIN_PRICE as int
    } else {
        price
    };
    let a = Wad::saturate((size_numeraire * WAD) / p);
    if a < MIN_AMOUNT {
        MIN_AMOUNT as int
    } else {
        a
    }
}

/// `best` is the pool of `pools` an order goes to: it pays something, no
/// pool pays more, and no earlier pool pays as much.
pub open spec fn best_among(
    pools: Seq<PoolView>,
    token_in: usize,
    token_out: usize,
    amount: int,
    best: int,
) -> bool {
    &&& 0 <= best < pools.len()
    &&& quoted_out(pools[best], token_in, token_out, amount) > 0
    &&& forall|j: int|
        0 <= j < pools.len() ==> quoted_out(#[trigger] pools[j], token_in, token_out, amount)
            <= quoted_out(pools[best], token_in, token_out, amount)
    &&& forall|j: int|
        0 <= j < best ==> quoted_out(#[trigger] pools[j], token_in, token_out, amount)
            < quoted_out(pools[best], token_in, token_out, amount)
}

/// `best` is the pool an order goes to.
pub open spec fn is_best<S: FeeStrategy>(
    amms: Seq<CFMM<S>>,
    token_in: usize,
    token_out: usize,
    amount: int,
    best: int,
) -> bool {
    best_among(pool_views(amms), token_in, token_out, amount, best)
}

/// An order goes to at most one pool.
pub proof fn lemma_best_unique(
    pools: Seq<PoolView>,
    token_in: usize,
    token_out: usize,
    amount: int,
    first: int,
    second: int,
)
    requires
        best_among(pools, token_in, token_out, amount, first),
        best_among(pools, token_in, token_out, amount, second),
    ensures
        first == second,
{
    if first < second {
        assert(quoted_out(pools[first], token_in, token_out, amount) < quoted_out(
            pools[second],
            token_in,
            token_out,
            amount,
        ));
        assert(quoted_out(pools[second], token_in, token_out, amount) <= quoted_out(
            pools[first],
            token_in,
            token_out,
            amount,
        ));
    } else if second < first {
        assert(quoted_out(pools[second], token_in, token_out, amount) < quoted_out(
            pools[first],
            token_in,
            token_out,
            amount,
        ));
        assert(quoted_out(pools[first], token_in, token_out, amount) <= quoted_out(
            pools[second],
            token_in,
            token_out,
            amount,
        ));
    }
}

/// Routes retail orders across pools.
pub struct OrderRouter {}

impl OrderRouter {
    pub fn new() -> (r: OrderRouter) {
        OrderRouter {  }
    }

    /// Computes `order_amount`.
    pub fn amount_in(&self, size_numeraire: Wad, price: Wad) -> (a: Wad)
        ensures
            a.0 == order_amount(size_numeraire.0 as int, price.0 as int),
    {
        let p: u128 = if price.0 < MIN_PRICE {
            MIN_PRICE
        } else {
            price.0
        };
        proof {
            assert(size_numeraire.0 * WAD >= 0) by (nonlinear_arith)
                requires
                    size_numeraire.0 >= 0,
            ;
            vstd::arithmetic::div_mod::lemma_div_pos_is_pos(size_numeraire.0 * WAD, p as int);
        }
        let a: u128 = match mul_div_floor(size_numeraire.0, WAD, p) {
            Some(v) => v,
            None => u128::MAX,
        };
        if a < MIN_AMOUNT {
            Wad(MIN_AMOUNT)
        } else {
            Wad(a)
        }
    }

    /// The pool that pays most for `amount_in` of `token_in` in
    /// `token_out`; among equals, the first. There is none exactly when no
    /// pool pays anything.
    pub fn best_pool<S: FeeStrategy>(
        &self,
        amms: &Vec<CFMM<S>>,
        token_in: usize,
        token_out: usize,
        amount_in: Wad,
    ) -> (r: Option<usize>)
        requires
            forall|i: int| 0 <= i < amms@.len() ==> (#[trigger] amms@[i]).wf(),
        ensures
            match r {
                Some(best) => is_best(amms@, token_in, token_out, amount_in.0 as int, best as int),
                None => forall|j: int|
                    0 <= j < amms@.len() ==> quoted_out(
                        #[trigger] pool_views(amms@)[j],
                        token_in,
                        token_out,
                        amount_in.0 as int,
                    ) <= 0,
            },
    {
        let ghost amount = amount_in.0 as int;
        let mut best_idx: Option<usize> = None;
        let mut best_out: u128 = 0;
        let mut idx: usize = 0;
        while idx < amms.len()
            invariant
                idx <= amms@.len(),
                amount == amount_in.0 as int,
                forall|j: int|
                    0 <= j < idx ==> quoted_out(#[trigger] amms@[j]@, token_in, token_out, amount)
                        <= best_out,
                match best_idx {
                    Some(b) => b < idx && best_out > 0 && best_out == quoted_out(
                        amms@[b as int]@,
                        token_in,
                        token_out,
                        amount,
                    ) && forall|j: int|
                        0 <= j < b ==> quoted_out(
                            #[trigger] amms@[j]@,
                            token_in,
                            token_out,
                            amount,
                        ) < best_out,
                    None => best_out == 0,
                },
            decreases amms@.len() - idx,
        {
            if let Some((out, _fee)) = amms[idx].quote_exact_in(token_in, token_out, amount_in) {
                if out.0 > best_out {
                    best_out = out.0;
                    best_idx = Some(idx);
                }
            }
            idx = idx + 1;
        }
        proof {
            assert forall|j: int| 0 <= j < amms@.len() implies quoted_out(
                #[trigger] pool_views(amms@)[j],
                token_in,
                token_out,
                amount,
            ) == quoted_out(amms@[j]@, token_in, token_out, amount) by {}
        }
        best_idx
    }

    /// Routes one retail order: converts its size into units of the token
    /// it pays, at that token's fair price, and executes it on the best
    /// pool.
    ///
    /// The order is dropped, and nothing changes, exactly when no pool pays
    /// anything for it. Otherwise the answer is the pool's index, the amount
    /// paid and the amount received, only that pool has changed, and it
    /// holds what its quote said.
    pub fn route<S: FeeStrategy>(
        &self,
        amms: &mut Vec<CFMM<S>>,
        order: &RetailOrderV2,
        price_in: Wad,
        timestamp: u64,
    ) -> (r: Option<(usize, Wad, Wad)>)
        requires
            forall|i: int| 0 <= i < old(amms)@.len() ==> (#[trigger] old(amms)@[i]).wf(),
        ensures
            final(amms)@.len() == old(amms)@.len(),
            forall|i: int| 0 <= i < final(amms)@.len() ==> (#[trigger] final(amms)@[i]).wf(),
            pools_follow(final(amms)@, old(amms)@),
            forall|i: int|
                0 <= i < final(amms)@.len() && old(amms)@[i]@.has_liquidity() ==> (
                #[trigger] final(amms)@[i])@.has_liquidity(),
            match r {
                Some((best, paid, received)) => {
                    &&& paid.0 == order_amount(order.size_numeraire.0 as int, price_in.0 as int)
                    &&& is_best(
                        old(amms)@,
                        order.token_in,
                        order.token_out,
                        paid.0 as int,
                        best as int,
                    )
                    &&& received.0 == quoted_out(
                        old(amms)@[best as int]@,
                        order.token_in,
                        order.token_out,
                        paid.0 as int,
                    )
                    &&& final(amms)@[best as int]@.refreshed_from(old(amms)@[best as int]@)
                    &&& final(amms)@[best as int]@.same_holdings(
                        old(amms)@[best as int]@.after_exact_in(
                            order.token_in,
                            order.token_out,
                            paid.0 as int,
                        ),
                    )
                    &&& forall|i: int|
                        0 <= i < final(amms)@.len() && i != best ==> final(amms)@[i] == old(
                            amms,
                        )@[i]
                },
                None => {
                    &&& forall|j: int|
                        0 <= j < old(amms)@.len() ==> quoted_out(
                            #[trigger] pool_views(old(amms)@)[j],
                            order.token_in,
                            order.token_out,
                            order_amount(order.size_numeraire.0 as int, price_in.0 as int),
                        ) <= 0
                    &&& forall|i: int|
                        0 <= i < final(amms)@.len() ==> (#[trigger] final(amms)@[i])@ == old(
                            amms,
                        )@[i]@
                },
            },
    {
        let amount_in = self.amount_in(order.size_numeraire, price_in);
        match self.best_pool(amms, order.token_in, order.token_out, amount_in) {
            Some(best) => {
                match amms[best].execute_exact_in(
                    order.token_in,
                    order.token_out,
                    amount_in,
                    timestamp,
                ) {
                    Some((received, _is_buy)) => Some((best, amount_in, received)),
                    None => None,
                }
            },
            None => None,
        }
    }
}

} // verus!
