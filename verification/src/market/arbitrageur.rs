//! The arbitrageur: trades a pool back into its no-arbitrage band.
//!
//! Against a fair price the pool is in one of three places. Above the bid
//! limit, the arbitrageur sells it X; below the ask limit, the arbitrageur
//! buys X from it; in between there is nothing to gain. The amount traded is
//! the least that brings the pool to the limit it crossed, and the trade is
//! made only if it lands inside the band. The two limits never cross, so a
//! pool is never on both sides at once and there is no tie to break.

use crate::amm::cfmm::CFMM;
use crate::amm::curve::{lemma_exact_in_sound, lemma_exact_out_sound};
use crate::amm::strategy::FeeStrategy;
use crate::market::band::{
    above, ask_limit, below, bid_limit, buy_cap, buy_settles, is_buy_plan, is_sell_plan,
    lemma_buy_settles_monotone, lemma_limits_ordered, lemma_sell_settles_monotone,
    arb_record, arbitraged, lemma_planned_buy, lemma_planned_sell, no_plan, planned,
    sell_settles, well_formed,
};
use crate::math::wide::{lemma_mul_div_le, mul_div_ceil, mul_div_floor, mul_le};
use crate::types::wad::{Wad, WAD};
use vstd::prelude::*;

verus! {

/// Which way the pool traded in an arbitrage.
#[derive(Clone, Copy, Debug, PartialEq, Eq, Structural)]
pub enum ArbSide {
    /// The pool bought X.
    Buy,
    /// The pool sold X.
    Sell,
}

/// What an arbitrage moved.
#[derive(Clone, Copy, Debug, PartialEq, Eq, Structural)]
pub struct ArbResult {
    pub side: ArbSide,
    /// X that changed hands.
    pub amount_x: Wad,
    /// Y that changed hands, fee included.
    pub amount_y: Wad,
}

/// Computes `bid_limit`, or `None` where it exceeds every raw value.
fn bid_limit_raw(price: u128, bid_fee: u128) -> (r: Option<u128>)
    requires
        bid_fee < WAD,
    ensures
        match r {
            Some(l) => l == bid_limit(price as int, bid_fee as int),
            None => bid_limit(price as int, bid_fee as int) > u128::MAX,
        },
{
    match price.checked_add(1) {
        Some(p) => mul_div_ceil(p, WAD, WAD - bid_fee),
        None => {
            proof {
                lemma_limits_ordered(price as int, bid_fee as int, 0);
            }
            None
        },
    }
}

/// Computes `ask_limit`.
fn ask_limit_raw(price: u128, ask_fee: u128) -> (r: u128)
    requires
        ask_fee < WAD,
    ensures
        r == ask_limit(price as int, ask_fee as int),
{
    proof {
        lemma_mul_div_le(price as int, WAD - ask_fee, WAD as int);
    }
    match mul_div_floor(price, WAD - ask_fee, WAD) {
        Some(l) => l,
        None => 0,
    }
}

/// Computes `above`.
fn is_above(x: u128, y: u128, limit: u128) -> (r: bool)
    ensures
        r == above(x as int, y as int, limit as int),
{
    !mul_le(y, WAD, limit, x)
}

/// Computes `below`.
fn is_below(x: u128, y: u128, limit: u128) -> (r: bool)
    ensures
        r == below(x as int, y as int, limit as int),
{
    !mul_le(limit, x, y, WAD)
}

/// The view of a well-formed pool is well formed.
proof fn lemma_view_well_formed<S: FeeStrategy>(amm: &CFMM<S>)
    requires
        amm.wf(),
    ensures
        well_formed(amm@),
{
    amm.lemma_view_in_range();
}

/// Computes `buy_settles`.
fn buy_settles_raw<S: FeeStrategy>(amm: &CFMM<S>, limit: u128, amount: u128) -> (r: bool)
    requires
        amm.wf(),
    ensures
        r == buy_settles(amm@, limit as int, amount as int),
{
    let (out, fee) = amm.quote_buy_x(Wad(amount));
    if out.0 == 0 {
        return false;
    }
    let (x, y) = amm.reserves();
    proof {
        lemma_view_well_formed(amm);
        lemma_exact_in_sound(
            amm@.reserve_x,
            amm@.reserve_y,
            amm@.fees.bid_fee.0 as int,
            amm@.fees_x,
            amount as int,
        );
    }
    !is_above(x.0 + (amount - fee.0), y.0 - out.0, limit)
}

/// Computes `sell_settles`.
fn sell_settles_raw<S: FeeStrategy>(amm: &CFMM<S>, limit: u128, amount: u128) -> (r: bool)
    requires
        amm.wf(),
    ensures
        r == sell_settles(amm@, limit as int, amount as int),
{
    if amount == 0 {
        return false;
    }
    let (total, fee) = amm.quote_sell_x(Wad(amount));
    if total.0 == 0 {
        return true;
    }
    let (x, y) = amm.reserves();
    proof {
        lemma_view_well_formed(amm);
        lemma_exact_out_sound(
            amm@.reserve_x,
            amm@.reserve_y,
            amm@.fees.ask_fee.0 as int,
            amm@.fees_y,
            amount as int,
        );
    }
    !is_below(x.0 - amount, y.0 + (total.0 - fee.0), limit)
}

/// Computes `buy_cap`.
fn buy_cap_raw<S: FeeStrategy>(amm: &CFMM<S>) -> (r: u128)
    ensures
        r == buy_cap(amm@),
{
    let (x, _) = amm.reserves();
    let (fx, _) = amm.accumulated_fees();
    if x.0 >= fx.0 {
        u128::MAX - x.0
    } else {
        u128::MAX - fx.0
    }
}

/// The amount of X to sell to the pool, if the pool stands above the band
/// and can be brought into it.
fn find_buy<S: FeeStrategy>(amm: &CFMM<S>, price: u128) -> (r: Option<u128>)
    requires
        amm.wf(),
    ensures
        match r {
            Some(a) => is_buy_plan(amm@, price as int, a as int),
            None => forall|a: int| !is_buy_plan(amm@, price as int, a),
        },
{
    let ghost v = amm@;
    let ghost p = price as int;
    proof {
        lemma_view_well_formed(amm);
    }
    let fees = amm.fees();
    let (x, y) = amm.reserves();
    let limit: u128 = match bid_limit_raw(price, fees.bid_fee.0) {
        Some(l) => l,
        None => { return None; },
    };
    if !is_above(x.0, y.0, limit) {
        return None;
    }
    let cap: u128 = buy_cap_raw(amm);
    if cap == 0 {
        return None;
    }
    if !buy_settles_raw(amm, limit, cap) {
        proof {
            assert forall|a: int| !is_buy_plan(v, p, a) by {
                if is_buy_plan(v, p, a) {
                    lemma_buy_settles_monotone(v, limit as int, a, cap as int);
                }
            }
        }
        return None;
    }
    let mut lo: u128 = 0;
    let mut hi: u128 = cap;
    while hi - lo > 1
        invariant
            amm.wf(),
            v == amm@,
            lo < hi <= cap,
            cap == buy_cap(v),
            !buy_settles(v, limit as int, lo as int),
            buy_settles(v, limit as int, hi as int),
        decreases hi - lo,
    {
        let mid: u128 = lo + (hi - lo) / 2;
        if buy_settles_raw(amm, limit, mid) {
            hi = mid;
        } else {
            lo = mid;
        }
    }
    let (out, fee) = amm.quote_buy_x(Wad(hi));
    proof {
        lemma_exact_in_sound(
            v.reserve_x,
            v.reserve_y,
            v.fees.bid_fee.0 as int,
            v.fees_x,
            hi as int,
        );
    }
    let floor: u128 = ask_limit_raw(price, fees.ask_fee.0);
    if is_below(x.0 + (hi - fee.0), y.0 - out.0, floor) {
        proof {
            assert forall|a: int| !is_buy_plan(v, p, a) by {
                if is_buy_plan(v, p, a) {
                    if a < hi {
                        lemma_buy_settles_monotone(v, limit as int, a, hi - 1);
                    } else if a > hi {
                        lemma_buy_settles_monotone(v, limit as int, hi as int, a - 1);
                    }
                }
            }
        }
        return None;
    }
    Some(hi)
}

/// The amount of X to buy from the pool, if the pool stands below the band
/// and can be brought into it.
fn find_sell<S: FeeStrategy>(amm: &CFMM<S>, price: u128) -> (r: Option<u128>)
    requires
        amm.wf(),
    ensures
        match r {
            Some(a) => is_sell_plan(amm@, price as int, a as int),
            None => forall|a: int| !is_sell_plan(amm@, price as int, a),
        },
{
    let ghost v = amm@;
    let ghost p = price as int;
    proof {
        lemma_view_well_formed(amm);
    }
    let fees = amm.fees();
    let (x, y) = amm.reserves();
    let limit: u128 = ask_limit_raw(price, fees.ask_fee.0);
    if !is_below(x.0, y.0, limit) {
        return None;
    }
    if x.0 < 2 {
        return None;
    }
    if y.0 == 0 {
        proof {
            assert forall|a: int| !is_sell_plan(v, p, a) by {
                lemma_exact_out_sound(
                    v.reserve_x,
                    v.reserve_y,
                    v.fees.ask_fee.0 as int,
                    v.fees_y,
                    a,
                );
            }
        }
        return None;
    }
    let top: u128 = x.0 - 1;
    if !sell_settles_raw(amm, limit, top) {
        proof {
            assert forall|a: int| !is_sell_plan(v, p, a) by {
                if is_sell_plan(v, p, a) {
                    lemma_sell_settles_monotone(v, limit as int, a, top as int);
                }
            }
        }
        return None;
    }
    let mut lo: u128 = 0;
    let mut hi: u128 = top;
    while hi - lo > 1
        invariant
            amm.wf(),
            v == amm@,
            lo < hi <= top,
            top == v.reserve_x - 1,
            !sell_settles(v, limit as int, lo as int),
            sell_settles(v, limit as int, hi as int),
        decreases hi - lo,
    {
        let mid: u128 = lo + (hi - lo) / 2;
        if sell_settles_raw(amm, limit, mid) {
            hi = mid;
        } else {
            lo = mid;
        }
    }
    let (total, fee) = amm.quote_sell_x(Wad(hi));
    proof {
        lemma_exact_out_sound(
            v.reserve_x,
            v.reserve_y,
            v.fees.ask_fee.0 as int,
            v.fees_y,
            hi as int,
        );
    }
    let lands: bool = if total.0 == 0 {
        false
    } else {
        match bid_limit_raw(price, fees.bid_fee.0) {
            Some(ceiling) => !is_above(x.0 - hi, y.0 + (total.0 - fee.0), ceiling),
            None => true,
        }
    };
    if !lands {
        proof {
            assert forall|a: int| !is_sell_plan(v, p, a) by {
                if is_sell_plan(v, p, a) {
                    if a < hi {
                        lemma_sell_settles_monotone(v, limit as int, a, hi - 1);
                    } else if a > hi {
                        lemma_sell_settles_monotone(v, limit as int, hi as int, a - 1);
                    }
                }
            }
        }
        return None;
    }
    Some(hi)
}

/// Deterministic arbitrageur.
pub struct Arbitrageur {}

impl Arbitrageur {
    pub fn new() -> (a: Arbitrageur) {
        Arbitrageur {  }
    }

    /// What the arbitrageur would trade on `amm` against `fair_price`: a
    /// side and an amount of X, or nothing.
    ///
    /// The answer is the buy plan or the sell plan of the pool, of which
    /// there is at most one; it is `None` exactly when there is neither.
    pub fn plan<S: FeeStrategy>(&self, amm: &CFMM<S>, fair_price: Wad) -> (r: Option<
        (ArbSide, Wad),
    >)
        requires
            amm.wf(),
        ensures
            match r {
                Some((ArbSide::Buy, a)) => is_buy_plan(amm@, fair_price.0 as int, a.0 as int),
                Some((ArbSide::Sell, a)) => is_sell_plan(amm@, fair_price.0 as int, a.0 as int),
                None => no_plan(amm@, fair_price.0 as int),
            },
            match r {
                Some((side, a)) => planned(amm@, fair_price.0 as int) == Some((side, a.0 as int)),
                None => planned(amm@, fair_price.0 as int) is None,
            },
    {
        proof {
            lemma_view_well_formed(amm);
        }
        match find_buy(amm, fair_price.0) {
            Some(a) => {
                proof {
                    lemma_planned_buy(amm@, fair_price.0 as int, a as int);
                }
                Some((ArbSide::Buy, Wad(a)))
            },
            None => match find_sell(amm, fair_price.0) {
                Some(a) => {
                    proof {
                        lemma_planned_sell(amm@, fair_price.0 as int, a as int);
                    }
                    Some((ArbSide::Sell, Wad(a)))
                },
                None => None,
            },
        }
    }

    /// Trades `amm` into its band around `fair_price`, through the pool's
    /// own execution path, so that the fees refresh as after any trade.
    ///
    /// Nothing is traded, and the pool stays as it is, exactly when the pool
    /// has no plan. Otherwise the planned amount of X is traded on the
    /// planned side, and the record says what moved.
    pub fn execute_arb<S: FeeStrategy>(&self, amm: &mut CFMM<S>, fair_price: Wad, timestamp: u64) -> (r:
        Option<ArbResult>)
        requires
            old(amm).wf(),
        ensures
            final(amm).wf(),
            r == arb_record(old(amm)@, fair_price.0 as int),
            final(amm)@.same_holdings(arbitraged(old(amm)@, fair_price.0 as int)),
            r is None <==> no_plan(old(amm)@, fair_price.0 as int),
            r is None ==> final(amm)@ == old(amm)@,
            r matches Some(t) ==> {
                &&& final(amm)@.refreshed_from(old(amm)@)
                &&& final(amm)@.fees_x >= old(amm)@.fees_x
                &&& final(amm)@.fees_y >= old(amm)@.fees_y
                &&& old(amm)@.has_liquidity() ==> final(amm)@.has_liquidity()
                &&& final(amm)@.reserve_x * final(amm)@.reserve_y >= old(amm)@.reserve_x * old(
                    amm,
                )@.reserve_y
                &&& t.side == ArbSide::Buy ==> {
                    &&& is_buy_plan(old(amm)@, fair_price.0 as int, t.amount_x.0 as int)
                    &&& t.amount_y.0 == old(amm)@.buy_x_quote(t.amount_x.0 as int).0
                    &&& final(amm)@.same_holdings(old(amm)@.after_buy_x(t.amount_x.0 as int))
                }
                &&& t.side == ArbSide::Sell ==> {
                    &&& is_sell_plan(old(amm)@, fair_price.0 as int, t.amount_x.0 as int)
                    &&& t.amount_y.0 == old(amm)@.sell_x_quote(t.amount_x.0 as int).0
                    &&& final(amm)@.same_holdings(old(amm)@.after_sell_x(t.amount_x.0 as int))
                }
            },
    {
        match self.plan(amm, fair_price) {
            Some((ArbSide::Buy, amount)) => {
                match amm.execute_buy_x(amount, timestamp) {
                    Some(trade) => Some(
                        ArbResult {
                            side: ArbSide::Buy,
                            amount_x: trade.trade_info.amount_x,
                            amount_y: trade.trade_info.amount_y,
                        },
                    ),
                    None => None,
                }
            },
            Some((ArbSide::Sell, amount)) => {
                match amm.execute_sell_x(amount, timestamp) {
                    Some(trade) => Some(
                        ArbResult {
                            side: ArbSide::Sell,
                            amount_x: trade.trade_info.amount_x,
                            amount_y: trade.trade_info.amount_y,
                        },
                    ),
                    None => None,
                }
            },
            None => None,
        }
    }
}

} // verus!
