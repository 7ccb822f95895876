//! The no-arbitrage band of a pool around a fair price, and how far a trade
//! must go to bring the pool into it.
//!
//! A fair price is known to one unit in its last place, so a pool counts as
//! priced above it only when its spot price, less the bid fee, exceeds the
//! price plus one raw unit.

use crate::amm::cfmm::PoolView;
use crate::market::arbitrageur::{ArbResult, ArbSide};
use crate::types::wad::Wad;
use crate::amm::curve::{fee_on, gross_up, lemma_gross_up_covers, net_in_for};
use crate::math::wide::{ceil_div, lemma_ceil_div, lemma_floor_bounds, lemma_mul_div_le};
use crate::types::wad::WAD;
use vstd::arithmetic::div_mod::{lemma_div_is_ordered, lemma_hoist_over_denominator};
use vstd::prelude::*;

verus! {

/// Spot price above which selling X to the pool pays, the bid fee counted:
/// `(price + 1) / (1 - bid_fee)`, rounded up.
pub open spec fn bid_limit(price: int, bid_fee: int) -> int {
    ceil_div((price + 1) * WAD, WAD - bid_fee)
}

/// Spot price below which buying X from the pool pays, the ask fee counted:
/// `price * (1 - ask_fee)`, rounded down.
pub open spec fn ask_limit(price: int, ask_fee: int) -> int {
    (price * (WAD - ask_fee)) / (WAD as int)
}

/// The pool `(x, y)` stands above the spot price `limit`: `y / x > limit`.
pub open spec fn above(x: int, y: int, limit: int) -> bool {
    y * WAD > limit * x
}

/// The pool `(x, y)` stands below the spot price `limit`: `y / x < limit`.
pub open spec fn below(x: int, y: int, limit: int) -> bool {
    y * WAD < limit * x
}

/// The pool offers no arbitrage against `price`: its spot price lies between
/// the two limits.
pub open spec fn in_band(v: PoolView, price: int) -> bool {
    &&& !above(v.reserve_x, v.reserve_y, bid_limit(price, v.fees.bid_fee.0 as int))
    &&& !below(v.reserve_x, v.reserve_y, ask_limit(price, v.fees.ask_fee.0 as int))
}

/// The ask limit never exceeds the price, and the bid limit is above it.
pub proof fn lemma_limits_ordered(price: int, bid_fee: int, ask_fee: int)
    requires
        0 <= price,
        0 <= bid_fee < WAD,
        0 <= ask_fee < WAD,
    ensures
        0 <= ask_limit(price, ask_fee) <= price < bid_limit(price, bid_fee),
{
    lemma_mul_div_le(price, WAD - ask_fee, WAD as int);
    let g: int = WAD - bid_fee;
    assert((price + 1) * WAD >= 0) by (nonlinear_arith)
        requires
            price >= 0,
    ;
    lemma_ceil_div((price + 1) * WAD, g);
    let c: int = bid_limit(price, bid_fee);
    assert(c >= price + 1) by (nonlinear_arith)
        requires
            c * g >= (price + 1) * WAD,
            0 < g <= WAD,
            price >= 0,
    ;
}

/// A pool cannot stand above the bid limit and below the ask limit at once.
pub proof fn lemma_sides_exclusive(x: int, y: int, price: int, bid_fee: int, ask_fee: int)
    requires
        0 <= x,
        0 <= price,
        0 <= bid_fee < WAD,
        0 <= ask_fee < WAD,
    ensures
        !(above(x, y, bid_limit(price, bid_fee)) && below(x, y, ask_limit(price, ask_fee))),
{
    lemma_limits_ordered(price, bid_fee, ask_fee);
    let lo: int = ask_limit(price, ask_fee);
    let hi: int = bid_limit(price, bid_fee);
    assert(lo * x <= hi * x) by (nonlinear_arith)
        requires
            lo <= hi,
            0 <= x,
    ;
}

/// A pool stands inside the band around its own spot price, whatever its fees.
pub proof fn lemma_spot_in_band(v: PoolView)
    requires
        v.reserve_x > 0,
        v.reserve_y >= 0,
        v.fees.is_clamped(),
    ensures
        in_band(v, (v.reserve_y * WAD) / v.reserve_x),
{
    let p: int = (v.reserve_y * WAD) / v.reserve_x;
    assert(v.reserve_y * WAD >= 0) by (nonlinear_arith)
        requires
            v.reserve_y >= 0,
    ;
    vstd::arithmetic::div_mod::lemma_div_pos_is_pos(v.reserve_y * WAD, v.reserve_x);
    lemma_floor_bounds(v.reserve_y * WAD, v.reserve_x);
    lemma_limits_ordered(p, v.fees.bid_fee.0 as int, v.fees.ask_fee.0 as int);
    let lo: int = ask_limit(p, v.fees.ask_fee.0 as int);
    let hi: int = bid_limit(p, v.fees.bid_fee.0 as int);
    let x: int = v.reserve_x;
    assert(lo * x <= p * x && (p + 1) * x <= hi * x && (p + 1) * x == p * x + x)
        by (nonlinear_arith)
        requires
            lo <= p,
            p + 1 <= hi,
            0 < x,
    ;
}

/// A larger gross input carries a larger fee and leaves a larger net input.
proof fn lemma_net_monotone(d1: int, d2: int, fee: int)
    requires
        0 <= d1 <= d2,
        0 <= fee <= WAD,
    ensures
        fee_on(d1, fee) <= fee_on(d2, fee),
        d1 - fee_on(d1, fee) <= d2 - fee_on(d2, fee),
{
    let w: int = WAD as int;
    assert(d1 * fee <= d2 * fee && d2 * fee <= d1 * fee + (d2 - d1) * w) by (nonlinear_arith)
        requires
            0 <= d1 <= d2,
            0 <= fee <= w,
    ;
    lemma_div_is_ordered(d1 * fee, d2 * fee, w);
    lemma_div_is_ordered(d2 * fee, d1 * fee + (d2 - d1) * w, w);
    lemma_hoist_over_denominator(d1 * fee, d2 - d1, w as nat);
}

/// A quotient `q` whose product with the divisor stays within `n` is at most `n / d`.
proof fn lemma_floor_is_greatest(q: int, n: int, d: int)
    requires
        0 < d,
        q * d <= n,
    ensures
        q <= n / d,
{
    lemma_div_is_ordered(q * d, n, d);
    vstd::arithmetic::div_mod::lemma_div_multiples_vanish(q, d);
    assert(q * d == d * q) by (nonlinear_arith);
}

/// A quotient `c` whose product with the divisor reaches `n` is at least
/// `n / d` rounded up.
proof fn lemma_ceil_is_least(c: int, n: int, d: int)
    requires
        0 < d,
        0 <= n,
        0 <= c,
        c * d >= n,
    ensures
        ceil_div(n, d) <= c,
{
    lemma_ceil_div(n, d);
    let k: int = ceil_div(n, d);
    if n > 0 {
        assert(k - 1 < c) by (nonlinear_arith)
            requires
                (k - 1) * d < n,
                n <= c * d,
                0 < d,
        ;
    } else {
        vstd::arithmetic::div_mod::lemma_div_of0(d);
        vstd::arithmetic::div_mod::lemma_small_mod(0, d as nat);
    }
}

/// The more joins the input reserve, the more the pool pays out.
proof fn lemma_out_monotone(r_in: int, r_out: int, n1: int, n2: int)
    requires
        0 <= r_in,
        0 <= r_out,
        0 < n1 <= n2,
    ensures
        (r_out * n1) / (r_in + n1) <= (r_out * n2) / (r_in + n2),
{
    let d1: int = r_in + n1;
    let d2: int = r_in + n2;
    let q1: int = (r_out * n1) / d1;
    lemma_floor_bounds(r_out * n1, d1);
    lemma_mul_div_le(r_out, n1, d1);
    assert(q1 * d2 <= r_out * n2) by (nonlinear_arith)
        requires
            q1 * d1 <= r_out * n1,
            0 <= q1 <= r_out,
            d2 == d1 + (n2 - n1),
            n1 <= n2,
    ;
    lemma_floor_is_greatest(q1, r_out * n2, d2);
}

/// The more leaves the output reserve, the more must join the input reserve.
proof fn lemma_net_in_monotone(r_out: int, r_in: int, a1: int, a2: int)
    requires
        0 <= r_in,
        0 < a1 <= a2 < r_out,
    ensures
        0 <= net_in_for(r_out, r_in, a1) <= net_in_for(r_out, r_in, a2),
{
    let e1: int = r_out - a1;
    let e2: int = r_out - a2;
    assert(r_in * a1 >= 0 && r_in * a2 >= r_in * a1) by (nonlinear_arith)
        requires
            0 <= r_in,
            0 < a1 <= a2,
    ;
    lemma_ceil_div(r_in * a2, e2);
    lemma_ceil_div(r_in * a1, e1);
    vstd::arithmetic::div_mod::lemma_div_pos_is_pos(r_in * a2, e2);
    vstd::arithmetic::div_mod::lemma_div_pos_is_pos(r_in * a1, e1);
    let n2: int = net_in_for(r_out, r_in, a2);
    assert(n2 * e1 >= r_in * a1) by (nonlinear_arith)
        requires
            n2 * e2 >= r_in * a2,
            r_in * a2 >= r_in * a1,
            e1 >= e2,
            n2 >= 0,
    ;
    lemma_ceil_is_least(n2, r_in * a1, e1);
}

/// The fee part of a grossed-up payment is `net * fee / (1 - fee)`, rounded up.
proof fn lemma_gross_up_fee(net: int, fee: int)
    requires
        0 <= net,
        0 <= fee < WAD,
    ensures
        gross_up(net, fee) - net == ceil_div(net * fee, WAD - fee),
{
    let g: int = WAD - fee;
    assert(net * WAD + g - 1 + (-net) * g == net * fee + g - 1) by (nonlinear_arith)
        requires
            g == WAD - fee,
    ;
    lemma_hoist_over_denominator(net * WAD + g - 1, -net, g as nat);
}

/// A larger net payment grosses up to a larger total with a larger fee part.
proof fn lemma_gross_up_monotone(n1: int, n2: int, fee: int)
    requires
        0 <= n1 <= n2,
        0 <= fee < WAD,
    ensures
        gross_up(n1, fee) <= gross_up(n2, fee),
        gross_up(n1, fee) - n1 <= gross_up(n2, fee) - n2,
{
    let g: int = WAD - fee;
    assert(n1 * WAD <= n2 * WAD && n1 * fee <= n2 * fee) by (nonlinear_arith)
        requires
            0 <= n1 <= n2,
            0 <= fee,
    ;
    lemma_div_is_ordered(n1 * WAD + g - 1, n2 * WAD + g - 1, g);
    lemma_div_is_ordered(n1 * fee + g - 1, n2 * fee + g - 1, g);
    lemma_gross_up_fee(n1, fee);
    lemma_gross_up_fee(n2, fee);
}

/// The reserves are raw values and the fees are clamped.
pub open spec fn well_formed(v: PoolView) -> bool {
    v.is_raw() && v.fees.is_clamped()
}

/// Largest amount of X the pool can be offered without a reserve or an
/// accumulator leaving the range of raw values.
pub open spec fn buy_cap(v: PoolView) -> int {
    if v.reserve_x >= v.fees_x {
        u128::MAX - v.reserve_x
    } else {
        u128::MAX - v.fees_x
    }
}

/// Selling `amount` of X to the pool goes through and leaves the pool no
/// longer above `limit`.
pub open spec fn buy_settles(v: PoolView, limit: int, amount: int) -> bool {
    let q = v.buy_x_quote(amount);
    q.0 > 0 && !above(v.reserve_x + amount - q.1, v.reserve_y - q.0, limit)
}

/// Buying `amount` of X from the pool either cannot go through or leaves the
/// pool no longer below `limit`.
pub open spec fn sell_settles(v: PoolView, limit: int, amount: int) -> bool {
    let q = v.sell_x_quote(amount);
    amount >= 1 && (q.0 == 0 || !below(
        v.reserve_x - amount,
        v.reserve_y + q.0 - q.1,
        limit,
    ))
}

/// Once an amount of X sold to the pool settles it, every larger amount
/// within the cap does.
pub proof fn lemma_buy_settles_monotone(v: PoolView, limit: int, d1: int, d2: int)
    requires
        well_formed(v),
        0 <= limit,
        d1 <= d2 <= buy_cap(v),
        buy_settles(v, limit, d1),
    ensures
        buy_settles(v, limit, d2),
{
    let x: int = v.reserve_x;
    let y: int = v.reserve_y;
    let fee: int = v.fees.bid_fee.0 as int;
    let q1 = v.buy_x_quote(d1);
    crate::amm::curve::lemma_exact_in_sound(x, y, fee, v.fees_x, d1);
    lemma_net_monotone(d1, d2, fee);
    lemma_mul_div_le(d2, fee, WAD as int);
    let n1: int = d1 - fee_on(d1, fee);
    let n2: int = d2 - fee_on(d2, fee);
    lemma_out_monotone(x, y, n1, n2);
    let o1: int = (y * n1) / (x + n1);
    let o2: int = (y * n2) / (x + n2);
    assert(q1.0 == o1);
    let q2 = v.buy_x_quote(d2);
    assert(q2.0 == o2 && q2.1 == fee_on(d2, fee));
    assert((y - o2) * WAD <= limit * (x + n2)) by (nonlinear_arith)
        requires
            (y - o1) * WAD <= limit * (x + n1),
            o1 <= o2,
            n1 <= n2,
            0 <= limit,
    ;
}

/// Once an amount of X bought from the pool settles it, every larger amount
/// short of the whole reserve does.
pub proof fn lemma_sell_settles_monotone(v: PoolView, limit: int, a1: int, a2: int)
    requires
        well_formed(v),
        v.reserve_y > 0,
        0 <= limit,
        a1 <= a2 < v.reserve_x,
        sell_settles(v, limit, a1),
    ensures
        sell_settles(v, limit, a2),
{
    let x: int = v.reserve_x;
    let y: int = v.reserve_y;
    let fee: int = v.fees.ask_fee.0 as int;
    let q2 = v.sell_x_quote(a2);
    if q2.0 != 0 {
        crate::amm::curve::lemma_exact_out_sound(x, y, fee, v.fees_y, a2);
        lemma_net_in_monotone(x, y, a1, a2);
        let n1: int = net_in_for(x, y, a1);
        let n2: int = net_in_for(x, y, a2);
        lemma_gross_up_monotone(n1, n2, fee);
        lemma_gross_up_covers(n1, fee);
        assert(y * a1 > 0) by (nonlinear_arith)
            requires
                y > 0,
                a1 >= 1,
        ;
        lemma_ceil_div(y * a1, x - a1);
        assert(n1 > 0) by (nonlinear_arith)
            requires
                n1 * (x - a1) >= y * a1,
                y * a1 > 0,
                x - a1 > 0,
        ;
        let q1 = v.sell_x_quote(a1);
        assert(q1.0 == gross_up(n1, fee) && q1.1 == gross_up(n1, fee) - n1);
        assert(q2.0 == gross_up(n2, fee) && q2.1 == gross_up(n2, fee) - n2);
        assert((y + n2) * WAD >= limit * (x - a2)) by (nonlinear_arith)
            requires
                (y + n1) * WAD >= limit * (x - a1),
                n1 <= n2,
                a1 <= a2,
                0 <= limit,
        ;
    }
}

/// `amount` is what the arbitrageur sells to a pool priced above the band:
/// the least amount of X that settles the pool at the bid limit, provided
/// that this does not push the pool below the ask limit.
pub open spec fn is_buy_plan(v: PoolView, price: int, amount: int) -> bool {
    let limit = bid_limit(price, v.fees.bid_fee.0 as int);
    let q = v.buy_x_quote(amount);
    &&& limit <= u128::MAX
    &&& above(v.reserve_x, v.reserve_y, limit)
    &&& 1 <= amount <= buy_cap(v)
    &&& buy_settles(v, limit, amount)
    &&& !buy_settles(v, limit, amount - 1)
    &&& !below(
        v.reserve_x + amount - q.1,
        v.reserve_y - q.0,
        ask_limit(price, v.fees.ask_fee.0 as int),
    )
}

/// `amount` is what the arbitrageur buys from a pool priced below the band:
/// the least amount of X that settles the pool at the ask limit, provided
/// that the purchase goes through and does not push the pool above the bid
/// limit.
pub open spec fn is_sell_plan(v: PoolView, price: int, amount: int) -> bool {
    let limit = ask_limit(price, v.fees.ask_fee.0 as int);
    let q = v.sell_x_quote(amount);
    &&& below(v.reserve_x, v.reserve_y, limit)
    &&& 1 <= amount < v.reserve_x
    &&& sell_settles(v, limit, amount)
    &&& !sell_settles(v, limit, amount - 1)
    &&& q.0 > 0
    &&& bid_limit(price, v.fees.bid_fee.0 as int) <= u128::MAX ==> !above(
        v.reserve_x - amount,
        v.reserve_y + q.0 - q.1,
        bid_limit(price, v.fees.bid_fee.0 as int),
    )
}

/// At most one amount is a buy plan.
pub proof fn lemma_buy_plan_unique(v: PoolView, price: int, d1: int, d2: int)
    requires
        well_formed(v),
        0 <= price,
        is_buy_plan(v, price, d1),
        is_buy_plan(v, price, d2),
    ensures
        d1 == d2,
{
    let limit = bid_limit(price, v.fees.bid_fee.0 as int);
    lemma_limits_ordered(price, v.fees.bid_fee.0 as int, v.fees.ask_fee.0 as int);
    if d1 < d2 {
        lemma_buy_settles_monotone(v, limit, d1, d2 - 1);
    } else if d2 < d1 {
        lemma_buy_settles_monotone(v, limit, d2, d1 - 1);
    }
}

/// At most one amount is a sell plan.
pub proof fn lemma_sell_plan_unique(v: PoolView, price: int, a1: int, a2: int)
    requires
        well_formed(v),
        0 <= price,
        is_sell_plan(v, price, a1),
        is_sell_plan(v, price, a2),
    ensures
        a1 == a2,
{
    let limit = ask_limit(price, v.fees.ask_fee.0 as int);
    lemma_limits_ordered(price, v.fees.bid_fee.0 as int, v.fees.ask_fee.0 as int);
    crate::amm::curve::lemma_exact_out_sound(
        v.reserve_x,
        v.reserve_y,
        v.fees.ask_fee.0 as int,
        v.fees_y,
        a1,
    );
    if a1 < a2 {
        lemma_sell_settles_monotone(v, limit, a1, a2 - 1);
    } else if a2 < a1 {
        lemma_sell_settles_monotone(v, limit, a2, a1 - 1);
    }
}

/// No amount is a buy plan or a sell plan: the arbitrageur leaves the pool alone.
pub open spec fn no_plan(v: PoolView, price: int) -> bool {
    &&& forall|a: int| !is_buy_plan(v, price, a)
    &&& forall|a: int| !is_sell_plan(v, price, a)
}

/// A pool inside the band offers the arbitrageur nothing.
pub proof fn lemma_in_band_no_plan(v: PoolView, price: int)
    requires
        in_band(v, price),
    ensures
        no_plan(v, price),
{
}

/// Against its own spot price a pool is left alone, whatever its fees; in
/// particular with no fees at all.
pub proof fn lemma_no_arbitrage_at_spot(v: PoolView)
    requires
        v.reserve_x > 0,
        v.reserve_y >= 0,
        v.fees.is_clamped(),
    ensures
        no_plan(v, (v.reserve_y * WAD) / v.reserve_x),
{
    lemma_spot_in_band(v);
}

/// Arbitrage is idempotent: once the arbitrageur has sold its planned amount
/// to the pool, and the fees are what they were, the pool is inside the band
/// and a second arbitrage against the same price trades nothing.
pub proof fn lemma_buy_plan_settles(v: PoolView, price: int, amount: int)
    requires
        is_buy_plan(v, price, amount),
    ensures
        in_band(v.after_buy_x(amount), price),
        no_plan(v.after_buy_x(amount), price),
{
}

/// Arbitrage is idempotent: once the arbitrageur has bought its planned
/// amount from the pool, and the fees are what they were, a second arbitrage
/// against the same price trades nothing.
pub proof fn lemma_sell_plan_settles(v: PoolView, price: int, amount: int)
    requires
        is_sell_plan(v, price, amount),
    ensures
        no_plan(v.after_sell_x(amount), price),
{
}

/// A pool has a plan on at most one side.
pub proof fn lemma_plans_exclusive(v: PoolView, price: int, buy: int, sell: int)
    requires
        well_formed(v),
        0 <= price,
    ensures
        !(is_buy_plan(v, price, buy) && is_sell_plan(v, price, sell)),
{
    lemma_sides_exclusive(
        v.reserve_x,
        v.reserve_y,
        price,
        v.fees.bid_fee.0 as int,
        v.fees.ask_fee.0 as int,
    );
}

/// What the arbitrageur trades on a pool against `price`: the side and the
/// amount of X of the pool's plan, of which there is at most one.
pub open spec fn planned(v: PoolView, price: int) -> Option<(ArbSide, int)> {
    if exists|a: int| is_buy_plan(v, price, a) {
        Some((ArbSide::Buy, choose|a: int| is_buy_plan(v, price, a)))
    } else if exists|a: int| is_sell_plan(v, price, a) {
        Some((ArbSide::Sell, choose|a: int| is_sell_plan(v, price, a)))
    } else {
        None
    }
}

/// The record of the arbitrage of a pool against `price`: the planned
/// amount of X, and the Y its quote says changes hands for it.
pub open spec fn arb_record(v: PoolView, price: int) -> Option<ArbResult> {
    match planned(v, price) {
        Some((ArbSide::Buy, a)) => Some(
            ArbResult {
                side: ArbSide::Buy,
                amount_x: Wad(a as u128),
                amount_y: Wad(v.buy_x_quote(a).0 as u128),
            },
        ),
        Some((ArbSide::Sell, a)) => Some(
            ArbResult {
                side: ArbSide::Sell,
                amount_x: Wad(a as u128),
                amount_y: Wad(v.sell_x_quote(a).0 as u128),
            },
        ),
        None => None,
    }
}

/// Reserves and accumulators of a pool after its arbitrage against `price`.
pub open spec fn arbitraged(v: PoolView, price: int) -> PoolView {
    match planned(v, price) {
        Some((ArbSide::Buy, a)) => v.after_buy_x(a),
        Some((ArbSide::Sell, a)) => v.after_sell_x(a),
        None => v,
    }
}

/// A buy plan is what is planned.
pub(crate) proof fn lemma_planned_buy(v: PoolView, price: int, amount: int)
    requires
        well_formed(v),
        0 <= price,
        is_buy_plan(v, price, amount),
    ensures
        planned(v, price) == Some((ArbSide::Buy, amount)),
{
    let c = choose|a: int| is_buy_plan(v, price, a);
    lemma_buy_plan_unique(v, price, c, amount);
}

/// A sell plan is what is planned.
pub(crate) proof fn lemma_planned_sell(v: PoolView, price: int, amount: int)
    requires
        well_formed(v),
        0 <= price,
        is_sell_plan(v, price, amount),
    ensures
        planned(v, price) == Some((ArbSide::Sell, amount)),
{
    assert forall|a: int| !is_buy_plan(v, price, a) by {
        lemma_plans_exclusive(v, price, a, amount);
    }
    let c = choose|a: int| is_sell_plan(v, price, a);
    lemma_sell_plan_unique(v, price, c, amount);
}

} // verus!
