//! Swap arithmetic on the curve `x * y = k`, with the fee kept outside the
//! reserves.
//!
//! Every rounding goes in the pool's favour: what the pool pays out is rounded
//! down and what it takes in is rounded up, so a trade never lowers `k`.

use crate::math::wide::{
    ceil_div, lemma_ceil_div, lemma_floor_bounds, lemma_mul_div_le, lemma_mul_div_lt,
    mul_div_ceil, mul_div_floor,
};
use crate::types::wad::WAD;
use vstd::prelude::*;

verus! {

/// Fee charged on a gross input `amount` at rate `fee`, rounded down.
pub open spec fn fee_on(amount: int, fee: int) -> int {
    (amount * fee) / (WAD as int)
}

/// Quote for paying `amount` of one token into the pool: what the pool pays
/// out of the other token, and the fee it keeps from the input.
///
/// The fee comes off the input first; the rest, `net`, joins `r_in`, and the
/// pool pays `r_out - k / (r_in + net)`, rounded down. The quote is `(0, 0)`
/// when the amount is zero, the fee leaves nothing, the pool would pay
/// nothing, or a resulting quantity would not fit in a raw value.
pub open spec fn exact_in_quote(r_in: int, r_out: int, fee: int, acc_in: int, amount: int) -> (
    int,
    int,
) {
    let fee_amount = fee_on(amount, fee);
    let net = amount - fee_amount;
    let out = (r_out * net) / (r_in + net);
    if amount <= 0 || fee >= WAD || r_in + net > u128::MAX || acc_in + fee_amount > u128::MAX
        || out <= 0 {
        (0, 0)
    } else {
        (out, fee_amount)
    }
}

/// What must join `r_in` so that the pool can release `amount_out` from
/// `r_out` without lowering `k`: `k / (r_out - amount_out) - r_in`, rounded up.
pub open spec fn net_in_for(r_out: int, r_in: int, amount_out: int) -> int {
    ceil_div(r_in * amount_out, r_out - amount_out)
}

/// Gross payment whose part after the fee is at least `net`: `net / (1 - fee)`,
/// rounded up.
pub open spec fn gross_up(net: int, fee: int) -> int {
    ceil_div(net * WAD, WAD - fee)
}

/// Quote for taking exactly `amount_out` out of the pool: what the trader
/// pays in total of the other token, and the part of it that is fee.
///
/// The quote is `(0, 0)` when the amount is zero or not below `r_out`, the
/// fee leaves nothing, nothing would be owed, or a resulting quantity would
/// not fit in a raw value.
pub open spec fn exact_out_quote(r_out: int, r_in: int, fee: int, acc_in: int, amount_out: int) -> (
    int,
    int,
) {
    let net = net_in_for(r_out, r_in, amount_out);
    let total = gross_up(net, fee);
    if amount_out <= 0 || amount_out >= r_out || fee >= WAD || net <= 0 || r_in + net > u128::MAX
        || total > u128::MAX || acc_in + (total - net) > u128::MAX {
        (0, 0)
    } else {
        (total, total - net)
    }
}

/// Computes `exact_in_quote` on raw values.
pub fn quote_exact_in_raw(r_in: u128, r_out: u128, fee: u128, acc_in: u128, amount: u128) -> (q: (
    u128,
    u128,
))
    ensures
        q.0 == exact_in_quote(r_in as int, r_out as int, fee as int, acc_in as int, amount as int).0,
        q.1 == exact_in_quote(r_in as int, r_out as int, fee as int, acc_in as int, amount as int).1,
{
    if amount == 0 || fee >= WAD {
        return (0, 0);
    }
    proof {
        lemma_mul_div_lt(amount as int, fee as int, WAD as int);
        lemma_mul_div_le(amount as int, fee as int, WAD as int);
    }
    let fee_amount: u128 = match mul_div_floor(amount, fee, WAD) {
        Some(f) => f,
        None => { return (0, 0); },
    };
    let net: u128 = amount - fee_amount;
    let new_in: u128 = match r_in.checked_add(net) {
        Some(v) => v,
        None => { return (0, 0); },
    };
    if acc_in.checked_add(fee_amount).is_none() {
        return (0, 0);
    }
    proof {
        lemma_mul_div_le(r_out as int, net as int, new_in as int);
    }
    let out: u128 = match mul_div_floor(r_out, net, new_in) {
        Some(v) => v,
        None => { return (0, 0); },
    };
    if out == 0 {
        (0, 0)
    } else {
        (out, fee_amount)
    }
}

/// Computes `exact_out_quote` on raw values.
pub fn quote_exact_out_raw(r_out: u128, r_in: u128, fee: u128, acc_in: u128, amount_out: u128) -> (q:
    (u128, u128))
    ensures
        q.0 == exact_out_quote(
            r_out as int,
            r_in as int,
            fee as int,
            acc_in as int,
            amount_out as int,
        ).0,
        q.1 == exact_out_quote(
            r_out as int,
            r_in as int,
            fee as int,
            acc_in as int,
            amount_out as int,
        ).1,
{
    if amount_out == 0 || amount_out >= r_out || fee >= WAD {
        return (0, 0);
    }
    let left: u128 = r_out - amount_out;
    let net: u128 = match mul_div_ceil(r_in, amount_out, left) {
        Some(v) => v,
        None => { return (0, 0); },
    };
    if net == 0 {
        return (0, 0);
    }
    if r_in.checked_add(net).is_none() {
        return (0, 0);
    }
    let gamma: u128 = WAD - fee;
    proof {
        lemma_gross_up_covers(net as int, fee as int);
    }
    let total: u128 = match mul_div_ceil(net, WAD, gamma) {
        Some(v) => v,
        None => { return (0, 0); },
    };
    let fee_amount: u128 = total - net;
    if acc_in.checked_add(fee_amount).is_none() {
        return (0, 0);
    }
    (total, fee_amount)
}

/// A grossed-up payment is at least the net amount it must cover.
pub proof fn lemma_gross_up_covers(net: int, fee: int)
    requires
        0 <= net,
        0 <= fee < WAD,
    ensures
        gross_up(net, fee) >= net,
{
    let g: int = WAD - fee;
    assert(net * WAD >= 0) by (nonlinear_arith)
        requires
            net >= 0,
    ;
    lemma_ceil_div(net * WAD, g);
    let c: int = ceil_div(net * WAD, g);
    assert(c >= net) by (nonlinear_arith)
        requires
            c * g >= net * WAD,
            0 < g <= WAD,
            net >= 0,
    ;
}

/// An accepted exact-input swap keeps within its reserves and never lowers
/// the product of the reserves; on a pool with liquidity it leaves some of
/// the output reserve behind.
pub proof fn lemma_exact_in_sound(r_in: int, r_out: int, fee: int, acc_in: int, amount: int)
    requires
        0 <= r_in,
        0 <= r_out,
        0 <= fee,
        0 <= acc_in,
    ensures
        ({
            let q = exact_in_quote(r_in, r_out, fee, acc_in, amount);
            q.0 > 0 ==> {
                &&& 0 <= q.1 < amount
                &&& 0 < q.0 <= r_out
                &&& r_in > 0 ==> q.0 < r_out
                &&& (r_in + (amount - q.1)) * (r_out - q.0) >= r_in * r_out
            }
        }),
        exact_in_quote(r_in, r_out, fee, acc_in, amount).0 >= 0,
        exact_in_quote(r_in, r_out, fee, acc_in, amount).0 == 0 ==> exact_in_quote(
            r_in,
            r_out,
            fee,
            acc_in,
            amount,
        ).1 == 0,
{
    let q = exact_in_quote(r_in, r_out, fee, acc_in, amount);
    if q.0 > 0 {
        lemma_mul_div_lt(amount, fee, WAD as int);
        lemma_mul_div_le(amount, fee, WAD as int);
        let net: int = amount - q.1;
        let d: int = r_in + net;
        lemma_mul_div_le(r_out, net, d);
        if r_in > 0 {
            lemma_mul_div_lt(r_out, net, d);
        }
        lemma_floor_bounds(r_out * net, d);
        assert(d * (r_out - q.0) >= r_in * r_out) by (nonlinear_arith)
            requires
                q.0 * d <= r_out * net,
                d == r_in + net,
        ;
    }
}

/// An accepted exact-output swap keeps within its reserves and never lowers
/// the product of the reserves.
pub proof fn lemma_exact_out_sound(r_out: int, r_in: int, fee: int, acc_in: int, amount_out: int)
    requires
        0 <= r_in,
        0 <= r_out,
        0 <= fee,
        0 <= acc_in,
    ensures
        ({
            let q = exact_out_quote(r_out, r_in, fee, acc_in, amount_out);
            q.0 > 0 ==> {
                &&& 0 < amount_out < r_out
                &&& 0 <= q.1 < q.0
                &&& r_in > 0
                &&& (r_out - amount_out) * (r_in + (q.0 - q.1)) >= r_out * r_in
            }
        }),
        exact_out_quote(r_out, r_in, fee, acc_in, amount_out).0 >= 0,
        exact_out_quote(r_out, r_in, fee, acc_in, amount_out).0 == 0 ==> exact_out_quote(
            r_out,
            r_in,
            fee,
            acc_in,
            amount_out,
        ).1 == 0,
{
    let q = exact_out_quote(r_out, r_in, fee, acc_in, amount_out);
    if !(amount_out <= 0 || amount_out >= r_out || fee >= WAD) {
        let left: int = r_out - amount_out;
        assert(r_in * amount_out >= 0) by (nonlinear_arith)
            requires
                r_in >= 0,
                amount_out > 0,
        ;
        lemma_ceil_div(r_in * amount_out, left);
        let net: int = net_in_for(r_out, r_in, amount_out);
        if r_in == 0 {
            assert(r_in * amount_out == 0) by (nonlinear_arith)
                requires
                    r_in == 0,
            ;
            vstd::arithmetic::div_mod::lemma_div_of0(left);
            vstd::arithmetic::div_mod::lemma_small_mod(0, left as nat);
            assert(net == 0);
        }
        vstd::arithmetic::div_mod::lemma_div_pos_is_pos(r_in * amount_out, left);
        if net >= 0 {
            lemma_gross_up_covers(net, fee);
        }
        if q.0 > 0 {
            assert(left * (r_in + net) >= r_out * r_in) by (nonlinear_arith)
                requires
                    net * left >= r_in * amount_out,
                    left == r_out - amount_out,
            ;
        }
    }
}

} // verus!
