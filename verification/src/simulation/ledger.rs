//! Valuation of trades and holdings at fair prices, and the running edge of
//! each of the two competing strategies.

use crate::amm::cfmm::{PoolView, CFMM};
use crate::amm::strategy::FeeStrategy;
use crate::market::arbitrageur::{ArbResult, ArbSide};
use crate::types::wad::{SignedWad, Wad};
use vstd::prelude::*;

verus! {

/// The pool's edge on a trade: the worth of what it received less the worth
/// of what it paid, both at fair prices, saturated.
pub open spec fn edge_of(received: int, price_received: int, paid: int, price_paid: int) -> int {
    SignedWad::saturate(Wad::worth(received, price_received) - Wad::worth(paid, price_paid))
}

/// Computes `edge_of`.
pub fn trade_edge(received: Wad, price_received: Wad, paid: Wad, price_paid: Wad) -> (e: SignedWad)
    ensures
        e.0 == edge_of(
            received.0 as int,
            price_received.0 as int,
            paid.0 as int,
            price_paid.0 as int,
        ),
{
    SignedWad::difference(received.value_at(price_received), paid.value_at(price_paid))
}

/// The pool's edge on an arbitrage, with X worth `price_x` and Y worth
/// `price_y`: on a buy the pool received X and paid Y, on a sell the reverse.
pub open spec fn arb_edge_of(result: ArbResult, price_x: int, price_y: int) -> int {
    match result.side {
        ArbSide::Buy => edge_of(
            result.amount_x.0 as int,
            price_x,
            result.amount_y.0 as int,
            price_y,
        ),
        ArbSide::Sell => edge_of(
            result.amount_y.0 as int,
            price_y,
            result.amount_x.0 as int,
            price_x,
        ),
    }
}

/// Computes `arb_edge_of`.
pub fn arb_edge(result: &ArbResult, price_x: Wad, price_y: Wad) -> (e: SignedWad)
    ensures
        e.0 == arb_edge_of(*result, price_x.0 as int, price_y.0 as int),
{
    match result.side {
        ArbSide::Buy => trade_edge(result.amount_x, price_x, result.amount_y, price_y),
        ArbSide::Sell => trade_edge(result.amount_y, price_y, result.amount_x, price_x),
    }
}

/// The worth of what a pool holds, with X worth `price_x` and Y worth
/// `price_y`: its reserves, and with `with_fees` its accumulated fees too.
/// Every sum is saturated.
pub open spec fn holdings_worth(v: PoolView, price_x: int, price_y: int, with_fees: bool) -> int {
    let x = if with_fees {
        Wad::saturate(v.reserve_x + v.fees_x)
    } else {
        v.reserve_x
    };
    let y = if with_fees {
        Wad::saturate(v.reserve_y + v.fees_y)
    } else {
        v.reserve_y
    };
    Wad::saturate(Wad::worth(x, price_x) + Wad::worth(y, price_y))
}

/// Computes `holdings_worth`.
pub fn holdings_value<S: FeeStrategy>(
    amm: &CFMM<S>,
    price_x: Wad,
    price_y: Wad,
    with_fees: bool,
) -> (w: Wad)
    ensures
        w.0 == holdings_worth(amm@, price_x.0 as int, price_y.0 as int, with_fees),
{
    let (rx, ry) = amm.reserves();
    let (fx, fy) = amm.accumulated_fees();
    let x = if with_fees {
        rx.saturating_add(fx)
    } else {
        rx
    };
    let y = if with_fees {
        ry.saturating_add(fy)
    } else {
        ry
    };
    x.value_at(price_x).saturating_add(y.value_at(price_y))
}

/// One signed total for each of the two competing strategies.
#[derive(Debug, Clone, Copy, PartialEq, Eq, Structural)]
pub struct Ledger {
    pub submission: SignedWad,
    pub normalizer: SignedWad,
}

impl Ledger {
    /// Both totals zero.
    pub fn new() -> (l: Ledger)
        ensures
            l.submission.0 == 0,
            l.normalizer.0 == 0,
    {
        Ledger { submission: SignedWad(0), normalizer: SignedWad(0) }
    }

    /// The ledger after `amount` went to the submission, if `to_submission`,
    /// or else to the normalizer; the total is saturated.
    pub open spec fn credited(self, to_submission: bool, amount: SignedWad) -> Ledger {
        if to_submission {
            Ledger {
                submission: SignedWad(
                    SignedWad::saturate(self.submission.0 + amount.0) as i128,
                ),
                ..self
            }
        } else {
            Ledger {
                normalizer: SignedWad(
                    SignedWad::saturate(self.normalizer.0 + amount.0) as i128,
                ),
                ..self
            }
        }
    }

    /// Computes `credited`.
    pub fn credit(&mut self, to_submission: bool, amount: SignedWad)
        ensures
            *final(self) == old(self).credited(to_submission, amount),
    {
        if to_submission {
            self.submission = self.submission.saturating_add(amount);
        } else {
            self.normalizer = self.normalizer.saturating_add(amount);
        }
    }
}

} // verus!
