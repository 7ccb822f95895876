//! Constant-product pool with strategy-set fees.
//!
//! Fees are collected into accumulators of their own and never join the
//! reserves, so they count toward profit without inflating `k`.

use crate::amm::curve::{
    exact_in_quote, exact_out_quote, lemma_exact_in_sound, lemma_exact_out_sound,
    quote_exact_in_raw, quote_exact_out_raw,
};
use crate::amm::strategy::{FeeStrategy, StrategyError};
use crate::math::wide::mul_div_floor;
use crate::types::trade_info::{v2_record, TradeInfo};
use crate::types::wad::{Wad, WAD};
use vstd::prelude::*;

verus! {

/// Fee a pool charges on either side until its strategy has spoken: 30 basis
/// points, as a raw value.
pub const STARTING_FEE: u128 = 3_000_000_000_000_000;

/// The two fees a pool currently charges.
#[derive(Debug, Clone, Copy, PartialEq, Eq, Structural)]
pub struct FeeQuote {
    /// Charged when the pool buys X.
    pub bid_fee: Wad,
    /// Charged when the pool sells X.
    pub ask_fee: Wad,
}

impl FeeQuote {
    pub fn new(bid_fee: Wad, ask_fee: Wad) -> (q: FeeQuote)
        ensures
            q.bid_fee == bid_fee,
            q.ask_fee == ask_fee,
    {
        FeeQuote { bid_fee, ask_fee }
    }

    pub fn symmetric(fee: Wad) -> (q: FeeQuote)
        ensures
            q.bid_fee == fee,
            q.ask_fee == fee,
    {
        FeeQuote { bid_fee: fee, ask_fee: fee }
    }

    /// Both fees are admissible, so that `1 - fee` is positive on either side.
    pub open spec fn is_clamped(self) -> bool {
        self.bid_fee.is_fee() && self.ask_fee.is_fee()
    }

    /// The quote a pool adopts when a strategy answers `(bid, ask)`.
    pub open spec fn clamped_from(bid: Wad, ask: Wad) -> FeeQuote {
        FeeQuote {
            bid_fee: if bid.is_fee() {
                bid
            } else {
                Wad(crate::types::wad::MAX_FEE)
            },
            ask_fee: if ask.is_fee() {
                ask
            } else {
                Wad(crate::types::wad::MAX_FEE)
            },
        }
    }

    /// Computes `clamped_from`.
    pub fn clamped(bid: Wad, ask: Wad) -> (q: FeeQuote)
        ensures
            q == FeeQuote::clamped_from(bid, ask),
            q.is_clamped(),
    {
        FeeQuote { bid_fee: bid.clamp_fee(), ask_fee: ask.clamp_fee() }
    }

    /// The quote and callback mode a pool is left with after a swap.
    ///
    /// `use_v2` is the mode before the swap; `v2` and `v1` are what the
    /// multi-asset and the single-pair callback answered, `None` standing
    /// for a callback that failed or was not consulted. In multi-asset mode
    /// the multi-asset answer wins; if there is none, the single-pair answer
    /// is taken. With no answer at all the quote stays as it was. The mode
    /// never changes: it is fixed when the pool is initialized.
    pub open spec fn after_swap_answers(
        self,
        use_v2: bool,
        v2: Option<(Wad, Wad)>,
        v1: Option<(Wad, Wad)>,
    ) -> (FeeQuote, bool) {
        match (v2, v1) {
            (Some((bid, ask)), _) if use_v2 => (FeeQuote::clamped_from(bid, ask), true),
            (_, Some((bid, ask))) => (FeeQuote::clamped_from(bid, ask), use_v2),
            _ => (self, use_v2),
        }
    }

    /// Computes `after_swap_answers`.
    pub fn refreshed(self, use_v2: bool, v2: Option<(Wad, Wad)>, v1: Option<(Wad, Wad)>) -> (r: (
        FeeQuote,
        bool,
    ))
        ensures
            r == self.after_swap_answers(use_v2, v2, v1),
            self.is_clamped() ==> r.0.is_clamped(),
            r.1 == use_v2,
    {
        if use_v2 {
            if let Some((bid, ask)) = v2 {
                return (FeeQuote::clamped(bid, ask), use_v2);
            }
        }
        if let Some((bid, ask)) = v1 {
            return (FeeQuote::clamped(bid, ask), use_v2);
        }
        (self, use_v2)
    }
}

/// Result of a trade execution.
#[derive(Debug, Clone, Copy, PartialEq, Eq, Structural)]
pub struct TradeResult {
    pub trade_info: TradeInfo,
    /// Fee kept by the pool, in the token the trader paid.
    pub fee_amount: Wad,
}

/// What a pool is, holds and charges, as plain values.
pub struct PoolView {
    pub pool_id: usize,
    pub token_a: usize,
    pub token_b: usize,
    pub name: Seq<char>,
    pub reserve_x: int,
    pub reserve_y: int,
    pub fees_x: int,
    pub fees_y: int,
    pub fees: FeeQuote,
    pub initialized: bool,
    pub use_v2: bool,
}

impl PoolView {
    /// A pool that has not traded yet: the given reserves, empty
    /// accumulators, the starting fee on either side, not initialized.
    pub open spec fn fresh(
        name: Seq<char>,
        reserve_x: Wad,
        reserve_y: Wad,
        token_a: usize,
        token_b: usize,
        pool_id: usize,
    ) -> PoolView {
        PoolView {
            pool_id,
            token_a,
            token_b,
            name,
            reserve_x: reserve_x.0 as int,
            reserve_y: reserve_y.0 as int,
            fees_x: 0,
            fees_y: 0,
            fees: FeeQuote { bid_fee: Wad(STARTING_FEE), ask_fee: Wad(STARTING_FEE) },
            initialized: false,
            use_v2: false,
        }
    }

    /// Whether the pool connects `token_in` and `token_out`, in either order.
    pub open spec fn connects(self, token_in: usize, token_out: usize) -> bool {
        (self.token_a == token_in && self.token_b == token_out) || (self.token_b == token_in
            && self.token_a == token_out)
    }

    /// Both reserves are positive.
    pub open spec fn has_liquidity(self) -> bool {
        self.reserve_x > 0 && self.reserve_y > 0
    }

    /// Quote for the pool buying `amount` of X: `(y_out, fee_in_x)`.
    pub open spec fn buy_x_quote(self, amount: int) -> (int, int) {
        exact_in_quote(
            self.reserve_x,
            self.reserve_y,
            self.fees.bid_fee.0 as int,
            self.fees_x,
            amount,
        )
    }

    /// Quote for the pool selling `amount` of X: `(y_in_total, fee_in_y)`.
    pub open spec fn sell_x_quote(self, amount: int) -> (int, int) {
        exact_out_quote(
            self.reserve_x,
            self.reserve_y,
            self.fees.ask_fee.0 as int,
            self.fees_y,
            amount,
        )
    }

    /// Quote for a trader paying `amount` of Y for X: `(x_out, fee_in_y)`.
    pub open spec fn x_for_y_quote(self, amount: int) -> (int, int) {
        exact_in_quote(
            self.reserve_y,
            self.reserve_x,
            self.fees.ask_fee.0 as int,
            self.fees_y,
            amount,
        )
    }

    /// Quote for paying `amount` of `token_in` for `token_out` on a pool that
    /// connects the two: `(amount_out, fee_in_token_in)`. Paying X is the
    /// pool buying X; paying Y is a purchase of X with Y.
    pub open spec fn exact_in(self, token_in: usize, token_out: usize, amount: int) -> (int, int) {
        if token_in == self.token_a && token_out == self.token_b {
            self.buy_x_quote(amount)
        } else {
            self.x_for_y_quote(amount)
        }
    }

    /// Reserves and accumulators after the pool bought `amount` of X.
    pub open spec fn after_buy_x(self, amount: int) -> PoolView {
        let q = self.buy_x_quote(amount);
        PoolView {
            reserve_x: self.reserve_x + amount - q.1,
            reserve_y: self.reserve_y - q.0,
            fees_x: self.fees_x + q.1,
            ..self
        }
    }

    /// Reserves and accumulators after the pool sold `amount` of X.
    pub open spec fn after_sell_x(self, amount: int) -> PoolView {
        let q = self.sell_x_quote(amount);
        PoolView {
            reserve_x: self.reserve_x - amount,
            reserve_y: self.reserve_y + q.0 - q.1,
            fees_y: self.fees_y + q.1,
            ..self
        }
    }

    /// Reserves and accumulators after a trader paid `amount` of Y for X.
    pub open spec fn after_x_for_y(self, amount: int) -> PoolView {
        let q = self.x_for_y_quote(amount);
        PoolView {
            reserve_x: self.reserve_x - q.0,
            reserve_y: self.reserve_y + amount - q.1,
            fees_y: self.fees_y + q.1,
            ..self
        }
    }

    /// The price of X in Y at which the pool stands, `reserve_y / reserve_x`
    /// rounded down; zero for an empty X side, and the largest raw value
    /// where the ratio exceeds it.
    pub open spec fn spot(self) -> int {
        if self.reserve_x == 0 {
            0
        } else if (self.reserve_y * WAD) / self.reserve_x > u128::MAX {
            u128::MAX as int
        } else {
            (self.reserve_y * WAD) / self.reserve_x
        }
    }

    /// The constant product `reserve_x * reserve_y` as a fixed-point number,
    /// rounded down, and the largest raw value where the product exceeds it.
    pub open spec fn product(self) -> int {
        if (self.reserve_x * self.reserve_y) / (WAD as int) > u128::MAX {
            u128::MAX as int
        } else {
            (self.reserve_x * self.reserve_y) / (WAD as int)
        }
    }

    /// Reserves and accumulators are raw values.
    pub open spec fn is_raw(self) -> bool {
        &&& 0 <= self.reserve_x <= u128::MAX
        &&& 0 <= self.reserve_y <= u128::MAX
        &&& 0 <= self.fees_x <= u128::MAX
        &&& 0 <= self.fees_y <= u128::MAX
    }

    /// What executing a purchase of `amount` of X by the pool at
    /// `timestamp` records: nothing where the quote is zero, and otherwise
    /// the amounts of the quote and the reserves after the trade.
    pub open spec fn buy_x_trade(self, amount: Wad, timestamp: u64) -> Option<TradeResult> {
        let q = self.buy_x_quote(amount.0 as int);
        let after = self.after_buy_x(amount.0 as int);
        if q.0 > 0 {
            Some(
                TradeResult {
                    trade_info: TradeInfo {
                        is_buy: true,
                        amount_x: amount,
                        amount_y: Wad(q.0 as u128),
                        timestamp,
                        reserve_x: Wad(after.reserve_x as u128),
                        reserve_y: Wad(after.reserve_y as u128),
                    },
                    fee_amount: Wad(q.1 as u128),
                },
            )
        } else {
            None
        }
    }

    /// What executing a sale of `amount` of X by the pool at `timestamp`
    /// records.
    pub open spec fn sell_x_trade(self, amount: Wad, timestamp: u64) -> Option<TradeResult> {
        let q = self.sell_x_quote(amount.0 as int);
        let after = self.after_sell_x(amount.0 as int);
        if q.0 > 0 {
            Some(
                TradeResult {
                    trade_info: TradeInfo {
                        is_buy: false,
                        amount_x: amount,
                        amount_y: Wad(q.0 as u128),
                        timestamp,
                        reserve_x: Wad(after.reserve_x as u128),
                        reserve_y: Wad(after.reserve_y as u128),
                    },
                    fee_amount: Wad(q.1 as u128),
                },
            )
        } else {
            None
        }
    }

    /// What executing a purchase of X with `amount` of Y at `timestamp`
    /// records.
    pub open spec fn x_for_y_trade(self, amount: Wad, timestamp: u64) -> Option<TradeResult> {
        let q = self.x_for_y_quote(amount.0 as int);
        let after = self.after_x_for_y(amount.0 as int);
        if q.0 > 0 {
            Some(
                TradeResult {
                    trade_info: TradeInfo {
                        is_buy: false,
                        amount_x: Wad(q.0 as u128),
                        amount_y: amount,
                        timestamp,
                        reserve_x: Wad(after.reserve_x as u128),
                        reserve_y: Wad(after.reserve_y as u128),
                    },
                    fee_amount: Wad(q.1 as u128),
                },
            )
        } else {
            None
        }
    }

    /// Reserves and accumulators after `amount` of `token_in` was paid for
    /// `token_out`.
    pub open spec fn after_exact_in(self, token_in: usize, token_out: usize, amount: int) -> PoolView {
        if token_in == self.token_a && token_out == self.token_b {
            self.after_buy_x(amount)
        } else {
            self.after_x_for_y(amount)
        }
    }

    /// The pool after an initialization callback answered `answer`, asked
    /// in multi-asset mode if `v2`: an answer is clamped and adopted, and the
    /// pool is initialized in the mode it was asked in; a failure changes
    /// nothing.
    pub open spec fn started(self, answer: Result<(Wad, Wad), StrategyError>, v2: bool) -> PoolView {
        match answer {
            Ok((bid, ask)) => PoolView {
                fees: FeeQuote::clamped_from(bid, ask),
                initialized: true,
                use_v2: v2,
                ..self
            },
            Err(_) => self,
        }
    }

    /// `self` is a later state of the pool `before`: the same pool, with a
    /// product of reserves that is no smaller and accumulators that are no
    /// smaller.
    pub open spec fn follows(self, before: PoolView) -> bool {
        &&& self.pool_id == before.pool_id
        &&& self.token_a == before.token_a
        &&& self.token_b == before.token_b
        &&& self.name == before.name
        &&& self.reserve_x * self.reserve_y >= before.reserve_x * before.reserve_y
        &&& self.fees_x >= before.fees_x
        &&& self.fees_y >= before.fees_y
    }

    /// `self` and `other` hold the same reserves and accumulators.
    pub open spec fn same_holdings(self, other: PoolView) -> bool {
        &&& self.reserve_x == other.reserve_x
        &&& self.reserve_y == other.reserve_y
        &&& self.fees_x == other.fees_x
        &&& self.fees_y == other.fees_y
    }

    /// What one executed trade may change besides the holdings: the strategy
    /// may have set new fees, always clamped. The callback mode stays.
    pub open spec fn refreshed_from(self, before: PoolView) -> bool {
        &&& self.pool_id == before.pool_id
        &&& self.token_a == before.token_a
        &&& self.token_b == before.token_b
        &&& self.name == before.name
        &&& self.fees.is_clamped()
        &&& self.initialized == before.initialized
        &&& self.use_v2 == before.use_v2
    }
}

/// Constant Function Market Maker with dynamic fees.
///
/// X is `token_a` and Y is `token_b`.
pub struct CFMM<S: FeeStrategy> {
    /// Pool identifier (used in multi-asset mode)
    pub pool_id: usize,
    /// First token index in pair (the X side)
    pub token_a: usize,
    /// Second token index in pair (the Y side)
    pub token_b: usize,
    /// Strategy name
    pub name: String,
    strategy: S,
    reserve_x: Wad,
    reserve_y: Wad,
    current_fees: FeeQuote,
    initialized: bool,
    use_v2_callbacks: bool,
    accumulated_fees_x: Wad,
    accumulated_fees_y: Wad,
}

impl<S: FeeStrategy> View for CFMM<S> {
    type V = PoolView;

    closed spec fn view(&self) -> PoolView {
        PoolView {
            pool_id: self.pool_id,
            token_a: self.token_a,
            token_b: self.token_b,
            name: self.name@,
            reserve_x: self.reserve_x.0 as int,
            reserve_y: self.reserve_y.0 as int,
            fees_x: self.accumulated_fees_x.0 as int,
            fees_y: self.accumulated_fees_y.0 as int,
            fees: self.current_fees,
            initialized: self.initialized,
            use_v2: self.use_v2_callbacks,
        }
    }
}

impl<S: FeeStrategy> CFMM<S> {
    /// The fees in force are clamped. Every pool made by `new` or
    /// `new_with_pair` is well formed, and every method keeps it so.
    pub open spec fn wf(&self) -> bool {
        self@.fees.is_clamped()
    }

    /// The strategy instance the pool owns and consults.
    pub closed spec fn owned_strategy(&self) -> S {
        self.strategy
    }

    /// What a pool holds are raw values.
    pub proof fn lemma_view_in_range(&self)
        ensures
            0 <= self@.reserve_x <= u128::MAX,
            0 <= self@.reserve_y <= u128::MAX,
            0 <= self@.fees_x <= u128::MAX,
            0 <= self@.fees_y <= u128::MAX,
    {
    }

    /// Create a new pool on the pair (0, 1) with the given strategy and reserves.
    pub fn new(strategy: S, reserve_x: Wad, reserve_y: Wad) -> (pool: Self)
        ensures
            pool.wf(),
            pool.owned_strategy() == strategy,
            pool@ == PoolView::fresh(pool@.name, reserve_x, reserve_y, 0, 1, 0),
    {
        Self::new_with_pair(strategy, reserve_x, reserve_y, 0, 1, 0)
    }

    /// Create a new pool with explicit token pair metadata. It starts with a
    /// fee of 30 basis points on either side, empty accumulators, and not
    /// yet initialized.
    pub fn new_with_pair(
        strategy: S,
        reserve_x: Wad,
        reserve_y: Wad,
        token_a: usize,
        token_b: usize,
        pool_id: usize,
    ) -> (pool: Self)
        ensures
            pool.wf(),
            pool.owned_strategy() == strategy,
            pool@ == PoolView::fresh(pool@.name, reserve_x, reserve_y, token_a, token_b, pool_id),
    {
        let name = strategy.name();
        CFMM {
            pool_id,
            token_a,
            token_b,
            name,
            strategy,
            reserve_x,
            reserve_y,
            current_fees: FeeQuote::symmetric(Wad(STARTING_FEE)),
            initialized: false,
            use_v2_callbacks: false,
            accumulated_fees_x: Wad(0),
            accumulated_fees_y: Wad(0),
        }
    }

    /// Returns true when this pool directly connects token_in -> token_out.
    pub fn supports_pair(&self, token_in: usize, token_out: usize) -> (b: bool)
        ensures
            b == self@.connects(token_in, token_out),
    {
        (self.token_a == token_in && self.token_b == token_out) || (self.token_b == token_in
            && self.token_a == token_out)
    }

    /// The pool identifier.
    pub fn id(&self) -> (r: usize)
        ensures
            r == self@.pool_id,
    {
        self.pool_id
    }

    /// The two token indices, X side first.
    pub fn tokens(&self) -> (r: (usize, usize))
        ensures
            r.0 == self@.token_a,
            r.1 == self@.token_b,
    {
        (self.token_a, self.token_b)
    }

    /// The pool's name.
    pub fn name(&self) -> (n: String)
        ensures
            n@ == self@.name,
    {
        self.name.clone()
    }

    /// Renames the pool.
    pub fn set_name(&mut self, name: String)
        ensures
            final(self)@ == (PoolView { name: name@, ..old(self)@ }),
            final(self).owned_strategy() == old(self).owned_strategy(),
    {
        self.name = name;
    }

    /// Get current reserves.
    pub fn reserves(&self) -> (r: (Wad, Wad))
        ensures
            r.0.0 == self@.reserve_x,
            r.1.0 == self@.reserve_y,
    {
        (self.reserve_x, self.reserve_y)
    }

    /// Get current fees.
    pub fn fees(&self) -> (q: FeeQuote)
        ensures
            q == self@.fees,
    {
        self.current_fees
    }

    /// Get accumulated fees (collected separately from reserves).
    pub fn accumulated_fees(&self) -> (r: (Wad, Wad))
        ensures
            r.0.0 == self@.fees_x,
            r.1.0 == self@.fees_y,
    {
        (self.accumulated_fees_x, self.accumulated_fees_y)
    }

    /// Whether the strategy has answered an initialization callback.
    pub fn is_initialized(&self) -> (b: bool)
        ensures
            b == self@.initialized,
    {
        self.initialized
    }

    /// Whether the pool currently consults the multi-asset callbacks.
    pub fn uses_v2_callbacks(&self) -> (b: bool)
        ensures
            b == self@.use_v2,
    {
        self.use_v2_callbacks
    }

    /// Get current spot price (Y per X).
    pub fn spot_price(&self) -> (p: Wad)
        ensures
            p.0 == self@.spot(),
    {
        if self.reserve_x.0 == 0 {
            return Wad(0);
        }
        match mul_div_floor(self.reserve_y.0, WAD, self.reserve_x.0) {
            Some(p) => Wad(p),
            None => Wad(u128::MAX),
        }
    }

    /// Get current k (constant product).
    pub fn k(&self) -> (k: Wad)
        ensures
            k.0 == self@.product(),
    {
        match mul_div_floor(self.reserve_x.0, self.reserve_y.0, WAD) {
            Some(k) => Wad(k),
            None => Wad(u128::MAX),
        }
    }

    /// Fast quote for AMM buying X (trader selling X).
    ///
    /// Returns (y_out, fee_amount) or (0, 0) if invalid.
    pub fn quote_buy_x(&self, amount_x: Wad) -> (q: (Wad, Wad))
        ensures
            q.0.0 == self@.buy_x_quote(amount_x.0 as int).0,
            q.1.0 == self@.buy_x_quote(amount_x.0 as int).1,
    {
        let (out, fee) = quote_exact_in_raw(
            self.reserve_x.0,
            self.reserve_y.0,
            self.current_fees.bid_fee.0,
            self.accumulated_fees_x.0,
            amount_x.0,
        );
        (Wad(out), Wad(fee))
    }

    /// Fast quote for AMM selling X (trader buying X).
    ///
    /// Returns (total_y_in, fee_amount) or (0, 0) if invalid.
    pub fn quote_sell_x(&self, amount_x: Wad) -> (q: (Wad, Wad))
        ensures
            q.0.0 == self@.sell_x_quote(amount_x.0 as int).0,
            q.1.0 == self@.sell_x_quote(amount_x.0 as int).1,
    {
        let (total, fee) = quote_exact_out_raw(
            self.reserve_x.0,
            self.reserve_y.0,
            self.current_fees.ask_fee.0,
            self.accumulated_fees_y.0,
            amount_x.0,
        );
        (Wad(total), Wad(fee))
    }

    /// Fast quote for Y input to X output.
    ///
    /// Returns (x_out, fee_amount) or (0, 0) if invalid.
    pub fn quote_x_for_y(&self, amount_y: Wad) -> (q: (Wad, Wad))
        ensures
            q.0.0 == self@.x_for_y_quote(amount_y.0 as int).0,
            q.1.0 == self@.x_for_y_quote(amount_y.0 as int).1,
    {
        let (out, fee) = quote_exact_in_raw(
            self.reserve_y.0,
            self.reserve_x.0,
            self.current_fees.ask_fee.0,
            self.accumulated_fees_y.0,
            amount_y.0,
        );
        (Wad(out), Wad(fee))
    }

    /// Quote exact-input swap for arbitrary token direction.
    ///
    /// Returns (amount_out, fee_amount_in_token_in).
    pub fn quote_exact_in(&self, token_in: usize, token_out: usize, amount_in: Wad) -> (q: Option<
        (Wad, Wad),
    >)
        ensures
            q is Some <==> amount_in.0 > 0 && self@.connects(token_in, token_out),
            q matches Some(r) ==> r.0.0 == self@.exact_in(token_in, token_out, amount_in.0 as int).0
                && r.1.0 == self@.exact_in(token_in, token_out, amount_in.0 as int).1,
    {
        if amount_in.0 == 0 || !self.supports_pair(token_in, token_out) {
            return None;
        }
        if token_in == self.token_a && token_out == self.token_b {
            let (out, fee) = self.quote_buy_x(amount_in);
            return Some((out, fee));
        }
        let (out, fee) = self.quote_x_for_y(amount_in);
        Some((out, fee))
    }
    /// What the multi-asset initialization callback is handed: the reserves
    /// of A and B, the pool's number, and its two tokens.
    pub fn v2_context(&self) -> (c: (Wad, Wad, u64, u64, u64))
        ensures
            c.0.0 == self@.reserve_x,
            c.1.0 == self@.reserve_y,
            c.2 == self@.pool_id as u64,
            c.3 == self@.token_a as u64,
            c.4 == self@.token_b as u64,
    {
        (
            self.reserve_x,
            self.reserve_y,
            self.pool_id as u64,
            self.token_a as u64,
            self.token_b as u64,
        )
    }

    /// Takes up what an initialization callback answered, asked in
    /// multi-asset mode if `v2`: the pool becomes `started(answer, v2)`, and
    /// a failure is handed back as it came.
    pub fn adopt(&mut self, answer: Result<(Wad, Wad), StrategyError>, v2: bool) -> (r: Result<
        (),
        StrategyError,
    >)
        requires
            old(self).wf(),
        ensures
            final(self).wf(),
            final(self)@ == old(self)@.started(answer, v2),
            final(self).owned_strategy() == old(self).owned_strategy(),
            match answer {
                Ok(_) => r is Ok,
                Err(e) => r == Err::<(), StrategyError>(e),
            },
    {
        match answer {
            Ok((bid_fee, ask_fee)) => {
                self.current_fees = FeeQuote::clamped(bid_fee, ask_fee);
                self.initialized = true;
                self.use_v2_callbacks = v2;
                Ok(())
            },
            Err(e) => Err(e),
        }
    }

    /// Initialize the AMM and get starting fees from strategy.
    ///
    /// An answer is clamped and adopted, and the pool is initialized in
    /// single-pair mode; a failure is handed back and changes nothing.
    pub fn initialize(&mut self) -> (r: Result<(), StrategyError>)
        requires
            old(self).wf(),
        ensures
            final(self).wf(),
            r is Err ==> final(self)@ == old(self)@,
            r is Ok ==> final(self)@ == (PoolView {
                fees: final(self)@.fees,
                initialized: true,
                use_v2: false,
                ..old(self)@
            }),
    {
        let answer = self.strategy.after_initialize(self.reserve_x, self.reserve_y);
        self.adopt(answer, false)
    }

    /// Initialize using V2 callback with context, with fallback to V1.
    ///
    /// If the multi-asset callback answers, the pool is initialized in
    /// multi-asset mode; otherwise it is initialized as by `initialize`.
    pub fn initialize_v2_or_fallback(&mut self) -> (r: Result<(), StrategyError>)
        requires
            old(self).wf(),
        ensures
            final(self).wf(),
            r is Err ==> final(self)@ == old(self)@,
            r is Ok ==> final(self)@ == (PoolView {
                fees: final(self)@.fees,
                initialized: true,
                use_v2: final(self)@.use_v2,
                ..old(self)@
            }),
    {
        let (reserve_a, reserve_b, pool_id, token_a, token_b) = self.v2_context();
        let answer = self.strategy.after_initialize_v2(
            reserve_a,
            reserve_b,
            pool_id,
            token_a,
            token_b,
        );
        if answer.is_ok() {
            self.adopt(answer, true)
        } else {
            self.initialize()
        }
    }

    /// Update fees from strategy after a trade.
    ///
    /// In multi-asset mode the strategy is handed `v2_record` of the trade
    /// and asked through the multi-asset callback first; the single-pair
    /// callback, handed the trade itself, is asked where that fails or the
    /// pool is in single-pair mode. What the answers do is
    /// `FeeQuote::refreshed`.
    fn update_fees(&mut self, trade_info: &TradeInfo)
        requires
            old(self).wf(),
        ensures
            final(self)@.same_holdings(old(self)@),
            final(self)@.refreshed_from(old(self)@),
    {
        let v2: Option<(Wad, Wad)> = if self.use_v2_callbacks {
            let trade_v2 = v2_record(trade_info, self.pool_id, self.token_a, self.token_b);
            self.strategy.after_swap_v2(&trade_v2).ok()
        } else {
            None
        };
        let v1: Option<(Wad, Wad)> = if v2.is_none() {
            self.strategy.after_swap(trade_info).ok()
        } else {
            None
        };
        let (fees, mode) = self.current_fees.refreshed(self.use_v2_callbacks, v2, v1);
        self.current_fees = fees;
        self.use_v2_callbacks = mode;
    }

    /// Execute trade where AMM buys X (trader sells X for Y).
    ///
    /// The trade goes through exactly when its quote is not zero. It then
    /// moves the input less the fee into the X reserve, the fee into the X
    /// accumulator and the output out of the Y reserve, and asks the strategy
    /// for new fees.
    pub fn execute_buy_x(&mut self, amount_x: Wad, timestamp: u64) -> (r: Option<TradeResult>)
        requires
            old(self).wf(),
        ensures
            final(self).wf(),
            r == old(self)@.buy_x_trade(amount_x, timestamp),
            r is Some <==> old(self)@.buy_x_quote(amount_x.0 as int).0 > 0,
            r is None ==> final(self)@ == old(self)@,
            r matches Some(t) ==> {
                &&& t.fee_amount.0 == old(self)@.buy_x_quote(amount_x.0 as int).1
                &&& t.trade_info.is_buy
                &&& t.trade_info.amount_x == amount_x
                &&& t.trade_info.amount_y.0 == old(self)@.buy_x_quote(amount_x.0 as int).0
                &&& t.trade_info.timestamp == timestamp
                &&& t.trade_info.reserve_x.0 == final(self)@.reserve_x
                &&& t.trade_info.reserve_y.0 == final(self)@.reserve_y
                &&& final(self)@.same_holdings(old(self)@.after_buy_x(amount_x.0 as int))
                &&& final(self)@.refreshed_from(old(self)@)
                &&& final(self)@.fees_x >= old(self)@.fees_x
                &&& old(self)@.has_liquidity() ==> final(self)@.has_liquidity()
                &&& final(self)@.reserve_x * final(self)@.reserve_y >= old(self)@.reserve_x * old(
                    self,
                )@.reserve_y
            },
    {
        let (y_out, fee_amount) = self.quote_buy_x(amount_x);
        if y_out.0 == 0 {
            return None;
        }
        proof {
            lemma_exact_in_sound(
                self@.reserve_x,
                self@.reserve_y,
                self@.fees.bid_fee.0 as int,
                self@.fees_x,
                amount_x.0 as int,
            );
        }
        let net_x: u128 = amount_x.0 - fee_amount.0;
        self.reserve_x = Wad(self.reserve_x.0 + net_x);
        self.accumulated_fees_x = Wad(self.accumulated_fees_x.0 + fee_amount.0);
        self.reserve_y = Wad(self.reserve_y.0 - y_out.0);
        let trade_info = TradeInfo::new(
            true,
            amount_x,
            y_out,
            timestamp,
            self.reserve_x,
            self.reserve_y,
        );
        self.update_fees(&trade_info);
        Some(TradeResult { trade_info, fee_amount })
    }
    /// Execute trade where AMM sells X (trader buys X with Y).
    ///
    /// The trade goes through exactly when its quote is not zero. It then
    /// moves `amount_x` out of the X reserve, the payment less the fee into
    /// the Y reserve and the fee into the Y accumulator, and asks the
    /// strategy for new fees.
    pub fn execute_sell_x(&mut self, amount_x: Wad, timestamp: u64) -> (r: Option<TradeResult>)
        requires
            old(self).wf(),
        ensures
            final(self).wf(),
            r == old(self)@.sell_x_trade(amount_x, timestamp),
            r is Some <==> old(self)@.sell_x_quote(amount_x.0 as int).0 > 0,
            r is None ==> final(self)@ == old(self)@,
            r matches Some(t) ==> {
                &&& t.fee_amount.0 == old(self)@.sell_x_quote(amount_x.0 as int).1
                &&& !t.trade_info.is_buy
                &&& t.trade_info.amount_x == amount_x
                &&& t.trade_info.amount_y.0 == old(self)@.sell_x_quote(amount_x.0 as int).0
                &&& t.trade_info.timestamp == timestamp
                &&& t.trade_info.reserve_x.0 == final(self)@.reserve_x
                &&& t.trade_info.reserve_y.0 == final(self)@.reserve_y
                &&& final(self)@.same_holdings(old(self)@.after_sell_x(amount_x.0 as int))
                &&& final(self)@.refreshed_from(old(self)@)
                &&& final(self)@.fees_y >= old(self)@.fees_y
                &&& final(self)@.has_liquidity()
                &&& final(self)@.reserve_x * final(self)@.reserve_y >= old(self)@.reserve_x * old(
                    self,
                )@.reserve_y
            },
    {
        let (total_y, fee_amount) = self.quote_sell_x(amount_x);
        if total_y.0 == 0 {
            return None;
        }
        proof {
            lemma_exact_out_sound(
                self@.reserve_x,
                self@.reserve_y,
                self@.fees.ask_fee.0 as int,
                self@.fees_y,
                amount_x.0 as int,
            );
        }
        let net_y: u128 = total_y.0 - fee_amount.0;
        self.reserve_x = Wad(self.reserve_x.0 - amount_x.0);
        self.reserve_y = Wad(self.reserve_y.0 + net_y);
        self.accumulated_fees_y = Wad(self.accumulated_fees_y.0 + fee_amount.0);
        let trade_info = TradeInfo::new(
            false,
            amount_x,
            total_y,
            timestamp,
            self.reserve_x,
            self.reserve_y,
        );
        self.update_fees(&trade_info);
        Some(TradeResult { trade_info, fee_amount })
    }

    /// Execute trade where trader pays Y to receive X.
    ///
    /// The trade goes through exactly when its quote is not zero. It then
    /// moves the input less the fee into the Y reserve, the fee into the Y
    /// accumulator and the output out of the X reserve, and asks the strategy
    /// for new fees.
    pub fn execute_buy_x_with_y(&mut self, amount_y: Wad, timestamp: u64) -> (r: Option<
        TradeResult,
    >)
        requires
            old(self).wf(),
        ensures
            final(self).wf(),
            r == old(self)@.x_for_y_trade(amount_y, timestamp),
            r is Some <==> old(self)@.x_for_y_quote(amount_y.0 as int).0 > 0,
            r is None ==> final(self)@ == old(self)@,
            r matches Some(t) ==> {
                &&& t.fee_amount.0 == old(self)@.x_for_y_quote(amount_y.0 as int).1
                &&& !t.trade_info.is_buy
                &&& t.trade_info.amount_x.0 == old(self)@.x_for_y_quote(amount_y.0 as int).0
                &&& t.trade_info.amount_y == amount_y
                &&& t.trade_info.timestamp == timestamp
                &&& t.trade_info.reserve_x.0 == final(self)@.reserve_x
                &&& t.trade_info.reserve_y.0 == final(self)@.reserve_y
                &&& final(self)@.same_holdings(old(self)@.after_x_for_y(amount_y.0 as int))
                &&& final(self)@.refreshed_from(old(self)@)
                &&& final(self)@.fees_y >= old(self)@.fees_y
                &&& old(self)@.has_liquidity() ==> final(self)@.has_liquidity()
                &&& final(self)@.reserve_x * final(self)@.reserve_y >= old(self)@.reserve_x * old(
                    self,
                )@.reserve_y
            },
    {
        let (x_out, fee_amount) = self.quote_x_for_y(amount_y);
        if x_out.0 == 0 {
            return None;
        }
        proof {
            lemma_exact_in_sound(
                self@.reserve_y,
                self@.reserve_x,
                self@.fees.ask_fee.0 as int,
                self@.fees_y,
                amount_y.0 as int,
            );
            let net: int = amount_y.0 - fee_amount.0;
            assert((self@.reserve_x - x_out.0) * (self@.reserve_y + net) == (self@.reserve_y + net)
                * (self@.reserve_x - x_out.0)) by (nonlinear_arith);
            assert(self@.reserve_x * self@.reserve_y == self@.reserve_y * self@.reserve_x)
                by (nonlinear_arith);
        }
        let net_y: u128 = amount_y.0 - fee_amount.0;
        self.reserve_x = Wad(self.reserve_x.0 - x_out.0);
        self.reserve_y = Wad(self.reserve_y.0 + net_y);
        self.accumulated_fees_y = Wad(self.accumulated_fees_y.0 + fee_amount.0);
        let trade_info = TradeInfo::new(
            false,
            x_out,
            amount_y,
            timestamp,
            self.reserve_x,
            self.reserve_y,
        );
        self.update_fees(&trade_info);
        Some(TradeResult { trade_info, fee_amount })
    }

    /// Execute an exact-input swap in arbitrary token direction.
    ///
    /// Returns (amount_out, is_buy_from_amm_perspective) on success: paying
    /// X is the pool buying X, paying Y is a purchase of X with Y, and any
    /// other pair of tokens is refused.
    pub fn execute_exact_in(
        &mut self,
        token_in: usize,
        token_out: usize,
        amount_in: Wad,
        timestamp: u64,
    ) -> (r: Option<(Wad, bool)>)
        requires
            old(self).wf(),
        ensures
            final(self).wf(),
            r is Some <==> old(self)@.connects(token_in, token_out) && old(self)@.exact_in(
                token_in,
                token_out,
                amount_in.0 as int,
            ).0 > 0,
            r is None ==> final(self)@ == old(self)@,
            r matches Some(t) ==> {
                &&& t.0.0 == old(self)@.exact_in(token_in, token_out, amount_in.0 as int).0
                &&& t.1 == (token_in == old(self)@.token_a && token_out == old(self)@.token_b)
                &&& final(self)@.same_holdings(
                    old(self)@.after_exact_in(token_in, token_out, amount_in.0 as int),
                )
                &&& final(self)@.refreshed_from(old(self)@)
                &&& final(self)@.fees_x >= old(self)@.fees_x
                &&& final(self)@.fees_y >= old(self)@.fees_y
                &&& old(self)@.has_liquidity() ==> final(self)@.has_liquidity()
                &&& final(self)@.reserve_x * final(self)@.reserve_y >= old(self)@.reserve_x * old(
                    self,
                )@.reserve_y
            },
    {
        if token_in == self.token_a && token_out == self.token_b {
            return match self.execute_buy_x(amount_in, timestamp) {
                Some(result) => Some((result.trade_info.amount_y, true)),
                None => None,
            };
        }
        if token_in == self.token_b && token_out == self.token_a {
            return match self.execute_buy_x_with_y(amount_in, timestamp) {
                Some(result) => Some((result.trade_info.amount_x, false)),
                None => None,
            };
        }
        None
    }

    /// Reset the AMM for a new simulation: new reserves, empty
    /// accumulators, not initialized, single-pair mode. The fees stay, and
    /// the strategy is told to reset; its answer is handed back.
    pub fn reset(&mut self, reserve_x: Wad, reserve_y: Wad) -> (r: Result<(), StrategyError>)
        requires
            old(self).wf(),
        ensures
            final(self).wf(),
            final(self)@ == (PoolView {
                reserve_x: reserve_x.0 as int,
                reserve_y: reserve_y.0 as int,
                fees_x: 0,
                fees_y: 0,
                initialized: false,
                use_v2: false,
                ..old(self)@
            }),
    {
        self.reserve_x = reserve_x;
        self.reserve_y = reserve_y;
        self.accumulated_fees_x = Wad(0);
        self.accumulated_fees_y = Wad(0);
        self.initialized = false;
        self.use_v2_callbacks = false;
        self.strategy.reset()
    }
}

/// Quote and execution agree: what an executed trade records as paid out
/// and as fee is what the quote on the state before the trade says, and a
/// trade is executed exactly when its quote is not zero.
pub proof fn lemma_execute_agrees_with_quote(v: PoolView, amount: Wad, timestamp: u64)
    requires
        v.is_raw(),
    ensures
        v.buy_x_trade(amount, timestamp) is Some <==> v.buy_x_quote(amount.0 as int).0 > 0,
        v.buy_x_trade(amount, timestamp) matches Some(t) ==> t.trade_info.amount_y.0
            == v.buy_x_quote(amount.0 as int).0 && t.fee_amount.0 == v.buy_x_quote(
            amount.0 as int,
        ).1,
        v.sell_x_trade(amount, timestamp) is Some <==> v.sell_x_quote(amount.0 as int).0 > 0,
        v.sell_x_trade(amount, timestamp) matches Some(t) ==> t.trade_info.amount_y.0
            == v.sell_x_quote(amount.0 as int).0 && t.fee_amount.0 == v.sell_x_quote(
            amount.0 as int,
        ).1,
        v.x_for_y_trade(amount, timestamp) is Some <==> v.x_for_y_quote(amount.0 as int).0 > 0,
        v.x_for_y_trade(amount, timestamp) matches Some(t) ==> t.trade_info.amount_x.0
            == v.x_for_y_quote(amount.0 as int).0 && t.fee_amount.0 == v.x_for_y_quote(
            amount.0 as int,
        ).1,
{
    let fees = v.fees;
    lemma_exact_in_sound(
        v.reserve_x,
        v.reserve_y,
        fees.bid_fee.0 as int,
        v.fees_x,
        amount.0 as int,
    );
    lemma_exact_out_sound(
        v.reserve_x,
        v.reserve_y,
        fees.ask_fee.0 as int,
        v.fees_y,
        amount.0 as int,
    );
    lemma_exact_in_sound(
        v.reserve_y,
        v.reserve_x,
        fees.ask_fee.0 as int,
        v.fees_y,
        amount.0 as int,
    );
}

/// The views of a list of pools.
pub open spec fn pool_views<S: FeeStrategy>(amms: Seq<CFMM<S>>) -> Seq<PoolView> {
    Seq::new(amms.len(), |i: int| amms[i]@)
}

/// Every pool is well formed, has liquidity, and trades two of `n_assets` tokens.
pub open spec fn pools_sound<S: FeeStrategy>(amms: Seq<CFMM<S>>, n_assets: int) -> bool {
    forall|i: int|
        0 <= i < amms.len() ==> {
            &&& (#[trigger] amms[i]).wf()
            &&& amms[i]@.has_liquidity()
            &&& amms[i]@.token_a < n_assets
            &&& amms[i]@.token_b < n_assets
        }
}

/// `after` holds later states of the pools of `before`, in the same order.
pub open spec fn pools_follow<S: FeeStrategy>(after: Seq<CFMM<S>>, before: Seq<CFMM<S>>) -> bool {
    &&& after.len() == before.len()
    &&& forall|i: int| 0 <= i < after.len() ==> (#[trigger] after[i])@.follows(before[i]@)
}

} // verus!
