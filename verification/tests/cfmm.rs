use amm_sim_rs::amm::cfmm::{FeeQuote, CFMM, STARTING_FEE};
use amm_sim_rs::amm::strategy::{FeeStrategy, StrategyError};
use amm_sim_rs::math::wide::mul_wide;
use amm_sim_rs::types::trade_info::{v2_record, TradeInfo, TradeInfoV2};
use std::cell::RefCell;
use std::rc::Rc;
use amm_sim_rs::types::wad::{Wad, MAX_FEE, WAD};

/// Strategy with fixed fees, given in basis points by the first two bytes of
/// its bytecode.
struct FixedFees {
    name: String,
    bid: Wad,
    ask: Wad,
    swaps: u64,
}

impl FixedFees {
    fn bps(bid: u8, ask: u8) -> Self {
        Self::load(&vec![bid, ask], "fixed".to_string()).unwrap()
    }
}

impl FeeStrategy for FixedFees {
    fn load(bytecode: &Vec<u8>, name: String) -> Result<Self, StrategyError> {
        if bytecode.len() < 2 {
            return Err(StrategyError { message: "bytecode too short".to_string() });
        }
        Ok(FixedFees {
            name,
            bid: Wad::from_bps(bytecode[0] as u64),
            ask: Wad::from_bps(bytecode[1] as u64),
            swaps: 0,
        })
    }

    fn name(&self) -> String {
        self.name.clone()
    }

    fn after_initialize(&mut self, _x: Wad, _y: Wad) -> Result<(Wad, Wad), StrategyError> {
        Ok((self.bid, self.ask))
    }

    fn after_swap(&mut self, _trade: &TradeInfo) -> Result<(Wad, Wad), StrategyError> {
        self.swaps += 1;
        Ok((self.bid, self.ask))
    }

    fn after_initialize_v2(
        &mut self,
        _a: Wad,
        _b: Wad,
        _pool_id: u64,
        _token_a: u64,
        _token_b: u64,
    ) -> Result<(Wad, Wad), StrategyError> {
        Err(StrategyError { message: "single-pair strategy".to_string() })
    }

    fn after_swap_v2(&mut self, _trade: &TradeInfoV2) -> Result<(Wad, Wad), StrategyError> {
        Err(StrategyError { message: "single-pair strategy".to_string() })
    }

    fn reset(&mut self) -> Result<(), StrategyError> {
        self.swaps = 0;
        Ok(())
    }
}

fn units(n: u64) -> Wad {
    Wad::from_units(n)
}

fn pool(bid: u8, ask: u8, x: u64, y: u64) -> CFMM<FixedFees> {
    let mut p = CFMM::new(FixedFees::bps(bid, ask), units(x), units(y));
    p.initialize().unwrap();
    p
}

#[test]
fn test_quote_formulas() {
    // Test the math without EVM - use fixed fees
    let fee_quote = FeeQuote::symmetric(Wad::from_bps(25)); // 0.25%
    assert_eq!(fee_quote.bid_fee, fee_quote.ask_fee);

    // Manual calculation for buy X
    let rx = 1000.0;
    let ry = 1000.0;
    let amount_x = 10.0;
    let fee = 0.0025;
    let gamma = 1.0 - fee;
    let net_x = amount_x * gamma;
    let k = rx * ry;
    let new_rx = rx + net_x;
    let new_ry = k / new_rx;
    let y_out = ry - new_ry;

    // y_out should be approximately 9.876 (accounting for fee and price impact)
    assert!(y_out > 9.8 && y_out < 10.0);
}

#[test]
fn symmetric_25_bps_quote() {
    let p = pool(25, 25, 1000, 1000);
    let (y_out, fee) = p.quote_buy_x(units(10));
    assert_eq!(fee, Wad(25_000_000_000_000_000));
    assert!(y_out.0 > 9_800_000_000_000_000_000 && y_out.0 < 10_000_000_000_000_000_000);
    // 1000 * 9.975 / 1009.975, rounded down
    assert_eq!(y_out, Wad(9_876_482_091_140_869_823));
}

#[test]
fn sell_exceeding_reserve_is_refused() {
    let p = pool(25, 25, 100, 1000);
    assert_eq!(p.quote_sell_x(units(100)), (Wad(0), Wad(0)));
    assert_eq!(p.quote_sell_x(units(101)), (Wad(0), Wad(0)));
    assert_eq!(p.quote_sell_x(Wad(0)), (Wad(0), Wad(0)));
    assert!(p.quote_sell_x(units(99)).0 .0 > 0);
    // selling all but one raw unit would need more Y than there are raw values
    assert_eq!(p.quote_sell_x(Wad(units(100).0 - 1)), (Wad(0), Wad(0)));
}

#[test]
fn zero_amounts_quote_nothing() {
    let p = pool(30, 30, 1000, 1000);
    assert_eq!(p.quote_buy_x(Wad(0)), (Wad(0), Wad(0)));
    assert_eq!(p.quote_x_for_y(Wad(0)), (Wad(0), Wad(0)));
    assert_eq!(p.quote_exact_in(0, 1, Wad(0)), None);
}

#[test]
fn sell_quote_grosses_up_the_fee() {
    let p = pool(0, 100, 1000, 1000);
    // net = ceil(1000 * 10 / 990) = 10.101010..., total = ceil(net / 0.99)
    let (total, fee) = p.quote_sell_x(units(10));
    let net: u128 = 10101010101010101011;
    assert_eq!(total, Wad(10203040506070809103));
    assert_eq!(fee, Wad(total.0 - net));
    assert_eq!(fee, Wad(102030405060708092));
}

#[test]
fn x_for_y_mirrors_buy_x() {
    let p = pool(25, 25, 1000, 1000);
    assert_eq!(p.quote_x_for_y(units(10)), p.quote_buy_x(units(10)));
    let q = pool(10, 40, 1000, 2000);
    let (x_out, fee) = q.quote_x_for_y(units(10));
    assert_eq!(fee, Wad(units(10).0 * 40 / 10_000));
    assert_eq!(fee, Wad(40000000000000000));
    assert_eq!(x_out, Wad(4955322493979979701));
}

#[test]
fn quote_exact_in_dispatches_by_token() {
    let mut p = CFMM::new_with_pair(FixedFees::bps(10, 40), units(1000), units(2000), 3, 5, 7);
    p.initialize().unwrap();
    assert!(p.supports_pair(3, 5));
    assert!(p.supports_pair(5, 3));
    assert!(!p.supports_pair(3, 4));
    assert_eq!(p.quote_exact_in(3, 5, units(1)), Some(p.quote_buy_x(units(1))));
    assert_eq!(p.quote_exact_in(5, 3, units(1)), Some(p.quote_x_for_y(units(1))));
    assert_eq!(p.quote_exact_in(3, 4, units(1)), None);
    assert_eq!(p.id(), 7);
    assert_eq!(p.tokens(), (3, 5));
}

#[test]
fn new_pool_starts_at_thirty_bps() {
    let p = CFMM::new(FixedFees::bps(1, 2), units(5), units(6));
    assert_eq!(p.fees(), FeeQuote::symmetric(Wad(STARTING_FEE)));
    assert_eq!(p.fees(), FeeQuote::symmetric(Wad::from_bps(30)));
    assert_eq!(p.reserves(), (units(5), units(6)));
    assert_eq!(p.accumulated_fees(), (Wad(0), Wad(0)));
    assert!(!p.is_initialized());
    assert_eq!(p.name(), "fixed");
    assert_eq!(p.pool_id, 0);
    assert_eq!((p.token_a, p.token_b), (0, 1));
}

#[test]
fn initialize_adopts_clamped_fees() {
    let mut p = CFMM::new(FixedFees::bps(25, 50), units(5), units(6));
    p.initialize().unwrap();
    assert!(p.is_initialized());
    assert!(!p.uses_v2_callbacks());
    assert_eq!(p.fees(), FeeQuote::new(Wad::from_bps(25), Wad::from_bps(50)));
}

#[test]
fn execute_matches_quote_and_keeps_fees_aside() {
    let mut p = pool(25, 25, 1000, 1000);
    let (quoted_out, quoted_fee) = p.quote_buy_x(units(10));
    let trade = p.execute_buy_x(units(10), 4).unwrap();
    assert_eq!(trade.fee_amount, quoted_fee);
    assert_eq!(trade.trade_info.amount_y, quoted_out);
    assert_eq!(trade.trade_info.amount_x, units(10));
    assert!(trade.trade_info.is_buy);
    assert_eq!(trade.trade_info.timestamp, 4);
    let (rx, ry) = p.reserves();
    assert_eq!(rx, Wad(units(1010).0 - quoted_fee.0));
    assert_eq!(ry, Wad(units(1000).0 - quoted_out.0));
    assert_eq!((trade.trade_info.reserve_x, trade.trade_info.reserve_y), (rx, ry));
    assert_eq!(p.accumulated_fees(), (quoted_fee, Wad(0)));
}

#[test]
fn execute_sell_matches_quote() {
    let mut p = pool(25, 25, 1000, 1000);
    let (total, fee) = p.quote_sell_x(units(10));
    let trade = p.execute_sell_x(units(10), 1).unwrap();
    assert!(!trade.trade_info.is_buy);
    assert_eq!(trade.trade_info.amount_y, total);
    assert_eq!(trade.fee_amount, fee);
    assert_eq!(p.reserves(), (units(990), Wad(units(1000).0 + total.0 - fee.0)));
    assert_eq!(p.accumulated_fees(), (Wad(0), fee));
}

#[test]
fn execute_buy_x_with_y_matches_quote() {
    let mut p = pool(25, 25, 1000, 1000);
    let (x_out, fee) = p.quote_x_for_y(units(10));
    let trade = p.execute_buy_x_with_y(units(10), 1).unwrap();
    assert!(!trade.trade_info.is_buy);
    assert_eq!(trade.trade_info.amount_x, x_out);
    assert_eq!(trade.trade_info.amount_y, units(10));
    assert_eq!(p.reserves(), (Wad(units(1000).0 - x_out.0), Wad(units(1010).0 - fee.0)));
}

#[test]
fn execute_exact_in_reports_direction() {
    let mut p = pool(25, 25, 1000, 1000);
    let (out, _) = p.quote_buy_x(units(1));
    assert_eq!(p.execute_exact_in(0, 1, units(1), 0), Some((out, true)));
    let (out, _) = p.quote_x_for_y(units(1));
    assert_eq!(p.execute_exact_in(1, 0, units(1), 0), Some((out, false)));
    assert_eq!(p.execute_exact_in(1, 2, units(1), 0), None);
    assert_eq!(p.execute_exact_in(0, 1, Wad(0), 0), None);
}

#[test]
fn trades_never_lower_the_product() {
    let mut p = pool(30, 30, 1000, 777);
    let mut k = mul_wide(p.reserves().0 .0, p.reserves().1 .0);
    let mut fees = p.accumulated_fees();
    for i in 1..60u64 {
        let amount = Wad(i as u128 * 987_654_321_098_765_432);
        match i % 3 {
            0 => {
                p.execute_buy_x(amount, i);
            }
            1 => {
                p.execute_sell_x(amount, i);
            }
            _ => {
                p.execute_buy_x_with_y(amount, i);
            }
        }
        let (rx, ry) = p.reserves();
        assert!(rx.0 > 0 && ry.0 > 0);
        let now = mul_wide(rx.0, ry.0);
        assert!(now >= k);
        k = now;
        let acc = p.accumulated_fees();
        assert!(acc.0 .0 >= fees.0 .0 && acc.1 .0 >= fees.1 .0);
        fees = acc;
        assert!(p.fees().bid_fee.0 <= MAX_FEE && p.fees().ask_fee.0 <= MAX_FEE);
    }
}

struct Greedy;
impl FeeStrategy for Greedy {
    fn load(_b: &Vec<u8>, _n: String) -> Result<Self, StrategyError> {
        Ok(Greedy)
    }
    fn name(&self) -> String {
        "greedy".to_string()
    }
    fn after_initialize(&mut self, _x: Wad, _y: Wad) -> Result<(Wad, Wad), StrategyError> {
        Ok((Wad(u128::MAX), Wad(WAD)))
    }
    fn after_swap(&mut self, _t: &TradeInfo) -> Result<(Wad, Wad), StrategyError> {
        Ok((Wad(MAX_FEE + 1), Wad(MAX_FEE)))
    }
    fn after_initialize_v2(
        &mut self,
        _a: Wad,
        _b: Wad,
        _p: u64,
        _ta: u64,
        _tb: u64,
    ) -> Result<(Wad, Wad), StrategyError> {
        Ok((Wad(2 * WAD), Wad(7)))
    }
    fn after_swap_v2(&mut self, _t: &TradeInfoV2) -> Result<(Wad, Wad), StrategyError> {
        Err(StrategyError { message: "no".to_string() })
    }
    fn reset(&mut self) -> Result<(), StrategyError> {
        Ok(())
    }
}

#[test]
fn fees_are_clamped() {
    let mut p = CFMM::new(Greedy, units(10), units(10));
    p.initialize().unwrap();
    assert_eq!(p.fees(), FeeQuote::symmetric(Wad(MAX_FEE)));
    let mut q = CFMM::new(Greedy, units(10), units(10));
    q.initialize_v2_or_fallback().unwrap();
    assert!(q.uses_v2_callbacks());
    assert_eq!(q.fees(), FeeQuote::new(Wad(MAX_FEE), Wad(7)));
    // the multi-asset callback fails after the swap: the single-pair answer is
    // taken, and the pool stays in multi-asset mode
    q.execute_buy_x_with_y(units(1), 0).unwrap();
    assert!(q.uses_v2_callbacks());
    assert_eq!(q.fees(), FeeQuote::symmetric(Wad(MAX_FEE)));
    assert_eq!(Wad(MAX_FEE + 5).clamp_fee(), Wad(MAX_FEE));
    assert_eq!(Wad(5).clamp_fee(), Wad(5));
}

struct Flaky {
    calls: u32,
}
impl FeeStrategy for Flaky {
    fn load(_b: &Vec<u8>, _n: String) -> Result<Self, StrategyError> {
        Ok(Flaky { calls: 0 })
    }
    fn name(&self) -> String {
        "flaky".to_string()
    }
    fn after_initialize(&mut self, _x: Wad, _y: Wad) -> Result<(Wad, Wad), StrategyError> {
        Ok((Wad::from_bps(10), Wad::from_bps(20)))
    }
    fn after_swap(&mut self, _t: &TradeInfo) -> Result<(Wad, Wad), StrategyError> {
        self.calls += 1;
        Err(StrategyError { message: "reverted".to_string() })
    }
    fn after_initialize_v2(
        &mut self,
        _a: Wad,
        _b: Wad,
        _p: u64,
        _ta: u64,
        _tb: u64,
    ) -> Result<(Wad, Wad), StrategyError> {
        Err(StrategyError { message: "reverted".to_string() })
    }
    fn after_swap_v2(&mut self, _t: &TradeInfoV2) -> Result<(Wad, Wad), StrategyError> {
        Err(StrategyError { message: "reverted".to_string() })
    }
    fn reset(&mut self) -> Result<(), StrategyError> {
        Err(StrategyError { message: "cannot reset".to_string() })
    }
}

#[test]
fn failing_strategy_keeps_fees() {
    let mut p = CFMM::new(Flaky { calls: 0 }, units(10), units(10));
    p.initialize_v2_or_fallback().unwrap();
    assert!(!p.uses_v2_callbacks());
    let before = p.fees();
    assert!(p.execute_buy_x(units(1), 0).is_some());
    assert_eq!(p.fees(), before);
    let r = p.reset(units(3), units(4));
    assert_eq!(r.unwrap_err().message, "cannot reset");
    assert_eq!(p.reserves(), (units(3), units(4)));
    assert_eq!(p.accumulated_fees(), (Wad(0), Wad(0)));
    assert!(!p.is_initialized());
}

struct Dead;
impl FeeStrategy for Dead {
    fn load(_b: &Vec<u8>, _n: String) -> Result<Self, StrategyError> {
        Ok(Dead)
    }
    fn name(&self) -> String {
        "dead".to_string()
    }
    fn after_initialize(&mut self, _x: Wad, _y: Wad) -> Result<(Wad, Wad), StrategyError> {
        Err(StrategyError { message: "boom".to_string() })
    }
    fn after_swap(&mut self, _t: &TradeInfo) -> Result<(Wad, Wad), StrategyError> {
        Err(StrategyError { message: "boom".to_string() })
    }
    fn after_initialize_v2(
        &mut self,
        _a: Wad,
        _b: Wad,
        _p: u64,
        _ta: u64,
        _tb: u64,
    ) -> Result<(Wad, Wad), StrategyError> {
        Err(StrategyError { message: "boom v2".to_string() })
    }
    fn after_swap_v2(&mut self, _t: &TradeInfoV2) -> Result<(Wad, Wad), StrategyError> {
        Err(StrategyError { message: "boom".to_string() })
    }
    fn reset(&mut self) -> Result<(), StrategyError> {
        Ok(())
    }
}

#[test]
fn initialization_failure_is_reported() {
    let mut p = CFMM::new(Dead, units(10), units(10));
    assert_eq!(p.initialize_v2_or_fallback().unwrap_err().message, "boom");
    assert!(!p.is_initialized());
    assert_eq!(p.fees(), FeeQuote::symmetric(Wad(STARTING_FEE)));
}

#[test]
fn spot_price_and_k() {
    let p = pool(30, 30, 1000, 2500);
    assert_eq!(p.spot_price(), Wad(2_500_000_000_000_000_000));
    assert_eq!(p.k(), units(2_500_000));
    let empty = CFMM::new(FixedFees::bps(1, 1), Wad(0), units(1));
    assert_eq!(empty.spot_price(), Wad(0));
    let steep = CFMM::new(FixedFees::bps(1, 1), Wad(1), Wad(u128::MAX));
    assert_eq!(steep.spot_price(), Wad(u128::MAX));
    let big = CFMM::new(FixedFees::bps(1, 1), Wad(u128::MAX), Wad(u128::MAX));
    assert_eq!(big.k(), Wad(u128::MAX));
}

#[test]
fn overflowing_trade_is_refused() {
    let mut p = CFMM::new(FixedFees::bps(0, 0), Wad(u128::MAX - 10), units(1));
    p.initialize().unwrap();
    assert_eq!(p.quote_buy_x(Wad(11)), (Wad(0), Wad(0)));
    assert!(p.execute_buy_x(Wad(11), 0).is_none());
    assert_eq!(p.reserves(), (Wad(u128::MAX - 10), units(1)));
}

#[test]
fn refresh_policy() {
    let current = FeeQuote::symmetric(Wad::from_bps(30));
    let a = Some((Wad::from_bps(1), Wad::from_bps(2)));
    let b = Some((Wad::from_bps(3), Wad(u128::MAX)));
    assert_eq!(current.refreshed(true, a, b), (FeeQuote::new(Wad::from_bps(1), Wad::from_bps(2)), true));
    // the single-pair answer is taken, and the pool stays in multi-asset mode
    assert_eq!(current.refreshed(true, None, b), (FeeQuote::new(Wad::from_bps(3), Wad(MAX_FEE)), true));
    assert_eq!(current.refreshed(true, None, None), (current, true));
    assert_eq!(current.refreshed(false, a, b), (FeeQuote::new(Wad::from_bps(3), Wad(MAX_FEE)), false));
    assert_eq!(current.refreshed(false, a, None), (current, false));
    assert_eq!(FeeQuote::clamped(Wad(WAD), Wad(0)), FeeQuote::new(Wad(MAX_FEE), Wad(0)));
}

#[test]
fn adopting_an_answer_starts_the_pool() {
    let mut p = CFMM::new(FixedFees::bps(1, 2), units(5), units(6));
    let failed = p.adopt(Err(StrategyError { message: "no answer".to_string() }), true);
    assert_eq!(failed.unwrap_err().message, "no answer");
    assert!(!p.is_initialized());
    assert!(!p.uses_v2_callbacks());
    assert_eq!(p.fees(), FeeQuote::symmetric(Wad(STARTING_FEE)));

    assert!(p.adopt(Ok((Wad::from_bps(7), Wad(u128::MAX))), true).is_ok());
    assert!(p.is_initialized());
    assert!(p.uses_v2_callbacks());
    assert_eq!(p.fees(), FeeQuote::new(Wad::from_bps(7), Wad(MAX_FEE)));

    assert!(p.adopt(Ok((Wad(0), Wad(1))), false).is_ok());
    assert!(!p.uses_v2_callbacks());
    assert_eq!(p.fees(), FeeQuote::new(Wad(0), Wad(1)));
    assert_eq!(p.reserves(), (units(5), units(6)));
}

/// What a strategy was asked, in order.
#[derive(Debug, Clone, PartialEq)]
enum Asked {
    Initialize(Wad, Wad),
    InitializeV2(Wad, Wad, u64, u64, u64),
    Swap(TradeInfo),
    SwapV2(TradeInfoV2),
}

/// Strategy that logs what it is asked. Its multi-asset swap callback fails
/// on the swaps whose number, counting from one, is in `failing`.
struct Logging {
    log: Rc<RefCell<Vec<Asked>>>,
    failing: Vec<u32>,
    swaps: u32,
}

impl FeeStrategy for Logging {
    fn load(_b: &Vec<u8>, _n: String) -> Result<Self, StrategyError> {
        Ok(Logging { log: Rc::new(RefCell::new(vec![])), failing: vec![], swaps: 0 })
    }
    fn name(&self) -> String {
        "logging".to_string()
    }
    fn after_initialize(&mut self, x: Wad, y: Wad) -> Result<(Wad, Wad), StrategyError> {
        self.log.borrow_mut().push(Asked::Initialize(x, y));
        Ok((Wad::from_bps(1), Wad::from_bps(1)))
    }
    fn after_swap(&mut self, t: &TradeInfo) -> Result<(Wad, Wad), StrategyError> {
        self.log.borrow_mut().push(Asked::Swap(*t));
        Ok((Wad::from_bps(11), Wad::from_bps(11)))
    }
    fn after_initialize_v2(
        &mut self,
        a: Wad,
        b: Wad,
        p: u64,
        ta: u64,
        tb: u64,
    ) -> Result<(Wad, Wad), StrategyError> {
        self.log.borrow_mut().push(Asked::InitializeV2(a, b, p, ta, tb));
        Ok((Wad::from_bps(2), Wad::from_bps(2)))
    }
    fn after_swap_v2(&mut self, t: &TradeInfoV2) -> Result<(Wad, Wad), StrategyError> {
        self.log.borrow_mut().push(Asked::SwapV2(*t));
        self.swaps += 1;
        if self.failing.contains(&self.swaps) {
            Err(StrategyError { message: "reverted".to_string() })
        } else {
            Ok((Wad::from_bps(22), Wad::from_bps(22)))
        }
    }
    fn reset(&mut self) -> Result<(), StrategyError> {
        Ok(())
    }
}

#[test]
fn multi_asset_mode_survives_a_fallback() {
    let log = Rc::new(RefCell::new(vec![]));
    let strategy = Logging { log: log.clone(), failing: vec![1], swaps: 0 };
    let mut p = CFMM::new_with_pair(strategy, units(1000), units(2000), 3, 5, 7);
    assert_eq!(p.v2_context(), (units(1000), units(2000), 7, 3, 5));
    p.initialize_v2_or_fallback().unwrap();
    assert!(p.uses_v2_callbacks());
    assert_eq!(log.borrow()[0], Asked::InitializeV2(units(1000), units(2000), 7, 3, 5));

    // first swap: the multi-asset callback fails, the single-pair one answers
    let first = p.execute_buy_x(units(1), 4).unwrap().trade_info;
    assert_eq!(p.fees(), FeeQuote::symmetric(Wad::from_bps(11)));
    assert!(p.uses_v2_callbacks());
    // second swap: the multi-asset callback is asked first again, and answers
    let second = p.execute_buy_x_with_y(units(1), 5).unwrap().trade_info;
    assert_eq!(p.fees(), FeeQuote::symmetric(Wad::from_bps(22)));
    assert!(p.uses_v2_callbacks());

    let asked = log.borrow().clone();
    assert_eq!(
        asked[1..],
        [
            Asked::SwapV2(v2_record(&first, 7, 3, 5)),
            Asked::Swap(first),
            Asked::SwapV2(v2_record(&second, 7, 3, 5)),
        ]
    );
}

#[test]
fn single_pair_mode_never_asks_the_multi_asset_callback() {
    let log = Rc::new(RefCell::new(vec![]));
    let strategy = Logging { log: log.clone(), failing: vec![], swaps: 0 };
    let mut p = CFMM::new(strategy, units(1000), units(2000));
    p.initialize().unwrap();
    let trade = p.execute_sell_x(units(1), 9).unwrap().trade_info;
    assert!(!p.uses_v2_callbacks());
    assert_eq!(*log.borrow(), vec![Asked::Initialize(units(1000), units(2000)), Asked::Swap(trade)]);
}

#[test]
fn multi_asset_record_renames_x_and_y() {
    let trade = TradeInfo::new(true, Wad(1), Wad(2), 3, Wad(4), Wad(5));
    assert_eq!(
        v2_record(&trade, 6, 7, 8),
        TradeInfoV2 {
            is_buy: true,
            amount_a: Wad(1),
            amount_b: Wad(2),
            timestamp: 3,
            reserve_a: Wad(4),
            reserve_b: Wad(5),
            pool_id: 6,
            token_a: 7,
            token_b: 8,
        }
    );
}
