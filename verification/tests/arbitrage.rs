use amm_sim_rs::amm::cfmm::CFMM;
use amm_sim_rs::amm::strategy::{FeeStrategy, StrategyError};
use amm_sim_rs::market::arbitrageur::{ArbResult, ArbSide, Arbitrageur};
use amm_sim_rs::types::trade_info::{TradeInfo, TradeInfoV2};
use amm_sim_rs::types::wad::{Wad, WAD};

/// Strategy with fixed fees, given in basis points by the first two bytes of
/// its bytecode. A third byte, if present, is the number of swaps after
/// which every callback fails.
struct FixedFees {
    name: String,
    bid: Wad,
    ask: Wad,
    fail_after: Option<u64>,
    swaps: u64,
}

impl FixedFees {
    fn bps(bid: u8, ask: u8) -> Self {
        Self::load(&vec![bid, ask], "fixed".to_string()).unwrap()
    }

    fn answer(&mut self) -> Result<(Wad, Wad), StrategyError> {
        self.swaps += 1;
        match self.fail_after {
            Some(limit) if self.swaps > limit => {
                Err(StrategyError { message: "reverted".to_string() })
            }
            _ => Ok((self.bid, self.ask)),
        }
    }
}

impl FeeStrategy for FixedFees {
    fn load(bytecode: &Vec<u8>, name: String) -> Result<Self, StrategyError> {
        if bytecode.len() < 2 {
            return Err(StrategyError { message: "bytecode too short".to_string() });
        }
        Ok(FixedFees {
            name,
            bid: Wad::from_bps(bytecode[0] as u64),
            ask: Wad::from_bps(bytecode[1] as u64),
            fail_after: bytecode.get(2).map(|b| *b as u64),
            swaps: 0,
        })
    }

    fn name(&self) -> String {
        self.name.clone()
    }

    fn after_initialize(&mut self, _x: Wad, _y: Wad) -> Result<(Wad, Wad), StrategyError> {
        Ok((self.bid, self.ask))
    }

    fn after_swap(&mut self, _trade: &TradeInfo) -> Result<(Wad, Wad), StrategyError> {
        self.answer()
    }

    fn after_initialize_v2(
        &mut self,
        _a: Wad,
        _b: Wad,
        _pool_id: u64,
        _token_a: u64,
        _token_b: u64,
    ) -> Result<(Wad, Wad), StrategyError> {
        Ok((self.bid, self.ask))
    }

    fn after_swap_v2(&mut self, _trade: &TradeInfoV2) -> Result<(Wad, Wad), StrategyError> {
        self.answer()
    }

    fn reset(&mut self) -> Result<(), StrategyError> {
        self.swaps = 0;
        Ok(())
    }
}

fn units(n: u64) -> Wad {
    Wad::from_units(n)
}

fn pool(bid: u8, ask: u8, x: Wad, y: Wad) -> CFMM<FixedFees> {
    let mut p = CFMM::new(FixedFees::bps(bid, ask), x, y);
    p.initialize().unwrap();
    p
}

#[test]
fn no_arbitrage_at_spot_without_fees() {
    let arb = Arbitrageur::new();
    let mut p = pool(0, 0, units(1000), units(1000));
    let spot = p.spot_price();
    assert_eq!(spot, Wad(WAD));
    assert_eq!(arb.plan(&p, spot), None);
    assert_eq!(arb.execute_arb(&mut p, spot, 0), None);
    assert_eq!(p.reserves(), (units(1000), units(1000)));
    assert_eq!(p.accumulated_fees(), (Wad(0), Wad(0)));

    // a spot price that is not a whole number of raw units
    let mut q = pool(0, 0, units(1000), Wad(units(777).0 + 13));
    let spot = q.spot_price();
    assert_eq!(spot, Wad(777_000_000_000_000_000));
    assert_eq!(arb.execute_arb(&mut q, spot, 0), None);
    assert_eq!(q.reserves(), (units(1000), Wad(units(777).0 + 13)));
}

#[test]
fn one_raw_unit_off_the_spot_trades_dust() {
    let arb = Arbitrageur::new();
    let q = pool(0, 0, units(1000), Wad(units(777).0 + 13));
    assert_eq!(arb.plan(&q, Wad(777_000_000_000_000_001)), Some((ArbSide::Sell, Wad(635))));
    assert_eq!(arb.plan(&q, Wad(776_999_999_999_999_999)), Some((ArbSide::Buy, Wad(10))));
    assert_eq!(arb.plan(&q, Wad(777_000_000_000_000_002)), Some((ArbSide::Sell, Wad(1278))));
}

#[test]
fn fees_open_a_band_around_the_price() {
    let arb = Arbitrageur::new();
    let p = pool(30, 30, units(1000), units(1000));
    assert_eq!(arb.plan(&p, Wad(WAD)), None);
    assert_eq!(arb.plan(&p, Wad(1_002_500_000_000_000_000)), None);
    assert_eq!(arb.plan(&p, Wad(997_500_000_000_000_000)), None);
}

#[test]
fn pool_above_the_band_buys() {
    let arb = Arbitrageur::new();
    let mut p = pool(30, 30, units(1000), units(1000));
    let price = Wad(900_000_000_000_000_000);
    assert_eq!(arb.plan(&p, price), Some((ArbSide::Buy, Wad(52_668_231_617_983_555_758))));
    let done = arb.execute_arb(&mut p, price, 3).unwrap();
    assert_eq!(
        done,
        ArbResult {
            side: ArbSide::Buy,
            amount_x: Wad(52_668_231_617_983_555_758),
            amount_y: Wad(49_890_467_170_695_439_717),
        }
    );
    assert_eq!(
        p.reserves(),
        (Wad(1_052_510_226_923_129_605_091), Wad(950_109_532_829_304_560_283))
    );
    assert_eq!(p.accumulated_fees(), (Wad(158_004_694_853_950_667), Wad(0)));
    // idempotence: a second arbitrage against the same price trades nothing
    assert_eq!(arb.plan(&p, price), None);
    assert_eq!(arb.execute_arb(&mut p, price, 4), None);
}

#[test]
fn pool_below_the_band_sells() {
    let arb = Arbitrageur::new();
    let mut p = pool(30, 30, units(1000), units(1000));
    let price = Wad(1_100_000_000_000_000_000);
    assert_eq!(arb.plan(&p, price), Some((ArbSide::Sell, Wad(45_103_990_868_285_113_836))));
    let done = arb.execute_arb(&mut p, price, 3).unwrap();
    assert_eq!(
        done,
        ArbResult {
            side: ArbSide::Sell,
            amount_x: Wad(45_103_990_868_285_113_836),
            amount_y: Wad(47_376_582_963_642_643_590),
        }
    );
    assert_eq!(
        p.reserves(),
        (Wad(954_896_009_131_714_886_164), Wad(1_047_234_453_214_751_715_659))
    );
    assert_eq!(p.accumulated_fees(), (Wad(0), Wad(142_129_748_890_927_931)));
    assert_eq!(arb.execute_arb(&mut p, price, 4), None);
}

#[test]
fn arbitrage_lands_on_the_limit_it_crossed() {
    let arb = Arbitrageur::new();
    let mut p = pool(30, 30, units(1000), units(1000));
    arb.execute_arb(&mut p, Wad(900_000_000_000_000_000), 0).unwrap();
    // bid limit of 0.9 at 30 bps: (0.9 + 1e-18) / 0.997, rounded up
    let limit = 902_708_124_373_119_360u128;
    let (x, y) = p.reserves();
    let spot = p.spot_price();
    assert!(spot.0 <= limit);
    assert!(limit - spot.0 < 10);
    assert!(x.0 > units(1000).0 && y.0 < units(1000).0);
}

#[test]
fn empty_or_extreme_pools_are_left_alone() {
    let arb = Arbitrageur::new();
    let mut dry = pool(30, 30, units(1000), Wad(0));
    assert_eq!(arb.execute_arb(&mut dry, Wad(WAD), 0), None);
    let mut none = pool(30, 30, Wad(0), units(1000));
    assert_eq!(arb.execute_arb(&mut none, Wad(WAD), 0), None);
    assert_eq!(none.reserves(), (Wad(0), units(1000)));
    // a price beyond every raw value has no bid limit
    let mut p = pool(30, 30, units(1000), units(1000));
    assert_eq!(arb.plan(&p, Wad(u128::MAX)).map(|t| t.0), Some(ArbSide::Sell));
    arb.execute_arb(&mut p, Wad(u128::MAX), 0);
    assert!(p.reserves().0 .0 > 0 && p.reserves().1 .0 > 0);
}
