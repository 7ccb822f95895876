use amm_sim_rs::amm::strategy::{FeeStrategy, StrategyError};
use amm_sim_rs::market::retail_v2::RetailDraw;
use amm_sim_rs::simulation::engine_v2::{
    simulate, strategy_bytecode, strategy_name, MarketStep, SimulationEngineV2,
};
use amm_sim_rs::simulation::error::{ConfigFault, SimulationError};
use amm_sim_rs::simulation::runner::{assemble_batch_v2, collect_results};
use amm_sim_rs::types::config::SimulationConfigV2;
use amm_sim_rs::types::result::{LightweightSimResultV2, PoolStateV2};
use amm_sim_rs::types::trade_info::{TradeInfo, TradeInfoV2};
use amm_sim_rs::types::wad::{SignedWad, Wad, WAD};
use rayon::iter::{IntoParallelIterator, ParallelIterator};

/// Strategy with fixed fees, given in basis points by the first two bytes of
/// its bytecode. A third byte, if present, is the number of swaps after
/// which every callback fails.
struct FixedFees {
    name: String,
    bid: Wad,
    ask: Wad,
    fail_after: Option<u64>,
    swaps: u64,
}

impl FixedFees {
    fn bps(bid: u8, ask: u8) -> Self {
        Self::load(&vec![bid, ask], "fixed".to_string()).unwrap()
    }

    fn answer(&mut self) -> Result<(Wad, Wad), StrategyError> {
        self.swaps += 1;
        match self.fail_after {
            Some(limit) if self.swaps > limit => {
                Err(StrategyError { message: "reverted".to_string() })
            }
            _ => Ok((self.bid, self.ask)),
        }
    }
}

impl FeeStrategy for FixedFees {
    fn load(bytecode: &Vec<u8>, name: String) -> Result<Self, StrategyError> {
        if bytecode.len() < 2 {
            return Err(StrategyError { message: "bytecode too short".to_string() });
        }
        Ok(FixedFees {
            name,
            bid: Wad::from_bps(bytecode[0] as u64),
            ask: Wad::from_bps(bytecode[1] as u64),
            fail_after: bytecode.get(2).map(|b| *b as u64),
            swaps: 0,
        })
    }

    fn name(&self) -> String {
        self.name.clone()
    }

    fn after_initialize(&mut self, _x: Wad, _y: Wad) -> Result<(Wad, Wad), StrategyError> {
        Ok((self.bid, self.ask))
    }

    fn after_swap(&mut self, _trade: &TradeInfo) -> Result<(Wad, Wad), StrategyError> {
        self.answer()
    }

    fn after_initialize_v2(
        &mut self,
        _a: Wad,
        _b: Wad,
        _pool_id: u64,
        _token_a: u64,
        _token_b: u64,
    ) -> Result<(Wad, Wad), StrategyError> {
        Ok((self.bid, self.ask))
    }

    fn after_swap_v2(&mut self, _trade: &TradeInfoV2) -> Result<(Wad, Wad), StrategyError> {
        self.answer()
    }

    fn reset(&mut self) -> Result<(), StrategyError> {
        self.swaps = 0;
        Ok(())
    }
}

fn units(n: u64) -> Wad {
    Wad::from_units(n)
}

fn draw(first: usize, second: usize, buy: bool, size: Wad) -> RetailDraw {
    RetailDraw { first, second, buy, size }
}

fn config(n_steps: u32, seed: Option<u64>) -> SimulationConfigV2 {
    SimulationConfigV2::new(
        n_steps,
        vec![units(2), units(5), units(3)],
        SignedWad(0),
        Wad(WAD / 1000),
        Wad(WAD),
        Wad(WAD),
        units(5),
        Wad(WAD),
        Wad(WAD / 2),
        1,
        vec![
            (0, 1, units(1000), units(2000)),
            (1, 2, units(3000), units(1000)),
            (0, 2, units(1500), units(1000)),
        ],
        seed,
    )
}

fn market() -> Vec<MarketStep> {
    vec![
        MarketStep {
            growth: vec![Wad(WAD + WAD / 100), Wad(WAD), Wad(WAD - WAD / 50)],
            draws: vec![draw(0, 0, true, units(5)), draw(2, 1, false, units(3))],
        },
        MarketStep {
            growth: vec![Wad(WAD - WAD / 200), Wad(0), Wad(WAD + WAD / 25)],
            draws: vec![draw(1, 1, true, units(7))],
        },
        MarketStep { growth: vec![Wad(WAD + WAD / 300), Wad(WAD), Wad(WAD)], draws: vec![] },
        MarketStep {
            growth: vec![Wad(WAD), Wad(WAD), Wad(WAD + WAD / 10)],
            draws: vec![
                draw(0, 1, false, Wad(WAD / 2)),
                draw(2, 0, true, units(11)),
                draw(1, 0, false, units(2)),
            ],
        },
    ]
}

fn run(
    config: SimulationConfigV2,
    market: &Vec<MarketStep>,
) -> Result<LightweightSimResultV2, SimulationError> {
    SimulationEngineV2::new(config).run::<FixedFees>(&vec![30, 30], &vec![10, 50], market)
}

fn fault(r: Result<LightweightSimResultV2, SimulationError>) -> ConfigFault {
    match r {
        Err(SimulationError::InvalidConfig(f)) => f,
        other => panic!("expected an invalid configuration, got {:?}", other),
    }
}

#[test]
fn run_matches_hand_computation() {
    let r = run(config(4, Some(9)), &market()).unwrap();
    assert_eq!(r.seed, 9);
    assert_eq!(r.strategies, vec!["submission".to_string(), "normalizer".to_string()]);
    assert_eq!(
        r.final_prices,
        vec![Wad(2_016_599_666_666_666_665), Wad(WAD), Wad(3_363_360_000_000_000_000)]
    );
    assert_eq!(
        r.pnl,
        vec![SignedWad(7_911_386_290_007_130_896_210), SignedWad(7_900_976_471_997_451_895_634)]
    );
    assert_eq!(
        r.edges,
        vec![SignedWad(6_080_563_102_506_085_925_907), SignedWad(6_069_054_250_604_583_479_395)]
    );
    let expected = [
        (0, 0, 1, 2_002_950_119_867_102_159_600u128, 998_527_112_663_545_558_915u128),
        (1, 0, 1, 2_007_278_290_123_220_554_852, 996_374_050_295_351_043_071),
        (2, 1, 2, 945_858_935_071_518_619_513, 3_171_720_315_538_556_435_535),
        (3, 1, 2, 946_809_069_851_588_156_752, 3_168_537_454_410_157_355_181),
        (4, 0, 2, 950_023_258_050_695_691_748, 1_578_908_713_327_475_326_476),
        (5, 0, 2, 956_179_401_318_852_808_007, 1_568_743_269_234_893_090_490),
    ];
    assert_eq!(r.pools.len(), expected.len());
    for (pool, e) in r.pools.iter().zip(expected.iter()) {
        assert_eq!(
            *pool,
            PoolStateV2 {
                pool_id: e.0,
                token_a: e.1,
                token_b: e.2,
                reserve_a: Wad(e.3),
                reserve_b: Wad(e.4),
            }
        );
    }
}

#[test]
fn same_inputs_same_result() {
    let a = run(config(4, Some(9)), &market()).unwrap();
    let b = run(config(4, Some(9)), &market()).unwrap();
    assert_eq!(a.pnl, b.pnl);
    assert_eq!(a.edges, b.edges);
    assert_eq!(a.final_prices, b.final_prices);
    assert_eq!(a.pools, b.pools);
}

#[test]
fn missing_seed_is_reported_as_zero() {
    assert_eq!(run(config(4, None), &market()).unwrap().seed, 0);
}

#[test]
fn numeraire_stays_at_one_and_reserves_stay_positive() {
    let r = run(config(4, Some(1)), &market()).unwrap();
    assert_eq!(r.final_prices[1], Wad(WAD));
    let cfg = config(4, Some(1));
    for (i, pool) in r.pools.iter().enumerate() {
        assert!(pool.reserve_a.0 > 0 && pool.reserve_b.0 > 0);
        let (_, _, a, b) = cfg.pools[i / 2];
        let before = amm_sim_rs::math::wide::mul_wide(a.0, b.0);
        let after = amm_sim_rs::math::wide::mul_wide(pool.reserve_a.0, pool.reserve_b.0);
        assert!(after >= before);
    }
}

#[test]
fn quiet_market_changes_nothing() {
    let mut cfg = config(3, Some(1));
    // fair cross-rates equal to the pools' spot prices: p_b / p_a for each pool
    cfg.initial_prices = vec![units(1), units(1), units(1)];
    cfg.pools = vec![(0, 1, units(1000), units(1000)), (1, 2, units(500), units(500))];
    let quiet: Vec<MarketStep> =
        (0..3).map(|_| MarketStep { growth: vec![], draws: vec![] }).collect();
    let r = run(cfg, &quiet).unwrap();
    assert_eq!(r.pnl, vec![SignedWad(0), SignedWad(0)]);
    assert_eq!(r.edges, vec![SignedWad(0), SignedWad(0)]);
    assert_eq!(r.final_prices, vec![units(1), units(1), units(1)]);
    assert_eq!(r.pools[0].reserve_a, units(1000));
    assert_eq!(r.pools[3].reserve_b, units(500));
}

#[test]
fn configuration_faults_in_order() {
    let m = market();
    let mut c = config(4, None);
    c.initial_prices = vec![units(1)];
    c.numeraire_token = 5;
    c.pools = vec![];
    assert_eq!(fault(run(c, &m)), ConfigFault::TooFewAssets);

    let mut c = config(4, None);
    c.numeraire_token = 3;
    c.pools = vec![];
    assert_eq!(fault(run(c, &m)), ConfigFault::NumeraireOutOfBounds);

    let mut c = config(4, None);
    c.pools = vec![];
    assert_eq!(fault(run(c, &vec![])), ConfigFault::NoPools);

    assert_eq!(fault(run(config(5, None), &m)), ConfigFault::MarketLength);
    assert_eq!(fault(run(config(3, None), &m)), ConfigFault::MarketLength);

    let mut bad = market();
    bad[2].draws.push(draw(3, 0, true, units(1)));
    assert_eq!(fault(run(config(4, None), &bad)), ConfigFault::MarketDraws);
    let mut bad = market();
    bad[3].draws.push(draw(0, 2, true, units(1)));
    assert_eq!(fault(run(config(4, None), &bad)), ConfigFault::MarketDraws);
}

#[test]
fn pool_faults_name_the_first_faulty_pool() {
    let m = market();
    let mut c = config(4, None);
    c.pools[1] = (2, 2, units(1), units(1));
    c.pools[2] = (0, 1, Wad(0), units(1));
    assert_eq!(fault(run(c, &m)), ConfigFault::PoolTokens { index: 1 });

    let mut c = config(4, None);
    c.pools[0] = (0, 3, units(1), units(1));
    assert_eq!(fault(run(c, &m)), ConfigFault::PoolTokens { index: 0 });

    let mut c = config(4, None);
    c.pools[2] = (0, 2, units(1), Wad(0));
    assert_eq!(fault(run(c, &m)), ConfigFault::PoolReserves { index: 2 });

    let mut c = config(4, None);
    c.pools[2] = (7, 2, Wad(0), Wad(0));
    assert_eq!(fault(run(c, &m)), ConfigFault::PoolTokens { index: 2 });
}

#[test]
fn unloadable_strategy_fails_the_run() {
    let r = SimulationEngineV2::new(config(4, None)).run::<FixedFees>(
        &vec![30],
        &vec![10, 50],
        &market(),
    );
    match r {
        Err(SimulationError::EVMError(message)) => assert_eq!(message, "bytecode too short"),
        other => panic!("expected a strategy failure, got {:?}", other),
    }
    // a faulty first pool is reported before any strategy is loaded
    let mut c = config(4, None);
    c.pools[0] = (0, 0, units(1), units(1));
    let r = SimulationEngineV2::new(c).run::<FixedFees>(&vec![30], &vec![10, 50], &market());
    assert_eq!(fault(r), ConfigFault::PoolTokens { index: 0 });
    // a faulty later pool is not
    let mut c = config(4, None);
    c.pools[1] = (0, 0, units(1), units(1));
    let r = SimulationEngineV2::new(c).run::<FixedFees>(&vec![30], &vec![10, 50], &market());
    assert!(matches!(r, Err(SimulationError::EVMError(_))));
}

#[test]
fn strategy_failing_mid_run_is_tolerated() {
    // the submission's callbacks fail from its sixth swap on
    let steady = run(config(4, Some(2)), &market()).unwrap();
    let flaky = SimulationEngineV2::new(config(4, Some(2)))
        .run::<FixedFees>(&vec![30, 30, 5], &vec![10, 50], &market())
        .unwrap();
    // fixed fees that stop being confirmed are the same fees
    assert_eq!(flaky.pnl, steady.pnl);
    assert_eq!(flaky.edges, steady.edges);
    assert_eq!(flaky.pools, steady.pools);
    assert_eq!(flaky.final_prices[1], Wad(WAD));
    for pool in flaky.pools.iter() {
        assert!(pool.reserve_a.0 > 0 && pool.reserve_b.0 > 0);
    }
}

#[test]
fn batch_is_the_same_on_one_worker_and_on_eight() {
    let seeds: Vec<u64> = (0..32).collect();
    let task = |seed: u64| {
        let mut m = market();
        m[0].draws.push(draw((seed % 3) as usize, (seed % 2) as usize, seed % 5 == 0, units(seed + 1)));
        run(config(4, Some(seed)), &m)
    };
    let on = |workers: usize| {
        let pool = rayon::ThreadPoolBuilder::new().num_threads(workers).build().unwrap();
        let outcomes: Vec<_> = pool.install(|| seeds.clone().into_par_iter().map(task).collect());
        assemble_batch_v2(collect_results(outcomes).unwrap())
    };
    let one = on(1);
    let eight = on(8);
    assert_eq!(one.len(), 32);
    assert_eq!(eight.len(), 32);
    assert_eq!(one.strategies, eight.strategies);
    for (a, b) in one.results.iter().zip(eight.results.iter()) {
        assert_eq!(a.seed, b.seed);
        assert_eq!(a.pnl, b.pnl);
        assert_eq!(a.edges, b.edges);
        assert_eq!(a.final_prices, b.final_prices);
        assert_eq!(a.pools, b.pools);
    }
    for (i, r) in one.results.iter().enumerate() {
        assert_eq!(r.seed, i as u64);
    }
}

#[test]
fn pools_alternate_between_the_two_strategies() {
    let sub = vec![1u8];
    let base = vec![2u8];
    for position in [0usize, 2, 4, 1000] {
        assert_eq!(strategy_name(position), "submission");
        assert_eq!(strategy_bytecode(position, &sub, &base), &sub);
    }
    for position in [1usize, 3, 5, 1001, usize::MAX] {
        assert_eq!(strategy_name(position), "normalizer");
        assert_eq!(strategy_bytecode(position, &sub, &base), &base);
    }
    // built pools carry the fees of the strategy that owns them
    let engine = SimulationEngineV2::new(config(4, None));
    let amms = engine.build_pools::<FixedFees>(&vec![30, 30], &vec![10, 50]).unwrap();
    assert_eq!(amms.len(), 6);
    for (i, amm) in amms.iter().enumerate() {
        assert_eq!(amm.id(), i);
        assert!(amm.is_initialized());
        if i % 2 == 0 {
            assert_eq!(amm.name(), "submission");
            assert_eq!(amm.fees().bid_fee, Wad::from_bps(30));
        } else {
            assert_eq!(amm.name(), "normalizer");
            assert_eq!(amm.fees().ask_fee, Wad::from_bps(50));
        }
    }
}

#[test]
fn built_pools_always_run_to_the_end() {
    let engine = SimulationEngineV2::new(config(4, Some(9)));
    // the submission's callbacks fail from its very first swap
    let amms = engine.build_pools::<FixedFees>(&vec![30, 30, 0], &vec![10, 50]).unwrap();
    let r = simulate(engine.config(), amms, &market());
    let whole = run(config(4, Some(9)), &market()).unwrap();
    assert_eq!(r.seed, 9);
    assert_eq!(r.pnl, whole.pnl);
    assert_eq!(r.edges, whole.edges);
    assert_eq!(r.pools, whole.pools);
    assert_eq!(r.final_prices, whole.final_prices);
}
