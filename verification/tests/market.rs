use amm_sim_rs::market::price_process::GBMPriceProcess;
use amm_sim_rs::market::price_process_v2::{MultiAssetPriceProcess, MIN_PRICE};
use amm_sim_rs::market::retail::{RetailOrder, RetailSide, RetailTrader};
use amm_sim_rs::market::retail_v2::{RetailDraw, RetailOrderV2, RetailTraderV2, MIN_PARAMETER};
use amm_sim_rs::types::wad::{Wad, WAD};
use rand::{Rng, SeedableRng};
use rand_distr::{Distribution, LogNormal, Poisson, StandardNormal};
use rand_pcg::Pcg64;

fn wad(x: f64) -> Wad {
    Wad((x * 1e18) as u128)
}

/// Growth factors of one step of geometric Brownian motion: one normal draw
/// per asset other than the numeraire.
fn growth(rng: &mut Pcg64, n: usize, numeraire: usize, mu: f64, sigma: f64, dt: f64) -> Vec<Wad> {
    let drift = (mu - 0.5 * sigma * sigma) * dt;
    let vol = sigma * dt.sqrt();
    (0..n)
        .map(|idx| {
            if idx == numeraire {
                return Wad(WAD);
            }
            let z: f64 = StandardNormal.sample(rng);
            wad((drift + vol * z).exp())
        })
        .collect()
}

/// The draws of one step of retail flow.
fn draws(rng: &mut Pcg64, trader: &RetailTraderV2) -> Vec<RetailDraw> {
    let rate = trader.arrival_rate.0 as f64 / 1e18;
    let sigma = trader.size_sigma.0 as f64 / 1e18;
    let mean = trader.mean_size.0 as f64 / 1e18;
    let poisson = Poisson::new(rate).unwrap();
    let lognormal = LogNormal::new(mean.ln() - 0.5 * sigma * sigma, sigma).unwrap();
    let buy_prob = trader.buy_prob.0 as f64 / 1e18;
    let arrivals = poisson.sample(rng) as usize;
    (0..arrivals)
        .map(|_| {
            let first = rng.gen_range(0..trader.n_assets);
            let second = rng.gen_range(0..(trader.n_assets - 1));
            let buy = rng.gen::<f64>() < buy_prob;
            let size: f64 = lognormal.sample(rng);
            RetailDraw { first, second, buy, size: wad(size) }
        })
        .collect()
}

#[test]
fn test_multi_asset_prices_deterministic() {
    let mut p1 = MultiAssetPriceProcess::new(vec![wad(2.0), wad(1.0), wad(3.0)], 1);
    let mut p2 = MultiAssetPriceProcess::new(vec![wad(2.0), wad(1.0), wad(3.0)], 1);
    let mut r1 = Pcg64::seed_from_u64(42);
    let mut r2 = Pcg64::seed_from_u64(42);

    for _ in 0..20 {
        p1.step(&growth(&mut r1, 3, 1, 0.0, 0.001, 1.0));
        p2.step(&growth(&mut r2, 3, 1, 0.0, 0.001, 1.0));
        assert_eq!(p1.current_prices(), p2.current_prices());
    }
}

#[test]
fn test_numeraire_is_one() {
    let mut p = MultiAssetPriceProcess::new(vec![wad(10.0), wad(20.0)], 0);
    let mut rng = Pcg64::seed_from_u64(1);
    for _ in 0..20 {
        p.step(&growth(&mut rng, 2, 0, 0.0, 0.1, 1.0));
        assert_eq!(p.current_prices()[0], wad(1.0));
    }
}

#[test]
fn test_retail_v2_deterministic() {
    let t1 = RetailTraderV2::new(3, wad(1.2), wad(20.0), wad(1.2), wad(0.5));
    let t2 = RetailTraderV2::new(3, wad(1.2), wad(20.0), wad(1.2), wad(0.5));
    let mut r1 = Pcg64::seed_from_u64(7);
    let mut r2 = Pcg64::seed_from_u64(7);
    for _ in 0..10 {
        let o1 = t1.generate_orders(&draws(&mut r1, &t1));
        let o2 = t2.generate_orders(&draws(&mut r2, &t2));
        assert_eq!(o1.len(), o2.len());
        for (a, b) in o1.iter().zip(o2.iter()) {
            assert_eq!(a.token_in, b.token_in);
            assert_eq!(a.token_out, b.token_out);
            assert_eq!(a.size_numeraire, b.size_numeraire);
        }
    }
}

#[test]
fn numeraire_pinned_along_a_seeded_path() {
    let mut p = MultiAssetPriceProcess::new(vec![wad(2.0), wad(1.0), wad(3.0)], 1);
    let mut rng = Pcg64::seed_from_u64(42);
    let mut again = Pcg64::seed_from_u64(42);
    let mut expected = [2 * WAD, WAD, 3 * WAD];
    for _ in 0..20 {
        p.step(&growth(&mut rng, 3, 1, 0.0, 0.001, 1.0));
        let g = growth(&mut again, 3, 1, 0.0, 0.001, 1.0);
        for i in [0, 2] {
            // prices near three and factors near one: the product fits
            expected[i] = expected[i] * g[i].0 / WAD;
            assert_eq!(p.current_prices()[i], Wad(expected[i]));
            assert_ne!(expected[i], [2 * WAD, WAD, 3 * WAD][i]);
        }
        assert_eq!(p.current_prices()[1], Wad(WAD));
    }
}

#[test]
fn new_process_pins_the_numeraire() {
    let p = MultiAssetPriceProcess::new(vec![Wad(5), Wad(6), Wad(7)], 2);
    assert_eq!(p.current_prices(), &vec![Wad(5), Wad(6), Wad(WAD)]);
    let q = MultiAssetPriceProcess::new(vec![Wad(5), Wad(6)], 2);
    assert_eq!(q.current_prices(), &vec![Wad(5), Wad(6)]);
}

#[test]
fn step_scales_clamps_and_saturates() {
    let mut p = MultiAssetPriceProcess::new(
        vec![Wad(2 * WAD), Wad(9), Wad(3 * WAD), Wad(u128::MAX), Wad(0), Wad(7 * WAD)],
        1,
    );
    p.step(&vec![Wad(WAD / 2), Wad(5 * WAD), Wad(0), Wad(WAD + 1), Wad(WAD)]);
    assert_eq!(
        p.current_prices(),
        &vec![
            Wad(WAD),
            Wad(WAD),
            Wad(MIN_PRICE),
            Wad(u128::MAX),
            Wad(MIN_PRICE),
            // no factor given: the price stays
            Wad(7 * WAD),
        ]
    );
    p.step(&vec![Wad(3), Wad(3), Wad(WAD + WAD / 2)]);
    assert_eq!(p.current_prices()[0], Wad(3));
    assert_eq!(p.current_prices()[2], Wad(MIN_PRICE + MIN_PRICE / 2));
    p.step(&vec![Wad(1)]);
    assert_eq!(p.current_prices()[0], Wad(MIN_PRICE));
}

#[test]
fn single_price_steps() {
    let mut p = GBMPriceProcess::new(Wad(2 * WAD));
    assert_eq!(p.current_price(), Wad(2 * WAD));
    assert_eq!(p.step(Wad(WAD + WAD / 100)), Wad(2_020_000_000_000_000_000));
    assert_eq!(p.step(Wad(0)), Wad(MIN_PRICE));
    assert_eq!(p.current_price(), Wad(MIN_PRICE));
    let mut q = GBMPriceProcess::new(Wad(u128::MAX));
    assert_eq!(q.step(Wad(2 * WAD)), Wad(u128::MAX));
}

#[test]
fn degenerate_parameters_are_floored() {
    let t = RetailTraderV2::new(4, Wad(0), Wad(MIN_PARAMETER - 1), Wad(MIN_PARAMETER), Wad(0));
    assert_eq!(t.n_assets, 4);
    assert_eq!(t.arrival_rate, Wad(MIN_PARAMETER));
    assert_eq!(t.mean_size, Wad(MIN_PARAMETER));
    assert_eq!(t.size_sigma, Wad(MIN_PARAMETER));
    assert_eq!(t.buy_prob, Wad(0));
    assert_eq!(MIN_PARAMETER, WAD / 100);
    let u = RetailTraderV2::new(4, wad(1.5), wad(20.0), wad(0.7), wad(0.25));
    assert_eq!((u.arrival_rate, u.mean_size, u.size_sigma), (wad(1.5), wad(20.0), wad(0.7)));
    let s = RetailTrader::new(Wad(1), wad(20.0), Wad(2), wad(0.5));
    assert_eq!(
        s,
        RetailTrader {
            arrival_rate: Wad(MIN_PARAMETER),
            mean_size: wad(20.0),
            size_sigma: Wad(MIN_PARAMETER),
            buy_prob: wad(0.5),
        }
    );
}

#[test]
fn orders_pair_distinct_tokens() {
    let t = RetailTraderV2::new(3, wad(1.0), wad(1.0), wad(1.0), wad(0.5));
    let draws = vec![
        RetailDraw { first: 0, second: 0, buy: true, size: Wad(1) },
        RetailDraw { first: 0, second: 1, buy: false, size: Wad(2) },
        RetailDraw { first: 1, second: 0, buy: true, size: Wad(3) },
        RetailDraw { first: 1, second: 1, buy: false, size: Wad(4) },
        RetailDraw { first: 2, second: 0, buy: false, size: Wad(5) },
        RetailDraw { first: 2, second: 1, buy: true, size: Wad(6) },
    ];
    assert!(t.accepts_all(&draws));
    let orders = t.generate_orders(&draws);
    let order = |token_in, token_out, size| RetailOrderV2 {
        token_in,
        token_out,
        size_numeraire: Wad(size),
    };
    assert_eq!(
        orders,
        vec![
            order(1, 0, 1),
            order(0, 2, 2),
            order(0, 1, 3),
            order(1, 2, 4),
            order(2, 0, 5),
            order(1, 2, 6),
        ]
    );
    assert!(t.generate_orders(&vec![]).is_empty());
}

#[test]
fn draws_outside_the_universe_are_recognized() {
    let t = RetailTraderV2::new(3, wad(1.0), wad(1.0), wad(1.0), wad(0.5));
    assert!(t.accepts(&RetailDraw { first: 2, second: 1, buy: true, size: Wad(0) }));
    assert!(!t.accepts(&RetailDraw { first: 3, second: 1, buy: true, size: Wad(0) }));
    assert!(!t.accepts(&RetailDraw { first: 2, second: 2, buy: true, size: Wad(0) }));
    assert!(!t.accepts(&RetailDraw { first: 0, second: usize::MAX, buy: true, size: Wad(0) }));
    let lonely = RetailTraderV2::new(1, wad(1.0), wad(1.0), wad(1.0), wad(0.5));
    assert!(!lonely.accepts(&RetailDraw { first: 0, second: 0, buy: true, size: Wad(0) }));
    assert!(!t.accepts_all(&vec![
        RetailDraw { first: 0, second: 0, buy: true, size: Wad(0) },
        RetailDraw { first: 0, second: 2, buy: true, size: Wad(0) },
    ]));
    assert!(t.accepts_all(&vec![]));
}

#[test]
fn single_pair_orders_follow_their_draws() {
    let t = RetailTrader::new(wad(1.0), wad(1.0), wad(1.0), wad(0.5));
    assert_eq!(
        t.generate_orders(&vec![(true, Wad(4)), (false, Wad(5))]),
        vec![
            RetailOrder { side: RetailSide::Buy, size: Wad(4) },
            RetailOrder { side: RetailSide::Sell, size: Wad(5) },
        ]
    );
}
