//! Fixed-point simulation core for competing AMM fee strategies.
//!
//! Every quantity (reserves, amounts, prices, fees) is an 18-decimal
//! fixed-point number held in an integer, so that each rule of the pool, the
//! arbitrageur, the router and the engines is an exact statement over the
//! integers and is proved as such.

pub mod amm;
pub mod market;
pub mod math;
pub mod simulation;
pub mod types;
