//! Market actors: the arbitrageur, the fair-price process, retail flow and
//! the order router.

pub mod arbitrageur;
pub mod band;
pub mod price_process;
pub mod price_process_v2;
pub mod retail;
pub mod retail_v2;
pub mod router;

pub use arbitrageur::{ArbResult, ArbSide, Arbitrageur};
pub use price_process_v2::MultiAssetPriceProcess;
pub use retail_v2::{RetailDraw, RetailOrderV2, RetailTraderV2};
pub use router::OrderRouter;
pub use price_process::GBMPriceProcess;
pub use retail::{RetailOrder, RetailSide, RetailTrader};
