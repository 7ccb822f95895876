//! Simulation engines and the batch runner.

pub mod engine;
pub mod engine_v2;
pub mod error;
pub mod ledger;
pub mod model;
pub mod model_v2;
pub mod runner;

pub use engine_v2::{MarketStep, SimulationEngineV2};
pub use error::{ConfigFault, SimulationError};
pub use runner::{SimulationBatchConfig, SimulationBatchConfigV2};
pub use engine::{SimulationEngine, SingleStep};
