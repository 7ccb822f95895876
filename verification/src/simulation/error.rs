//! Why a simulation did not run.

use vstd::prelude::*;

verus! {

/// What is wrong with a configuration or with the market path given with it.
#[derive(Debug, Clone, Copy, PartialEq, Eq, Structural)]
pub enum ConfigFault {
    /// Fewer than two assets.
    TooFewAssets,
    /// The numeraire is not one of the assets.
    NumeraireOutOfBounds,
    /// No pool.
    NoPools,
    /// The pool at `index` names a token twice, or one that is not an asset.
    PoolTokens { index: usize },
    /// The pool at `index` has an empty reserve.
    PoolReserves { index: usize },
    /// An initial reserve is zero.
    EmptyReserves,
    /// The market path does not have one step per simulation step.
    MarketLength,
    /// The market path holds a draw that cannot have come from the
    /// configured universe.
    MarketDraws,
}

/// Why a simulation failed.
#[derive(Debug)]
pub enum SimulationError {
    /// The configuration was rejected before anything ran.
    InvalidConfig(ConfigFault),
    /// A strategy could not be loaded or failed to initialize; the message
    /// is the strategy's own.
    EVMError(String),
}

} // verus!
