//! Batches of independent simulations.
//!
//! The simulations of a batch share nothing, so they may run in any order
//! and on any number of workers; what is decided here is how many workers
//! to use and how the outcomes become one result.

use crate::amm::strategy::FeeStrategy;
use crate::simulation::engine::{ran_as, single_fault, SimulationEngine, SingleStep};
use crate::simulation::error::SimulationError;
use crate::types::config::{SimulationConfig, SimulationConfigV2};
use crate::types::result::{
    BatchSimulationResult, BatchSimulationResultV2, LightweightSimResult, LightweightSimResultV2,
};
use vstd::prelude::*;

verus! {

/// Most workers chosen when the caller asks for none in particular.
pub const MAX_AUTO_WORKERS: usize = 8;

/// Configuration for a batch of simulations.
#[derive(Debug)]
pub struct SimulationBatchConfig {
    /// Bytecode for the submission strategy
    pub submission_bytecode: Vec<u8>,
    /// Bytecode for the baseline strategy
    pub baseline_bytecode: Vec<u8>,
    /// List of simulation configs (one per simulation)
    pub configs: Vec<SimulationConfig>,
    /// Number of parallel workers (None = auto-detect)
    pub n_workers: Option<usize>,
}

/// Configuration for a batch of multi-asset simulations.
#[derive(Debug)]
pub struct SimulationBatchConfigV2 {
    /// Bytecode for the submission strategy
    pub submission_bytecode: Vec<u8>,
    /// Bytecode for the baseline strategy
    pub baseline_bytecode: Vec<u8>,
    /// List of simulation configs (one per simulation)
    pub configs: Vec<SimulationConfigV2>,
    /// Number of parallel workers (None = auto-detect)
    pub n_workers: Option<usize>,
}

/// `rayon::current_num_threads`: the number of threads of the thread pool
/// this code runs in, or of the global one. It depends on the machine and on
/// how the pool was built, so nothing is claimed of it.
#[verifier::external_body]
fn available_threads() -> usize {
    rayon::current_num_threads()
}

/// The caller's wish for a number of workers: zero means no wish.
pub fn requested_workers(n_workers: usize) -> (r: Option<usize>)
    ensures
        r == if n_workers == 0 {
            None
        } else {
            Some(n_workers)
        },
{
    if n_workers == 0 {
        None
    } else {
        Some(n_workers)
    }
}

/// The number of workers for a batch: what was requested, or else what is
/// available, up to `MAX_AUTO_WORKERS`.
pub open spec fn workers_for(requested: Option<usize>, available: usize) -> usize {
    match requested {
        Some(n) => n,
        None => if available < MAX_AUTO_WORKERS {
            available
        } else {
            MAX_AUTO_WORKERS
        },
    }
}

/// Computes `workers_for`.
pub fn choose_workers(requested: Option<usize>, available: usize) -> (n: usize)
    ensures
        n == workers_for(requested, available),
{
    match requested {
        Some(n) => n,
        None => if available < MAX_AUTO_WORKERS {
            available
        } else {
            MAX_AUTO_WORKERS
        },
    }
}

/// The number of workers for a batch on this machine: what was requested,
/// or else the number of threads available here, up to `MAX_AUTO_WORKERS`.
pub fn worker_count(requested: Option<usize>) -> (n: usize)
    ensures
        requested matches Some(wanted) ==> n == wanted,
        requested is None ==> n <= MAX_AUTO_WORKERS,
        exists|available: usize| n == workers_for(requested, available),
{
    match requested {
        Some(n) => {
            assert(n == workers_for(requested, 0));
            n
        },
        None => {
            let available = available_threads();
            choose_workers(None, available)
        },
    }
}

/// `i` is the position of the first failure among `outcomes`.
pub open spec fn first_failure<T>(outcomes: Seq<Result<T, SimulationError>>, i: int) -> bool {
    &&& 0 <= i < outcomes.len()
    &&& outcomes[i] is Err
    &&& forall|j: int| 0 <= j < i ==> (#[trigger] outcomes[j]) is Ok
}

/// Turns the outcomes of a batch, in the order of its configs, into the
/// batch's outcome: all results in that order, or the first failure.
pub fn collect_results<T>(outcomes: Vec<Result<T, SimulationError>>) -> (r: Result<
    Vec<T>,
    SimulationError,
>)
    ensures
        match r {
            Ok(results) => {
                &&& results@.len() == outcomes@.len()
                &&& forall|i: int|
                    0 <= i < outcomes@.len() ==> #[trigger] outcomes@[i] == Ok::<
                        T,
                        SimulationError,
                    >(results@[i])
            },
            Err(e) => exists|i: int|
                first_failure(outcomes@, i) && #[trigger] outcomes@[i] == Err::<T, SimulationError>(
                    e,
                ),
        },
{
    let ghost all = outcomes@;
    let mut rest = outcomes;
    let mut reversed: Vec<T> = Vec::new();
    let mut failure: Option<SimulationError> = None;
    let ghost mut at: int = all.len() as int;
    while rest.len() > 0
        invariant
            rest@ == all.subrange(0, rest@.len() as int),
            rest@.len() <= all.len(),
            match failure {
                Some(e) => rest@.len() <= at < all.len() && all[at] == Err::<T, SimulationError>(e)
                    && forall|j: int| rest@.len() <= j < at ==> (#[trigger] all[j]) is Ok,
                None => {
                    &&& reversed@.len() == all.len() - rest@.len()
                    &&& forall|j: int|
                        rest@.len() <= j < all.len() ==> #[trigger] all[j] == Ok::<
                            T,
                            SimulationError,
                        >(reversed@[all.len() - 1 - j])
                },
            },
        decreases rest@.len(),
    {
        let ghost n = rest@.len() as int;
        match rest.pop() {
            Some(Ok(result)) => {
                if failure.is_none() {
                    reversed.push(result);
                }
            },
            Some(Err(e)) => {
                failure = Some(e);
                proof {
                    at = n - 1;
                }
            },
            None => {},
        }
        proof {
            assert(rest@ =~= all.subrange(0, n - 1));
        }
    }
    if let Some(e) = failure {
        proof {
            assert(first_failure(all, at));
        }
        return Err(e);
    }
    let mut results: Vec<T> = Vec::new();
    let ghost rev = reversed@;
    while reversed.len() > 0
        invariant
            reversed@ == rev.subrange(0, reversed@.len() as int),
            rev.len() == all.len(),
            results@.len() == rev.len() - reversed@.len(),
            forall|j: int|
                0 <= j < all.len() ==> #[trigger] all[j] == Ok::<T, SimulationError>(
                    rev[all.len() - 1 - j],
                ),
            forall|j: int| 0 <= j < results@.len() ==> #[trigger] results@[j] == rev[rev.len() - 1 - j],
        decreases reversed@.len(),
    {
        let ghost n = reversed@.len() as int;
        match reversed.pop() {
            Some(result) => {
                results.push(result);
            },
            None => {},
        }
        proof {
            assert(reversed@ =~= rev.subrange(0, n - 1));
        }
    }
    Ok(results)
}

/// A copy of a list of names.
fn copy_names(names: &Vec<String>) -> (out: Vec<String>)
    ensures
        out@ == names@,
{
    let mut out: Vec<String> = Vec::new();
    let mut i: usize = 0;
    while i < names.len()
        invariant
            i <= names@.len(),
            out@ == names@.subrange(0, i as int),
        decreases names@.len() - i,
    {
        out.push(names[i].clone());
        proof {
            assert(out@ =~= names@.subrange(0, i + 1));
        }
        i = i + 1;
    }
    proof {
        assert(names@.subrange(0, names@.len() as int) =~= names@);
    }
    out
}

/// The result of a batch of single-pair simulations: its strategies are
/// those of the first simulation, and none for an empty batch.
pub fn assemble_batch(results: Vec<LightweightSimResult>) -> (b: BatchSimulationResult)
    ensures
        b.results == results,
        b.strategies@ == if results@.len() > 0 {
            results@[0].strategies@
        } else {
            Seq::<String>::empty()
        },
{
    let strategies = if results.len() > 0 {
        copy_names(&results[0].strategies)
    } else {
        Vec::new()
    };
    BatchSimulationResult { results, strategies }
}

/// The result of a batch of multi-asset simulations: its strategies are
/// those of the first simulation, and the submission and the normalizer for
/// an empty batch.
pub fn assemble_batch_v2(results: Vec<LightweightSimResultV2>) -> (b: BatchSimulationResultV2)
    ensures
        b.results == results,
        results@.len() > 0 ==> b.strategies@ == results@[0].strategies@,
        results@.len() == 0 ==> b.strategies@.len() == 2 && b.strategies@[0]@ == "submission"@
            && b.strategies@[1]@ == "normalizer"@,
{
    let strategies = if results.len() > 0 {
        copy_names(&results[0].strategies)
    } else {
        let mut names: Vec<String> = Vec::new();
        names.push("submission".to_owned());
        names.push("normalizer".to_owned());
        names
    };
    BatchSimulationResultV2 { results, strategies }
}

/// The name a strategy of a single-pair run is loaded under.
pub open spec fn role_label(submission: bool) -> Seq<char> {
    if submission {
        "Submission"@
    } else {
        "Baseline"@
    }
}

/// Computes `role_label`.
pub fn strategy_label(submission: bool) -> (name: String)
    ensures
        name@ == role_label(submission),
{
    if submission {
        "Submission".to_owned()
    } else {
        "Baseline".to_owned()
    }
}

/// The bytecode a strategy of a single-pair run is loaded from.
pub fn role_bytecode<'a>(
    submission: bool,
    submission_bytecode: &'a Vec<u8>,
    baseline_bytecode: &'a Vec<u8>,
) -> (code: &'a Vec<u8>)
    ensures
        code == if submission {
            submission_bytecode
        } else {
            baseline_bytecode
        },
{
    if submission {
        submission_bytecode
    } else {
        baseline_bytecode
    }
}

/// Run a single simulation (non-parallel): loads the two strategies, the
/// submission first, and runs them over `market`.
///
/// A strategy that cannot be loaded ends the run with its message before
/// the configuration is looked at; otherwise the outcome is that of
/// `SimulationEngine::run`.
pub fn run_simulation<S: FeeStrategy>(
    submission_bytecode: &Vec<u8>,
    baseline_bytecode: &Vec<u8>,
    config: SimulationConfig,
    market: &Vec<SingleStep>,
) -> (r: Result<LightweightSimResult, SimulationError>)
    ensures
        match r {
            Ok(result) => single_fault(config, market@) is None && ran_as(config, market@, result),
            Err(SimulationError::InvalidConfig(fault)) => single_fault(config, market@) == Some(
                fault,
            ),
            Err(SimulationError::EVMError(_)) => true,
        },
{
    let submission = match S::load(
        role_bytecode(true, submission_bytecode, baseline_bytecode),
        strategy_label(true),
    ) {
        Ok(s) => s,
        Err(e) => { return Err(SimulationError::EVMError(e.message)); },
    };
    let baseline = match S::load(
        role_bytecode(false, submission_bytecode, baseline_bytecode),
        strategy_label(false),
    ) {
        Ok(s) => s,
        Err(e) => { return Err(SimulationError::EVMError(e.message)); },
    };
    let mut engine = SimulationEngine::new(config);
    engine.run(submission, baseline, market)
}

} // verus!
