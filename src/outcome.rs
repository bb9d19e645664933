//! What one run can end in, and how the engine's result is classified.
use cairo_vm::vm::errors::runner_errors::RunnerError;
use starknet_types_core::felt::Felt;
use vstd::prelude::*;

verus! {

/// Why a run did not complete, or how it panicked.
pub enum Error {
    /// The program bytes do not decode as a Sierra program; the decoder's
    /// diagnostic.
    SierraCompilation(String),
    /// The runner could not build the execution record of a finished run.
    Runner(RunnerError),
    /// The engine failed for a reason other than a panic of the program.
    Engine(String),
    /// Reading the program or writing the archive failed.
    Io(String),
    /// The caller's arguments were rejected before the run.
    Cli(String),
    /// The program itself panicked, with this payload.
    RunPanic(Vec<Felt>),
}

/// The one outcome of a run.
pub enum RunOutcome {
    /// The run finished normally, with its serialized return value if any.
    Completed { serialized_output: Option<String> },
    /// The program signalled a panic, with its raw payload.
    Panicked { panic_data: Vec<Felt> },
    /// The tooling failed.
    Failed { error: Error },
}

/// The outcome that an engine result stands for: a result is a completed
/// run, a panic carries its payload over verbatim, and any other error is a
/// failure that carries the error.
pub open spec fn classified(result: Result<Option<String>, Error>) -> RunOutcome {
    match result {
        Ok(serialized_output) => RunOutcome::Completed { serialized_output },
        Err(Error::RunPanic(panic_data)) => RunOutcome::Panicked { panic_data },
        Err(error) => RunOutcome::Failed { error },
    }
}

/// Classifies what the engine returned.
pub fn classify(result: Result<Option<String>, Error>) -> (r: RunOutcome)
    ensures
        r == classified(result),
{
    match result {
        Ok(serialized_output) => RunOutcome::Completed { serialized_output },
        Err(Error::RunPanic(panic_data)) => RunOutcome::Panicked { panic_data },
        Err(error) => RunOutcome::Failed { error },
    }
}

/// Every outcome is exactly one of completed, panicked and failed.
pub proof fn lemma_outcome_exclusive(outcome: RunOutcome)
    ensures
        (outcome is Completed) as int + (outcome is Panicked) as int + (outcome is Failed) as int
            == 1,
{
}

/// A panic of the program is classified as a panic with its payload, never as
/// a completed run nor as a failure; only a result completes a run.
pub proof fn lemma_classify_branches(result: Result<Option<String>, Error>)
    ensures
        (result matches Err(Error::RunPanic(d)) ==> classified(result) == RunOutcome::Panicked {
            panic_data: d,
        }),
        (classified(result) is Completed <==> result is Ok),
        (classified(result) is Panicked <==> result matches Err(Error::RunPanic(_))),
{
}

} // verus!
