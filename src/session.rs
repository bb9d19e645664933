//! The steps of one run that ends in a Cairo PIE archive.
//!
//! The caller performs each step that is handed out (running the engine,
//! writing the archive) and reports what came of it; the run decides what
//! follows. The archive is asked for only after the engine completed and the
//! execution record was built, and the run is reported as completed only once
//! the archive is written.
use crate::config::Cairo1RunConfig;
use crate::outcome::{classified, classify, Error, RunOutcome};
use crate::outside::runner_cairo_pie;
use crate::resolve::{resolvable, resolve_program, ProgramInput};
use cairo_lang_sierra::program::Program;
use cairo_vm::types::layout_name::LayoutName;
use cairo_vm::vm::errors::runner_errors::RunnerError;
use cairo_vm::vm::runners::cairo_pie::CairoPie;
use cairo_vm::vm::runners::cairo_runner::CairoRunner;
use starknet_types_core::felt::Felt;
use vstd::prelude::*;

verus! {

/// What the caller is to do next.
pub enum Step {
    /// Run the program once under this configuration.
    RunEngine { program: Program, config: Cairo1RunConfig },
    /// Write this execution record as an archive at the destination.
    WriteArtifact { pie: CairoPie },
    /// The run is over, with this outcome.
    Finish { outcome: RunOutcome },
}

/// Where a run stands.
pub enum Phase {
    /// Waiting for the engine's result.
    Engine,
    /// Waiting for the archive to be written; the engine's serialized output.
    Artifact { serialized_output: Option<String> },
    /// Over.
    Done,
}

/// One run that ends in a Cairo PIE archive.
pub struct PieRun {
    pub phase: Phase,
}

/// What follows once the execution record of a completed run was asked for:
/// with a record, its archive is to be written; without one, the run fails
/// with the runner's error.
pub open spec fn after_pie(
    serialized_output: Option<String>,
    pie: Result<CairoPie, RunnerError>,
) -> (Phase, Step) {
    match pie {
        Ok(pie) => (Phase::Artifact { serialized_output }, Step::WriteArtifact { pie }),
        Err(e) => (
            Phase::Done,
            Step::Finish { outcome: RunOutcome::Failed { error: Error::Runner(e) } },
        ),
    }
}

/// What follows the attempt to write the archive: a written archive completes
/// the run with the engine's output, a failed write fails it.
pub open spec fn after_write(serialized_output: Option<String>, written: Result<(), Error>) -> Step {
    match written {
        Ok(_) => Step::Finish { outcome: RunOutcome::Completed { serialized_output } },
        Err(error) => Step::Finish { outcome: RunOutcome::Failed { error } },
    }
}

impl PieRun {
    /// Starts a run: resolves the program and, when that succeeds, asks for
    /// one run of it with the configuration of a PIE run on `layout` with the
    /// array `input` as its one argument. Bytes that do not decode end the run
    /// at once with a schema error, before the engine runs.
    pub fn start(program: ProgramInput, layout: LayoutName, input: Vec<Felt>) -> (r: (
        PieRun,
        Step,
    ))
        ensures
            resolvable(program) ==> {
                &&& r.0.phase is Engine
                &&& r.1 matches Step::RunEngine { program: p, config }
                &&& config.is_pie_run(layout, input@)
                &&& (program matches ProgramInput::Resolved(q) ==> p == q)
            },
            !resolvable(program) ==> {
                &&& r.0.phase is Done
                &&& r.1 matches Step::Finish { outcome: RunOutcome::Failed { error } }
                &&& error is SierraCompilation
            },
    {
        match resolve_program(program) {
            Ok(p) => {
                let config = Cairo1RunConfig::for_pie(layout, input);
                (PieRun { phase: Phase::Engine }, Step::RunEngine { program: p, config })
            },
            Err(error) => (
                PieRun { phase: Phase::Done },
                Step::Finish { outcome: RunOutcome::Failed { error } },
            ),
        }
    }

    /// Takes what the engine returned. A panic of the program or any other
    /// error ends the run as classified; a completed run has its execution
    /// record built, and goes on as `pie_built` says.
    pub fn engine_returned(
        &mut self,
        result: Result<(CairoRunner, Option<String>), Error>,
    ) -> (s: Step)
        requires
            old(self).phase is Engine,
        ensures
            result matches Ok((_, out)) ==> exists|pie: Result<CairoPie, RunnerError>|
                (final(self).phase, s) == #[trigger] after_pie(out, pie),
            result matches Err(e) ==> {
                &&& final(self).phase is Done
                &&& s == (Step::Finish { outcome: classified(Err(e)) })
            },
    {
        match result {
            Ok((runner, serialized_output)) => {
                let pie = runner_cairo_pie(&runner);
                let ghost pie_seen = pie;
                let ghost out = serialized_output;
                let s = self.pie_built(serialized_output, pie);
                assert((self.phase, s) == after_pie(out, pie_seen));
                s
            },
            Err(e) => {
                self.phase = Phase::Done;
                Step::Finish { outcome: classify(Err(e)) }
            },
        }
    }

    /// Takes the execution record of a completed run, or the runner's reason
    /// for not building one.
    pub fn pie_built(
        &mut self,
        serialized_output: Option<String>,
        pie: Result<CairoPie, RunnerError>,
    ) -> (s: Step)
        requires
            old(self).phase is Engine,
        ensures
            (final(self).phase, s) == after_pie(serialized_output, pie),
    {
        match pie {
            Ok(pie) => {
                self.phase = Phase::Artifact { serialized_output };
                Step::WriteArtifact { pie }
            },
            Err(e) => {
                self.phase = Phase::Done;
                Step::Finish { outcome: RunOutcome::Failed { error: Error::Runner(e) } }
            },
        }
    }

    /// Takes the result of writing the archive, and ends the run.
    pub fn artifact_written(&mut self, written: Result<(), Error>) -> (s: Step)
        requires
            old(self).phase is Artifact,
        ensures
            final(self).phase is Done,
            s == after_write(old(self).phase->serialized_output, written),
    {
        let mut taken = Phase::Done;
        std::mem::swap(&mut self.phase, &mut taken);
        let serialized_output = match taken {
            Phase::Artifact { serialized_output } => serialized_output,
            _ => None,
        };
        match written {
            Ok(_) => Step::Finish { outcome: RunOutcome::Completed { serialized_output } },
            Err(error) => Step::Finish { outcome: RunOutcome::Failed { error } },
        }
    }
}

/// The archive is asked for only once an execution record was built, and a
/// run completes only through a written archive: an engine error never
/// completes a run, a record that could not be built ends it as a failure, and
/// after the write the run completes exactly when the write succeeded.
pub proof fn lemma_archive_only_on_success(
    serialized_output: Option<String>,
    pie: Result<CairoPie, RunnerError>,
    written: Result<(), Error>,
    engine_error: Error,
)
    ensures
        !(classified(Err(engine_error)) is Completed),
        after_pie(serialized_output, pie).1 is WriteArtifact <==> pie is Ok,
        pie is Err ==> (after_pie(serialized_output, pie).1 matches Step::Finish { outcome }
            && outcome is Failed),
        (after_write(serialized_output, written) matches Step::Finish { outcome }
            && outcome is Completed) <==> written is Ok,
{
}

/// Each decision of a run depends on what it was handed alone: the same
/// engine result, the same execution record and the same write result lead
/// to the same step and the same outcome, payloads included.
pub proof fn lemma_steps_deterministic(
    engine_a: Result<Option<String>, Error>,
    engine_b: Result<Option<String>, Error>,
    pie_a: Result<CairoPie, RunnerError>,
    pie_b: Result<CairoPie, RunnerError>,
    written_a: Result<(), Error>,
    written_b: Result<(), Error>,
    serialized_output: Option<String>,
)
    requires
        engine_a == engine_b,
        pie_a == pie_b,
        written_a == written_b,
    ensures
        classified(engine_a) == classified(engine_b),
        after_pie(serialized_output, pie_a) == after_pie(serialized_output, pie_b),
        after_write(serialized_output, written_a) == after_write(serialized_output, written_b),
{
}

} // verus!
