//! The outside types that the run carries, and the calls made into their crates.
use vstd::prelude::*;

verus! {

/// A field element of the Starknet prime field.
#[verifier::external_type_specification]
#[verifier::external_body]
pub struct ExFelt(starknet_types_core::felt::Felt);

/// The memory layout that the virtual machine provisions for a run.
#[verifier::external_type_specification]
#[verifier::external_body]
pub struct ExLayoutName(cairo_vm::types::layout_name::LayoutName);

/// A compiled Sierra program.
#[verifier::external_type_specification]
#[verifier::external_body]
pub struct ExProgram(cairo_lang_sierra::program::Program);

/// The virtual machine's runner, as a finished run leaves it.
#[verifier::external_type_specification]
#[verifier::external_body]
pub struct ExCairoRunner(cairo_vm::vm::runners::cairo_runner::CairoRunner);

/// A portable execution record of a finished run.
#[verifier::external_type_specification]
#[verifier::external_body]
pub struct ExCairoPie(cairo_vm::vm::runners::cairo_pie::CairoPie);

/// What the runner reports when it cannot build an execution record.
#[verifier::external_type_specification]
#[verifier::external_body]
pub struct ExRunnerError(cairo_vm::vm::errors::runner_errors::RunnerError);

/// Whether `bytes` is a JSON document that decodes as a Sierra program.
pub uninterp spec fn sierra_json_accepts(bytes: Seq<u8>) -> bool;

/// Relies on serde_json::from_slice with cairo_lang_sierra's `Deserialize` for
/// `Program`: whether the bytes decode depends on the bytes alone. A failure
/// is handed back as serde_json's message for it.
#[verifier::external_body]
pub(crate) fn decode_sierra_json(bytes: &[u8]) -> (r: Result<
    cairo_lang_sierra::program::Program,
    String,
>)
    ensures
        r is Ok <==> sierra_json_accepts(bytes@),
{
    serde_json::from_slice(bytes).map_err(|e: serde_json::Error| e.to_string())
}

/// Relies on cairo_vm's `CairoRunner::get_cairo_pie`, which builds the
/// execution record of the run the runner holds.
#[verifier::external_body]
pub(crate) fn runner_cairo_pie(runner: &cairo_vm::vm::runners::cairo_runner::CairoRunner) -> (r:
    Result<cairo_vm::vm::runners::cairo_pie::CairoPie, cairo_vm::vm::errors::runner_errors::RunnerError>)
{
    runner.get_cairo_pie()
}

} // verus!
