//! The arguments and the flags of one run.
use cairo_vm::types::layout_name::LayoutName;
use starknet_types_core::felt::Felt;
use vstd::prelude::*;

verus! {

/// One argument handed to the program's entry point.
pub enum FuncArg {
    /// A single field element.
    Single(Felt),
    /// An ordered list of field elements.
    Array(Vec<Felt>),
}

/// The flags that govern one run; built once and never changed afterwards.
pub struct Cairo1RunConfig {
    pub proof_mode: bool,
    pub serialize_output: bool,
    pub relocate_mem: bool,
    pub layout: LayoutName,
    pub trace_enabled: bool,
    pub args: Vec<FuncArg>,
    pub finalize_builtins: bool,
    pub append_return_values: bool,
}

impl Cairo1RunConfig {
    /// The configuration of a run whose execution record is kept: no proof
    /// mode, output serialized, memory left unrelocated, no trace, builtins
    /// finalized, return values not appended, the given layout, and one
    /// argument, the array of `input`.
    pub open spec fn is_pie_run(&self, layout: LayoutName, input: Seq<Felt>) -> bool {
        &&& !self.proof_mode
        &&& self.serialize_output
        &&& !self.relocate_mem
        &&& self.layout == layout
        &&& !self.trace_enabled
        &&& self.finalize_builtins
        &&& !self.append_return_values
        &&& self.args@.len() == 1
        &&& self.args@[0] matches FuncArg::Array(v) && v@ == input
    }

    /// Builds the configuration of a run whose execution record is kept.
    pub fn for_pie(layout: LayoutName, input: Vec<Felt>) -> (r: Self)
        ensures
            r.is_pie_run(layout, input@),
    {
        let ghost input_seq = input@;
        let mut args: Vec<FuncArg> = Vec::new();
        args.push(FuncArg::Array(input));
        proof {
            assert(args@[0] == FuncArg::Array(input));
        }
        Cairo1RunConfig {
            proof_mode: false,
            serialize_output: true,
            relocate_mem: false,
            layout,
            trace_enabled: false,
            args,
            finalize_builtins: true,
            append_return_values: false,
        }
    }
}

} // verus!
