//! Obtaining the program to run, from its JSON bytes or as already decoded.
use crate::outcome::Error;
use crate::outside::{decode_sierra_json, sierra_json_accepts};
use cairo_lang_sierra::program::Program;
use vstd::prelude::*;

verus! {

/// The program as the caller holds it.
pub enum ProgramInput {
    /// The program's JSON text, not yet checked against the program schema.
    Bytes(Vec<u8>),
    /// A program that the caller decoded and checked already.
    Resolved(Program),
}

/// Whether the input yields a program: bytes do when they decode under the
/// program schema, an already decoded program always does.
pub open spec fn resolvable(input: ProgramInput) -> bool {
    match input {
        ProgramInput::Bytes(bytes) => sierra_json_accepts(bytes@),
        ProgramInput::Resolved(_) => true,
    }
}

/// Resolves the input into a program. Bytes are decoded under the program
/// schema, with no other decoding tried when that fails; a decoded program
/// passes through unchanged.
pub fn resolve_program(input: ProgramInput) -> (r: Result<Program, Error>)
    ensures
        r is Ok <==> resolvable(input),
        input matches ProgramInput::Resolved(p) ==> r == Ok::<Program, Error>(p),
        r is Err ==> r->Err_0 is SierraCompilation,
{
    match input {
        ProgramInput::Bytes(bytes) => match decode_sierra_json(bytes.as_slice()) {
            Ok(program) => Ok(program),
            Err(message) => Err(Error::SierraCompilation(message)),
        },
        ProgramInput::Resolved(program) => Ok(program),
    }
}

} // verus!
