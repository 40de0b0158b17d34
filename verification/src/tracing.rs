//! Execution tracing hooks. The sink that persists a trace is a
//! collaborator outside the core: the library computes the line an
//! execution step produces, and a tracer decides what becomes of it.

use vstd::prelude::*;

use crate::bytecode::Bytecode;
use crate::gas_schedule::instruction_key;
use crate::gas_schedule::spec_instruction_key;

verus! {

/// A tracer that drops every step.
pub struct EmptyTracer;

impl EmptyTracer {
    /// Drop one execution step.
    pub fn trace(&self, function_path: &String, pc: u64, instruction: &Bytecode) -> (r: ()) {
    }
}

/// A tracer that records each step as the executed function, the program
/// counter, and the instruction's canonical opcode byte. Writing the
/// records out belongs to the sink around the library.
pub struct ExecutionTracer;

impl ExecutionTracer {
    /// The record of one execution step.
    pub fn trace(&self, function_path: &String, pc: u64, instruction: &Bytecode) -> (r: (
        String,
        u64,
        u8,
    ))
        ensures
            r.0@ == function_path@,
            r.1 == pc,
            r.2 == spec_instruction_key(*instruction),
    {
        (function_path.clone(), pc, instruction_key(instruction))
    }
}

} // verus!
