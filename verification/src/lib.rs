//! An evaluator for typed expression trees over a register file and a
//! growable, byte-addressed linear memory.
//!
//! * [`ast`] holds the expression trees that are evaluated.
//! * [`value`] holds the values of the four lanes and moves them in and out
//!   of register slots.
//! * [`numeric`] gives the 32-bit integer lane its operators.
//! * [`memory`] encodes and decodes lane values in little-endian order.
//! * [`interpreter`] walks a tree and states what the walk computes.
//! * [`lexer`] splits source text into tokens.
use vstd::prelude::*;

pub mod ast;
pub mod interpreter;
pub mod lexer;
pub mod memory;
pub mod numeric;
pub mod value;

verus! {

/// The evaluator. It carries no state of its own: the register file and the
/// linear memory are handed to each call.
pub struct Program;

} // verus!
