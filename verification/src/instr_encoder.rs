//! The stream of instruction words that a function body is encoded to.

use crate::instruction::Instruction;
use vstd::prelude::*;

verus! {

/// Reference to an encoded [`Instruction`] in the [`Instruction`] stream of an [`InstrEncoder`].
#[derive(Debug, Copy, Clone, PartialEq, Eq, Structural)]
pub struct Instr(usize);

/// Encodes bytecode instructions to an [`Instruction`] stream.
#[derive(Debug)]
pub struct InstrEncoder {
    /// Already encoded [`Instruction`] words.
    _instrs: Vec<Instruction>,
}

} // verus!
