//! Register-machine bytecode for a WebAssembly interpreter: the compact
//! constant encodings, register operands, operand bundles and the
//! instruction words assembled from them.

pub mod ieee;
pub mod immediate;
pub mod instr_encoder;
pub mod instruction;
pub mod numeric;
pub mod operands;
pub mod register;
