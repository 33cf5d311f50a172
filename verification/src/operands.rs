//! The fixed shapes in which instructions bundle their operands.
//!
//! Each shape is a passive aggregate: nothing is validated here. Its
//! constructor takes the fields in the order of the encoding, the result
//! first and the operands after it.

use crate::immediate::Const16;
use crate::immediate::Const32;
use crate::register::Register;
use vstd::prelude::*;

verus! {

/// The sign of a value.
#[derive(Debug, Copy, Clone, PartialEq, Eq, Structural)]
pub enum Sign {
    /// Positive sign.
    Pos,
    /// Negative sign.
    Neg,
}

/// A binary [`Register`] based instruction.
#[derive(Debug, Copy, Clone, PartialEq, Eq)]
pub struct BinInstr {
    /// The register storing the result of the computation.
    pub result: Register,
    /// The register holding the left-hand side value.
    pub lhs: Register,
    /// The register holding the right-hand side value.
    pub rhs: Register,
}

impl BinInstr {
    /// Creates a new [`BinInstr`] that holds exactly the given fields.
    pub fn new(result: Register, lhs: Register, rhs: Register) -> (r: Self)
        ensures
            r == (BinInstr { result, lhs, rhs }),
    {
        Self { result, lhs, rhs }
    }
}

/// A binary instruction with a 16-bit immediate as one of its operands.
///
/// The instruction that embeds it decides whether the immediate is the
/// left-hand or the right-hand operand.
#[derive(Debug, Copy, Clone, PartialEq, Eq)]
pub struct BinInstrImm16<T> {
    /// The register storing the result of the computation.
    pub result: Register,
    /// The register holding one of the operands.
    pub reg_in: Register,
    /// The 16-bit immediate value of the other operand.
    pub imm_in: Const16<T>,
}

impl<T> BinInstrImm16<T> {
    /// Creates a new [`BinInstrImm16`] that holds exactly the given fields.
    pub fn new(result: Register, reg_in: Register, imm_in: Const16<T>) -> (r: Self)
        ensures
            r == (BinInstrImm16 { result, reg_in, imm_in }),
    {
        Self { result, reg_in, imm_in }
    }
}

/// A unary instruction.
#[derive(Debug, Copy, Clone, PartialEq, Eq)]
pub struct UnaryInstr {
    /// The register storing the result of the instruction.
    pub result: Register,
    /// The register holding the input of the instruction.
    pub input: Register,
}

impl UnaryInstr {
    /// Creates a new [`UnaryInstr`] that holds exactly the given fields.
    pub fn new(result: Register, input: Register) -> (r: Self)
        ensures
            r == (UnaryInstr { result, input }),
    {
        Self { result, input }
    }
}

/// A general `load` instruction.
///
/// Its offset is stored in a [`Const32`] word that follows it immediately
/// in the instruction sequence.
#[derive(Debug, Copy, Clone, PartialEq, Eq)]
pub struct LoadInstr {
    /// The register storing the result of the `load` instruction.
    pub result: Register,
    /// The register storing the pointer of the `load` instruction.
    pub ptr: Register,
}

impl LoadInstr {
    /// Creates a new [`LoadInstr`] that holds exactly the given fields.
    pub fn new(result: Register, ptr: Register) -> (r: Self)
        ensures
            r == (LoadInstr { result, ptr }),
    {
        Self { result, ptr }
    }
}

/// A `load` instruction loading from a constant address.
#[derive(Debug, Copy, Clone, PartialEq, Eq)]
pub struct LoadAtInstr {
    /// The register storing the result of the `load` instruction.
    pub result: Register,
    /// The `ptr+offset` address of the `load` instruction.
    pub address: Const32,
}

impl LoadAtInstr {
    /// Creates a new [`LoadAtInstr`] that holds exactly the given fields.
    pub fn new(result: Register, address: Const32) -> (r: Self)
        ensures
            r == (LoadAtInstr { result, address }),
    {
        Self { result, address }
    }
}

/// A `load` instruction with a 16-bit encoded offset parameter.
///
/// For offsets small enough, this spares the word that a [`LoadInstr`] needs.
#[derive(Debug, Copy, Clone, PartialEq, Eq)]
pub struct LoadOffset16Instr {
    /// The register storing the result of the `load` instruction.
    pub result: Register,
    /// The register storing the pointer of the `load` instruction.
    pub ptr: Register,
    /// The 16-bit encoded offset of the `load` instruction.
    pub offset: Const16<u32>,
}

impl LoadOffset16Instr {
    /// Creates a new [`LoadOffset16Instr`] that holds exactly the given fields.
    pub fn new(result: Register, ptr: Register, offset: Const16<u32>) -> (r: Self)
        ensures
            r == (LoadOffset16Instr { result, ptr, offset }),
    {
        Self { result, ptr, offset }
    }
}

/// A general `store` instruction.
///
/// The value to store is encoded in the word that follows it.
#[derive(Debug, Copy, Clone, PartialEq, Eq)]
pub struct StoreInstr {
    /// The register storing the pointer of the `store` instruction.
    pub ptr: Register,
    /// The pointer offset of the `store` instruction.
    pub offset: Const32,
}

impl StoreInstr {
    /// Creates a new [`StoreInstr`] that holds exactly the given fields.
    pub fn new(ptr: Register, offset: Const32) -> (r: Self)
        ensures
            r == (StoreInstr { ptr, offset }),
    {
        Self { ptr, offset }
    }
}

/// A `store` instruction with a 16-bit encoded offset, which fits one word.
///
/// The value is a [`Register`] to copy from, or a small scalar stored inline.
#[derive(Debug, Copy, Clone, PartialEq, Eq)]
pub struct StoreOffset16Instr<T> {
    /// The register storing the pointer of the `store` instruction.
    pub ptr: Register,
    /// The 16-bit encoded pointer offset of the `store` instruction.
    pub offset: Const16<u32>,
    /// The value to be stored.
    pub value: T,
}

impl<T> StoreOffset16Instr<T> {
    /// Creates a new [`StoreOffset16Instr`] that holds exactly the given fields.
    pub fn new(ptr: Register, offset: Const16<u32>, value: T) -> (r: Self)
        ensures
            r == (StoreOffset16Instr { ptr, offset, value }),
    {
        Self { ptr, offset, value }
    }
}

/// A `store` instruction storing to a constant address.
///
/// The value is a [`Register`] to copy from, or a small scalar stored inline.
#[derive(Debug, Copy, Clone, PartialEq, Eq)]
pub struct StoreAtInstr<T> {
    /// The constant address to store the value.
    pub address: Const32,
    /// The value to be stored.
    pub value: T,
}

impl<T> StoreAtInstr<T> {
    /// Creates a new [`StoreAtInstr`] that holds exactly the given fields.
    pub fn new(address: Const32, value: T) -> (r: Self)
        ensures
            r == (StoreAtInstr { address, value }),
    {
        Self { address, value }
    }
}

/// The `f32.copysign` or `f64.copysign` instruction with an immediate sign.
#[derive(Debug, Copy, Clone, PartialEq, Eq)]
pub struct CopysignImmInstr {
    /// The result register.
    pub result: Register,
    /// The input register.
    pub lhs: Register,
    /// The sign to copy.
    pub rhs: Sign,
}

/// A handle to an entry of the constant pool, which stores the constants too
/// large for an instruction word. How the pool resolves it is the pool's affair.
#[derive(Debug, Copy, Clone, PartialEq, Eq, Structural)]
pub struct ConstRef(u32);

impl ConstRef {
    /// The index that the handle wraps.
    pub closed spec fn index(self) -> u32 {
        self.0
    }

    /// Creates the handle that wraps the given index.
    pub fn from_u32(index: u32) -> (r: Self)
        ensures
            r.index() == index,
    {
        Self(index)
    }

    /// Returns the index that the handle wraps.
    pub fn to_u32(self) -> (r: u32)
        ensures
            r == self.index(),
    {
        self.0
    }
}

/// The distance of a branch, counted in instruction words from the branch
/// itself; negative for a branch backwards.
#[derive(Debug, Copy, Clone, PartialEq, Eq, Structural)]
pub struct BranchOffset(i32);

impl BranchOffset {
    /// The distance in instruction words.
    pub closed spec fn distance(self) -> i32 {
        self.0
    }

    /// The offset of the given distance.
    pub closed spec fn of_distance(distance: i32) -> Self {
        BranchOffset(distance)
    }

    /// `of_distance` gives the offset of the given distance.
    pub broadcast proof fn lemma_of_distance(distance: i32)
        ensures
            (#[trigger] Self::of_distance(distance)).distance() == distance,
    {
    }

    /// Returns the distance in instruction words.
    pub fn to_i32(self) -> (r: i32)
        ensures
            r == self.distance(),
    {
        self.0
    }
}

impl From<i32> for BranchOffset {
    /// The offset of the given distance.
    fn from(distance: i32) -> (r: Self) {
        Self(distance)
    }
}

impl vstd::std_specs::convert::FromSpecImpl<i32> for BranchOffset {
    open spec fn obeys_from_spec() -> bool {
        true
    }

    open spec fn from_spec(distance: i32) -> Self {
        Self::of_distance(distance)
    }
}

} // verus!
