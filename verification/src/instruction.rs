//! The instruction words of the register machine, and one constructor for
//! each of them.
//!
//! Most instructions take one word. An instruction whose operands do not fit
//! one word is followed by the words that hold the rest: the translator emits
//! such a sequence whole, and the executor relies on it without a check.
//!
//! In the description of a variant, `rN` stands for a register and `cN` for a
//! constant (immediate) operand.

use crate::immediate::unsigned32;
use crate::immediate::AnyConst32;
use crate::immediate::Const16;
use crate::immediate::Const32;
use crate::operands::BinInstr;
use crate::operands::BinInstrImm16;
use crate::operands::BranchOffset;
use crate::operands::ConstRef;
use crate::operands::CopysignImmInstr;
use crate::operands::LoadAtInstr;
use crate::operands::LoadInstr;
use crate::operands::LoadOffset16Instr;
use crate::operands::Sign;
use crate::operands::StoreAtInstr;
use crate::operands::StoreInstr;
use crate::operands::StoreOffset16Instr;
use crate::operands::UnaryInstr;
use crate::register::Register;
use vstd::prelude::*;
use vstd::std_specs::convert::IntoSpec;
use wasmi_core::TrapCode;

verus! {

#[verifier::external_type_specification]
#[verifier::external_body]
pub struct ExTrapCode(TrapCode);

/// One instruction word of the register machine.
///
/// The set of variants is closed: it is the whole instruction set. An
/// executor has a case for each of them, the data words included, which trap
/// when they are reached.
#[allow(inconsistent_fields)]
#[derive(Debug, Copy, Clone, PartialEq, Eq)]
pub enum Instruction {
    /// A [`ConstRef`] instruction parameter.
    ///
    /// Serves only as data for the instruction before it. It must not be
    /// executed: doing so is a defect of the interpreter, and traps.
    ConstRef(ConstRef),
    /// A [`Const32`] instruction parameter.
    ///
    /// Serves only as data for the instruction before it. It must not be
    /// executed: doing so is a defect of the interpreter, and traps.
    Const32(Const32),
    /// A [`Register`] instruction parameter.
    ///
    /// Serves only as data for the instruction before it. It must not be
    /// executed: doing so is a defect of the interpreter, and traps.
    Register(Register),
    /// Traps with the given code.
    ///
    /// The translator emits it where it knows that execution cannot go on, for
    /// instance for a division by a constant zero.
    Trap(TrapCode),
    /// Returns from the function without a value.
    Return,
    /// Returns the value of a register.
    ReturnReg {
        /// The register holding the returned value.
        value: Register,
    },
    /// Returns a 32-bit constant.
    ReturnImm32 {
        /// The returned 32-bit constant.
        value: Const32,
    },
    /// Returns an `i64` constant that fits 32 bits.
    ReturnI64Imm32 {
        /// The returned constant, as the `i32` that sign-extends to it.
        value: Const32,
    },
    /// Returns a constant of the constant pool.
    ReturnImm {
        /// The handle of the returned constant.
        value: ConstRef,
    },
    /// Returns without a value if the condition is not zero.
    ReturnNez {
        /// The register holding the condition.
        condition: Register,
    },
    /// Returns the value of a register if the condition is not zero.
    ReturnNezReg {
        /// The register holding the condition.
        condition: Register,
        /// The register holding the returned value.
        value: Register,
    },
    /// Returns a 32-bit constant if the condition is not zero.
    ReturnNezImm32 {
        /// The register holding the condition.
        condition: Register,
        /// The returned 32-bit constant.
        value: Const32,
    },
    /// Returns an `i64` constant that fits 32 bits if the condition is not zero.
    ReturnNezI64Imm32 {
        /// The register holding the condition.
        condition: Register,
        /// The returned constant, as the `i32` that sign-extends to it.
        value: Const32,
    },
    /// Returns a constant of the constant pool if the condition is not zero.
    ReturnNezImm {
        /// The register holding the condition.
        condition: Register,
        /// The handle of the returned constant.
        value: ConstRef,
    },
    /// Branches unconditionally.
    Branch {
        /// The distance to the target of the branch.
        offset: BranchOffset,
    },
    /// Branches if the condition is zero.
    BranchEqz {
        /// The register holding the condition.
        condition: Register,
        /// The distance to the target of the branch.
        offset: BranchOffset,
    },
    /// Branches if the condition is not zero.
    BranchNez {
        /// The register holding the condition.
        condition: Register,
        /// The distance to the target of the branch.
        offset: BranchOffset,
    },
    /// Copies the value of one register to another.
    Copy {
        /// The register that is written.
        result: Register,
        /// The register that is read.
        value: Register,
    },
    /// `memory.copy` with all operands in registers: copies `len` bytes from `src` to `dst`.
    MemoryCopy {
        /// The start of the destination in linear memory.
        dst: Register,
        /// The start of the source in linear memory.
        src: Register,
        /// The number of bytes to copy.
        len: Register,
    },
    /// `memory.copy` with a constant 16-bit `dst`: copies `len` bytes from `src` to `dst`.
    MemoryCopyTo {
        /// The start of the destination in linear memory.
        dst: Const16<u32>,
        /// The start of the source in linear memory.
        src: Register,
        /// The number of bytes to copy.
        len: Register,
    },
    /// `memory.copy` with a constant 16-bit `src`: copies `len` bytes from `src` to `dst`.
    MemoryCopyFrom {
        /// The start of the destination in linear memory.
        dst: Register,
        /// The start of the source in linear memory.
        src: Const16<u32>,
        /// The number of bytes to copy.
        len: Register,
    },
    /// `memory.copy` with constant 16-bit `dst` and `src`: copies `len` bytes from `src` to `dst`.
    MemoryCopyFromTo {
        /// The start of the destination in linear memory.
        dst: Const16<u32>,
        /// The start of the source in linear memory.
        src: Const16<u32>,
        /// The number of bytes to copy.
        len: Register,
    },
    /// `memory.copy` with a constant 16-bit `len`: copies `len` bytes from `src` to `dst`.
    MemoryCopyExact {
        /// The start of the destination in linear memory.
        dst: Register,
        /// The start of the source in linear memory.
        src: Register,
        /// The number of bytes to copy.
        len: Const16<u32>,
    },
    /// `memory.copy` with constant 16-bit `dst` and `len`: copies `len` bytes from `src` to `dst`.
    MemoryCopyToExact {
        /// The start of the destination in linear memory.
        dst: Const16<u32>,
        /// The start of the source in linear memory.
        src: Register,
        /// The number of bytes to copy.
        len: Const16<u32>,
    },
    /// `memory.copy` with constant 16-bit `src` and `len`: copies `len` bytes from `src` to `dst`.
    MemoryCopyFromExact {
        /// The start of the destination in linear memory.
        dst: Register,
        /// The start of the source in linear memory.
        src: Const16<u32>,
        /// The number of bytes to copy.
        len: Const16<u32>,
    },
    /// `memory.copy` with all operands constant and 16-bit: copies `len` bytes from `src` to `dst`.
    MemoryCopyFromToExact {
        /// The start of the destination in linear memory.
        dst: Const16<u32>,
        /// The start of the source in linear memory.
        src: Const16<u32>,
        /// The number of bytes to copy.
        len: Const16<u32>,
    },
    /// `i32` load: `r0 = memory[r1 + c0]`
    ///
    /// Must be followed by the word that holds `c0`.
    I32Load(LoadInstr),
    /// `i32` load from a constant address: `r0 = memory[c0]`
    I32LoadAt(LoadAtInstr),
    /// `i32` load with a 16-bit offset: `r0 = memory[r1 + c0]`
    I32LoadOffset16(LoadOffset16Instr),
    /// `i32` store: `memory[r0 + c0] = r1`
    ///
    /// Must be followed by the [`Instruction::Register`] word that holds `r1`.
    I32Store(StoreInstr),
    /// `i32` store with a 16-bit offset: `memory[r0 + c0] = r1`
    I32StoreOffset16(StoreOffset16Instr<Register>),
    /// `i32` store to a constant address: `memory[c0] = r0`
    I32StoreAt(StoreAtInstr<Register>),
    /// `i64` load: `r0 = memory[r1 + c0]`
    ///
    /// Must be followed by the word that holds `c0`.
    I64Load(LoadInstr),
    /// `i64` load from a constant address: `r0 = memory[c0]`
    I64LoadAt(LoadAtInstr),
    /// `i64` load with a 16-bit offset: `r0 = memory[r1 + c0]`
    I64LoadOffset16(LoadOffset16Instr),
    /// `i64` store: `memory[r0 + c0] = r1`
    ///
    /// Must be followed by the [`Instruction::Register`] word that holds `r1`.
    I64Store(StoreInstr),
    /// `i64` store with a 16-bit offset: `memory[r0 + c0] = r1`
    I64StoreOffset16(StoreOffset16Instr<Register>),
    /// `i64` store to a constant address: `memory[c0] = r0`
    I64StoreAt(StoreAtInstr<Register>),
    /// `f32` load: `r0 = memory[r1 + c0]`
    ///
    /// Must be followed by the word that holds `c0`.
    F32Load(LoadInstr),
    /// `f32` load from a constant address: `r0 = memory[c0]`
    F32LoadAt(LoadAtInstr),
    /// `f32` load with a 16-bit offset: `r0 = memory[r1 + c0]`
    F32LoadOffset16(LoadOffset16Instr),
    /// `f32` store: `memory[r0 + c0] = r1`
    ///
    /// Must be followed by the [`Instruction::Register`] word that holds `r1`.
    F32Store(StoreInstr),
    /// `f32` store with a 16-bit offset: `memory[r0 + c0] = r1`
    F32StoreOffset16(StoreOffset16Instr<Register>),
    /// `f32` store to a constant address: `memory[c0] = r0`
    F32StoreAt(StoreAtInstr<Register>),
    /// `f64` load: `r0 = memory[r1 + c0]`
    ///
    /// Must be followed by the word that holds `c0`.
    F64Load(LoadInstr),
    /// `f64` load from a constant address: `r0 = memory[c0]`
    F64LoadAt(LoadAtInstr),
    /// `f64` load with a 16-bit offset: `r0 = memory[r1 + c0]`
    F64LoadOffset16(LoadOffset16Instr),
    /// `f64` store: `memory[r0 + c0] = r1`
    ///
    /// Must be followed by the [`Instruction::Register`] word that holds `r1`.
    F64Store(StoreInstr),
    /// `f64` store with a 16-bit offset: `memory[r0 + c0] = r1`
    F64StoreOffset16(StoreOffset16Instr<Register>),
    /// `f64` store to a constant address: `memory[c0] = r0`
    F64StoreAt(StoreAtInstr<Register>),
    /// `i32` count-leading-zeros instruction: `r0 = clz(r1)`
    I32Clz(UnaryInstr),
    /// `i32` count-trailing-zeros instruction: `r0 = ctz(r1)`
    I32Ctz(UnaryInstr),
    /// `i32` population-count instruction: `r0 = popcnt(r1)`
    I32Popcnt(UnaryInstr),
    /// `i32` add instruction: `r0 = r1 + r2`
    I32Add(BinInstr),
    /// `i32` add instruction with a 16-bit immediate: `r0 = r1 + c0`
    I32AddImm16(BinInstrImm16<i32>),
    /// `i32` add instruction with an immediate: `r0 = r1 + c0`
    ///
    /// Must be followed by the word that holds `c0`.
    I32AddImm(UnaryInstr),
    /// `i32` multiply instruction: `r0 = r1 * r2`
    I32Mul(BinInstr),
    /// `i32` multiply instruction with a 16-bit immediate: `r0 = r1 * c0`
    I32MulImm16(BinInstrImm16<i32>),
    /// `i32` multiply instruction with an immediate: `r0 = r1 * c0`
    ///
    /// Must be followed by the word that holds `c0`.
    I32MulImm(UnaryInstr),
    /// `i32` bitwise-and instruction: `r0 = r1 & r2`
    I32And(BinInstr),
    /// `i32` bitwise-and instruction with a 16-bit immediate: `r0 = r1 & c0`
    I32AndImm16(BinInstrImm16<i32>),
    /// `i32` bitwise-and instruction with an immediate: `r0 = r1 & c0`
    ///
    /// Must be followed by the word that holds `c0`.
    I32AndImm(UnaryInstr),
    /// `i32` bitwise-or instruction: `r0 = r1 | r2`
    I32Or(BinInstr),
    /// `i32` bitwise-or instruction with a 16-bit immediate: `r0 = r1 | c0`
    I32OrImm16(BinInstrImm16<i32>),
    /// `i32` bitwise-or instruction with an immediate: `r0 = r1 | c0`
    ///
    /// Must be followed by the word that holds `c0`.
    I32OrImm(UnaryInstr),
    /// `i32` bitwise-xor instruction: `r0 = r1 ^ r2`
    I32Xor(BinInstr),
    /// `i32` bitwise-xor instruction with a 16-bit immediate: `r0 = r1 ^ c0`
    I32XorImm16(BinInstrImm16<i32>),
    /// `i32` bitwise-xor instruction with an immediate: `r0 = r1 ^ c0`
    ///
    /// Must be followed by the word that holds `c0`.
    I32XorImm(UnaryInstr),
    /// `i32` subtract instruction: `r0 = r1 - r2`
    I32Sub(BinInstr),
    /// `i32` subtract instruction with a 16-bit immediate: `r0 = r1 - c0`
    I32SubImm16(BinInstrImm16<i32>),
    /// `i32` subtract instruction with a 16-bit immediate on the left: `r0 = c0 - r1`
    I32SubImm16Rev(BinInstrImm16<i32>),
    /// `i32` subtract instruction with an immediate: `r0 = r1 - c0`
    ///
    /// Must be followed by the word that holds `c0`.
    I32SubImm(UnaryInstr),
    /// `i32` subtract instruction with an immediate on the left: `r0 = c0 - r1`
    ///
    /// Must be followed by the word that holds `c0`.
    I32SubImmRev(UnaryInstr),
    /// `i32` signed-division instruction: `r0 = r1 / r2`
    I32DivS(BinInstr),
    /// `i32` signed-division instruction with a 16-bit immediate: `r0 = r1 / c0`
    ///
    /// The divisor `c0` is never zero: the translator turns such a division into a trap.
    I32DivSImm16(BinInstrImm16<i32>),
    /// `i32` signed-division instruction with a 16-bit immediate on the left: `r0 = c0 / r1`
    I32DivSImm16Rev(BinInstrImm16<i32>),
    /// `i32` signed-division instruction with an immediate: `r0 = r1 / c0`
    ///
    /// Must be followed by the word that holds `c0`.
    /// The divisor `c0` is never zero: the translator turns such a division into a trap.
    I32DivSImm(UnaryInstr),
    /// `i32` signed-division instruction with an immediate on the left: `r0 = c0 / r1`
    ///
    /// Must be followed by the word that holds `c0`.
    I32DivSImmRev(UnaryInstr),
    /// `i32` unsigned-division instruction: `r0 = r1 / r2`
    I32DivU(BinInstr),
    /// `i32` unsigned-division instruction with a 16-bit immediate: `r0 = r1 / c0`
    ///
    /// The divisor `c0` is never zero: the translator turns such a division into a trap.
    I32DivUImm16(BinInstrImm16<u32>),
    /// `i32` unsigned-division instruction with a 16-bit immediate on the left: `r0 = c0 / r1`
    I32DivUImm16Rev(BinInstrImm16<u32>),
    /// `i32` unsigned-division instruction with an immediate: `r0 = r1 / c0`
    ///
    /// Must be followed by the word that holds `c0`.
    /// The divisor `c0` is never zero: the translator turns such a division into a trap.
    I32DivUImm(UnaryInstr),
    /// `i32` unsigned-division instruction with an immediate on the left: `r0 = c0 / r1`
    ///
    /// Must be followed by the word that holds `c0`.
    I32DivUImmRev(UnaryInstr),
    /// `i32` signed-remainder instruction: `r0 = r1 % r2`
    I32RemS(BinInstr),
    /// `i32` signed-remainder instruction with a 16-bit immediate: `r0 = r1 % c0`
    ///
    /// The divisor `c0` is never zero: the translator turns such a division into a trap.
    I32RemSImm16(BinInstrImm16<i32>),
    /// `i32` signed-remainder instruction with a 16-bit immediate on the left: `r0 = c0 % r1`
    I32RemSImm16Rev(BinInstrImm16<i32>),
    /// `i32` signed-remainder instruction with an immediate: `r0 = r1 % c0`
    ///
    /// Must be followed by the word that holds `c0`.
    /// The divisor `c0` is never zero: the translator turns such a division into a trap.
    I32RemSImm(UnaryInstr),
    /// `i32` signed-remainder instruction with an immediate on the left: `r0 = c0 % r1`
    ///
    /// Must be followed by the word that holds `c0`.
    I32RemSImmRev(UnaryInstr),
    /// `i32` unsigned-remainder instruction: `r0 = r1 % r2`
    I32RemU(BinInstr),
    /// `i32` unsigned-remainder instruction with a 16-bit immediate: `r0 = r1 % c0`
    ///
    /// The divisor `c0` is never zero: the translator turns such a division into a trap.
    I32RemUImm16(BinInstrImm16<u32>),
    /// `i32` unsigned-remainder instruction with a 16-bit immediate on the left: `r0 = c0 % r1`
    I32RemUImm16Rev(BinInstrImm16<u32>),
    /// `i32` unsigned-remainder instruction with an immediate: `r0 = r1 % c0`
    ///
    /// Must be followed by the word that holds `c0`.
    /// The divisor `c0` is never zero: the translator turns such a division into a trap.
    I32RemUImm(UnaryInstr),
    /// `i32` unsigned-remainder instruction with an immediate on the left: `r0 = c0 % r1`
    ///
    /// Must be followed by the word that holds `c0`.
    I32RemUImmRev(UnaryInstr),
    /// `i32` shift-left instruction: `r0 = r1 << r2`
    I32Shl(BinInstr),
    /// `i32` shift-left instruction with an immediate amount: `r0 = r1 << c0`
    ///
    /// The amount is taken modulo the width of the type, so it fits 16 bits.
    I32ShlImm(BinInstrImm16<i32>),
    /// `i32` shift-left instruction with an immediate on the left: `r0 = c0 << r1`
    ///
    /// Must be followed by the word that holds `c0`.
    I32ShlImmRev(UnaryInstr),
    /// `i32` shift-left instruction with a 16-bit immediate on the left: `r0 = c0 << r1`
    I32ShlImm16Rev(BinInstrImm16<i32>),
    /// `i32` logical shift-right instruction: `r0 = r1 >> r2`
    I32ShrU(BinInstr),
    /// `i32` logical shift-right instruction with an immediate amount: `r0 = r1 >> c0`
    ///
    /// The amount is taken modulo the width of the type, so it fits 16 bits.
    I32ShrUImm(BinInstrImm16<i32>),
    /// `i32` logical shift-right instruction with an immediate on the left: `r0 = c0 >> r1`
    ///
    /// Must be followed by the word that holds `c0`.
    I32ShrUImmRev(UnaryInstr),
    /// `i32` logical shift-right instruction with a 16-bit immediate on the left: `r0 = c0 >> r1`
    I32ShrUImm16Rev(BinInstrImm16<i32>),
    /// `i32` arithmetic shift-right instruction: `r0 = r1 >> r2`
    I32ShrS(BinInstr),
    /// `i32` arithmetic shift-right instruction with an immediate amount: `r0 = r1 >> c0`
    ///
    /// The amount is taken modulo the width of the type, so it fits 16 bits.
    I32ShrSImm(BinInstrImm16<i32>),
    /// `i32` arithmetic shift-right instruction with an immediate on the left: `r0 = c0 >> r1`
    ///
    /// Must be followed by the word that holds `c0`.
    I32ShrSImmRev(UnaryInstr),
    /// `i32` arithmetic shift-right instruction with a 16-bit immediate on the left: `r0 = c0 >> r1`
    I32ShrSImm16Rev(BinInstrImm16<i32>),
    /// `i32` rotate-left instruction: `r0 = rotate_left(r1, r2)`
    I32Rotl(BinInstr),
    /// `i32` rotate-left instruction with an immediate amount: `r0 = rotate_left(r1, c0)`
    ///
    /// The amount is taken modulo the width of the type, so it fits 16 bits.
    I32RotlImm(BinInstrImm16<i32>),
    /// `i32` rotate-left instruction with an immediate on the left: `r0 = rotate_left(c0, r1)`
    ///
    /// Must be followed by the word that holds `c0`.
    I32RotlImmRev(UnaryInstr),
    /// `i32` rotate-left instruction with a 16-bit immediate on the left: `r0 = rotate_left(c0, r1)`
    I32RotlImm16Rev(BinInstrImm16<i32>),
    /// `i32` rotate-right instruction: `r0 = rotate_right(r1, r2)`
    I32Rotr(BinInstr),
    /// `i32` rotate-right instruction with an immediate amount: `r0 = rotate_right(r1, c0)`
    ///
    /// The amount is taken modulo the width of the type, so it fits 16 bits.
    I32RotrImm(BinInstrImm16<i32>),
    /// `i32` rotate-right instruction with an immediate on the left: `r0 = rotate_right(c0, r1)`
    ///
    /// Must be followed by the word that holds `c0`.
    I32RotrImmRev(UnaryInstr),
    /// `i32` rotate-right instruction with a 16-bit immediate on the left: `r0 = rotate_right(c0, r1)`
    I32RotrImm16Rev(BinInstrImm16<i32>),
    /// `i32` equal comparison: `r0 = r1 == r2`
    I32Eq(BinInstr),
    /// `i32` equal comparison with a 16-bit immediate: `r0 = r1 == c0`
    I32EqImm16(BinInstrImm16<i32>),
    /// `i32` equal comparison with an immediate: `r0 = r1 == c0`
    ///
    /// Must be followed by the word that holds `c0`.
    I32EqImm(UnaryInstr),
    /// `i32` not-equal comparison: `r0 = r1 != r2`
    I32Ne(BinInstr),
    /// `i32` not-equal comparison with a 16-bit immediate: `r0 = r1 != c0`
    I32NeImm16(BinInstrImm16<i32>),
    /// `i32` not-equal comparison with an immediate: `r0 = r1 != c0`
    ///
    /// Must be followed by the word that holds `c0`.
    I32NeImm(UnaryInstr),
    /// `i32` signed less-than comparison: `r0 = r1 < r2`
    I32LtS(BinInstr),
    /// `i32` signed less-than comparison with a 16-bit immediate: `r0 = r1 < c0`
    I32LtSImm16(BinInstrImm16<i32>),
    /// `i32` signed less-than comparison with an immediate: `r0 = r1 < c0`
    ///
    /// Must be followed by the word that holds `c0`.
    I32LtSImm(UnaryInstr),
    /// `i32` unsigned less-than comparison: `r0 = r1 < r2`
    I32LtU(BinInstr),
    /// `i32` unsigned less-than comparison with a 16-bit immediate: `r0 = r1 < c0`
    I32LtUImm16(BinInstrImm16<u32>),
    /// `i32` unsigned less-than comparison with an immediate: `r0 = r1 < c0`
    ///
    /// Must be followed by the word that holds `c0`.
    I32LtUImm(UnaryInstr),
    /// `i32` signed greater-than comparison: `r0 = r1 > r2`
    I32GtS(BinInstr),
    /// `i32` signed greater-than comparison with a 16-bit immediate: `r0 = r1 > c0`
    I32GtSImm16(BinInstrImm16<i32>),
    /// `i32` signed greater-than comparison with an immediate: `r0 = r1 > c0`
    ///
    /// Must be followed by the word that holds `c0`.
    I32GtSImm(UnaryInstr),
    /// `i32` unsigned greater-than comparison: `r0 = r1 > r2`
    I32GtU(BinInstr),
    /// `i32` unsigned greater-than comparison with a 16-bit immediate: `r0 = r1 > c0`
    I32GtUImm16(BinInstrImm16<u32>),
    /// `i32` unsigned greater-than comparison with an immediate: `r0 = r1 > c0`
    ///
    /// Must be followed by the word that holds `c0`.
    I32GtUImm(UnaryInstr),
    /// `i32` signed less-than-or-equal comparison: `r0 = r1 <= r2`
    I32LeS(BinInstr),
    /// `i32` signed less-than-or-equal comparison with a 16-bit immediate: `r0 = r1 <= c0`
    I32LeSImm16(BinInstrImm16<i32>),
    /// `i32` signed less-than-or-equal comparison with an immediate: `r0 = r1 <= c0`
    ///
    /// Must be followed by the word that holds `c0`.
    I32LeSImm(UnaryInstr),
    /// `i32` unsigned less-than-or-equal comparison: `r0 = r1 <= r2`
    I32LeU(BinInstr),
    /// `i32` unsigned less-than-or-equal comparison with a 16-bit immediate: `r0 = r1 <= c0`
    I32LeUImm16(BinInstrImm16<u32>),
    /// `i32` unsigned less-than-or-equal comparison with an immediate: `r0 = r1 <= c0`
    ///
    /// Must be followed by the word that holds `c0`.
    I32LeUImm(UnaryInstr),
    /// `i32` signed greater-than-or-equal comparison: `r0 = r1 >= r2`
    I32GeS(BinInstr),
    /// `i32` signed greater-than-or-equal comparison with a 16-bit immediate: `r0 = r1 >= c0`
    I32GeSImm16(BinInstrImm16<i32>),
    /// `i32` signed greater-than-or-equal comparison with an immediate: `r0 = r1 >= c0`
    ///
    /// Must be followed by the word that holds `c0`.
    I32GeSImm(UnaryInstr),
    /// `i32` unsigned greater-than-or-equal comparison: `r0 = r1 >= r2`
    I32GeU(BinInstr),
    /// `i32` unsigned greater-than-or-equal comparison with a 16-bit immediate: `r0 = r1 >= c0`
    I32GeUImm16(BinInstrImm16<u32>),
    /// `i32` unsigned greater-than-or-equal comparison with an immediate: `r0 = r1 >= c0`
    ///
    /// Must be followed by the word that holds `c0`.
    I32GeUImm(UnaryInstr),
    /// `i64` count-leading-zeros instruction: `r0 = clz(r1)`
    I64Clz(UnaryInstr),
    /// `i64` count-trailing-zeros instruction: `r0 = ctz(r1)`
    I64Ctz(UnaryInstr),
    /// `i64` population-count instruction: `r0 = popcnt(r1)`
    I64Popcnt(UnaryInstr),
    /// `i64` add instruction: `r0 = r1 + r2`
    I64Add(BinInstr),
    /// `i64` add instruction with a 16-bit immediate: `r0 = r1 + c0`
    I64AddImm16(BinInstrImm16<i64>),
    /// `i64` add instruction with an immediate: `r0 = r1 + c0`
    ///
    /// Must be followed by the word that holds `c0`.
    I64AddImm(UnaryInstr),
    /// `i64` multiply instruction: `r0 = r1 * r2`
    I64Mul(BinInstr),
    /// `i64` multiply instruction with a 16-bit immediate: `r0 = r1 * c0`
    I64MulImm16(BinInstrImm16<i64>),
    /// `i64` multiply instruction with an immediate: `r0 = r1 * c0`
    ///
    /// Must be followed by the word that holds `c0`.
    I64MulImm(UnaryInstr),
    /// `i64` bitwise-and instruction: `r0 = r1 & r2`
    I64And(BinInstr),
    /// `i64` bitwise-and instruction with a 16-bit immediate: `r0 = r1 & c0`
    I64AndImm16(BinInstrImm16<i64>),
    /// `i64` bitwise-and instruction with an immediate: `r0 = r1 & c0`
    ///
    /// Must be followed by the word that holds `c0`.
    I64AndImm(UnaryInstr),
    /// `i64` bitwise-or instruction: `r0 = r1 | r2`
    I64Or(BinInstr),
    /// `i64` bitwise-or instruction with a 16-bit immediate: `r0 = r1 | c0`
    I64OrImm16(BinInstrImm16<i64>),
    /// `i64` bitwise-or instruction with an immediate: `r0 = r1 | c0`
    ///
    /// Must be followed by the word that holds `c0`.
    I64OrImm(UnaryInstr),
    /// `i64` bitwise-xor instruction: `r0 = r1 ^ r2`
    I64Xor(BinInstr),
    /// `i64` bitwise-xor instruction with a 16-bit immediate: `r0 = r1 ^ c0`
    I64XorImm16(BinInstrImm16<i64>),
    /// `i64` bitwise-xor instruction with an immediate: `r0 = r1 ^ c0`
    ///
    /// Must be followed by the word that holds `c0`.
    I64XorImm(UnaryInstr),
    /// `i64` subtract instruction: `r0 = r1 - r2`
    I64Sub(BinInstr),
    /// `i64` subtract instruction with a 16-bit immediate: `r0 = r1 - c0`
    I64SubImm16(BinInstrImm16<i64>),
    /// `i64` subtract instruction with a 16-bit immediate on the left: `r0 = c0 - r1`
    I64SubImm16Rev(BinInstrImm16<i64>),
    /// `i64` subtract instruction with an immediate: `r0 = r1 - c0`
    ///
    /// Must be followed by the word that holds `c0`.
    I64SubImm(UnaryInstr),
    /// `i64` subtract instruction with an immediate on the left: `r0 = c0 - r1`
    ///
    /// Must be followed by the word that holds `c0`.
    I64SubImmRev(UnaryInstr),
    /// `i64` signed-division instruction: `r0 = r1 / r2`
    I64DivS(BinInstr),
    /// `i64` signed-division instruction with a 16-bit immediate: `r0 = r1 / c0`
    ///
    /// The divisor `c0` is never zero: the translator turns such a division into a trap.
    I64DivSImm16(BinInstrImm16<i64>),
    /// `i64` signed-division instruction with a 16-bit immediate on the left: `r0 = c0 / r1`
    I64DivSImm16Rev(BinInstrImm16<i64>),
    /// `i64` signed-division instruction with an immediate: `r0 = r1 / c0`
    ///
    /// Must be followed by the word that holds `c0`.
    /// The divisor `c0` is never zero: the translator turns such a division into a trap.
    I64DivSImm(UnaryInstr),
    /// `i64` signed-division instruction with an immediate on the left: `r0 = c0 / r1`
    ///
    /// Must be followed by the word that holds `c0`.
    I64DivSImmRev(UnaryInstr),
    /// `i64` unsigned-division instruction: `r0 = r1 / r2`
    I64DivU(BinInstr),
    /// `i64` unsigned-division instruction with a 16-bit immediate: `r0 = r1 / c0`
    ///
    /// The divisor `c0` is never zero: the translator turns such a division into a trap.
    I64DivUImm16(BinInstrImm16<u64>),
    /// `i64` unsigned-division instruction with a 16-bit immediate on the left: `r0 = c0 / r1`
    I64DivUImm16Rev(BinInstrImm16<u64>),
    /// `i64` unsigned-division instruction with an immediate: `r0 = r1 / c0`
    ///
    /// Must be followed by the word that holds `c0`.
    /// The divisor `c0` is never zero: the translator turns such a division into a trap.
    I64DivUImm(UnaryInstr),
    /// `i64` unsigned-division instruction with an immediate on the left: `r0 = c0 / r1`
    ///
    /// Must be followed by the word that holds `c0`.
    I64DivUImmRev(UnaryInstr),
    /// `i64` signed-remainder instruction: `r0 = r1 % r2`
    I64RemS(BinInstr),
    /// `i64` signed-remainder instruction with a 16-bit immediate: `r0 = r1 % c0`
    ///
    /// The divisor `c0` is never zero: the translator turns such a division into a trap.
    I64RemSImm16(BinInstrImm16<i64>),
    /// `i64` signed-remainder instruction with a 16-bit immediate on the left: `r0 = c0 % r1`
    I64RemSImm16Rev(BinInstrImm16<i64>),
    /// `i64` signed-remainder instruction with an immediate: `r0 = r1 % c0`
    ///
    /// Must be followed by the word that holds `c0`.
    /// The divisor `c0` is never zero: the translator turns such a division into a trap.
    I64RemSImm(UnaryInstr),
    /// `i64` signed-remainder instruction with an immediate on the left: `r0 = c0 % r1`
    ///
    /// Must be followed by the word that holds `c0`.
    I64RemSImmRev(UnaryInstr),
    /// `i64` unsigned-remainder instruction: `r0 = r1 % r2`
    I64RemU(BinInstr),
    /// `i64` unsigned-remainder instruction with a 16-bit immediate: `r0 = r1 % c0`
    ///
    /// The divisor `c0` is never zero: the translator turns such a division into a trap.
    I64RemUImm16(BinInstrImm16<u64>),
    /// `i64` unsigned-remainder instruction with a 16-bit immediate on the left: `r0 = c0 % r1`
    I64RemUImm16Rev(BinInstrImm16<u64>),
    /// `i64` unsigned-remainder instruction with an immediate: `r0 = r1 % c0`
    ///
    /// Must be followed by the word that holds `c0`.
    /// The divisor `c0` is never zero: the translator turns such a division into a trap.
    I64RemUImm(UnaryInstr),
    /// `i64` unsigned-remainder instruction with an immediate on the left: `r0 = c0 % r1`
    ///
    /// Must be followed by the word that holds `c0`.
    I64RemUImmRev(UnaryInstr),
    /// `i64` shift-left instruction: `r0 = r1 << r2`
    I64Shl(BinInstr),
    /// `i64` shift-left instruction with an immediate amount: `r0 = r1 << c0`
    ///
    /// The amount is taken modulo the width of the type, so it fits 16 bits.
    I64ShlImm(BinInstrImm16<i64>),
    /// `i64` shift-left instruction with an immediate on the left: `r0 = c0 << r1`
    ///
    /// Must be followed by the word that holds `c0`.
    I64ShlImmRev(UnaryInstr),
    /// `i64` shift-left instruction with a 16-bit immediate on the left: `r0 = c0 << r1`
    I64ShlImm16Rev(BinInstrImm16<i64>),
    /// `i64` logical shift-right instruction: `r0 = r1 >> r2`
    I64ShrU(BinInstr),
    /// `i64` logical shift-right instruction with an immediate amount: `r0 = r1 >> c0`
    ///
    /// The amount is taken modulo the width of the type, so it fits 16 bits.
    I64ShrUImm(BinInstrImm16<i64>),
    /// `i64` logical shift-right instruction with an immediate on the left: `r0 = c0 >> r1`
    ///
    /// Must be followed by the word that holds `c0`.
    I64ShrUImmRev(UnaryInstr),
    /// `i64` logical shift-right instruction with a 16-bit immediate on the left: `r0 = c0 >> r1`
    I64ShrUImm16Rev(BinInstrImm16<i64>),
    /// `i64` arithmetic shift-right instruction: `r0 = r1 >> r2`
    I64ShrS(BinInstr),
    /// `i64` arithmetic shift-right instruction with an immediate amount: `r0 = r1 >> c0`
    ///
    /// The amount is taken modulo the width of the type, so it fits 16 bits.
    I64ShrSImm(BinInstrImm16<i64>),
    /// `i64` arithmetic shift-right instruction with an immediate on the left: `r0 = c0 >> r1`
    ///
    /// Must be followed by the word that holds `c0`.
    I64ShrSImmRev(UnaryInstr),
    /// `i64` arithmetic shift-right instruction with a 16-bit immediate on the left: `r0 = c0 >> r1`
    I64ShrSImm16Rev(BinInstrImm16<i64>),
    /// `i64` rotate-left instruction: `r0 = rotate_left(r1, r2)`
    I64Rotl(BinInstr),
    /// `i64` rotate-left instruction with an immediate amount: `r0 = rotate_left(r1, c0)`
    ///
    /// The amount is taken modulo the width of the type, so it fits 16 bits.
    I64RotlImm(BinInstrImm16<i64>),
    /// `i64` rotate-left instruction with an immediate on the left: `r0 = rotate_left(c0, r1)`
    ///
    /// Must be followed by the word that holds `c0`.
    I64RotlImmRev(UnaryInstr),
    /// `i64` rotate-left instruction with a 16-bit immediate on the left: `r0 = rotate_left(c0, r1)`
    I64RotlImm16Rev(BinInstrImm16<i64>),
    /// `i64` rotate-right instruction: `r0 = rotate_right(r1, r2)`
    I64Rotr(BinInstr),
    /// `i64` rotate-right instruction with an immediate amount: `r0 = rotate_right(r1, c0)`
    ///
    /// The amount is taken modulo the width of the type, so it fits 16 bits.
    I64RotrImm(BinInstrImm16<i64>),
    /// `i64` rotate-right instruction with an immediate on the left: `r0 = rotate_right(c0, r1)`
    ///
    /// Must be followed by the word that holds `c0`.
    I64RotrImmRev(UnaryInstr),
    /// `i64` rotate-right instruction with a 16-bit immediate on the left: `r0 = rotate_right(c0, r1)`
    I64RotrImm16Rev(BinInstrImm16<i64>),
    /// `i64` equal comparison: `r0 = r1 == r2`
    I64Eq(BinInstr),
    /// `i64` equal comparison with a 16-bit immediate: `r0 = r1 == c0`
    I64EqImm16(BinInstrImm16<i64>),
    /// `i64` equal comparison with an immediate: `r0 = r1 == c0`
    ///
    /// Must be followed by the word that holds `c0`.
    I64EqImm(UnaryInstr),
    /// `i64` not-equal comparison: `r0 = r1 != r2`
    I64Ne(BinInstr),
    /// `i64` not-equal comparison with a 16-bit immediate: `r0 = r1 != c0`
    I64NeImm16(BinInstrImm16<i64>),
    /// `i64` not-equal comparison with an immediate: `r0 = r1 != c0`
    ///
    /// Must be followed by the word that holds `c0`.
    I64NeImm(UnaryInstr),
    /// `i64` signed less-than comparison: `r0 = r1 < r2`
    I64LtS(BinInstr),
    /// `i64` signed less-than comparison with a 16-bit immediate: `r0 = r1 < c0`
    I64LtSImm16(BinInstrImm16<i64>),
    /// `i64` signed less-than comparison with an immediate: `r0 = r1 < c0`
    ///
    /// Must be followed by the word that holds `c0`.
    I64LtSImm(UnaryInstr),
    /// `i64` unsigned less-than comparison: `r0 = r1 < r2`
    I64LtU(BinInstr),
    /// `i64` unsigned less-than comparison with a 16-bit immediate: `r0 = r1 < c0`
    I64LtUImm16(BinInstrImm16<u64>),
    /// `i64` unsigned less-than comparison with an immediate: `r0 = r1 < c0`
    ///
    /// Must be followed by the word that holds `c0`.
    I64LtUImm(UnaryInstr),
    /// `i64` signed greater-than comparison: `r0 = r1 > r2`
    I64GtS(BinInstr),
    /// `i64` signed greater-than comparison with a 16-bit immediate: `r0 = r1 > c0`
    I64GtSImm16(BinInstrImm16<i64>),
    /// `i64` signed greater-than comparison with an immediate: `r0 = r1 > c0`
    ///
    /// Must be followed by the word that holds `c0`.
    I64GtSImm(UnaryInstr),
    /// `i64` unsigned greater-than comparison: `r0 = r1 > r2`
    I64GtU(BinInstr),
    /// `i64` unsigned greater-than comparison with a 16-bit immediate: `r0 = r1 > c0`
    I64GtUImm16(BinInstrImm16<u64>),
    /// `i64` unsigned greater-than comparison with an immediate: `r0 = r1 > c0`
    ///
    /// Must be followed by the word that holds `c0`.
    I64GtUImm(UnaryInstr),
    /// `i64` signed less-than-or-equal comparison: `r0 = r1 <= r2`
    I64LeS(BinInstr),
    /// `i64` signed less-than-or-equal comparison with a 16-bit immediate: `r0 = r1 <= c0`
    I64LeSImm16(BinInstrImm16<i64>),
    /// `i64` signed less-than-or-equal comparison with an immediate: `r0 = r1 <= c0`
    ///
    /// Must be followed by the word that holds `c0`.
    I64LeSImm(UnaryInstr),
    /// `i64` unsigned less-than-or-equal comparison: `r0 = r1 <= r2`
    I64LeU(BinInstr),
    /// `i64` unsigned less-than-or-equal comparison with a 16-bit immediate: `r0 = r1 <= c0`
    I64LeUImm16(BinInstrImm16<u64>),
    /// `i64` unsigned less-than-or-equal comparison with an immediate: `r0 = r1 <= c0`
    ///
    /// Must be followed by the word that holds `c0`.
    I64LeUImm(UnaryInstr),
    /// `i64` signed greater-than-or-equal comparison: `r0 = r1 >= r2`
    I64GeS(BinInstr),
    /// `i64` signed greater-than-or-equal comparison with a 16-bit immediate: `r0 = r1 >= c0`
    I64GeSImm16(BinInstrImm16<i64>),
    /// `i64` signed greater-than-or-equal comparison with an immediate: `r0 = r1 >= c0`
    ///
    /// Must be followed by the word that holds `c0`.
    I64GeSImm(UnaryInstr),
    /// `i64` unsigned greater-than-or-equal comparison: `r0 = r1 >= r2`
    I64GeU(BinInstr),
    /// `i64` unsigned greater-than-or-equal comparison with a 16-bit immediate: `r0 = r1 >= c0`
    I64GeUImm16(BinInstrImm16<u64>),
    /// `i64` unsigned greater-than-or-equal comparison with an immediate: `r0 = r1 >= c0`
    ///
    /// Must be followed by the word that holds `c0`.
    I64GeUImm(UnaryInstr),
    /// `f32` equal comparison: `r0 = r1 == r2`
    F32Eq(BinInstr),
    /// `f32` equal comparison with an immediate: `r0 = r1 == c0`
    ///
    /// Must be followed by the word that holds `c0`.
    F32EqImm(UnaryInstr),
    /// `f32` not-equal comparison: `r0 = r1 != r2`
    F32Ne(BinInstr),
    /// `f32` not-equal comparison with an immediate: `r0 = r1 != c0`
    ///
    /// Must be followed by the word that holds `c0`.
    F32NeImm(UnaryInstr),
    /// `f32` less-than comparison: `r0 = r1 < r2`
    F32Lt(BinInstr),
    /// `f32` less-than comparison with an immediate: `r0 = r1 < c0`
    ///
    /// Must be followed by the word that holds `c0`.
    F32LtImm(UnaryInstr),
    /// `f32` less-than-or-equal comparison: `r0 = r1 <= r2`
    F32Le(BinInstr),
    /// `f32` less-than-or-equal comparison with an immediate: `r0 = r1 <= c0`
    ///
    /// Must be followed by the word that holds `c0`.
    F32LeImm(UnaryInstr),
    /// `f32` greater-than comparison: `r0 = r1 > r2`
    F32Gt(BinInstr),
    /// `f32` greater-than comparison with an immediate: `r0 = r1 > c0`
    ///
    /// Must be followed by the word that holds `c0`.
    F32GtImm(UnaryInstr),
    /// `f32` greater-than-or-equal comparison: `r0 = r1 >= r2`
    F32Ge(BinInstr),
    /// `f32` greater-than-or-equal comparison with an immediate: `r0 = r1 >= c0`
    ///
    /// Must be followed by the word that holds `c0`.
    F32GeImm(UnaryInstr),
    /// `f32` add instruction: `r0 = r1 + r2`
    F32Add(BinInstr),
    /// `f32` add instruction with an immediate: `r0 = r1 + c0`
    ///
    /// Must be followed by the word that holds `c0`.
    F32AddImm(UnaryInstr),
    /// `f32` multiply instruction: `r0 = r1 * r2`
    F32Mul(BinInstr),
    /// `f32` multiply instruction with an immediate: `r0 = r1 * c0`
    ///
    /// Must be followed by the word that holds `c0`.
    F32MulImm(UnaryInstr),
    /// `f32` minimum instruction: `r0 = min(r1, r2)`
    F32Min(BinInstr),
    /// `f32` minimum instruction with an immediate: `r0 = min(r1, c0)`
    ///
    /// Must be followed by the word that holds `c0`.
    F32MinImm(UnaryInstr),
    /// `f32` maximum instruction: `r0 = max(r1, r2)`
    F32Max(BinInstr),
    /// `f32` maximum instruction with an immediate: `r0 = max(r1, c0)`
    ///
    /// Must be followed by the word that holds `c0`.
    F32MaxImm(UnaryInstr),
    /// `f32` subtract instruction: `r0 = r1 - r2`
    F32Sub(BinInstr),
    /// `f32` subtract instruction with an immediate: `r0 = r1 - c0`
    ///
    /// Must be followed by the word that holds `c0`.
    F32SubImm(UnaryInstr),
    /// `f32` subtract instruction with an immediate on the left: `r0 = c0 - r1`
    ///
    /// Must be followed by the word that holds `c0`.
    F32SubImmRev(UnaryInstr),
    /// `f32` division instruction: `r0 = r1 / r2`
    F32Div(BinInstr),
    /// `f32` division instruction with an immediate: `r0 = r1 / c0`
    ///
    /// Must be followed by the word that holds `c0`.
    F32DivImm(UnaryInstr),
    /// `f32` division instruction with an immediate on the left: `r0 = c0 / r1`
    ///
    /// Must be followed by the word that holds `c0`.
    F32DivImmRev(UnaryInstr),
    /// `f32` copysign instruction: `r0 = copysign(r1, r2)`
    F32Copysign(BinInstr),
    /// `f32` copysign instruction with an immediate sign: `r0 = copysign(r1, c0)`
    F32CopysignImm(CopysignImmInstr),
    /// `f64` equal comparison: `r0 = r1 == r2`
    F64Eq(BinInstr),
    /// `f64` equal comparison with an immediate: `r0 = r1 == c0`
    ///
    /// Must be followed by the word that holds `c0`.
    F64EqImm(UnaryInstr),
    /// `f64` not-equal comparison: `r0 = r1 != r2`
    F64Ne(BinInstr),
    /// `f64` not-equal comparison with an immediate: `r0 = r1 != c0`
    ///
    /// Must be followed by the word that holds `c0`.
    F64NeImm(UnaryInstr),
    /// `f64` less-than comparison: `r0 = r1 < r2`
    F64Lt(BinInstr),
    /// `f64` less-than comparison with an immediate: `r0 = r1 < c0`
    ///
    /// Must be followed by the word that holds `c0`.
    F64LtImm(UnaryInstr),
    /// `f64` less-than-or-equal comparison: `r0 = r1 <= r2`
    F64Le(BinInstr),
    /// `f64` less-than-or-equal comparison with an immediate: `r0 = r1 <= c0`
    ///
    /// Must be followed by the word that holds `c0`.
    F64LeImm(UnaryInstr),
    /// `f64` greater-than comparison: `r0 = r1 > r2`
    F64Gt(BinInstr),
    /// `f64` greater-than comparison with an immediate: `r0 = r1 > c0`
    ///
    /// Must be followed by the word that holds `c0`.
    F64GtImm(UnaryInstr),
    /// `f64` greater-than-or-equal comparison: `r0 = r1 >= r2`
    F64Ge(BinInstr),
    /// `f64` greater-than-or-equal comparison with an immediate: `r0 = r1 >= c0`
    ///
    /// Must be followed by the word that holds `c0`.
    F64GeImm(UnaryInstr),
    /// `f64` add instruction: `r0 = r1 + r2`
    F64Add(BinInstr),
    /// `f64` add instruction with an immediate: `r0 = r1 + c0`
    ///
    /// Must be followed by the word that holds `c0`.
    F64AddImm(UnaryInstr),
    /// `f64` multiply instruction: `r0 = r1 * r2`
    F64Mul(BinInstr),
    /// `f64` multiply instruction with an immediate: `r0 = r1 * c0`
    ///
    /// Must be followed by the word that holds `c0`.
    F64MulImm(UnaryInstr),
    /// `f64` minimum instruction: `r0 = min(r1, r2)`
    F64Min(BinInstr),
    /// `f64` minimum instruction with an immediate: `r0 = min(r1, c0)`
    ///
    /// Must be followed by the word that holds `c0`.
    F64MinImm(UnaryInstr),
    /// `f64` maximum instruction: `r0 = max(r1, r2)`
    F64Max(BinInstr),
    /// `f64` maximum instruction with an immediate: `r0 = max(r1, c0)`
    ///
    /// Must be followed by the word that holds `c0`.
    F64MaxImm(UnaryInstr),
    /// `f64` subtract instruction: `r0 = r1 - r2`
    F64Sub(BinInstr),
    /// `f64` subtract instruction with an immediate: `r0 = r1 - c0`
    ///
    /// Must be followed by the word that holds `c0`.
    F64SubImm(UnaryInstr),
    /// `f64` subtract instruction with an immediate on the left: `r0 = c0 - r1`
    ///
    /// Must be followed by the word that holds `c0`.
    F64SubImmRev(UnaryInstr),
    /// `f64` division instruction: `r0 = r1 / r2`
    F64Div(BinInstr),
    /// `f64` division instruction with an immediate: `r0 = r1 / c0`
    ///
    /// Must be followed by the word that holds `c0`.
    F64DivImm(UnaryInstr),
    /// `f64` division instruction with an immediate on the left: `r0 = c0 / r1`
    ///
    /// Must be followed by the word that holds `c0`.
    F64DivImmRev(UnaryInstr),
    /// `f64` copysign instruction: `r0 = copysign(r1, r2)`
    F64Copysign(BinInstr),
    /// `f64` copysign instruction with an immediate sign: `r0 = copysign(r1, c0)`
    F64CopysignImm(CopysignImmInstr),
}

impl Instruction {
    /// Creates a new [`Instruction::Const32`] from the given `value`: the word
    /// holds the constant that `value` converts to.
    pub fn const32<T: Into<Const32>>(value: T) -> (r: Self)
        ensures
            r matches Instruction::Const32(word) && call_ensures(T::into, (value,), word),
            T::obeys_into_spec() ==> r == Instruction::Const32(value.into_spec()),
    {
        Self::Const32(value.into())
    }

    /// Creates a new [`Instruction::Trap`].
    pub fn trap(code: TrapCode) -> (r: Self)
        ensures
            r == Instruction::Trap(code),
    {
        Self::Trap(code)
    }

    /// Creates a new [`Instruction::ReturnReg`].
    pub fn return_reg(value: Register) -> (r: Self)
        ensures
            r == (Instruction::ReturnReg { value }),
    {
        Self::ReturnReg { value }
    }

    /// Creates a new [`Instruction::ReturnImm32`].
    pub fn return_imm32(value: Const32) -> (r: Self)
        ensures
            r == (Instruction::ReturnImm32 { value }),
    {
        Self::ReturnImm32 { value }
    }

    /// Creates a new [`Instruction::ReturnI64Imm32`] that returns the `i64` of the given value.
    pub fn return_i64imm32(value: i32) -> (r: Self)
        ensures
            r == (Instruction::ReturnI64Imm32 {
                value: AnyConst32::of_bits(unsigned32(value) as u32),
            }),
    {
        Self::ReturnI64Imm32 { value: AnyConst32::from_i32(value) }
    }

    /// Creates a new [`Instruction::ReturnImm`].
    pub fn return_imm(value: ConstRef) -> (r: Self)
        ensures
            r == (Instruction::ReturnImm { value }),
    {
        Self::ReturnImm { value }
    }

    /// Creates a new [`Instruction::ReturnNez`].
    pub fn return_nez(condition: Register) -> (r: Self)
        ensures
            r == (Instruction::ReturnNez { condition }),
    {
        Self::ReturnNez { condition }
    }

    /// Creates a new [`Instruction::ReturnNezReg`].
    pub fn return_nez_reg(condition: Register, value: Register) -> (r: Self)
        ensures
            r == (Instruction::ReturnNezReg { condition, value }),
    {
        Self::ReturnNezReg { condition, value }
    }

    /// Creates a new [`Instruction::ReturnNezImm32`].
    pub fn return_nez_imm32(condition: Register, value: Const32) -> (r: Self)
        ensures
            r == (Instruction::ReturnNezImm32 { condition, value }),
    {
        Self::ReturnNezImm32 { condition, value }
    }

    /// Creates a new [`Instruction::ReturnNezI64Imm32`] that returns the `i64` of the given value.
    pub fn return_nez_i64imm32(condition: Register, value: i32) -> (r: Self)
        ensures
            r == (Instruction::ReturnNezI64Imm32 {
                condition,
                value: AnyConst32::of_bits(unsigned32(value) as u32),
            }),
    {
        Self::ReturnNezI64Imm32 { condition, value: AnyConst32::from_i32(value) }
    }

    /// Creates a new [`Instruction::ReturnNezImm`].
    pub fn return_nez_imm(condition: Register, value: ConstRef) -> (r: Self)
        ensures
            r == (Instruction::ReturnNezImm { condition, value }),
    {
        Self::ReturnNezImm { condition, value }
    }

    /// Creates a new [`Instruction::Branch`].
    pub fn branch(offset: BranchOffset) -> (r: Self)
        ensures
            r == (Instruction::Branch { offset }),
    {
        Self::Branch { offset }
    }

    /// Creates a new [`Instruction::BranchEqz`].
    pub fn branch_eqz(condition: Register, offset: BranchOffset) -> (r: Self)
        ensures
            r == (Instruction::BranchEqz { condition, offset }),
    {
        Self::BranchEqz { condition, offset }
    }

    /// Creates a new [`Instruction::BranchNez`].
    pub fn branch_nez(condition: Register, offset: BranchOffset) -> (r: Self)
        ensures
            r == (Instruction::BranchNez { condition, offset }),
    {
        Self::BranchNez { condition, offset }
    }

    /// Creates a new [`Instruction::Copy`].
    pub fn copy(result: Register, value: Register) -> (r: Self)
        ensures
            r == (Instruction::Copy { result, value }),
    {
        Self::Copy { result, value }
    }

    /// Creates a new [`Instruction::MemoryCopy`].
    pub fn memory_copy(dst: Register, src: Register, len: Register) -> (r: Self)
        ensures
            r == (Instruction::MemoryCopy { dst, src, len }),
    {
        Self::MemoryCopy { dst, src, len }
    }

    /// Creates a new [`Instruction::MemoryCopyTo`].
    pub fn memory_copy_to(dst: Const16<u32>, src: Register, len: Register) -> (r: Self)
        ensures
            r == (Instruction::MemoryCopyTo { dst, src, len }),
    {
        Self::MemoryCopyTo { dst, src, len }
    }

    /// Creates a new [`Instruction::MemoryCopyFrom`].
    pub fn memory_copy_from(dst: Register, src: Const16<u32>, len: Register) -> (r: Self)
        ensures
            r == (Instruction::MemoryCopyFrom { dst, src, len }),
    {
        Self::MemoryCopyFrom { dst, src, len }
    }

    /// Creates a new [`Instruction::MemoryCopyFromTo`].
    pub fn memory_copy_from_to(dst: Const16<u32>, src: Const16<u32>, len: Register) -> (r: Self)
        ensures
            r == (Instruction::MemoryCopyFromTo { dst, src, len }),
    {
        Self::MemoryCopyFromTo { dst, src, len }
    }

    /// Creates a new [`Instruction::MemoryCopyExact`].
    pub fn memory_copy_exact(dst: Register, src: Register, len: Const16<u32>) -> (r: Self)
        ensures
            r == (Instruction::MemoryCopyExact { dst, src, len }),
    {
        Self::MemoryCopyExact { dst, src, len }
    }

    /// Creates a new [`Instruction::MemoryCopyToExact`].
    pub fn memory_copy_to_exact(dst: Const16<u32>, src: Register, len: Const16<u32>) -> (r: Self)
        ensures
            r == (Instruction::MemoryCopyToExact { dst, src, len }),
    {
        Self::MemoryCopyToExact { dst, src, len }
    }

    /// Creates a new [`Instruction::MemoryCopyFromExact`].
    pub fn memory_copy_from_exact(dst: Register, src: Const16<u32>, len: Const16<u32>) -> (r: Self)
        ensures
            r == (Instruction::MemoryCopyFromExact { dst, src, len }),
    {
        Self::MemoryCopyFromExact { dst, src, len }
    }

    /// Creates a new [`Instruction::MemoryCopyFromToExact`].
    pub fn memory_copy_from_to_exact(
        dst: Const16<u32>,
        src: Const16<u32>,
        len: Const16<u32>,
    ) -> (r: Self)
        ensures
            r == (Instruction::MemoryCopyFromToExact { dst, src, len }),
    {
        Self::MemoryCopyFromToExact { dst, src, len }
    }

    /// Creates a new [`Instruction::I32Load`].
    pub fn i32_load(result: Register, ptr: Register) -> (r: Self)
        ensures
            r == Instruction::I32Load(LoadInstr { result, ptr }),
    {
        Self::I32Load(LoadInstr::new(result, ptr))
    }

    /// Creates a new [`Instruction::I32LoadAt`].
    pub fn i32_load_at(result: Register, address: Const32) -> (r: Self)
        ensures
            r == Instruction::I32LoadAt(LoadAtInstr { result, address }),
    {
        Self::I32LoadAt(LoadAtInstr::new(result, address))
    }

    /// Creates a new [`Instruction::I32LoadOffset16`].
    pub fn i32_load_offset16(result: Register, ptr: Register, offset: Const16<u32>) -> (r: Self)
        ensures
            r == Instruction::I32LoadOffset16(LoadOffset16Instr { result, ptr, offset }),
    {
        Self::I32LoadOffset16(LoadOffset16Instr::new(result, ptr, offset))
    }

    /// Creates a new [`Instruction::I32Store`].
    pub fn i32_store(ptr: Register, offset: Const32) -> (r: Self)
        ensures
            r == Instruction::I32Store(StoreInstr { ptr, offset }),
    {
        Self::I32Store(StoreInstr::new(ptr, offset))
    }

    /// Creates a new [`Instruction::I32StoreOffset16`].
    pub fn i32_store_offset16(ptr: Register, offset: Const16<u32>, value: Register) -> (r: Self)
        ensures
            r == Instruction::I32StoreOffset16(StoreOffset16Instr { ptr, offset, value }),
    {
        Self::I32StoreOffset16(StoreOffset16Instr::new(ptr, offset, value))
    }

    /// Creates a new [`Instruction::I32StoreAt`].
    pub fn i32_store_at(address: Const32, value: Register) -> (r: Self)
        ensures
            r == Instruction::I32StoreAt(StoreAtInstr { address, value }),
    {
        Self::I32StoreAt(StoreAtInstr::new(address, value))
    }

    /// Creates a new [`Instruction::I64Load`].
    pub fn i64_load(result: Register, ptr: Register) -> (r: Self)
        ensures
            r == Instruction::I64Load(LoadInstr { result, ptr }),
    {
        Self::I64Load(LoadInstr::new(result, ptr))
    }

    /// Creates a new [`Instruction::I64LoadAt`].
    pub fn i64_load_at(result: Register, address: Const32) -> (r: Self)
        ensures
            r == Instruction::I64LoadAt(LoadAtInstr { result, address }),
    {
        Self::I64LoadAt(LoadAtInstr::new(result, address))
    }

    /// Creates a new [`Instruction::I64LoadOffset16`].
    pub fn i64_load_offset16(result: Register, ptr: Register, offset: Const16<u32>) -> (r: Self)
        ensures
            r == Instruction::I64LoadOffset16(LoadOffset16Instr { result, ptr, offset }),
    {
        Self::I64LoadOffset16(LoadOffset16Instr::new(result, ptr, offset))
    }

    /// Creates a new [`Instruction::I64Store`].
    pub fn i64_store(ptr: Register, offset: Const32) -> (r: Self)
        ensures
            r == Instruction::I64Store(StoreInstr { ptr, offset }),
    {
        Self::I64Store(StoreInstr::new(ptr, offset))
    }

    /// Creates a new [`Instruction::I64StoreOffset16`].
    pub fn i64_store_offset16(ptr: Register, offset: Const16<u32>, value: Register) -> (r: Self)
        ensures
            r == Instruction::I64StoreOffset16(StoreOffset16Instr { ptr, offset, value }),
    {
        Self::I64StoreOffset16(StoreOffset16Instr::new(ptr, offset, value))
    }

    /// Creates a new [`Instruction::I64StoreAt`].
    pub fn i64_store_at(address: Const32, value: Register) -> (r: Self)
        ensures
            r == Instruction::I64StoreAt(StoreAtInstr { address, value }),
    {
        Self::I64StoreAt(StoreAtInstr::new(address, value))
    }

    /// Creates a new [`Instruction::F32Load`].
    pub fn f32_load(result: Register, ptr: Register) -> (r: Self)
        ensures
            r == Instruction::F32Load(LoadInstr { result, ptr }),
    {
        Self::F32Load(LoadInstr::new(result, ptr))
    }

    /// Creates a new [`Instruction::F32LoadAt`].
    pub fn f32_load_at(result: Register, address: Const32) -> (r: Self)
        ensures
            r == Instruction::F32LoadAt(LoadAtInstr { result, address }),
    {
        Self::F32LoadAt(LoadAtInstr::new(result, address))
    }

    /// Creates a new [`Instruction::F32LoadOffset16`].
    pub fn f32_load_offset16(result: Register, ptr: Register, offset: Const16<u32>) -> (r: Self)
        ensures
            r == Instruction::F32LoadOffset16(LoadOffset16Instr { result, ptr, offset }),
    {
        Self::F32LoadOffset16(LoadOffset16Instr::new(result, ptr, offset))
    }

    /// Creates a new [`Instruction::F32Store`].
    pub fn f32_store(ptr: Register, offset: Const32) -> (r: Self)
        ensures
            r == Instruction::F32Store(StoreInstr { ptr, offset }),
    {
        Self::F32Store(StoreInstr::new(ptr, offset))
    }

    /// Creates a new [`Instruction::F32StoreOffset16`].
    pub fn f32_store_offset16(ptr: Register, offset: Const16<u32>, value: Register) -> (r: Self)
        ensures
            r == Instruction::F32StoreOffset16(StoreOffset16Instr { ptr, offset, value }),
    {
        Self::F32StoreOffset16(StoreOffset16Instr::new(ptr, offset, value))
    }

    /// Creates a new [`Instruction::F32StoreAt`].
    pub fn f32_store_at(address: Const32, value: Register) -> (r: Self)
        ensures
            r == Instruction::F32StoreAt(StoreAtInstr { address, value }),
    {
        Self::F32StoreAt(StoreAtInstr::new(address, value))
    }

    /// Creates a new [`Instruction::F64Load`].
    pub fn f64_load(result: Register, ptr: Register) -> (r: Self)
        ensures
            r == Instruction::F64Load(LoadInstr { result, ptr }),
    {
        Self::F64Load(LoadInstr::new(result, ptr))
    }

    /// Creates a new [`Instruction::F64LoadAt`].
    pub fn f64_load_at(result: Register, address: Const32) -> (r: Self)
        ensures
            r == Instruction::F64LoadAt(LoadAtInstr { result, address }),
    {
        Self::F64LoadAt(LoadAtInstr::new(result, address))
    }

    /// Creates a new [`Instruction::F64LoadOffset16`].
    pub fn f64_load_offset16(result: Register, ptr: Register, offset: Const16<u32>) -> (r: Self)
        ensures
            r == Instruction::F64LoadOffset16(LoadOffset16Instr { result, ptr, offset }),
    {
        Self::F64LoadOffset16(LoadOffset16Instr::new(result, ptr, offset))
    }

    /// Creates a new [`Instruction::F64Store`].
    pub fn f64_store(ptr: Register, offset: Const32) -> (r: Self)
        ensures
            r == Instruction::F64Store(StoreInstr { ptr, offset }),
    {
        Self::F64Store(StoreInstr::new(ptr, offset))
    }

    /// Creates a new [`Instruction::F64StoreOffset16`].
    pub fn f64_store_offset16(ptr: Register, offset: Const16<u32>, value: Register) -> (r: Self)
        ensures
            r == Instruction::F64StoreOffset16(StoreOffset16Instr { ptr, offset, value }),
    {
        Self::F64StoreOffset16(StoreOffset16Instr::new(ptr, offset, value))
    }

    /// Creates a new [`Instruction::F64StoreAt`].
    pub fn f64_store_at(address: Const32, value: Register) -> (r: Self)
        ensures
            r == Instruction::F64StoreAt(StoreAtInstr { address, value }),
    {
        Self::F64StoreAt(StoreAtInstr::new(address, value))
    }

    /// Creates a new [`Instruction::I32Clz`].
    pub fn i32_clz(result: Register, input: Register) -> (r: Self)
        ensures
            r == Instruction::I32Clz(UnaryInstr { result, input }),
    {
        Self::I32Clz(UnaryInstr::new(result, input))
    }

    /// Creates a new [`Instruction::I32Ctz`].
    pub fn i32_ctz(result: Register, input: Register) -> (r: Self)
        ensures
            r == Instruction::I32Ctz(UnaryInstr { result, input }),
    {
        Self::I32Ctz(UnaryInstr::new(result, input))
    }

    /// Creates a new [`Instruction::I32Popcnt`].
    pub fn i32_popcnt(result: Register, input: Register) -> (r: Self)
        ensures
            r == Instruction::I32Popcnt(UnaryInstr { result, input }),
    {
        Self::I32Popcnt(UnaryInstr::new(result, input))
    }

    /// Creates a new [`Instruction::I32Add`].
    pub fn i32_add(result: Register, lhs: Register, rhs: Register) -> (r: Self)
        ensures
            r == Instruction::I32Add(BinInstr { result, lhs, rhs }),
    {
        Self::I32Add(BinInstr::new(result, lhs, rhs))
    }

    /// Creates a new [`Instruction::I32AddImm`].
    pub fn i32_add_imm(result: Register, lhs: Register) -> (r: Self)
        ensures
            r == Instruction::I32AddImm(UnaryInstr { result, input: lhs }),
    {
        Self::I32AddImm(UnaryInstr::new(result, lhs))
    }

    /// Creates a new [`Instruction::I32AddImm16`].
    pub fn i32_add_imm16(result: Register, lhs: Register, rhs: Const16<i32>) -> (r: Self)
        ensures
            r == Instruction::I32AddImm16(BinInstrImm16 { result, reg_in: lhs, imm_in: rhs }),
    {
        Self::I32AddImm16(BinInstrImm16::new(result, lhs, rhs))
    }

    /// Creates a new [`Instruction::I32Mul`].
    pub fn i32_mul(result: Register, lhs: Register, rhs: Register) -> (r: Self)
        ensures
            r == Instruction::I32Mul(BinInstr { result, lhs, rhs }),
    {
        Self::I32Mul(BinInstr::new(result, lhs, rhs))
    }

    /// Creates a new [`Instruction::I32MulImm`].
    pub fn i32_mul_imm(result: Register, lhs: Register) -> (r: Self)
        ensures
            r == Instruction::I32MulImm(UnaryInstr { result, input: lhs }),
    {
        Self::I32MulImm(UnaryInstr::new(result, lhs))
    }

    /// Creates a new [`Instruction::I32MulImm16`].
    pub fn i32_mul_imm16(result: Register, lhs: Register, rhs: Const16<i32>) -> (r: Self)
        ensures
            r == Instruction::I32MulImm16(BinInstrImm16 { result, reg_in: lhs, imm_in: rhs }),
    {
        Self::I32MulImm16(BinInstrImm16::new(result, lhs, rhs))
    }

    /// Creates a new [`Instruction::I32And`].
    pub fn i32_and(result: Register, lhs: Register, rhs: Register) -> (r: Self)
        ensures
            r == Instruction::I32And(BinInstr { result, lhs, rhs }),
    {
        Self::I32And(BinInstr::new(result, lhs, rhs))
    }

    /// Creates a new [`Instruction::I32AndImm`].
    pub fn i32_and_imm(result: Register, lhs: Register) -> (r: Self)
        ensures
            r == Instruction::I32AndImm(UnaryInstr { result, input: lhs }),
    {
        Self::I32AndImm(UnaryInstr::new(result, lhs))
    }

    /// Creates a new [`Instruction::I32AndImm16`].
    pub fn i32_and_imm16(result: Register, lhs: Register, rhs: Const16<i32>) -> (r: Self)
        ensures
            r == Instruction::I32AndImm16(BinInstrImm16 { result, reg_in: lhs, imm_in: rhs }),
    {
        Self::I32AndImm16(BinInstrImm16::new(result, lhs, rhs))
    }

    /// Creates a new [`Instruction::I32Or`].
    pub fn i32_or(result: Register, lhs: Register, rhs: Register) -> (r: Self)
        ensures
            r == Instruction::I32Or(BinInstr { result, lhs, rhs }),
    {
        Self::I32Or(BinInstr::new(result, lhs, rhs))
    }

    /// Creates a new [`Instruction::I32OrImm`].
    pub fn i32_or_imm(result: Register, lhs: Register) -> (r: Self)
        ensures
            r == Instruction::I32OrImm(UnaryInstr { result, input: lhs }),
    {
        Self::I32OrImm(UnaryInstr::new(result, lhs))
    }

    /// Creates a new [`Instruction::I32OrImm16`].
    pub fn i32_or_imm16(result: Register, lhs: Register, rhs: Const16<i32>) -> (r: Self)
        ensures
            r == Instruction::I32OrImm16(BinInstrImm16 { result, reg_in: lhs, imm_in: rhs }),
    {
        Self::I32OrImm16(BinInstrImm16::new(result, lhs, rhs))
    }

    /// Creates a new [`Instruction::I32Xor`].
    pub fn i32_xor(result: Register, lhs: Register, rhs: Register) -> (r: Self)
        ensures
            r == Instruction::I32Xor(BinInstr { result, lhs, rhs }),
    {
        Self::I32Xor(BinInstr::new(result, lhs, rhs))
    }

    /// Creates a new [`Instruction::I32XorImm`].
    pub fn i32_xor_imm(result: Register, lhs: Register) -> (r: Self)
        ensures
            r == Instruction::I32XorImm(UnaryInstr { result, input: lhs }),
    {
        Self::I32XorImm(UnaryInstr::new(result, lhs))
    }

    /// Creates a new [`Instruction::I32XorImm16`].
    pub fn i32_xor_imm16(result: Register, lhs: Register, rhs: Const16<i32>) -> (r: Self)
        ensures
            r == Instruction::I32XorImm16(BinInstrImm16 { result, reg_in: lhs, imm_in: rhs }),
    {
        Self::I32XorImm16(BinInstrImm16::new(result, lhs, rhs))
    }

    /// Creates a new [`Instruction::I32Sub`].
    pub fn i32_sub(result: Register, lhs: Register, rhs: Register) -> (r: Self)
        ensures
            r == Instruction::I32Sub(BinInstr { result, lhs, rhs }),
    {
        Self::I32Sub(BinInstr::new(result, lhs, rhs))
    }

    /// Creates a new [`Instruction::I32SubImm`].
    pub fn i32_sub_imm(result: Register, lhs: Register) -> (r: Self)
        ensures
            r == Instruction::I32SubImm(UnaryInstr { result, input: lhs }),
    {
        Self::I32SubImm(UnaryInstr::new(result, lhs))
    }

    /// Creates a new [`Instruction::I32SubImmRev`].
    pub fn i32_sub_imm_rev(result: Register, rhs: Register) -> (r: Self)
        ensures
            r == Instruction::I32SubImmRev(UnaryInstr { result, input: rhs }),
    {
        Self::I32SubImmRev(UnaryInstr::new(result, rhs))
    }

    /// Creates a new [`Instruction::I32SubImm16`].
    pub fn i32_sub_imm16(result: Register, lhs: Register, rhs: Const16<i32>) -> (r: Self)
        ensures
            r == Instruction::I32SubImm16(BinInstrImm16 { result, reg_in: lhs, imm_in: rhs }),
    {
        Self::I32SubImm16(BinInstrImm16::new(result, lhs, rhs))
    }

    /// Creates a new [`Instruction::I32SubImm16Rev`].
    pub fn i32_sub_imm16_rev(result: Register, lhs: Const16<i32>, rhs: Register) -> (r: Self)
        ensures
            r == Instruction::I32SubImm16Rev(BinInstrImm16 { result, reg_in: rhs, imm_in: lhs }),
    {
        Self::I32SubImm16Rev(BinInstrImm16::new(result, rhs, lhs))
    }

    /// Creates a new [`Instruction::I32DivS`].
    pub fn i32_div_s(result: Register, lhs: Register, rhs: Register) -> (r: Self)
        ensures
            r == Instruction::I32DivS(BinInstr { result, lhs, rhs }),
    {
        Self::I32DivS(BinInstr::new(result, lhs, rhs))
    }

    /// Creates a new [`Instruction::I32DivSImm`].
    pub fn i32_div_s_imm(result: Register, lhs: Register) -> (r: Self)
        ensures
            r == Instruction::I32DivSImm(UnaryInstr { result, input: lhs }),
    {
        Self::I32DivSImm(UnaryInstr::new(result, lhs))
    }

    /// Creates a new [`Instruction::I32DivSImmRev`].
    pub fn i32_div_s_imm_rev(result: Register, rhs: Register) -> (r: Self)
        ensures
            r == Instruction::I32DivSImmRev(UnaryInstr { result, input: rhs }),
    {
        Self::I32DivSImmRev(UnaryInstr::new(result, rhs))
    }

    /// Creates a new [`Instruction::I32DivSImm16`].
    pub fn i32_div_s_imm16(result: Register, lhs: Register, rhs: Const16<i32>) -> (r: Self)
        ensures
            r == Instruction::I32DivSImm16(BinInstrImm16 { result, reg_in: lhs, imm_in: rhs }),
    {
        Self::I32DivSImm16(BinInstrImm16::new(result, lhs, rhs))
    }

    /// Creates a new [`Instruction::I32DivSImm16Rev`].
    pub fn i32_div_s_imm16_rev(result: Register, lhs: Const16<i32>, rhs: Register) -> (r: Self)
        ensures
            r == Instruction::I32DivSImm16Rev(BinInstrImm16 { result, reg_in: rhs, imm_in: lhs }),
    {
        Self::I32DivSImm16Rev(BinInstrImm16::new(result, rhs, lhs))
    }

    /// Creates a new [`Instruction::I32DivU`].
    pub fn i32_div_u(result: Register, lhs: Register, rhs: Register) -> (r: Self)
        ensures
            r == Instruction::I32DivU(BinInstr { result, lhs, rhs }),
    {
        Self::I32DivU(BinInstr::new(result, lhs, rhs))
    }

    /// Creates a new [`Instruction::I32DivUImm`].
    pub fn i32_div_u_imm(result: Register, lhs: Register) -> (r: Self)
        ensures
            r == Instruction::I32DivUImm(UnaryInstr { result, input: lhs }),
    {
        Self::I32DivUImm(UnaryInstr::new(result, lhs))
    }

    /// Creates a new [`Instruction::I32DivUImmRev`].
    pub fn i32_div_u_imm_rev(result: Register, rhs: Register) -> (r: Self)
        ensures
            r == Instruction::I32DivUImmRev(UnaryInstr { result, input: rhs }),
    {
        Self::I32DivUImmRev(UnaryInstr::new(result, rhs))
    }

    /// Creates a new [`Instruction::I32DivUImm16`].
    pub fn i32_div_u_imm16(result: Register, lhs: Register, rhs: Const16<u32>) -> (r: Self)
        ensures
            r == Instruction::I32DivUImm16(BinInstrImm16 { result, reg_in: lhs, imm_in: rhs }),
    {
        Self::I32DivUImm16(BinInstrImm16::new(result, lhs, rhs))
    }

    /// Creates a new [`Instruction::I32DivUImm16Rev`].
    pub fn i32_div_u_imm16_rev(result: Register, lhs: Const16<u32>, rhs: Register) -> (r: Self)
        ensures
            r == Instruction::I32DivUImm16Rev(BinInstrImm16 { result, reg_in: rhs, imm_in: lhs }),
    {
        Self::I32DivUImm16Rev(BinInstrImm16::new(result, rhs, lhs))
    }

    /// Creates a new [`Instruction::I32RemS`].
    pub fn i32_rem_s(result: Register, lhs: Register, rhs: Register) -> (r: Self)
        ensures
            r == Instruction::I32RemS(BinInstr { result, lhs, rhs }),
    {
        Self::I32RemS(BinInstr::new(result, lhs, rhs))
    }

    /// Creates a new [`Instruction::I32RemSImm`].
    pub fn i32_rem_s_imm(result: Register, lhs: Register) -> (r: Self)
        ensures
            r == Instruction::I32RemSImm(UnaryInstr { result, input: lhs }),
    {
        Self::I32RemSImm(UnaryInstr::new(result, lhs))
    }

    /// Creates a new [`Instruction::I32RemSImmRev`].
    pub fn i32_rem_s_imm_rev(result: Register, rhs: Register) -> (r: Self)
        ensures
            r == Instruction::I32RemSImmRev(UnaryInstr { result, input: rhs }),
    {
        Self::I32RemSImmRev(UnaryInstr::new(result, rhs))
    }

    /// Creates a new [`Instruction::I32RemSImm16`].
    pub fn i32_rem_s_imm16(result: Register, lhs: Register, rhs: Const16<i32>) -> (r: Self)
        ensures
            r == Instruction::I32RemSImm16(BinInstrImm16 { result, reg_in: lhs, imm_in: rhs }),
    {
        Self::I32RemSImm16(BinInstrImm16::new(result, lhs, rhs))
    }

    /// Creates a new [`Instruction::I32RemSImm16Rev`].
    pub fn i32_rem_s_imm16_rev(result: Register, lhs: Const16<i32>, rhs: Register) -> (r: Self)
        ensures
            r == Instruction::I32RemSImm16Rev(BinInstrImm16 { result, reg_in: rhs, imm_in: lhs }),
    {
        Self::I32RemSImm16Rev(BinInstrImm16::new(result, rhs, lhs))
    }

    /// Creates a new [`Instruction::I32RemU`].
    pub fn i32_rem_u(result: Register, lhs: Register, rhs: Register) -> (r: Self)
        ensures
            r == Instruction::I32RemU(BinInstr { result, lhs, rhs }),
    {
        Self::I32RemU(BinInstr::new(result, lhs, rhs))
    }

    /// Creates a new [`Instruction::I32RemUImm`].
    pub fn i32_rem_u_imm(result: Register, lhs: Register) -> (r: Self)
        ensures
            r == Instruction::I32RemUImm(UnaryInstr { result, input: lhs }),
    {
        Self::I32RemUImm(UnaryInstr::new(result, lhs))
    }

    /// Creates a new [`Instruction::I32RemUImmRev`].
    pub fn i32_rem_u_imm_rev(result: Register, rhs: Register) -> (r: Self)
        ensures
            r == Instruction::I32RemUImmRev(UnaryInstr { result, input: rhs }),
    {
        Self::I32RemUImmRev(UnaryInstr::new(result, rhs))
    }

    /// Creates a new [`Instruction::I32RemUImm16`].
    pub fn i32_rem_u_imm16(result: Register, lhs: Register, rhs: Const16<u32>) -> (r: Self)
        ensures
            r == Instruction::I32RemUImm16(BinInstrImm16 { result, reg_in: lhs, imm_in: rhs }),
    {
        Self::I32RemUImm16(BinInstrImm16::new(result, lhs, rhs))
    }

    /// Creates a new [`Instruction::I32RemUImm16Rev`].
    pub fn i32_rem_u_imm16_rev(result: Register, lhs: Const16<u32>, rhs: Register) -> (r: Self)
        ensures
            r == Instruction::I32RemUImm16Rev(BinInstrImm16 { result, reg_in: rhs, imm_in: lhs }),
    {
        Self::I32RemUImm16Rev(BinInstrImm16::new(result, rhs, lhs))
    }

    /// Creates a new [`Instruction::I32Shl`].
    pub fn i32_shl(result: Register, lhs: Register, rhs: Register) -> (r: Self)
        ensures
            r == Instruction::I32Shl(BinInstr { result, lhs, rhs }),
    {
        Self::I32Shl(BinInstr::new(result, lhs, rhs))
    }

    /// Creates a new [`Instruction::I32ShlImm`].
    pub fn i32_shl_imm(result: Register, lhs: Register, rhs: Const16<i32>) -> (r: Self)
        ensures
            r == Instruction::I32ShlImm(BinInstrImm16 { result, reg_in: lhs, imm_in: rhs }),
    {
        Self::I32ShlImm(BinInstrImm16::new(result, lhs, rhs))
    }

    /// Creates a new [`Instruction::I32ShlImmRev`].
    pub fn i32_shl_imm_rev(result: Register, rhs: Register) -> (r: Self)
        ensures
            r == Instruction::I32ShlImmRev(UnaryInstr { result, input: rhs }),
    {
        Self::I32ShlImmRev(UnaryInstr::new(result, rhs))
    }

    /// Creates a new [`Instruction::I32ShlImm16Rev`].
    pub fn i32_shl_imm16_rev(result: Register, lhs: Const16<i32>, rhs: Register) -> (r: Self)
        ensures
            r == Instruction::I32ShlImm16Rev(BinInstrImm16 { result, reg_in: rhs, imm_in: lhs }),
    {
        Self::I32ShlImm16Rev(BinInstrImm16::new(result, rhs, lhs))
    }

    /// Creates a new [`Instruction::I32ShrU`].
    pub fn i32_shr_u(result: Register, lhs: Register, rhs: Register) -> (r: Self)
        ensures
            r == Instruction::I32ShrU(BinInstr { result, lhs, rhs }),
    {
        Self::I32ShrU(BinInstr::new(result, lhs, rhs))
    }

    /// Creates a new [`Instruction::I32ShrUImm`].
    pub fn i32_shr_u_imm(result: Register, lhs: Register, rhs: Const16<i32>) -> (r: Self)
        ensures
            r == Instruction::I32ShrUImm(BinInstrImm16 { result, reg_in: lhs, imm_in: rhs }),
    {
        Self::I32ShrUImm(BinInstrImm16::new(result, lhs, rhs))
    }

    /// Creates a new [`Instruction::I32ShrUImmRev`].
    pub fn i32_shr_u_imm_rev(result: Register, rhs: Register) -> (r: Self)
        ensures
            r == Instruction::I32ShrUImmRev(UnaryInstr { result, input: rhs }),
    {
        Self::I32ShrUImmRev(UnaryInstr::new(result, rhs))
    }

    /// Creates a new [`Instruction::I32ShrUImm16Rev`].
    pub fn i32_shr_u_imm16_rev(result: Register, lhs: Const16<i32>, rhs: Register) -> (r: Self)
        ensures
            r == Instruction::I32ShrUImm16Rev(BinInstrImm16 { result, reg_in: rhs, imm_in: lhs }),
    {
        Self::I32ShrUImm16Rev(BinInstrImm16::new(result, rhs, lhs))
    }

    /// Creates a new [`Instruction::I32ShrS`].
    pub fn i32_shr_s(result: Register, lhs: Register, rhs: Register) -> (r: Self)
        ensures
            r == Instruction::I32ShrS(BinInstr { result, lhs, rhs }),
    {
        Self::I32ShrS(BinInstr::new(result, lhs, rhs))
    }

    /// Creates a new [`Instruction::I32ShrSImm`].
    pub fn i32_shr_s_imm(result: Register, lhs: Register, rhs: Const16<i32>) -> (r: Self)
        ensures
            r == Instruction::I32ShrSImm(BinInstrImm16 { result, reg_in: lhs, imm_in: rhs }),
    {
        Self::I32ShrSImm(BinInstrImm16::new(result, lhs, rhs))
    }

    /// Creates a new [`Instruction::I32ShrSImmRev`].
    pub fn i32_shr_s_imm_rev(result: Register, rhs: Register) -> (r: Self)
        ensures
            r == Instruction::I32ShrSImmRev(UnaryInstr { result, input: rhs }),
    {
        Self::I32ShrSImmRev(UnaryInstr::new(result, rhs))
    }

    /// Creates a new [`Instruction::I32ShrSImm16Rev`].
    pub fn i32_shr_s_imm16_rev(result: Register, lhs: Const16<i32>, rhs: Register) -> (r: Self)
        ensures
            r == Instruction::I32ShrSImm16Rev(BinInstrImm16 { result, reg_in: rhs, imm_in: lhs }),
    {
        Self::I32ShrSImm16Rev(BinInstrImm16::new(result, rhs, lhs))
    }

    /// Creates a new [`Instruction::I32Rotl`].
    pub fn i32_rotl(result: Register, lhs: Register, rhs: Register) -> (r: Self)
        ensures
            r == Instruction::I32Rotl(BinInstr { result, lhs, rhs }),
    {
        Self::I32Rotl(BinInstr::new(result, lhs, rhs))
    }

    /// Creates a new [`Instruction::I32RotlImm`].
    pub fn i32_rotl_imm(result: Register, lhs: Register, rhs: Const16<i32>) -> (r: Self)
        ensures
            r == Instruction::I32RotlImm(BinInstrImm16 { result, reg_in: lhs, imm_in: rhs }),
    {
        Self::I32RotlImm(BinInstrImm16::new(result, lhs, rhs))
    }

    /// Creates a new [`Instruction::I32RotlImmRev`].
    pub fn i32_rotl_imm_rev(result: Register, rhs: Register) -> (r: Self)
        ensures
            r == Instruction::I32RotlImmRev(UnaryInstr { result, input: rhs }),
    {
        Self::I32RotlImmRev(UnaryInstr::new(result, rhs))
    }

    /// Creates a new [`Instruction::I32RotlImm16Rev`].
    pub fn i32_rotl_imm16_rev(result: Register, lhs: Const16<i32>, rhs: Register) -> (r: Self)
        ensures
            r == Instruction::I32RotlImm16Rev(BinInstrImm16 { result, reg_in: rhs, imm_in: lhs }),
    {
        Self::I32RotlImm16Rev(BinInstrImm16::new(result, rhs, lhs))
    }

    /// Creates a new [`Instruction::I32Rotr`].
    pub fn i32_rotr(result: Register, lhs: Register, rhs: Register) -> (r: Self)
        ensures
            r == Instruction::I32Rotr(BinInstr { result, lhs, rhs }),
    {
        Self::I32Rotr(BinInstr::new(result, lhs, rhs))
    }

    /// Creates a new [`Instruction::I32RotrImm`].
    pub fn i32_rotr_imm(result: Register, lhs: Register, rhs: Const16<i32>) -> (r: Self)
        ensures
            r == Instruction::I32RotrImm(BinInstrImm16 { result, reg_in: lhs, imm_in: rhs }),
    {
        Self::I32RotrImm(BinInstrImm16::new(result, lhs, rhs))
    }

    /// Creates a new [`Instruction::I32RotrImmRev`].
    pub fn i32_rotr_imm_rev(result: Register, rhs: Register) -> (r: Self)
        ensures
            r == Instruction::I32RotrImmRev(UnaryInstr { result, input: rhs }),
    {
        Self::I32RotrImmRev(UnaryInstr::new(result, rhs))
    }

    /// Creates a new [`Instruction::I32RotrImm16Rev`].
    pub fn i32_rotr_imm16_rev(result: Register, lhs: Const16<i32>, rhs: Register) -> (r: Self)
        ensures
            r == Instruction::I32RotrImm16Rev(BinInstrImm16 { result, reg_in: rhs, imm_in: lhs }),
    {
        Self::I32RotrImm16Rev(BinInstrImm16::new(result, rhs, lhs))
    }

    /// Creates a new [`Instruction::I32Eq`].
    pub fn i32_eq(result: Register, lhs: Register, rhs: Register) -> (r: Self)
        ensures
            r == Instruction::I32Eq(BinInstr { result, lhs, rhs }),
    {
        Self::I32Eq(BinInstr::new(result, lhs, rhs))
    }

    /// Creates a new [`Instruction::I32EqImm`].
    pub fn i32_eq_imm(result: Register, lhs: Register) -> (r: Self)
        ensures
            r == Instruction::I32EqImm(UnaryInstr { result, input: lhs }),
    {
        Self::I32EqImm(UnaryInstr::new(result, lhs))
    }

    /// Creates a new [`Instruction::I32EqImm16`].
    pub fn i32_eq_imm16(result: Register, lhs: Register, rhs: Const16<i32>) -> (r: Self)
        ensures
            r == Instruction::I32EqImm16(BinInstrImm16 { result, reg_in: lhs, imm_in: rhs }),
    {
        Self::I32EqImm16(BinInstrImm16::new(result, lhs, rhs))
    }

    /// Creates a new [`Instruction::I32Ne`].
    pub fn i32_ne(result: Register, lhs: Register, rhs: Register) -> (r: Self)
        ensures
            r == Instruction::I32Ne(BinInstr { result, lhs, rhs }),
    {
        Self::I32Ne(BinInstr::new(result, lhs, rhs))
    }

    /// Creates a new [`Instruction::I32NeImm`].
    pub fn i32_ne_imm(result: Register, lhs: Register) -> (r: Self)
        ensures
            r == Instruction::I32NeImm(UnaryInstr { result, input: lhs }),
    {
        Self::I32NeImm(UnaryInstr::new(result, lhs))
    }

    /// Creates a new [`Instruction::I32NeImm16`].
    pub fn i32_ne_imm16(result: Register, lhs: Register, rhs: Const16<i32>) -> (r: Self)
        ensures
            r == Instruction::I32NeImm16(BinInstrImm16 { result, reg_in: lhs, imm_in: rhs }),
    {
        Self::I32NeImm16(BinInstrImm16::new(result, lhs, rhs))
    }

    /// Creates a new [`Instruction::I32LtS`].
    pub fn i32_lt_s(result: Register, lhs: Register, rhs: Register) -> (r: Self)
        ensures
            r == Instruction::I32LtS(BinInstr { result, lhs, rhs }),
    {
        Self::I32LtS(BinInstr::new(result, lhs, rhs))
    }

    /// Creates a new [`Instruction::I32LtSImm`].
    pub fn i32_lt_s_imm(result: Register, lhs: Register) -> (r: Self)
        ensures
            r == Instruction::I32LtSImm(UnaryInstr { result, input: lhs }),
    {
        Self::I32LtSImm(UnaryInstr::new(result, lhs))
    }

    /// Creates a new [`Instruction::I32LtSImm16`].
    pub fn i32_lt_s_imm16(result: Register, lhs: Register, rhs: Const16<i32>) -> (r: Self)
        ensures
            r == Instruction::I32LtSImm16(BinInstrImm16 { result, reg_in: lhs, imm_in: rhs }),
    {
        Self::I32LtSImm16(BinInstrImm16::new(result, lhs, rhs))
    }

    /// Creates a new [`Instruction::I32LtU`].
    pub fn i32_lt_u(result: Register, lhs: Register, rhs: Register) -> (r: Self)
        ensures
            r == Instruction::I32LtU(BinInstr { result, lhs, rhs }),
    {
        Self::I32LtU(BinInstr::new(result, lhs, rhs))
    }

    /// Creates a new [`Instruction::I32LtUImm`].
    pub fn i32_lt_u_imm(result: Register, lhs: Register) -> (r: Self)
        ensures
            r == Instruction::I32LtUImm(UnaryInstr { result, input: lhs }),
    {
        Self::I32LtUImm(UnaryInstr::new(result, lhs))
    }

    /// Creates a new [`Instruction::I32LtUImm16`].
    pub fn i32_lt_u_imm16(result: Register, lhs: Register, rhs: Const16<u32>) -> (r: Self)
        ensures
            r == Instruction::I32LtUImm16(BinInstrImm16 { result, reg_in: lhs, imm_in: rhs }),
    {
        Self::I32LtUImm16(BinInstrImm16::new(result, lhs, rhs))
    }

    /// Creates a new [`Instruction::I32GtS`].
    pub fn i32_gt_s(result: Register, lhs: Register, rhs: Register) -> (r: Self)
        ensures
            r == Instruction::I32GtS(BinInstr { result, lhs, rhs }),
    {
        Self::I32GtS(BinInstr::new(result, lhs, rhs))
    }

    /// Creates a new [`Instruction::I32GtSImm`].
    pub fn i32_gt_s_imm(result: Register, lhs: Register) -> (r: Self)
        ensures
            r == Instruction::I32GtSImm(UnaryInstr { result, input: lhs }),
    {
        Self::I32GtSImm(UnaryInstr::new(result, lhs))
    }

    /// Creates a new [`Instruction::I32GtSImm16`].
    pub fn i32_gt_s_imm16(result: Register, lhs: Register, rhs: Const16<i32>) -> (r: Self)
        ensures
            r == Instruction::I32GtSImm16(BinInstrImm16 { result, reg_in: lhs, imm_in: rhs }),
    {
        Self::I32GtSImm16(BinInstrImm16::new(result, lhs, rhs))
    }

    /// Creates a new [`Instruction::I32GtU`].
    pub fn i32_gt_u(result: Register, lhs: Register, rhs: Register) -> (r: Self)
        ensures
            r == Instruction::I32GtU(BinInstr { result, lhs, rhs }),
    {
        Self::I32GtU(BinInstr::new(result, lhs, rhs))
    }

    /// Creates a new [`Instruction::I32GtUImm`].
    pub fn i32_gt_u_imm(result: Register, lhs: Register) -> (r: Self)
        ensures
            r == Instruction::I32GtUImm(UnaryInstr { result, input: lhs }),
    {
        Self::I32GtUImm(UnaryInstr::new(result, lhs))
    }

    /// Creates a new [`Instruction::I32GtUImm16`].
    pub fn i32_gt_u_imm16(result: Register, lhs: Register, rhs: Const16<u32>) -> (r: Self)
        ensures
            r == Instruction::I32GtUImm16(BinInstrImm16 { result, reg_in: lhs, imm_in: rhs }),
    {
        Self::I32GtUImm16(BinInstrImm16::new(result, lhs, rhs))
    }

    /// Creates a new [`Instruction::I32LeS`].
    pub fn i32_le_s(result: Register, lhs: Register, rhs: Register) -> (r: Self)
        ensures
            r == Instruction::I32LeS(BinInstr { result, lhs, rhs }),
    {
        Self::I32LeS(BinInstr::new(result, lhs, rhs))
    }

    /// Creates a new [`Instruction::I32LeSImm`].
    pub fn i32_le_s_imm(result: Register, lhs: Register) -> (r: Self)
        ensures
            r == Instruction::I32LeSImm(UnaryInstr { result, input: lhs }),
    {
        Self::I32LeSImm(UnaryInstr::new(result, lhs))
    }

    /// Creates a new [`Instruction::I32LeSImm16`].
    pub fn i32_le_s_imm16(result: Register, lhs: Register, rhs: Const16<i32>) -> (r: Self)
        ensures
            r == Instruction::I32LeSImm16(BinInstrImm16 { result, reg_in: lhs, imm_in: rhs }),
    {
        Self::I32LeSImm16(BinInstrImm16::new(result, lhs, rhs))
    }

    /// Creates a new [`Instruction::I32LeU`].
    pub fn i32_le_u(result: Register, lhs: Register, rhs: Register) -> (r: Self)
        ensures
            r == Instruction::I32LeU(BinInstr { result, lhs, rhs }),
    {
        Self::I32LeU(BinInstr::new(result, lhs, rhs))
    }

    /// Creates a new [`Instruction::I32LeUImm`].
    pub fn i32_le_u_imm(result: Register, lhs: Register) -> (r: Self)
        ensures
            r == Instruction::I32LeUImm(UnaryInstr { result, input: lhs }),
    {
        Self::I32LeUImm(UnaryInstr::new(result, lhs))
    }

    /// Creates a new [`Instruction::I32LeUImm16`].
    pub fn i32_le_u_imm16(result: Register, lhs: Register, rhs: Const16<u32>) -> (r: Self)
        ensures
            r == Instruction::I32LeUImm16(BinInstrImm16 { result, reg_in: lhs, imm_in: rhs }),
    {
        Self::I32LeUImm16(BinInstrImm16::new(result, lhs, rhs))
    }

    /// Creates a new [`Instruction::I32GeS`].
    pub fn i32_ge_s(result: Register, lhs: Register, rhs: Register) -> (r: Self)
        ensures
            r == Instruction::I32GeS(BinInstr { result, lhs, rhs }),
    {
        Self::I32GeS(BinInstr::new(result, lhs, rhs))
    }

    /// Creates a new [`Instruction::I32GeSImm`].
    pub fn i32_ge_s_imm(result: Register, lhs: Register) -> (r: Self)
        ensures
            r == Instruction::I32GeSImm(UnaryInstr { result, input: lhs }),
    {
        Self::I32GeSImm(UnaryInstr::new(result, lhs))
    }

    /// Creates a new [`Instruction::I32GeSImm16`].
    pub fn i32_ge_s_imm16(result: Register, lhs: Register, rhs: Const16<i32>) -> (r: Self)
        ensures
            r == Instruction::I32GeSImm16(BinInstrImm16 { result, reg_in: lhs, imm_in: rhs }),
    {
        Self::I32GeSImm16(BinInstrImm16::new(result, lhs, rhs))
    }

    /// Creates a new [`Instruction::I32GeU`].
    pub fn i32_ge_u(result: Register, lhs: Register, rhs: Register) -> (r: Self)
        ensures
            r == Instruction::I32GeU(BinInstr { result, lhs, rhs }),
    {
        Self::I32GeU(BinInstr::new(result, lhs, rhs))
    }

    /// Creates a new [`Instruction::I32GeUImm`].
    pub fn i32_ge_u_imm(result: Register, lhs: Register) -> (r: Self)
        ensures
            r == Instruction::I32GeUImm(UnaryInstr { result, input: lhs }),
    {
        Self::I32GeUImm(UnaryInstr::new(result, lhs))
    }

    /// Creates a new [`Instruction::I32GeUImm16`].
    pub fn i32_ge_u_imm16(result: Register, lhs: Register, rhs: Const16<u32>) -> (r: Self)
        ensures
            r == Instruction::I32GeUImm16(BinInstrImm16 { result, reg_in: lhs, imm_in: rhs }),
    {
        Self::I32GeUImm16(BinInstrImm16::new(result, lhs, rhs))
    }

    /// Creates a new [`Instruction::I64Clz`].
    pub fn i64_clz(result: Register, input: Register) -> (r: Self)
        ensures
            r == Instruction::I64Clz(UnaryInstr { result, input }),
    {
        Self::I64Clz(UnaryInstr::new(result, input))
    }

    /// Creates a new [`Instruction::I64Ctz`].
    pub fn i64_ctz(result: Register, input: Register) -> (r: Self)
        ensures
            r == Instruction::I64Ctz(UnaryInstr { result, input }),
    {
        Self::I64Ctz(UnaryInstr::new(result, input))
    }

    /// Creates a new [`Instruction::I64Popcnt`].
    pub fn i64_popcnt(result: Register, input: Register) -> (r: Self)
        ensures
            r == Instruction::I64Popcnt(UnaryInstr { result, input }),
    {
        Self::I64Popcnt(UnaryInstr::new(result, input))
    }

    /// Creates a new [`Instruction::I64Add`].
    pub fn i64_add(result: Register, lhs: Register, rhs: Register) -> (r: Self)
        ensures
            r == Instruction::I64Add(BinInstr { result, lhs, rhs }),
    {
        Self::I64Add(BinInstr::new(result, lhs, rhs))
    }

    /// Creates a new [`Instruction::I64AddImm`].
    pub fn i64_add_imm(result: Register, lhs: Register) -> (r: Self)
        ensures
            r == Instruction::I64AddImm(UnaryInstr { result, input: lhs }),
    {
        Self::I64AddImm(UnaryInstr::new(result, lhs))
    }

    /// Creates a new [`Instruction::I64AddImm16`].
    pub fn i64_add_imm16(result: Register, lhs: Register, rhs: Const16<i64>) -> (r: Self)
        ensures
            r == Instruction::I64AddImm16(BinInstrImm16 { result, reg_in: lhs, imm_in: rhs }),
    {
        Self::I64AddImm16(BinInstrImm16::new(result, lhs, rhs))
    }

    /// Creates a new [`Instruction::I64Mul`].
    pub fn i64_mul(result: Register, lhs: Register, rhs: Register) -> (r: Self)
        ensures
            r == Instruction::I64Mul(BinInstr { result, lhs, rhs }),
    {
        Self::I64Mul(BinInstr::new(result, lhs, rhs))
    }

    /// Creates a new [`Instruction::I64MulImm`].
    pub fn i64_mul_imm(result: Register, lhs: Register) -> (r: Self)
        ensures
            r == Instruction::I64MulImm(UnaryInstr { result, input: lhs }),
    {
        Self::I64MulImm(UnaryInstr::new(result, lhs))
    }

    /// Creates a new [`Instruction::I64MulImm16`].
    pub fn i64_mul_imm16(result: Register, lhs: Register, rhs: Const16<i64>) -> (r: Self)
        ensures
            r == Instruction::I64MulImm16(BinInstrImm16 { result, reg_in: lhs, imm_in: rhs }),
    {
        Self::I64MulImm16(BinInstrImm16::new(result, lhs, rhs))
    }

    /// Creates a new [`Instruction::I64And`].
    pub fn i64_and(result: Register, lhs: Register, rhs: Register) -> (r: Self)
        ensures
            r == Instruction::I64And(BinInstr { result, lhs, rhs }),
    {
        Self::I64And(BinInstr::new(result, lhs, rhs))
    }

    /// Creates a new [`Instruction::I64AndImm`].
    pub fn i64_and_imm(result: Register, lhs: Register) -> (r: Self)
        ensures
            r == Instruction::I64AndImm(UnaryInstr { result, input: lhs }),
    {
        Self::I64AndImm(UnaryInstr::new(result, lhs))
    }

    /// Creates a new [`Instruction::I64AndImm16`].
    pub fn i64_and_imm16(result: Register, lhs: Register, rhs: Const16<i64>) -> (r: Self)
        ensures
            r == Instruction::I64AndImm16(BinInstrImm16 { result, reg_in: lhs, imm_in: rhs }),
    {
        Self::I64AndImm16(BinInstrImm16::new(result, lhs, rhs))
    }

    /// Creates a new [`Instruction::I64Or`].
    pub fn i64_or(result: Register, lhs: Register, rhs: Register) -> (r: Self)
        ensures
            r == Instruction::I64Or(BinInstr { result, lhs, rhs }),
    {
        Self::I64Or(BinInstr::new(result, lhs, rhs))
    }

    /// Creates a new [`Instruction::I64OrImm`].
    pub fn i64_or_imm(result: Register, lhs: Register) -> (r: Self)
        ensures
            r == Instruction::I64OrImm(UnaryInstr { result, input: lhs }),
    {
        Self::I64OrImm(UnaryInstr::new(result, lhs))
    }

    /// Creates a new [`Instruction::I64OrImm16`].
    pub fn i64_or_imm16(result: Register, lhs: Register, rhs: Const16<i64>) -> (r: Self)
        ensures
            r == Instruction::I64OrImm16(BinInstrImm16 { result, reg_in: lhs, imm_in: rhs }),
    {
        Self::I64OrImm16(BinInstrImm16::new(result, lhs, rhs))
    }

    /// Creates a new [`Instruction::I64Xor`].
    pub fn i64_xor(result: Register, lhs: Register, rhs: Register) -> (r: Self)
        ensures
            r == Instruction::I64Xor(BinInstr { result, lhs, rhs }),
    {
        Self::I64Xor(BinInstr::new(result, lhs, rhs))
    }

    /// Creates a new [`Instruction::I64XorImm`].
    pub fn i64_xor_imm(result: Register, lhs: Register) -> (r: Self)
        ensures
            r == Instruction::I64XorImm(UnaryInstr { result, input: lhs }),
    {
        Self::I64XorImm(UnaryInstr::new(result, lhs))
    }

    /// Creates a new [`Instruction::I64XorImm16`].
    pub fn i64_xor_imm16(result: Register, lhs: Register, rhs: Const16<i64>) -> (r: Self)
        ensures
            r == Instruction::I64XorImm16(BinInstrImm16 { result, reg_in: lhs, imm_in: rhs }),
    {
        Self::I64XorImm16(BinInstrImm16::new(result, lhs, rhs))
    }

    /// Creates a new [`Instruction::I64Sub`].
    pub fn i64_sub(result: Register, lhs: Register, rhs: Register) -> (r: Self)
        ensures
            r == Instruction::I64Sub(BinInstr { result, lhs, rhs }),
    {
        Self::I64Sub(BinInstr::new(result, lhs, rhs))
    }

    /// Creates a new [`Instruction::I64SubImm`].
    pub fn i64_sub_imm(result: Register, lhs: Register) -> (r: Self)
        ensures
            r == Instruction::I64SubImm(UnaryInstr { result, input: lhs }),
    {
        Self::I64SubImm(UnaryInstr::new(result, lhs))
    }

    /// Creates a new [`Instruction::I64SubImmRev`].
    pub fn i64_sub_imm_rev(result: Register, rhs: Register) -> (r: Self)
        ensures
            r == Instruction::I64SubImmRev(UnaryInstr { result, input: rhs }),
    {
        Self::I64SubImmRev(UnaryInstr::new(result, rhs))
    }

    /// Creates a new [`Instruction::I64SubImm16`].
    pub fn i64_sub_imm16(result: Register, lhs: Register, rhs: Const16<i64>) -> (r: Self)
        ensures
            r == Instruction::I64SubImm16(BinInstrImm16 { result, reg_in: lhs, imm_in: rhs }),
    {
        Self::I64SubImm16(BinInstrImm16::new(result, lhs, rhs))
    }

    /// Creates a new [`Instruction::I64SubImm16Rev`].
    pub fn i64_sub_imm16_rev(result: Register, lhs: Const16<i64>, rhs: Register) -> (r: Self)
        ensures
            r == Instruction::I64SubImm16Rev(BinInstrImm16 { result, reg_in: rhs, imm_in: lhs }),
    {
        Self::I64SubImm16Rev(BinInstrImm16::new(result, rhs, lhs))
    }

    /// Creates a new [`Instruction::I64DivS`].
    pub fn i64_div_s(result: Register, lhs: Register, rhs: Register) -> (r: Self)
        ensures
            r == Instruction::I64DivS(BinInstr { result, lhs, rhs }),
    {
        Self::I64DivS(BinInstr::new(result, lhs, rhs))
    }

    /// Creates a new [`Instruction::I64DivSImm`].
    pub fn i64_div_s_imm(result: Register, lhs: Register) -> (r: Self)
        ensures
            r == Instruction::I64DivSImm(UnaryInstr { result, input: lhs }),
    {
        Self::I64DivSImm(UnaryInstr::new(result, lhs))
    }

    /// Creates a new [`Instruction::I64DivSImmRev`].
    pub fn i64_div_s_imm_rev(result: Register, rhs: Register) -> (r: Self)
        ensures
            r == Instruction::I64DivSImmRev(UnaryInstr { result, input: rhs }),
    {
        Self::I64DivSImmRev(UnaryInstr::new(result, rhs))
    }

    /// Creates a new [`Instruction::I64DivSImm16`].
    pub fn i64_div_s_imm16(result: Register, lhs: Register, rhs: Const16<i64>) -> (r: Self)
        ensures
            r == Instruction::I64DivSImm16(BinInstrImm16 { result, reg_in: lhs, imm_in: rhs }),
    {
        Self::I64DivSImm16(BinInstrImm16::new(result, lhs, rhs))
    }

    /// Creates a new [`Instruction::I64DivSImm16Rev`].
    pub fn i64_div_s_imm16_rev(result: Register, lhs: Const16<i64>, rhs: Register) -> (r: Self)
        ensures
            r == Instruction::I64DivSImm16Rev(BinInstrImm16 { result, reg_in: rhs, imm_in: lhs }),
    {
        Self::I64DivSImm16Rev(BinInstrImm16::new(result, rhs, lhs))
    }

    /// Creates a new [`Instruction::I64DivU`].
    pub fn i64_div_u(result: Register, lhs: Register, rhs: Register) -> (r: Self)
        ensures
            r == Instruction::I64DivU(BinInstr { result, lhs, rhs }),
    {
        Self::I64DivU(BinInstr::new(result, lhs, rhs))
    }

    /// Creates a new [`Instruction::I64DivUImm`].
    pub fn i64_div_u_imm(result: Register, lhs: Register) -> (r: Self)
        ensures
            r == Instruction::I64DivUImm(UnaryInstr { result, input: lhs }),
    {
        Self::I64DivUImm(UnaryInstr::new(result, lhs))
    }

    /// Creates a new [`Instruction::I64DivUImmRev`].
    pub fn i64_div_u_imm_rev(result: Register, rhs: Register) -> (r: Self)
        ensures
            r == Instruction::I64DivUImmRev(UnaryInstr { result, input: rhs }),
    {
        Self::I64DivUImmRev(UnaryInstr::new(result, rhs))
    }

    /// Creates a new [`Instruction::I64DivUImm16`].
    pub fn i64_div_u_imm16(result: Register, lhs: Register, rhs: Const16<u64>) -> (r: Self)
        ensures
            r == Instruction::I64DivUImm16(BinInstrImm16 { result, reg_in: lhs, imm_in: rhs }),
    {
        Self::I64DivUImm16(BinInstrImm16::new(result, lhs, rhs))
    }

    /// Creates a new [`Instruction::I64DivUImm16Rev`].
    pub fn i64_div_u_imm16_rev(result: Register, lhs: Const16<u64>, rhs: Register) -> (r: Self)
        ensures
            r == Instruction::I64DivUImm16Rev(BinInstrImm16 { result, reg_in: rhs, imm_in: lhs }),
    {
        Self::I64DivUImm16Rev(BinInstrImm16::new(result, rhs, lhs))
    }

    /// Creates a new [`Instruction::I64RemS`].
    pub fn i64_rem_s(result: Register, lhs: Register, rhs: Register) -> (r: Self)
        ensures
            r == Instruction::I64RemS(BinInstr { result, lhs, rhs }),
    {
        Self::I64RemS(BinInstr::new(result, lhs, rhs))
    }

    /// Creates a new [`Instruction::I64RemSImm`].
    pub fn i64_rem_s_imm(result: Register, lhs: Register) -> (r: Self)
        ensures
            r == Instruction::I64RemSImm(UnaryInstr { result, input: lhs }),
    {
        Self::I64RemSImm(UnaryInstr::new(result, lhs))
    }

    /// Creates a new [`Instruction::I64RemSImmRev`].
    pub fn i64_rem_s_imm_rev(result: Register, rhs: Register) -> (r: Self)
        ensures
            r == Instruction::I64RemSImmRev(UnaryInstr { result, input: rhs }),
    {
        Self::I64RemSImmRev(UnaryInstr::new(result, rhs))
    }

    /// Creates a new [`Instruction::I64RemSImm16`].
    pub fn i64_rem_s_imm16(result: Register, lhs: Register, rhs: Const16<i64>) -> (r: Self)
        ensures
            r == Instruction::I64RemSImm16(BinInstrImm16 { result, reg_in: lhs, imm_in: rhs }),
    {
        Self::I64RemSImm16(BinInstrImm16::new(result, lhs, rhs))
    }

    /// Creates a new [`Instruction::I64RemSImm16Rev`].
    pub fn i64_rem_s_imm16_rev(result: Register, lhs: Const16<i64>, rhs: Register) -> (r: Self)
        ensures
            r == Instruction::I64RemSImm16Rev(BinInstrImm16 { result, reg_in: rhs, imm_in: lhs }),
    {
        Self::I64RemSImm16Rev(BinInstrImm16::new(result, rhs, lhs))
    }

    /// Creates a new [`Instruction::I64RemU`].
    pub fn i64_rem_u(result: Register, lhs: Register, rhs: Register) -> (r: Self)
        ensures
            r == Instruction::I64RemU(BinInstr { result, lhs, rhs }),
    {
        Self::I64RemU(BinInstr::new(result, lhs, rhs))
    }

    /// Creates a new [`Instruction::I64RemUImm`].
    pub fn i64_rem_u_imm(result: Register, lhs: Register) -> (r: Self)
        ensures
            r == Instruction::I64RemUImm(UnaryInstr { result, input: lhs }),
    {
        Self::I64RemUImm(UnaryInstr::new(result, lhs))
    }

    /// Creates a new [`Instruction::I64RemUImmRev`].
    pub fn i64_rem_u_imm_rev(result: Register, rhs: Register) -> (r: Self)
        ensures
            r == Instruction::I64RemUImmRev(UnaryInstr { result, input: rhs }),
    {
        Self::I64RemUImmRev(UnaryInstr::new(result, rhs))
    }

    /// Creates a new [`Instruction::I64RemUImm16`].
    pub fn i64_rem_u_imm16(result: Register, lhs: Register, rhs: Const16<u64>) -> (r: Self)
        ensures
            r == Instruction::I64RemUImm16(BinInstrImm16 { result, reg_in: lhs, imm_in: rhs }),
    {
        Self::I64RemUImm16(BinInstrImm16::new(result, lhs, rhs))
    }

    /// Creates a new [`Instruction::I64RemUImm16Rev`].
    pub fn i64_rem_u_imm16_rev(result: Register, lhs: Const16<u64>, rhs: Register) -> (r: Self)
        ensures
            r == Instruction::I64RemUImm16Rev(BinInstrImm16 { result, reg_in: rhs, imm_in: lhs }),
    {
        Self::I64RemUImm16Rev(BinInstrImm16::new(result, rhs, lhs))
    }

    /// Creates a new [`Instruction::I64Shl`].
    pub fn i64_shl(result: Register, lhs: Register, rhs: Register) -> (r: Self)
        ensures
            r == Instruction::I64Shl(BinInstr { result, lhs, rhs }),
    {
        Self::I64Shl(BinInstr::new(result, lhs, rhs))
    }

    /// Creates a new [`Instruction::I64ShlImm`].
    pub fn i64_shl_imm(result: Register, lhs: Register, rhs: Const16<i64>) -> (r: Self)
        ensures
            r == Instruction::I64ShlImm(BinInstrImm16 { result, reg_in: lhs, imm_in: rhs }),
    {
        Self::I64ShlImm(BinInstrImm16::new(result, lhs, rhs))
    }

    /// Creates a new [`Instruction::I64ShlImmRev`].
    pub fn i64_shl_imm_rev(result: Register, rhs: Register) -> (r: Self)
        ensures
            r == Instruction::I64ShlImmRev(UnaryInstr { result, input: rhs }),
    {
        Self::I64ShlImmRev(UnaryInstr::new(result, rhs))
    }

    /// Creates a new [`Instruction::I64ShlImm16Rev`].
    pub fn i64_shl_imm16_rev(result: Register, lhs: Const16<i64>, rhs: Register) -> (r: Self)
        ensures
            r == Instruction::I64ShlImm16Rev(BinInstrImm16 { result, reg_in: rhs, imm_in: lhs }),
    {
        Self::I64ShlImm16Rev(BinInstrImm16::new(result, rhs, lhs))
    }

    /// Creates a new [`Instruction::I64ShrU`].
    pub fn i64_shr_u(result: Register, lhs: Register, rhs: Register) -> (r: Self)
        ensures
            r == Instruction::I64ShrU(BinInstr { result, lhs, rhs }),
    {
        Self::I64ShrU(BinInstr::new(result, lhs, rhs))
    }

    /// Creates a new [`Instruction::I64ShrUImm`].
    pub fn i64_shr_u_imm(result: Register, lhs: Register, rhs: Const16<i64>) -> (r: Self)
        ensures
            r == Instruction::I64ShrUImm(BinInstrImm16 { result, reg_in: lhs, imm_in: rhs }),
    {
        Self::I64ShrUImm(BinInstrImm16::new(result, lhs, rhs))
    }

    /// Creates a new [`Instruction::I64ShrUImmRev`].
    pub fn i64_shr_u_imm_rev(result: Register, rhs: Register) -> (r: Self)
        ensures
            r == Instruction::I64ShrUImmRev(UnaryInstr { result, input: rhs }),
    {
        Self::I64ShrUImmRev(UnaryInstr::new(result, rhs))
    }

    /// Creates a new [`Instruction::I64ShrUImm16Rev`].
    pub fn i64_shr_u_imm16_rev(result: Register, lhs: Const16<i64>, rhs: Register) -> (r: Self)
        ensures
            r == Instruction::I64ShrUImm16Rev(BinInstrImm16 { result, reg_in: rhs, imm_in: lhs }),
    {
        Self::I64ShrUImm16Rev(BinInstrImm16::new(result, rhs, lhs))
    }

    /// Creates a new [`Instruction::I64ShrS`].
    pub fn i64_shr_s(result: Register, lhs: Register, rhs: Register) -> (r: Self)
        ensures
            r == Instruction::I64ShrS(BinInstr { result, lhs, rhs }),
    {
        Self::I64ShrS(BinInstr::new(result, lhs, rhs))
    }

    /// Creates a new [`Instruction::I64ShrSImm`].
    pub fn i64_shr_s_imm(result: Register, lhs: Register, rhs: Const16<i64>) -> (r: Self)
        ensures
            r == Instruction::I64ShrSImm(BinInstrImm16 { result, reg_in: lhs, imm_in: rhs }),
    {
        Self::I64ShrSImm(BinInstrImm16::new(result, lhs, rhs))
    }

    /// Creates a new [`Instruction::I64ShrSImmRev`].
    pub fn i64_shr_s_imm_rev(result: Register, rhs: Register) -> (r: Self)
        ensures
            r == Instruction::I64ShrSImmRev(UnaryInstr { result, input: rhs }),
    {
        Self::I64ShrSImmRev(UnaryInstr::new(result, rhs))
    }

    /// Creates a new [`Instruction::I64ShrSImm16Rev`].
    pub fn i64_shr_s_imm16_rev(result: Register, lhs: Const16<i64>, rhs: Register) -> (r: Self)
        ensures
            r == Instruction::I64ShrSImm16Rev(BinInstrImm16 { result, reg_in: rhs, imm_in: lhs }),
    {
        Self::I64ShrSImm16Rev(BinInstrImm16::new(result, rhs, lhs))
    }

    /// Creates a new [`Instruction::I64Rotl`].
    pub fn i64_rotl(result: Register, lhs: Register, rhs: Register) -> (r: Self)
        ensures
            r == Instruction::I64Rotl(BinInstr { result, lhs, rhs }),
    {
        Self::I64Rotl(BinInstr::new(result, lhs, rhs))
    }

    /// Creates a new [`Instruction::I64RotlImm`].
    pub fn i64_rotl_imm(result: Register, lhs: Register, rhs: Const16<i64>) -> (r: Self)
        ensures
            r == Instruction::I64RotlImm(BinInstrImm16 { result, reg_in: lhs, imm_in: rhs }),
    {
        Self::I64RotlImm(BinInstrImm16::new(result, lhs, rhs))
    }

    /// Creates a new [`Instruction::I64RotlImmRev`].
    pub fn i64_rotl_imm_rev(result: Register, rhs: Register) -> (r: Self)
        ensures
            r == Instruction::I64RotlImmRev(UnaryInstr { result, input: rhs }),
    {
        Self::I64RotlImmRev(UnaryInstr::new(result, rhs))
    }

    /// Creates a new [`Instruction::I64RotlImm16Rev`].
    pub fn i64_rotl_imm16_rev(result: Register, lhs: Const16<i64>, rhs: Register) -> (r: Self)
        ensures
            r == Instruction::I64RotlImm16Rev(BinInstrImm16 { result, reg_in: rhs, imm_in: lhs }),
    {
        Self::I64RotlImm16Rev(BinInstrImm16::new(result, rhs, lhs))
    }

    /// Creates a new [`Instruction::I64Rotr`].
    pub fn i64_rotr(result: Register, lhs: Register, rhs: Register) -> (r: Self)
        ensures
            r == Instruction::I64Rotr(BinInstr { result, lhs, rhs }),
    {
        Self::I64Rotr(BinInstr::new(result, lhs, rhs))
    }

    /// Creates a new [`Instruction::I64RotrImm`].
    pub fn i64_rotr_imm(result: Register, lhs: Register, rhs: Const16<i64>) -> (r: Self)
        ensures
            r == Instruction::I64RotrImm(BinInstrImm16 { result, reg_in: lhs, imm_in: rhs }),
    {
        Self::I64RotrImm(BinInstrImm16::new(result, lhs, rhs))
    }

    /// Creates a new [`Instruction::I64RotrImmRev`].
    pub fn i64_rotr_imm_rev(result: Register, rhs: Register) -> (r: Self)
        ensures
            r == Instruction::I64RotrImmRev(UnaryInstr { result, input: rhs }),
    {
        Self::I64RotrImmRev(UnaryInstr::new(result, rhs))
    }

    /// Creates a new [`Instruction::I64RotrImm16Rev`].
    pub fn i64_rotr_imm16_rev(result: Register, lhs: Const16<i64>, rhs: Register) -> (r: Self)
        ensures
            r == Instruction::I64RotrImm16Rev(BinInstrImm16 { result, reg_in: rhs, imm_in: lhs }),
    {
        Self::I64RotrImm16Rev(BinInstrImm16::new(result, rhs, lhs))
    }

    /// Creates a new [`Instruction::I64Eq`].
    pub fn i64_eq(result: Register, lhs: Register, rhs: Register) -> (r: Self)
        ensures
            r == Instruction::I64Eq(BinInstr { result, lhs, rhs }),
    {
        Self::I64Eq(BinInstr::new(result, lhs, rhs))
    }

    /// Creates a new [`Instruction::I64EqImm`].
    pub fn i64_eq_imm(result: Register, lhs: Register) -> (r: Self)
        ensures
            r == Instruction::I64EqImm(UnaryInstr { result, input: lhs }),
    {
        Self::I64EqImm(UnaryInstr::new(result, lhs))
    }

    /// Creates a new [`Instruction::I64EqImm16`].
    pub fn i64_eq_imm16(result: Register, lhs: Register, rhs: Const16<i64>) -> (r: Self)
        ensures
            r == Instruction::I64EqImm16(BinInstrImm16 { result, reg_in: lhs, imm_in: rhs }),
    {
        Self::I64EqImm16(BinInstrImm16::new(result, lhs, rhs))
    }

    /// Creates a new [`Instruction::I64Ne`].
    pub fn i64_ne(result: Register, lhs: Register, rhs: Register) -> (r: Self)
        ensures
            r == Instruction::I64Ne(BinInstr { result, lhs, rhs }),
    {
        Self::I64Ne(BinInstr::new(result, lhs, rhs))
    }

    /// Creates a new [`Instruction::I64NeImm`].
    pub fn i64_ne_imm(result: Register, lhs: Register) -> (r: Self)
        ensures
            r == Instruction::I64NeImm(UnaryInstr { result, input: lhs }),
    {
        Self::I64NeImm(UnaryInstr::new(result, lhs))
    }

    /// Creates a new [`Instruction::I64NeImm16`].
    pub fn i64_ne_imm16(result: Register, lhs: Register, rhs: Const16<i64>) -> (r: Self)
        ensures
            r == Instruction::I64NeImm16(BinInstrImm16 { result, reg_in: lhs, imm_in: rhs }),
    {
        Self::I64NeImm16(BinInstrImm16::new(result, lhs, rhs))
    }

    /// Creates a new [`Instruction::I64LtS`].
    pub fn i64_lt_s(result: Register, lhs: Register, rhs: Register) -> (r: Self)
        ensures
            r == Instruction::I64LtS(BinInstr { result, lhs, rhs }),
    {
        Self::I64LtS(BinInstr::new(result, lhs, rhs))
    }

    /// Creates a new [`Instruction::I64LtSImm`].
    pub fn i64_lt_s_imm(result: Register, lhs: Register) -> (r: Self)
        ensures
            r == Instruction::I64LtSImm(UnaryInstr { result, input: lhs }),
    {
        Self::I64LtSImm(UnaryInstr::new(result, lhs))
    }

    /// Creates a new [`Instruction::I64LtSImm16`].
    pub fn i64_lt_s_imm16(result: Register, lhs: Register, rhs: Const16<i64>) -> (r: Self)
        ensures
            r == Instruction::I64LtSImm16(BinInstrImm16 { result, reg_in: lhs, imm_in: rhs }),
    {
        Self::I64LtSImm16(BinInstrImm16::new(result, lhs, rhs))
    }

    /// Creates a new [`Instruction::I64LtU`].
    pub fn i64_lt_u(result: Register, lhs: Register, rhs: Register) -> (r: Self)
        ensures
            r == Instruction::I64LtU(BinInstr { result, lhs, rhs }),
    {
        Self::I64LtU(BinInstr::new(result, lhs, rhs))
    }

    /// Creates a new [`Instruction::I64LtUImm`].
    pub fn i64_lt_u_imm(result: Register, lhs: Register) -> (r: Self)
        ensures
            r == Instruction::I64LtUImm(UnaryInstr { result, input: lhs }),
    {
        Self::I64LtUImm(UnaryInstr::new(result, lhs))
    }

    /// Creates a new [`Instruction::I64LtUImm16`].
    pub fn i64_lt_u_imm16(result: Register, lhs: Register, rhs: Const16<u64>) -> (r: Self)
        ensures
            r == Instruction::I64LtUImm16(BinInstrImm16 { result, reg_in: lhs, imm_in: rhs }),
    {
        Self::I64LtUImm16(BinInstrImm16::new(result, lhs, rhs))
    }

    /// Creates a new [`Instruction::I64GtS`].
    pub fn i64_gt_s(result: Register, lhs: Register, rhs: Register) -> (r: Self)
        ensures
            r == Instruction::I64GtS(BinInstr { result, lhs, rhs }),
    {
        Self::I64GtS(BinInstr::new(result, lhs, rhs))
    }

    /// Creates a new [`Instruction::I64GtSImm`].
    pub fn i64_gt_s_imm(result: Register, lhs: Register) -> (r: Self)
        ensures
            r == Instruction::I64GtSImm(UnaryInstr { result, input: lhs }),
    {
        Self::I64GtSImm(UnaryInstr::new(result, lhs))
    }

    /// Creates a new [`Instruction::I64GtSImm16`].
    pub fn i64_gt_s_imm16(result: Register, lhs: Register, rhs: Const16<i64>) -> (r: Self)
        ensures
            r == Instruction::I64GtSImm16(BinInstrImm16 { result, reg_in: lhs, imm_in: rhs }),
    {
        Self::I64GtSImm16(BinInstrImm16::new(result, lhs, rhs))
    }

    /// Creates a new [`Instruction::I64GtU`].
    pub fn i64_gt_u(result: Register, lhs: Register, rhs: Register) -> (r: Self)
        ensures
            r == Instruction::I64GtU(BinInstr { result, lhs, rhs }),
    {
        Self::I64GtU(BinInstr::new(result, lhs, rhs))
    }

    /// Creates a new [`Instruction::I64GtUImm`].
    pub fn i64_gt_u_imm(result: Register, lhs: Register) -> (r: Self)
        ensures
            r == Instruction::I64GtUImm(UnaryInstr { result, input: lhs }),
    {
        Self::I64GtUImm(UnaryInstr::new(result, lhs))
    }

    /// Creates a new [`Instruction::I64GtUImm16`].
    pub fn i64_gt_u_imm16(result: Register, lhs: Register, rhs: Const16<u64>) -> (r: Self)
        ensures
            r == Instruction::I64GtUImm16(BinInstrImm16 { result, reg_in: lhs, imm_in: rhs }),
    {
        Self::I64GtUImm16(BinInstrImm16::new(result, lhs, rhs))
    }

    /// Creates a new [`Instruction::I64LeS`].
    pub fn i64_le_s(result: Register, lhs: Register, rhs: Register) -> (r: Self)
        ensures
            r == Instruction::I64LeS(BinInstr { result, lhs, rhs }),
    {
        Self::I64LeS(BinInstr::new(result, lhs, rhs))
    }

    /// Creates a new [`Instruction::I64LeSImm`].
    pub fn i64_le_s_imm(result: Register, lhs: Register) -> (r: Self)
        ensures
            r == Instruction::I64LeSImm(UnaryInstr { result, input: lhs }),
    {
        Self::I64LeSImm(UnaryInstr::new(result, lhs))
    }

    /// Creates a new [`Instruction::I64LeSImm16`].
    pub fn i64_le_s_imm16(result: Register, lhs: Register, rhs: Const16<i64>) -> (r: Self)
        ensures
            r == Instruction::I64LeSImm16(BinInstrImm16 { result, reg_in: lhs, imm_in: rhs }),
    {
        Self::I64LeSImm16(BinInstrImm16::new(result, lhs, rhs))
    }

    /// Creates a new [`Instruction::I64LeU`].
    pub fn i64_le_u(result: Register, lhs: Register, rhs: Register) -> (r: Self)
        ensures
            r == Instruction::I64LeU(BinInstr { result, lhs, rhs }),
    {
        Self::I64LeU(BinInstr::new(result, lhs, rhs))
    }

    /// Creates a new [`Instruction::I64LeUImm`].
    pub fn i64_le_u_imm(result: Register, lhs: Register) -> (r: Self)
        ensures
            r == Instruction::I64LeUImm(UnaryInstr { result, input: lhs }),
    {
        Self::I64LeUImm(UnaryInstr::new(result, lhs))
    }

    /// Creates a new [`Instruction::I64LeUImm16`].
    pub fn i64_le_u_imm16(result: Register, lhs: Register, rhs: Const16<u64>) -> (r: Self)
        ensures
            r == Instruction::I64LeUImm16(BinInstrImm16 { result, reg_in: lhs, imm_in: rhs }),
    {
        Self::I64LeUImm16(BinInstrImm16::new(result, lhs, rhs))
    }

    /// Creates a new [`Instruction::I64GeS`].
    pub fn i64_ge_s(result: Register, lhs: Register, rhs: Register) -> (r: Self)
        ensures
            r == Instruction::I64GeS(BinInstr { result, lhs, rhs }),
    {
        Self::I64GeS(BinInstr::new(result, lhs, rhs))
    }

    /// Creates a new [`Instruction::I64GeSImm`].
    pub fn i64_ge_s_imm(result: Register, lhs: Register) -> (r: Self)
        ensures
            r == Instruction::I64GeSImm(UnaryInstr { result, input: lhs }),
    {
        Self::I64GeSImm(UnaryInstr::new(result, lhs))
    }

    /// Creates a new [`Instruction::I64GeSImm16`].
    pub fn i64_ge_s_imm16(result: Register, lhs: Register, rhs: Const16<i64>) -> (r: Self)
        ensures
            r == Instruction::I64GeSImm16(BinInstrImm16 { result, reg_in: lhs, imm_in: rhs }),
    {
        Self::I64GeSImm16(BinInstrImm16::new(result, lhs, rhs))
    }

    /// Creates a new [`Instruction::I64GeU`].
    pub fn i64_ge_u(result: Register, lhs: Register, rhs: Register) -> (r: Self)
        ensures
            r == Instruction::I64GeU(BinInstr { result, lhs, rhs }),
    {
        Self::I64GeU(BinInstr::new(result, lhs, rhs))
    }

    /// Creates a new [`Instruction::I64GeUImm`].
    pub fn i64_ge_u_imm(result: Register, lhs: Register) -> (r: Self)
        ensures
            r == Instruction::I64GeUImm(UnaryInstr { result, input: lhs }),
    {
        Self::I64GeUImm(UnaryInstr::new(result, lhs))
    }

    /// Creates a new [`Instruction::I64GeUImm16`].
    pub fn i64_ge_u_imm16(result: Register, lhs: Register, rhs: Const16<u64>) -> (r: Self)
        ensures
            r == Instruction::I64GeUImm16(BinInstrImm16 { result, reg_in: lhs, imm_in: rhs }),
    {
        Self::I64GeUImm16(BinInstrImm16::new(result, lhs, rhs))
    }

    /// Creates a new [`Instruction::F32Eq`].
    pub fn f32_eq(result: Register, lhs: Register, rhs: Register) -> (r: Self)
        ensures
            r == Instruction::F32Eq(BinInstr { result, lhs, rhs }),
    {
        Self::F32Eq(BinInstr::new(result, lhs, rhs))
    }

    /// Creates a new [`Instruction::F32EqImm`].
    pub fn f32_eq_imm(result: Register, lhs: Register) -> (r: Self)
        ensures
            r == Instruction::F32EqImm(UnaryInstr { result, input: lhs }),
    {
        Self::F32EqImm(UnaryInstr::new(result, lhs))
    }

    /// Creates a new [`Instruction::F32Ne`].
    pub fn f32_ne(result: Register, lhs: Register, rhs: Register) -> (r: Self)
        ensures
            r == Instruction::F32Ne(BinInstr { result, lhs, rhs }),
    {
        Self::F32Ne(BinInstr::new(result, lhs, rhs))
    }

    /// Creates a new [`Instruction::F32NeImm`].
    pub fn f32_ne_imm(result: Register, lhs: Register) -> (r: Self)
        ensures
            r == Instruction::F32NeImm(UnaryInstr { result, input: lhs }),
    {
        Self::F32NeImm(UnaryInstr::new(result, lhs))
    }

    /// Creates a new [`Instruction::F32Lt`].
    pub fn f32_lt(result: Register, lhs: Register, rhs: Register) -> (r: Self)
        ensures
            r == Instruction::F32Lt(BinInstr { result, lhs, rhs }),
    {
        Self::F32Lt(BinInstr::new(result, lhs, rhs))
    }

    /// Creates a new [`Instruction::F32LtImm`].
    pub fn f32_lt_imm(result: Register, lhs: Register) -> (r: Self)
        ensures
            r == Instruction::F32LtImm(UnaryInstr { result, input: lhs }),
    {
        Self::F32LtImm(UnaryInstr::new(result, lhs))
    }

    /// Creates a new [`Instruction::F32Le`].
    pub fn f32_le(result: Register, lhs: Register, rhs: Register) -> (r: Self)
        ensures
            r == Instruction::F32Le(BinInstr { result, lhs, rhs }),
    {
        Self::F32Le(BinInstr::new(result, lhs, rhs))
    }

    /// Creates a new [`Instruction::F32LeImm`].
    pub fn f32_le_imm(result: Register, lhs: Register) -> (r: Self)
        ensures
            r == Instruction::F32LeImm(UnaryInstr { result, input: lhs }),
    {
        Self::F32LeImm(UnaryInstr::new(result, lhs))
    }

    /// Creates a new [`Instruction::F32Gt`].
    pub fn f32_gt(result: Register, lhs: Register, rhs: Register) -> (r: Self)
        ensures
            r == Instruction::F32Gt(BinInstr { result, lhs, rhs }),
    {
        Self::F32Gt(BinInstr::new(result, lhs, rhs))
    }

    /// Creates a new [`Instruction::F32GtImm`].
    pub fn f32_gt_imm(result: Register, lhs: Register) -> (r: Self)
        ensures
            r == Instruction::F32GtImm(UnaryInstr { result, input: lhs }),
    {
        Self::F32GtImm(UnaryInstr::new(result, lhs))
    }

    /// Creates a new [`Instruction::F32Ge`].
    pub fn f32_ge(result: Register, lhs: Register, rhs: Register) -> (r: Self)
        ensures
            r == Instruction::F32Ge(BinInstr { result, lhs, rhs }),
    {
        Self::F32Ge(BinInstr::new(result, lhs, rhs))
    }

    /// Creates a new [`Instruction::F32GeImm`].
    pub fn f32_ge_imm(result: Register, lhs: Register) -> (r: Self)
        ensures
            r == Instruction::F32GeImm(UnaryInstr { result, input: lhs }),
    {
        Self::F32GeImm(UnaryInstr::new(result, lhs))
    }

    /// Creates a new [`Instruction::F32Add`].
    pub fn f32_add(result: Register, lhs: Register, rhs: Register) -> (r: Self)
        ensures
            r == Instruction::F32Add(BinInstr { result, lhs, rhs }),
    {
        Self::F32Add(BinInstr::new(result, lhs, rhs))
    }

    /// Creates a new [`Instruction::F32AddImm`].
    pub fn f32_add_imm(result: Register, lhs: Register) -> (r: Self)
        ensures
            r == Instruction::F32AddImm(UnaryInstr { result, input: lhs }),
    {
        Self::F32AddImm(UnaryInstr::new(result, lhs))
    }

    /// Creates a new [`Instruction::F32Mul`].
    pub fn f32_mul(result: Register, lhs: Register, rhs: Register) -> (r: Self)
        ensures
            r == Instruction::F32Mul(BinInstr { result, lhs, rhs }),
    {
        Self::F32Mul(BinInstr::new(result, lhs, rhs))
    }

    /// Creates a new [`Instruction::F32MulImm`].
    pub fn f32_mul_imm(result: Register, lhs: Register) -> (r: Self)
        ensures
            r == Instruction::F32MulImm(UnaryInstr { result, input: lhs }),
    {
        Self::F32MulImm(UnaryInstr::new(result, lhs))
    }

    /// Creates a new [`Instruction::F32Min`].
    pub fn f32_min(result: Register, lhs: Register, rhs: Register) -> (r: Self)
        ensures
            r == Instruction::F32Min(BinInstr { result, lhs, rhs }),
    {
        Self::F32Min(BinInstr::new(result, lhs, rhs))
    }

    /// Creates a new [`Instruction::F32MinImm`].
    pub fn f32_min_imm(result: Register, lhs: Register) -> (r: Self)
        ensures
            r == Instruction::F32MinImm(UnaryInstr { result, input: lhs }),
    {
        Self::F32MinImm(UnaryInstr::new(result, lhs))
    }

    /// Creates a new [`Instruction::F32Max`].
    pub fn f32_max(result: Register, lhs: Register, rhs: Register) -> (r: Self)
        ensures
            r == Instruction::F32Max(BinInstr { result, lhs, rhs }),
    {
        Self::F32Max(BinInstr::new(result, lhs, rhs))
    }

    /// Creates a new [`Instruction::F32MaxImm`].
    pub fn f32_max_imm(result: Register, lhs: Register) -> (r: Self)
        ensures
            r == Instruction::F32MaxImm(UnaryInstr { result, input: lhs }),
    {
        Self::F32MaxImm(UnaryInstr::new(result, lhs))
    }

    /// Creates a new [`Instruction::F32Sub`].
    pub fn f32_sub(result: Register, lhs: Register, rhs: Register) -> (r: Self)
        ensures
            r == Instruction::F32Sub(BinInstr { result, lhs, rhs }),
    {
        Self::F32Sub(BinInstr::new(result, lhs, rhs))
    }

    /// Creates a new [`Instruction::F32SubImm`].
    pub fn f32_sub_imm(result: Register, lhs: Register) -> (r: Self)
        ensures
            r == Instruction::F32SubImm(UnaryInstr { result, input: lhs }),
    {
        Self::F32SubImm(UnaryInstr::new(result, lhs))
    }

    /// Creates a new [`Instruction::F32SubImmRev`].
    pub fn f32_sub_imm_rev(result: Register, rhs: Register) -> (r: Self)
        ensures
            r == Instruction::F32SubImmRev(UnaryInstr { result, input: rhs }),
    {
        Self::F32SubImmRev(UnaryInstr::new(result, rhs))
    }

    /// Creates a new [`Instruction::F32Div`].
    pub fn f32_div(result: Register, lhs: Register, rhs: Register) -> (r: Self)
        ensures
            r == Instruction::F32Div(BinInstr { result, lhs, rhs }),
    {
        Self::F32Div(BinInstr::new(result, lhs, rhs))
    }

    /// Creates a new [`Instruction::F32DivImm`].
    pub fn f32_div_imm(result: Register, lhs: Register) -> (r: Self)
        ensures
            r == Instruction::F32DivImm(UnaryInstr { result, input: lhs }),
    {
        Self::F32DivImm(UnaryInstr::new(result, lhs))
    }

    /// Creates a new [`Instruction::F32DivImmRev`].
    pub fn f32_div_imm_rev(result: Register, rhs: Register) -> (r: Self)
        ensures
            r == Instruction::F32DivImmRev(UnaryInstr { result, input: rhs }),
    {
        Self::F32DivImmRev(UnaryInstr::new(result, rhs))
    }

    /// Creates a new [`Instruction::F32Copysign`].
    pub fn f32_copysign(result: Register, lhs: Register, rhs: Register) -> (r: Self)
        ensures
            r == Instruction::F32Copysign(BinInstr { result, lhs, rhs }),
    {
        Self::F32Copysign(BinInstr::new(result, lhs, rhs))
    }

    /// Creates a new [`Instruction::F32CopysignImm`].
    pub fn f32_copysign_imm(result: Register, lhs: Register, rhs: Sign) -> (r: Self)
        ensures
            r == Instruction::F32CopysignImm(CopysignImmInstr { result, lhs, rhs }),
    {
        Self::F32CopysignImm(CopysignImmInstr { result, lhs, rhs })
    }

    /// Creates a new [`Instruction::F64Eq`].
    pub fn f64_eq(result: Register, lhs: Register, rhs: Register) -> (r: Self)
        ensures
            r == Instruction::F64Eq(BinInstr { result, lhs, rhs }),
    {
        Self::F64Eq(BinInstr::new(result, lhs, rhs))
    }

    /// Creates a new [`Instruction::F64EqImm`].
    pub fn f64_eq_imm(result: Register, lhs: Register) -> (r: Self)
        ensures
            r == Instruction::F64EqImm(UnaryInstr { result, input: lhs }),
    {
        Self::F64EqImm(UnaryInstr::new(result, lhs))
    }

    /// Creates a new [`Instruction::F64Ne`].
    pub fn f64_ne(result: Register, lhs: Register, rhs: Register) -> (r: Self)
        ensures
            r == Instruction::F64Ne(BinInstr { result, lhs, rhs }),
    {
        Self::F64Ne(BinInstr::new(result, lhs, rhs))
    }

    /// Creates a new [`Instruction::F64NeImm`].
    pub fn f64_ne_imm(result: Register, lhs: Register) -> (r: Self)
        ensures
            r == Instruction::F64NeImm(UnaryInstr { result, input: lhs }),
    {
        Self::F64NeImm(UnaryInstr::new(result, lhs))
    }

    /// Creates a new [`Instruction::F64Lt`].
    pub fn f64_lt(result: Register, lhs: Register, rhs: Register) -> (r: Self)
        ensures
            r == Instruction::F64Lt(BinInstr { result, lhs, rhs }),
    {
        Self::F64Lt(BinInstr::new(result, lhs, rhs))
    }

    /// Creates a new [`Instruction::F64LtImm`].
    pub fn f64_lt_imm(result: Register, lhs: Register) -> (r: Self)
        ensures
            r == Instruction::F64LtImm(UnaryInstr { result, input: lhs }),
    {
        Self::F64LtImm(UnaryInstr::new(result, lhs))
    }

    /// Creates a new [`Instruction::F64Le`].
    pub fn f64_le(result: Register, lhs: Register, rhs: Register) -> (r: Self)
        ensures
            r == Instruction::F64Le(BinInstr { result, lhs, rhs }),
    {
        Self::F64Le(BinInstr::new(result, lhs, rhs))
    }

    /// Creates a new [`Instruction::F64LeImm`].
    pub fn f64_le_imm(result: Register, lhs: Register) -> (r: Self)
        ensures
            r == Instruction::F64LeImm(UnaryInstr { result, input: lhs }),
    {
        Self::F64LeImm(UnaryInstr::new(result, lhs))
    }

    /// Creates a new [`Instruction::F64Gt`].
    pub fn f64_gt(result: Register, lhs: Register, rhs: Register) -> (r: Self)
        ensures
            r == Instruction::F64Gt(BinInstr { result, lhs, rhs }),
    {
        Self::F64Gt(BinInstr::new(result, lhs, rhs))
    }

    /// Creates a new [`Instruction::F64GtImm`].
    pub fn f64_gt_imm(result: Register, lhs: Register) -> (r: Self)
        ensures
            r == Instruction::F64GtImm(UnaryInstr { result, input: lhs }),
    {
        Self::F64GtImm(UnaryInstr::new(result, lhs))
    }

    /// Creates a new [`Instruction::F64Ge`].
    pub fn f64_ge(result: Register, lhs: Register, rhs: Register) -> (r: Self)
        ensures
            r == Instruction::F64Ge(BinInstr { result, lhs, rhs }),
    {
        Self::F64Ge(BinInstr::new(result, lhs, rhs))
    }

    /// Creates a new [`Instruction::F64GeImm`].
    pub fn f64_ge_imm(result: Register, lhs: Register) -> (r: Self)
        ensures
            r == Instruction::F64GeImm(UnaryInstr { result, input: lhs }),
    {
        Self::F64GeImm(UnaryInstr::new(result, lhs))
    }

    /// Creates a new [`Instruction::F64Add`].
    pub fn f64_add(result: Register, lhs: Register, rhs: Register) -> (r: Self)
        ensures
            r == Instruction::F64Add(BinInstr { result, lhs, rhs }),
    {
        Self::F64Add(BinInstr::new(result, lhs, rhs))
    }

    /// Creates a new [`Instruction::F64AddImm`].
    pub fn f64_add_imm(result: Register, lhs: Register) -> (r: Self)
        ensures
            r == Instruction::F64AddImm(UnaryInstr { result, input: lhs }),
    {
        Self::F64AddImm(UnaryInstr::new(result, lhs))
    }

    /// Creates a new [`Instruction::F64Mul`].
    pub fn f64_mul(result: Register, lhs: Register, rhs: Register) -> (r: Self)
        ensures
            r == Instruction::F64Mul(BinInstr { result, lhs, rhs }),
    {
        Self::F64Mul(BinInstr::new(result, lhs, rhs))
    }

    /// Creates a new [`Instruction::F64MulImm`].
    pub fn f64_mul_imm(result: Register, lhs: Register) -> (r: Self)
        ensures
            r == Instruction::F64MulImm(UnaryInstr { result, input: lhs }),
    {
        Self::F64MulImm(UnaryInstr::new(result, lhs))
    }

    /// Creates a new [`Instruction::F64Min`].
    pub fn f64_min(result: Register, lhs: Register, rhs: Register) -> (r: Self)
        ensures
            r == Instruction::F64Min(BinInstr { result, lhs, rhs }),
    {
        Self::F64Min(BinInstr::new(result, lhs, rhs))
    }

    /// Creates a new [`Instruction::F64MinImm`].
    pub fn f64_min_imm(result: Register, lhs: Register) -> (r: Self)
        ensures
            r == Instruction::F64MinImm(UnaryInstr { result, input: lhs }),
    {
        Self::F64MinImm(UnaryInstr::new(result, lhs))
    }

    /// Creates a new [`Instruction::F64Max`].
    pub fn f64_max(result: Register, lhs: Register, rhs: Register) -> (r: Self)
        ensures
            r == Instruction::F64Max(BinInstr { result, lhs, rhs }),
    {
        Self::F64Max(BinInstr::new(result, lhs, rhs))
    }

    /// Creates a new [`Instruction::F64MaxImm`].
    pub fn f64_max_imm(result: Register, lhs: Register) -> (r: Self)
        ensures
            r == Instruction::F64MaxImm(UnaryInstr { result, input: lhs }),
    {
        Self::F64MaxImm(UnaryInstr::new(result, lhs))
    }

    /// Creates a new [`Instruction::F64Sub`].
    pub fn f64_sub(result: Register, lhs: Register, rhs: Register) -> (r: Self)
        ensures
            r == Instruction::F64Sub(BinInstr { result, lhs, rhs }),
    {
        Self::F64Sub(BinInstr::new(result, lhs, rhs))
    }

    /// Creates a new [`Instruction::F64SubImm`].
    pub fn f64_sub_imm(result: Register, lhs: Register) -> (r: Self)
        ensures
            r == Instruction::F64SubImm(UnaryInstr { result, input: lhs }),
    {
        Self::F64SubImm(UnaryInstr::new(result, lhs))
    }

    /// Creates a new [`Instruction::F64SubImmRev`].
    pub fn f64_sub_imm_rev(result: Register, rhs: Register) -> (r: Self)
        ensures
            r == Instruction::F64SubImmRev(UnaryInstr { result, input: rhs }),
    {
        Self::F64SubImmRev(UnaryInstr::new(result, rhs))
    }

    /// Creates a new [`Instruction::F64Div`].
    pub fn f64_div(result: Register, lhs: Register, rhs: Register) -> (r: Self)
        ensures
            r == Instruction::F64Div(BinInstr { result, lhs, rhs }),
    {
        Self::F64Div(BinInstr::new(result, lhs, rhs))
    }

    /// Creates a new [`Instruction::F64DivImm`].
    pub fn f64_div_imm(result: Register, lhs: Register) -> (r: Self)
        ensures
            r == Instruction::F64DivImm(UnaryInstr { result, input: lhs }),
    {
        Self::F64DivImm(UnaryInstr::new(result, lhs))
    }

    /// Creates a new [`Instruction::F64DivImmRev`].
    pub fn f64_div_imm_rev(result: Register, rhs: Register) -> (r: Self)
        ensures
            r == Instruction::F64DivImmRev(UnaryInstr { result, input: rhs }),
    {
        Self::F64DivImmRev(UnaryInstr::new(result, rhs))
    }

    /// Creates a new [`Instruction::F64Copysign`].
    pub fn f64_copysign(result: Register, lhs: Register, rhs: Register) -> (r: Self)
        ensures
            r == Instruction::F64Copysign(BinInstr { result, lhs, rhs }),
    {
        Self::F64Copysign(BinInstr::new(result, lhs, rhs))
    }

    /// Creates a new [`Instruction::F64CopysignImm`].
    pub fn f64_copysign_imm(result: Register, lhs: Register, rhs: Sign) -> (r: Self)
        ensures
            r == Instruction::F64CopysignImm(CopysignImmInstr { result, lhs, rhs }),
    {
        Self::F64CopysignImm(CopysignImmInstr { result, lhs, rhs })
    }
}

} // verus!
