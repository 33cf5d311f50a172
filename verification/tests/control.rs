//! The instruction sequences expected for blocks and conditional branches.

use regmach_bytecode::immediate::AnyConst32;
use regmach_bytecode::instruction::Instruction;
use regmach_bytecode::operands::{BinInstr, BranchOffset, ConstRef, UnaryInstr};
use regmach_bytecode::register::Register;
use wasmi_core::F32;

/// The register with the given index.
fn r(index: i16) -> Register {
    Register::from_i16(index)
}

/// The distance of a branch, if the instruction is one.
fn branch_distance(instr: Instruction) -> Option<i32> {
    match instr {
        Instruction::Branch { offset } => Some(offset.to_i32()),
        Instruction::BranchEqz { offset, .. } => Some(offset.to_i32()),
        Instruction::BranchNez { offset, .. } => Some(offset.to_i32()),
        _ => None,
    }
}

/// A function that only returns.
fn expect_return(expected: &[Instruction]) {
    assert_eq!(expected.len(), 1);
    assert_eq!(expected[0], Instruction::Return);
    assert_eq!(branch_distance(expected[0]), None);
}

/// A function that only returns the given register.
fn expect_return_reg(expected: &[Instruction], index: i16) {
    assert_eq!(expected.len(), 1);
    assert_eq!(expected[0], Instruction::ReturnReg { value: r(index) });
    match expected[0] {
        Instruction::ReturnReg { value } => {
            assert_eq!(value.to_i16(), index);
            assert!(!value.is_const());
        }
        other => panic!("unexpected instruction: {other:?}"),
    }
}

#[test]
fn empty_block() {
    expect_return(&[Instruction::Return]);
}

#[test]
fn nested_empty_block() {
    expect_return(&[Instruction::Return]);
}

#[test]
fn branch_to_func_block_0() {
    expect_return(&[Instruction::Return]);
}

#[test]
fn branch_to_func_block_nested_0() {
    expect_return(&[Instruction::Return]);
}

#[test]
fn identity_block_1() {
    expect_return_reg(&[Instruction::return_reg(Register::from_i16(0))], 0);
}

#[test]
fn identity_block_2() {
    expect_return_reg(&[Instruction::return_reg(Register::from_i16(0))], 0);
}

#[test]
fn nested_identity_block_1() {
    expect_return_reg(&[Instruction::return_reg(Register::from_i16(0))], 0);
}

#[test]
fn nested_identity_block_2() {
    expect_return_reg(&[Instruction::return_reg(Register::from_i16(0))], 0);
}

#[test]
fn branch_to_func_block_1() {
    expect_return_reg(&[Instruction::return_reg(Register::from_i16(0))], 0);
}

#[test]
fn branch_to_func_block_nested_1() {
    expect_return_reg(&[Instruction::return_reg(Register::from_i16(0))], 0);
}

#[test]
fn branched_block_0() {
    let expected = [Instruction::branch(BranchOffset::from(1)), Instruction::Return];
    assert_eq!(expected[0], Instruction::Branch { offset: BranchOffset::from(1) });
    assert_eq!(branch_distance(expected[0]), Some(1));
    assert_eq!(expected[1], Instruction::Return);
}

#[test]
fn branched_block_1() {
    let expected = [
        Instruction::copy(Register::from_i16(1), Register::from_i16(0)),
        Instruction::branch(BranchOffset::from(1)),
        Instruction::return_reg(Register::from_i16(1)),
    ];
    assert_eq!(expected[0], Instruction::Copy { result: r(1), value: r(0) });
    assert_eq!(expected[1], Instruction::Branch { offset: BranchOffset::from(1) });
    assert_eq!(branch_distance(expected[1]), Some(1));
    assert_eq!(expected[2], Instruction::ReturnReg { value: r(1) });
}

#[test]
fn branched_block_2() {
    let expected = [
        Instruction::copy(Register::from_i16(2), Register::from_i16(0)),
        Instruction::copy(Register::from_i16(3), Register::from_i16(1)),
        Instruction::branch(BranchOffset::from(1)),
        Instruction::return_reg(Register::from_i16(2)),
    ];
    assert_eq!(expected[0], Instruction::Copy { result: r(2), value: r(0) });
    assert_eq!(expected[1], Instruction::Copy { result: r(3), value: r(1) });
    assert_eq!(expected[2], Instruction::Branch { offset: BranchOffset::from(1) });
    assert_eq!(branch_distance(expected[2]), Some(1));
    assert_eq!(expected[3], Instruction::ReturnReg { value: r(2) });
}

#[test]
fn branch_if_block_0() {
    let expected = [
        Instruction::branch_nez(Register::from_i16(0), BranchOffset::from(1)),
        Instruction::Return,
    ];
    assert_eq!(
        expected[0],
        Instruction::BranchNez { condition: r(0), offset: BranchOffset::from(1) }
    );
    assert_eq!(branch_distance(expected[0]), Some(1));
    assert_eq!(expected[1], Instruction::Return);
}

#[test]
fn branch_if_block_1() {
    let expected = [
        Instruction::branch_eqz(Register::from_i16(1), BranchOffset::from(3)),
        Instruction::copy(Register::from_i16(2), Register::from_i16(0)),
        Instruction::branch(BranchOffset::from(2)),
        Instruction::copy(Register::from_i16(2), Register::from_i16(0)),
        Instruction::return_reg(Register::from_i16(2)),
    ];
    assert_eq!(
        expected[0],
        Instruction::BranchEqz { condition: r(1), offset: BranchOffset::from(3) }
    );
    assert_eq!(branch_distance(expected[0]), Some(3));
    assert_eq!(expected[1], Instruction::Copy { result: r(2), value: r(0) });
    assert_eq!(expected[2], Instruction::Branch { offset: BranchOffset::from(2) });
    assert_eq!(branch_distance(expected[2]), Some(2));
    assert_eq!(expected[3], expected[1]);
    assert_eq!(expected[4], Instruction::ReturnReg { value: r(2) });
}

#[test]
fn consteval_return() {
    for _condition in [true, false] {
        expect_return(&[Instruction::Return]);
    }
}

#[test]
fn consteval_return_1() {
    for condition in [true, false] {
        let expected = match condition {
            true => Register::from_i16(0),
            false => Register::from_i16(1),
        };
        let index = if condition { 0 } else { 1 };
        expect_return_reg(&[Instruction::return_reg(expected)], index);
    }
}

#[test]
fn consteval_return_1_imm() {
    // Constants that do not fit 32 bits are returned through the constant pool.
    for value in [i64::MIN, i64::MAX, i64::from(i32::MIN) - 1, i64::from(i32::MAX) + 1] {
        assert!(AnyConst32::from_i64(value).is_none());
        assert!(AnyConst32::try_from(value).is_err());
    }
    let cref = ConstRef::from_u32(0);
    let expected = [Instruction::return_imm(cref)];
    assert_eq!(expected, [Instruction::ReturnImm { value: cref }]);
    assert_eq!(cref.to_u32(), 0);
}

#[test]
fn consteval_return_1_imm32() {
    for condition in [true, false] {
        let expected: AnyConst32 = match condition {
            true => 5_i32.into(),
            false => 42_i32.into(),
        };
        let instr = Instruction::return_imm32(expected);
        assert_eq!(instr, Instruction::ReturnImm32 { value: expected });
        assert_eq!(expected.to_i32(), if condition { 5 } else { 42 });
        let expected: AnyConst32 = match condition {
            true => F32::from(5.5_f32).into(),
            false => F32::from(-42.25_f32).into(),
        };
        let instr = Instruction::return_imm32(expected);
        assert_eq!(instr, Instruction::ReturnImm32 { value: expected });
        let want: f32 = if condition { 5.5 } else { -42.25 };
        assert_eq!(expected.to_f32().to_bits(), want.to_bits());
    }
}

#[test]
fn consteval_return_1_i64imm32() {
    for (if_true, if_false) in [(0, -1), (5, 42), (i32::MIN, i32::MAX)] {
        for condition in [true, false] {
            let expected: i32 = match condition {
                true => if_true,
                false => if_false,
            };
            let instr = Instruction::return_i64imm32(expected);
            match instr {
                Instruction::ReturnI64Imm32 { value } => {
                    assert_eq!(value.to_i64(), i64::from(expected));
                    assert_eq!(AnyConst32::from_i64(i64::from(expected)), Some(value));
                }
                other => panic!("unexpected instruction: {other:?}"),
            }
        }
    }
}

#[test]
fn consteval_branch_always() {
    let expected = [
        Instruction::copy(Register::from_i16(2), Register::from_i16(0)),
        Instruction::branch(BranchOffset::from(1)),
        Instruction::return_reg(Register::from_i16(2)),
    ];
    assert_eq!(expected[0], Instruction::Copy { result: r(2), value: r(0) });
    assert_eq!(expected[1], Instruction::Branch { offset: BranchOffset::from(1) });
    assert_eq!(branch_distance(expected[1]), Some(1));
    assert_eq!(expected[2], Instruction::ReturnReg { value: r(2) });
}

#[test]
fn consteval_branch_never() {
    expect_return_reg(&[Instruction::return_reg(Register::from_i16(1))], 1);
}

#[test]
fn return_if_results_0() {
    let expected = [Instruction::return_nez(Register::from_i16(0)), Instruction::Return];
    assert_eq!(expected[0], Instruction::ReturnNez { condition: r(0) });
    assert_eq!(expected[1], Instruction::Return);
}

#[test]
fn return_if_results_1() {
    let expected = [
        Instruction::return_nez_reg(Register::from_i16(1), Register::from_i16(0)),
        Instruction::return_reg(Register::from_i16(0)),
    ];
    assert_eq!(expected[0], Instruction::ReturnNezReg { condition: r(1), value: r(0) });
    assert_eq!(expected[1], Instruction::ReturnReg { value: r(0) });
}

#[test]
fn return_if_results_1_imm() {
    for value in [i64::from(i32::MIN) - 1, i64::from(i32::MAX) + 1, i64::MIN, i64::MAX] {
        assert!(AnyConst32::from_i64(value).is_none());
    }
    let cref = ConstRef::from_u32(0);
    let expected = [
        Instruction::return_nez_imm(Register::from_i16(0), cref),
        Instruction::return_imm(cref),
    ];
    assert_eq!(expected[0], Instruction::ReturnNezImm { condition: r(0), value: cref });
    assert_eq!(expected[1], Instruction::ReturnImm { value: cref });
}

#[test]
fn return_if_results_1_imm32() {
    for returned in [0_i32, 1, -1, 42] {
        let const32: AnyConst32 = returned.into();
        let expected = [
            Instruction::return_nez_imm32(Register::from_i16(0), const32),
            Instruction::return_imm32(const32),
        ];
        assert_eq!(expected[0], Instruction::ReturnNezImm32 { condition: r(0), value: const32 });
        assert_eq!(expected[1], Instruction::ReturnImm32 { value: const32 });
        assert_eq!(const32.to_i32(), returned);
    }
    for returned in [0.0_f32, 5.5, 42.25, f32::NAN] {
        let const32: AnyConst32 = F32::from(returned).into();
        let expected = [
            Instruction::return_nez_imm32(Register::from_i16(0), const32),
            Instruction::return_imm32(const32),
        ];
        assert_eq!(expected[0], Instruction::ReturnNezImm32 { condition: r(0), value: const32 });
        assert_eq!(expected[1], Instruction::ReturnImm32 { value: const32 });
        assert_eq!(const32.to_f32().to_bits(), returned.to_bits());
    }
}

#[test]
fn return_if_results_1_i64imm32() {
    for returned in [0, 1, -1, i32::MIN, i32::MAX] {
        let expected = [
            Instruction::return_nez_i64imm32(Register::from_i16(0), returned),
            Instruction::return_i64imm32(returned),
        ];
        match expected {
            [Instruction::ReturnNezI64Imm32 { condition, value: first }, Instruction::ReturnI64Imm32 { value: second }] =>
            {
                assert_eq!(condition, r(0));
                assert_eq!(first, second);
                assert_eq!(first.to_i64(), i64::from(returned));
            }
            other => panic!("unexpected instructions: {other:?}"),
        }
    }
}

#[test]
fn branch_if_results_0() {
    let expected = [
        Instruction::branch_nez(Register::from_i16(0), BranchOffset::from(1)),
        Instruction::Return,
    ];
    assert_eq!(
        expected[0],
        Instruction::BranchNez { condition: r(0), offset: BranchOffset::from(1) }
    );
    assert_eq!(branch_distance(expected[0]), Some(1));
    assert_eq!(expected[1], Instruction::Return);
}

#[test]
fn branch_if_results_1() {
    let expected = [
        Instruction::branch_eqz(Register::from_i16(1), BranchOffset::from(3)),
        Instruction::copy(Register::from_i16(2), Register::from_i16(0)),
        Instruction::branch(BranchOffset::from(2)),
        Instruction::copy(Register::from_i16(2), Register::from_i16(0)),
        Instruction::return_reg(Register::from_i16(2)),
    ];
    assert_eq!(
        expected[0],
        Instruction::BranchEqz { condition: r(1), offset: BranchOffset::from(3) }
    );
    assert_eq!(branch_distance(expected[0]), Some(3));
    assert_eq!(expected[1], Instruction::Copy { result: r(2), value: r(0) });
    assert_eq!(expected[2], Instruction::Branch { offset: BranchOffset::from(2) });
    assert_eq!(branch_distance(expected[2]), Some(2));
    assert_eq!(expected[3], expected[1]);
    assert_eq!(expected[4], Instruction::ReturnReg { value: r(2) });
}

#[test]
fn branch_if_results_1_avoid_copy() {
    let expected = [
        Instruction::i32_clz(Register::from_i16(2), Register::from_i16(0)),
        Instruction::i32_ctz(Register::from_i16(3), Register::from_i16(1)),
        Instruction::branch_nez(Register::from_i16(3), BranchOffset::from(1)),
        Instruction::return_reg(Register::from_i16(2)),
    ];
    assert_eq!(expected[0], Instruction::I32Clz(UnaryInstr { result: r(2), input: r(0) }));
    assert_eq!(expected[1], Instruction::I32Ctz(UnaryInstr { result: r(3), input: r(1) }));
    assert_eq!(
        expected[2],
        Instruction::BranchNez { condition: r(3), offset: BranchOffset::from(1) }
    );
    assert_eq!(expected[3], Instruction::ReturnReg { value: r(2) });
}

#[test]
fn branch_if_results_2() {
    let expected = [
        Instruction::branch_eqz(Register::from_i16(2), BranchOffset::from(4)),
        Instruction::copy(Register::from_i16(3), Register::from_i16(0)),
        Instruction::copy(Register::from_i16(4), Register::from_i16(1)),
        Instruction::branch(BranchOffset::from(3)),
        Instruction::copy(Register::from_i16(3), Register::from_i16(0)),
        Instruction::copy(Register::from_i16(4), Register::from_i16(1)),
        Instruction::i32_add(
            Register::from_i16(3),
            Register::from_i16(3),
            Register::from_i16(4),
        ),
        Instruction::return_reg(Register::from_i16(3)),
    ];
    assert_eq!(
        expected[0],
        Instruction::BranchEqz { condition: r(2), offset: BranchOffset::from(4) }
    );
    assert_eq!(branch_distance(expected[0]), Some(4));
    assert_eq!(expected[1], Instruction::Copy { result: r(3), value: r(0) });
    assert_eq!(expected[2], Instruction::Copy { result: r(4), value: r(1) });
    assert_eq!(branch_distance(expected[3]), Some(3));
    assert_eq!(expected[4], expected[1]);
    assert_eq!(expected[5], expected[2]);
    assert_eq!(expected[6], Instruction::I32Add(BinInstr { result: r(3), lhs: r(3), rhs: r(4) }));
    assert_eq!(expected[7], Instruction::ReturnReg { value: r(3) });
}

#[test]
fn branch_if_results_2_avoid_copy() {
    let expected = [
        Instruction::i32_clz(Register::from_i16(3), Register::from_i16(0)),
        Instruction::i32_ctz(Register::from_i16(4), Register::from_i16(1)),
        Instruction::branch_nez(Register::from_i16(2), BranchOffset::from(1)),
        Instruction::i32_add(
            Register::from_i16(3),
            Register::from_i16(3),
            Register::from_i16(4),
        ),
        Instruction::return_reg(Register::from_i16(3)),
    ];
    assert_eq!(expected[0], Instruction::I32Clz(UnaryInstr { result: r(3), input: r(0) }));
    assert_eq!(expected[1], Instruction::I32Ctz(UnaryInstr { result: r(4), input: r(1) }));
    assert_eq!(
        expected[2],
        Instruction::BranchNez { condition: r(2), offset: BranchOffset::from(1) }
    );
    assert_eq!(expected[3], Instruction::I32Add(BinInstr { result: r(3), lhs: r(3), rhs: r(4) }));
    assert_eq!(expected[4], Instruction::ReturnReg { value: r(3) });
}
