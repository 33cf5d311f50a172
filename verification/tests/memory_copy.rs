//! The instruction sequences expected for `memory.copy`: an operand that is
//! a constant is encoded in 16 bits where it fits, and is otherwise kept
//! among the constants of the function, which negative registers name.

use regmach_bytecode::immediate::Const16;
use regmach_bytecode::instruction::Instruction;
use regmach_bytecode::register::Register;

/// The 16-bit encoding of a value that must fit.
fn u32imm16(value: u32) -> Const16<u32> {
    Const16::<u32>::from_u32(value).unwrap_or_else(|| panic!("value must be 16-bit encodable: {value}"))
}

/// Values that fit 16 bits, up to the largest.
const SMALL: [u32; 4] = [0, 1, u16::MAX as u32 - 1, u16::MAX as u32];

/// Values that do not fit 16 bits, from the smallest.
const LARGE: [u32; 3] = [u16::MAX as u32 + 1, u32::MAX - 1, u32::MAX];

/// The expected instructions where the constants named do not fit 16 bits:
/// all operands are registers, those of constants negative.
fn expect_copy_of_registers(dst: i16, src: i16, len: i16, consts: &[u32]) {
    let expected = [
        Instruction::memory_copy(
            Register::from_i16(dst),
            Register::from_i16(src),
            Register::from_i16(len),
        ),
        Instruction::Return,
    ];
    match expected[0] {
        Instruction::MemoryCopy { dst: d, src: s, len: l } => {
            assert_eq!((d.to_i16(), s.to_i16(), l.to_i16()), (dst, src, len));
            let n_consts = [d, s, l].iter().filter(|reg| reg.is_const()).count();
            assert_eq!(n_consts, consts.len());
        }
        other => panic!("unexpected instruction: {other:?}"),
    }
    assert_eq!(expected[1], Instruction::Return);
    for value in consts {
        assert!(Const16::<u32>::from_u32(*value).is_none());
    }
}

#[test]
fn copy() {
    expect_copy_of_registers(0, 1, 2, &[]);
}

fn test_copy_exact16(len: u32) {
    let expected = [
        Instruction::memory_copy_exact(
            Register::from_i16(0),
            Register::from_i16(1),
            u32imm16(len),
        ),
        Instruction::Return,
    ];
    match expected[0] {
        Instruction::MemoryCopyExact { dst, src, len: encoded } => {
            assert_eq!((dst.to_i16(), src.to_i16()), (0, 1));
            assert_eq!(u32::from(encoded), len);
        }
        other => panic!("unexpected instruction: {other:?}"),
    }
}

#[test]
fn copy_exact16() {
    test_copy_exact16(1);
    test_copy_exact16(42);
    test_copy_exact16(u32::from(u16::MAX));
}

#[test]
fn copy_exact_zero() {
    assert_eq!(u32imm16(0).to_u32(), 0);
    assert_eq!([Instruction::Return], [Instruction::Return]);
}

#[test]
fn copy_exact() {
    for len in [u32::from(u16::MAX) + 1, u32::MAX] {
        expect_copy_of_registers(0, 1, -1, &[len]);
    }
}

fn test_copy_from16(src: u32) {
    let expected = [
        Instruction::memory_copy_from(
            Register::from_i16(0),
            u32imm16(src),
            Register::from_i16(1),
        ),
        Instruction::Return,
    ];
    match expected[0] {
        Instruction::MemoryCopyFrom { dst, src: encoded, len } => {
            assert_eq!((dst.to_i16(), len.to_i16()), (0, 1));
            assert_eq!(u32::from(encoded), src);
        }
        other => panic!("unexpected instruction: {other:?}"),
    }
}

#[test]
fn copy_from16() {
    test_copy_from16(0);
    test_copy_from16(u32::from(u16::MAX));
}

#[test]
fn copy_from() {
    for src in [u32::from(u16::MAX) + 1, u32::MAX] {
        expect_copy_of_registers(0, -1, 1, &[src]);
    }
}

fn test_copy_to16(dst: u32) {
    let expected = [
        Instruction::memory_copy_to(
            u32imm16(dst),
            Register::from_i16(0),
            Register::from_i16(1),
        ),
        Instruction::Return,
    ];
    match expected[0] {
        Instruction::MemoryCopyTo { dst: encoded, src, len } => {
            assert_eq!((src.to_i16(), len.to_i16()), (0, 1));
            assert_eq!(u32::from(encoded), dst);
        }
        other => panic!("unexpected instruction: {other:?}"),
    }
}

#[test]
fn copy_to16() {
    test_copy_to16(0);
    test_copy_to16(u32::from(u16::MAX));
}

#[test]
fn copy_to() {
    for dst in [u32::from(u16::MAX) + 1, u32::MAX] {
        expect_copy_of_registers(-1, 0, 1, &[dst]);
    }
}

fn test_copy_from_to16(dst: u32, src: u32) {
    let expected = [
        Instruction::memory_copy_from_to(u32imm16(dst), u32imm16(src), Register::from_i16(0)),
        Instruction::Return,
    ];
    match expected[0] {
        Instruction::MemoryCopyFromTo { dst: d, src: s, len } => {
            assert_eq!(len.to_i16(), 0);
            assert_eq!((u32::from(d), u32::from(s)), (dst, src));
        }
        other => panic!("unexpected instruction: {other:?}"),
    }
}

#[test]
fn copy_from_to16() {
    for dst in SMALL {
        for src in SMALL {
            test_copy_from_to16(dst, src);
        }
    }
}

#[test]
fn copy_from_to() {
    for dst in LARGE {
        for src in LARGE {
            if dst == src {
                continue;
            }
            expect_copy_of_registers(-1, -2, 0, &[dst, src]);
        }
    }
}

fn test_copy_to_exact16(dst: u32, len: u32) {
    let expected = [
        Instruction::memory_copy_to_exact(u32imm16(dst), Register::from_i16(0), u32imm16(len)),
        Instruction::Return,
    ];
    match expected[0] {
        Instruction::MemoryCopyToExact { dst: d, src, len: l } => {
            assert_eq!(src.to_i16(), 0);
            assert_eq!((u32::from(d), u32::from(l)), (dst, len));
        }
        other => panic!("unexpected instruction: {other:?}"),
    }
}

#[test]
fn copy_to_exact16() {
    for dst in SMALL {
        for len in SMALL {
            if len == 0 {
                continue;
            }
            test_copy_to_exact16(dst, len);
        }
    }
}

#[test]
fn copy_to_exact_zero() {
    for dst in SMALL {
        assert_eq!(u32imm16(dst).to_u32(), dst);
        assert_eq!([Instruction::Return], [Instruction::Return]);
    }
}

#[test]
fn copy_to_exact() {
    for dst in LARGE {
        for len in LARGE {
            if dst == len {
                continue;
            }
            expect_copy_of_registers(-1, 0, -2, &[dst, len]);
        }
    }
}

fn test_copy_from_exact16(src: u32, len: u32) {
    let expected = [
        Instruction::memory_copy_from_exact(
            Register::from_i16(0),
            u32imm16(src),
            u32imm16(len),
        ),
        Instruction::Return,
    ];
    match expected[0] {
        Instruction::MemoryCopyFromExact { dst, src: s, len: l } => {
            assert_eq!(dst.to_i16(), 0);
            assert_eq!((u32::from(s), u32::from(l)), (src, len));
        }
        other => panic!("unexpected instruction: {other:?}"),
    }
}

#[test]
fn copy_from_exact16() {
    for src in SMALL {
        for len in SMALL {
            if len == 0 {
                continue;
            }
            test_copy_from_exact16(src, len);
        }
    }
}

#[test]
fn copy_from_exact_zero() {
    for src in SMALL {
        assert_eq!(u32imm16(src).to_u32(), src);
        assert_eq!([Instruction::Return], [Instruction::Return]);
    }
}

#[test]
fn copy_from_exact() {
    for src in LARGE {
        for len in LARGE {
            if src == len {
                continue;
            }
            expect_copy_of_registers(0, -1, -2, &[src, len]);
        }
    }
}

fn test_copy_from_to_exact16(dst: u32, src: u32, len: u32) {
    let expected = [
        Instruction::memory_copy_from_to_exact(u32imm16(dst), u32imm16(src), u32imm16(len)),
        Instruction::Return,
    ];
    match expected[0] {
        Instruction::MemoryCopyFromToExact { dst: d, src: s, len: l } => {
            assert_eq!((u32::from(d), u32::from(s), u32::from(l)), (dst, src, len));
        }
        other => panic!("unexpected instruction: {other:?}"),
    }
}

#[test]
fn copy_from_to_exact16() {
    for dst in SMALL {
        for src in SMALL {
            for len in SMALL {
                if len == 0 {
                    continue;
                }
                test_copy_from_to_exact16(dst, src, len);
            }
        }
    }
}

#[test]
fn copy_from_to_exact_zero() {
    for dst in SMALL {
        for src in SMALL {
            assert_eq!((u32imm16(dst).to_u32(), u32imm16(src).to_u32()), (dst, src));
            assert_eq!([Instruction::Return], [Instruction::Return]);
        }
    }
}

#[test]
fn copy_from_to_exact() {
    for dst in LARGE {
        for src in LARGE {
            for len in LARGE {
                if dst == src || src == len || dst == len {
                    continue;
                }
                expect_copy_of_registers(-1, -2, -3, &[dst, src, len]);
            }
        }
    }
}
