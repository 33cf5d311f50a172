//! The compact constant encodings: what fits, what does not, and that what
//! is decoded is what was encoded.

use regmach_bytecode::immediate::{
    AnyConst16, AnyConst32, Const16, Const32, OutOfBoundsConst16, OutOfBoundsConst32,
};
use regmach_bytecode::instruction::Instruction;
use regmach_bytecode::operands::BinInstrImm16;
use regmach_bytecode::register::Register;
use wasmi_core::F32;

#[test]
fn const16_signed_round_trips_over_the_whole_range() {
    for v in i16::MIN..=i16::MAX {
        let as_i32 = i32::from(v);
        let as_i64 = i64::from(v);
        assert_eq!(AnyConst16::from_i32(as_i32).unwrap().to_i32(), as_i32);
        assert_eq!(AnyConst16::from_i64(as_i64).unwrap().to_i64(), as_i64);
        assert_eq!(AnyConst16::from_i16(v).to_i32(), as_i32);
        assert_eq!(AnyConst16::from(v).to_i64(), as_i64);
        assert_eq!(Const16::<i32>::from_i32(as_i32).unwrap().to_i32(), as_i32);
        assert_eq!(Const16::<i64>::from_i64(as_i64).unwrap().to_i64(), as_i64);
        assert_eq!(i32::from(Const16::<i32>::from(v)), as_i32);
        assert_eq!(i64::from(Const16::<i64>::from(v)), as_i64);
    }
}

#[test]
fn const16_unsigned_round_trips_over_the_whole_range() {
    for v in u16::MIN..=u16::MAX {
        let as_u32 = u32::from(v);
        let as_u64 = u64::from(v);
        assert_eq!(AnyConst16::from_u32(as_u32).unwrap().to_u32(), as_u32);
        assert_eq!(AnyConst16::from_u64(as_u64).unwrap().to_u64(), as_u64);
        assert_eq!(AnyConst16::from_u16(v).to_u32(), as_u32);
        assert_eq!(AnyConst16::from(v).to_u64(), as_u64);
        assert_eq!(Const16::<u32>::from_u32(as_u32).unwrap().to_u32(), as_u32);
        assert_eq!(Const16::<u64>::from_u64(as_u64).unwrap().to_u64(), as_u64);
        assert_eq!(u32::from(Const16::<u32>::from(v)), as_u32);
        assert_eq!(u64::from(Const16::<u64>::from(v)), as_u64);
    }
}

#[test]
fn const16_decodes_by_the_extension_asked_for() {
    let minus_one = AnyConst16::from_i16(-1);
    assert_eq!(minus_one.to_i32(), -1);
    assert_eq!(minus_one.to_i64(), -1);
    assert_eq!(minus_one.to_u32(), 0xffff);
    assert_eq!(minus_one.to_u64(), 0xffff);
    let high = AnyConst16::from_u16(0x8000);
    assert_eq!(high.to_i32(), -0x8000);
    assert_eq!(high.to_u32(), 0x8000);
    assert_eq!(high, AnyConst16::from_i16(i16::MIN));
    assert_eq!(AnyConst16::from_u32(0xffff), Some(minus_one));
}

#[test]
fn const16_rejects_what_does_not_fit() {
    for v in [i32::from(i16::MAX) + 1, i32::from(i16::MIN) - 1, 40_000, i32::MAX, i32::MIN] {
        assert_eq!(AnyConst16::from_i32(v), None);
        assert_eq!(Const16::<i32>::from_i32(v), None);
        assert_eq!(AnyConst16::from_i64(i64::from(v)), None);
        assert_eq!(Const16::<i64>::from_i64(i64::from(v)), None);
    }
    for v in [i64::MAX, i64::MIN, 0x1_0000_0000] {
        assert_eq!(AnyConst16::from_i64(v), None);
        assert_eq!(Const16::<i64>::from_i64(v), None);
    }
    for v in [u32::from(u16::MAX) + 1, 70_000, u32::MAX] {
        assert_eq!(AnyConst16::from_u32(v), None);
        assert_eq!(Const16::<u32>::from_u32(v), None);
        assert_eq!(AnyConst16::from_u64(u64::from(v)), None);
        assert_eq!(Const16::<u64>::from_u64(u64::from(v)), None);
    }
    assert_eq!(AnyConst16::from_u64(u64::MAX), None);
    assert_eq!(AnyConst16::from_i32(i32::from(i16::MAX)).map(AnyConst16::to_i32), Some(32_767));
    assert_eq!(AnyConst16::from_i32(i32::from(i16::MIN)).map(AnyConst16::to_i32), Some(-32_768));
    assert_eq!(AnyConst16::from_u32(u32::from(u16::MAX)).map(AnyConst16::to_u32), Some(65_535));
}

#[test]
fn const16_try_from_reports_out_of_bounds() {
    assert!(matches!(AnyConst16::try_from(40_000_i32), Err(OutOfBoundsConst16)));
    assert!(matches!(AnyConst16::try_from(-40_000_i64), Err(OutOfBoundsConst16)));
    assert!(matches!(AnyConst16::try_from(65_536_u32), Err(OutOfBoundsConst16)));
    assert!(matches!(AnyConst16::try_from(65_536_u64), Err(OutOfBoundsConst16)));
    assert_eq!(AnyConst16::try_from(-5_i32).unwrap().to_i32(), -5);
    assert_eq!(AnyConst16::try_from(-5_i64).unwrap().to_i64(), -5);
    assert_eq!(AnyConst16::try_from(65_535_u32).unwrap().to_u32(), 65_535);
    assert_eq!(AnyConst16::try_from(65_535_u64).unwrap().to_u64(), 65_535);
}

#[test]
fn const16_typed_values_compare_by_their_cell() {
    let a = Const16::<i32>::new(AnyConst16::from_i16(7));
    let b = Const16::<i32>::from_i32(7).unwrap();
    let c = Const16::<i32>::from_i32(8).unwrap();
    assert_eq!(a, b);
    assert_ne!(a, c);
    let copied = a;
    assert_eq!(copied.clone(), a);
}

#[test]
fn const32_round_trips_bit_patterns() {
    let patterns = [0_u32, 1, 0x7fff_ffff, 0x8000_0000, 0xffff_ffff, 0x1234_5678, 0x0100_0000, 0xff];
    for bits in patterns {
        assert_eq!(AnyConst32::from_u32(bits).to_u32(), bits);
        assert_eq!(AnyConst32::from_i32(bits as i32).to_i32(), bits as i32);
        assert_eq!(AnyConst32::from_i32(bits as i32).to_u32(), bits);
        assert_eq!(AnyConst32::from_f32(F32::from_bits(bits)).to_f32().to_bits(), bits);
        assert_eq!(AnyConst32::from_f32(F32::from_bits(bits)), AnyConst32::from_u32(bits));
    }
    assert_eq!(AnyConst32::from_i32(-1).to_u32(), u32::MAX);
    assert_eq!(AnyConst32::from_i32(i32::MIN).to_i32(), i32::MIN);
    assert_eq!(AnyConst32::from_u32(0x1234_5678), Const32::from(0x1234_5678_u32));
}

#[test]
fn const32_from_narrower_values() {
    assert_eq!(AnyConst32::from_bool(true).to_u32(), 1);
    assert_eq!(AnyConst32::from_bool(false).to_u32(), 0);
    assert_eq!(AnyConst32::from(true), AnyConst32::from_u32(1));
    assert_eq!(AnyConst32::from(false), AnyConst32::from_i32(0));
    assert_eq!(AnyConst32::from(-1_i8).to_i32(), -1);
    assert_eq!(AnyConst32::from(-1_i8).to_u32(), u32::MAX);
    assert_eq!(AnyConst32::from(i8::MIN).to_i32(), -128);
    assert_eq!(AnyConst32::from(-2_i16).to_i32(), -2);
    assert_eq!(AnyConst32::from(i16::MAX).to_u32(), 0x7fff);
    assert_eq!(AnyConst32::from(-7_i32).to_i32(), -7);
    assert_eq!(AnyConst32::from(7_u32).to_u32(), 7);
}

#[test]
fn const32_i64_fits_exactly_the_i32_range() {
    for v in [0_i64, 1, -1, 42, i64::from(i32::MAX), i64::from(i32::MIN)] {
        let encoded = AnyConst32::from_i64(v).unwrap();
        assert_eq!(encoded.to_i64(), v);
        assert_eq!(i64::from(encoded.to_i32()), v);
        assert_eq!(AnyConst32::try_from(v).unwrap(), encoded);
    }
    for v in [i64::MAX, i64::MIN, i64::from(i32::MAX) + 1, i64::from(i32::MIN) - 1] {
        assert_eq!(AnyConst32::from_i64(v), None);
        assert!(matches!(AnyConst32::try_from(v), Err(OutOfBoundsConst32)));
    }
    assert_eq!(AnyConst32::from_u32(u32::MAX).to_i64(), -1);
}

#[test]
fn const32_f32_nan_keeps_its_bits() {
    let nan = F32::from(f32::NAN);
    let decoded = AnyConst32::from_f32(nan).to_f32();
    assert_eq!(decoded.to_bits(), f32::NAN.to_bits());
    assert_eq!(AnyConst32::from(nan).to_f32().to_bits(), f32::NAN.to_bits());
    for bits in [0x7fc1_2345_u32, 0xffc0_0001, 0x7f80_0001, 0xff80_0000] {
        let payload = F32::from_bits(bits);
        assert_eq!(AnyConst32::from_f32(payload).to_f32().to_bits(), bits);
        assert_eq!(AnyConst32::from_f32(payload).to_u32(), bits);
    }
}

#[test]
fn add_imm16_holds_the_immediate_it_was_given() {
    let r0 = Register::from_i16(0);
    let r2 = Register::from_i16(2);
    let rhs = Const16::<i32>::from_i32(100).unwrap();
    let instr = Instruction::i32_add_imm16(r2, r0, rhs);
    match instr {
        Instruction::I32AddImm16(BinInstrImm16 { result, reg_in, imm_in }) => {
            assert_eq!(result, r2);
            assert_eq!(reg_in, r0);
            assert_eq!(i32::from(imm_in), 100);
            assert_eq!(imm_in.to_i32(), 100);
        }
        other => panic!("unexpected instruction: {other:?}"),
    }
    assert!(Const16::<i32>::from_i32(40_000).is_none());
}

#[test]
fn const32_word_takes_what_converts_to_a_constant() {
    assert_eq!(Instruction::const32(5_i32), Instruction::Const32(AnyConst32::from_i32(5)));
    assert_eq!(Instruction::const32(5_u32), Instruction::Const32(AnyConst32::from_u32(5)));
    assert_eq!(Instruction::const32(true), Instruction::Const32(AnyConst32::from_u32(1)));
    assert_eq!(Instruction::const32(-1_i16), Instruction::Const32(AnyConst32::from_u32(u32::MAX)));
    let word = AnyConst32::from_f32(F32::from(1.5_f32));
    assert_eq!(Instruction::const32(word), Instruction::Const32(word));
    assert_eq!(Instruction::const32(F32::from(1.5_f32)), Instruction::Const32(word));
}
