//! Registers, spans of registers and the iterator over a span.

use regmach_bytecode::register::{Register, RegisterSpan, RegisterSpanIter};

#[test]
fn is_const_goes_by_the_sign_of_the_index() {
    for index in i16::MIN..=i16::MAX {
        assert_eq!(Register::from_i16(index).is_const(), index < 0);
        assert_eq!(Register::from_i16(index).to_i16(), index);
    }
    assert!(!Register::from_i16(0).is_const());
    assert!(Register::from_i16(-1).is_const());
    assert!(!Register::from(i16::MAX).is_const());
    assert!(Register::from(i16::MIN).is_const());
}

#[test]
fn next_and_prev_step_by_one_and_wrap() {
    assert_eq!(Register::from_i16(5).next(), Register::from_i16(6));
    assert_eq!(Register::from_i16(5).prev(), Register::from_i16(4));
    assert_eq!(Register::from_i16(-1).next(), Register::from_i16(0));
    assert_eq!(Register::from_i16(0).prev(), Register::from_i16(-1));
    assert_eq!(Register::from_i16(i16::MAX).next(), Register::from_i16(i16::MIN));
    assert_eq!(Register::from_i16(i16::MIN).prev(), Register::from_i16(i16::MAX));
}

#[test]
fn registers_are_ordered_by_their_index() {
    assert!(Register::from_i16(-1) < Register::from_i16(0));
    assert!(Register::from_i16(3) < Register::from_i16(4));
    assert!(RegisterSpan::new(Register::from_i16(3)) < RegisterSpan::new(Register::from_i16(4)));
}

#[test]
fn forward_iteration_yields_the_span_in_order() {
    for (start, len) in [(0_i16, 0_usize), (0, 1), (3, 5), (-4, 8), (i16::MAX - 3, 3), (i16::MIN, 4)] {
        let mut iter = RegisterSpan::new(Register::from_i16(start)).iter(len);
        for k in 0..len {
            assert_eq!(iter.len(), len - k);
            assert_eq!(iter.next(), Some(Register::from_i16(start + k as i16)));
        }
        assert_eq!(iter.len(), 0);
        assert_eq!(iter.next(), None);
        assert_eq!(iter.next_back(), None);
        assert_eq!(iter.len(), 0);
    }
}

#[test]
fn backward_iteration_yields_the_span_in_reverse() {
    for (start, len) in [(0_i16, 0_usize), (0, 1), (3, 5), (-4, 8), (i16::MAX - 3, 3), (i16::MIN, 4)] {
        let mut iter = RegisterSpan::new(Register::from_i16(start)).iter(len);
        for k in 0..len {
            assert_eq!(iter.len(), len - k);
            assert_eq!(
                iter.next_back(),
                Some(Register::from_i16(start + (len - 1 - k) as i16))
            );
        }
        assert_eq!(iter.len(), 0);
        assert_eq!(iter.next_back(), None);
        assert_eq!(iter.next(), None);
    }
}

#[test]
fn interleaved_iteration_never_overlaps() {
    let mut iter = RegisterSpan::new(Register::from_i16(10)).iter(5);
    assert_eq!(iter.next(), Some(Register::from_i16(10)));
    assert_eq!(iter.next_back(), Some(Register::from_i16(14)));
    assert_eq!(iter.len(), 3);
    assert_eq!(iter.next_back(), Some(Register::from_i16(13)));
    assert_eq!(iter.next(), Some(Register::from_i16(11)));
    assert_eq!(iter.len(), 1);
    assert_eq!(iter.next(), Some(Register::from_i16(12)));
    assert_eq!(iter.len(), 0);
    assert_eq!(iter.next(), None);
    assert_eq!(iter.next_back(), None);

    // Every pattern of eight pulls on a span of six registers.
    for pattern in 0_u32..256 {
        let mut iter = RegisterSpan::new(Register::from_i16(-2)).iter(6);
        let mut seen = Vec::new();
        for pull in 0..8 {
            let before = iter.len();
            let yielded = if pattern >> pull & 1 == 1 { iter.next_back() } else { iter.next() };
            match yielded {
                Some(reg) => {
                    assert!(pull < 6);
                    assert!(!seen.contains(&reg));
                    assert!((-2..4).contains(&reg.to_i16()));
                    seen.push(reg);
                    assert_eq!(iter.len(), before - 1);
                }
                None => {
                    assert!(pull >= 6);
                    assert_eq!(iter.len(), 0);
                }
            }
        }
        assert_eq!(seen.len(), 6);
    }
}

#[test]
fn a_span_can_be_iterated_again() {
    let span = RegisterSpan::new(Register::from_i16(7));
    let mut first = span.iter(2);
    assert_eq!(first.next(), Some(Register::from_i16(7)));
    assert_eq!(first.next(), Some(Register::from_i16(8)));
    assert_eq!(first.next(), None);
    let mut second = span.iter(2);
    assert_eq!(second.next(), Some(Register::from_i16(7)));
}

#[test]
fn raw_parts_give_the_registers_between_them() {
    let mut iter = RegisterSpanIter::from_raw_parts(Register::from_i16(-1), Register::from_i16(2));
    assert_eq!(iter.len(), 3);
    assert_eq!(iter.next(), Some(Register::from_i16(-1)));
    assert_eq!(iter.next_back(), Some(Register::from_i16(1)));
    assert_eq!(iter.next(), Some(Register::from_i16(0)));
    assert_eq!(iter.next(), None);
    let empty = RegisterSpanIter::from_raw_parts(Register::from_i16(4), Register::from_i16(4));
    assert_eq!(empty.len(), 0);
    assert_eq!(
        RegisterSpanIter::new(Register::from_i16(4), 3),
        RegisterSpanIter::from_raw_parts(Register::from_i16(4), Register::from_i16(7))
    );
    let whole = RegisterSpanIter::new(Register::from_i16(0), i16::MAX as usize);
    assert_eq!(whole.len(), 32_767);
}
