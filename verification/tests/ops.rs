use simdesk::ops::{CheckedAdd, CheckedDiv, CheckedMul, CheckedSub, Delta, SaturatingAdd, SaturatingSub};
use simdesk::{CalculationError, ValidationError};

#[test]
fn unsigned_checked_ops_reject_out_of_range_results() {
    assert_eq!(CheckedAdd::checked_add(250u8, 5u8), Some(255));
    assert_eq!(CheckedAdd::checked_add(250u8, 6u8), None);
    assert_eq!(CheckedSub::checked_sub(5u32, 6u32), None);
    assert_eq!(CheckedSub::checked_sub(6u32, 5u32), Some(1));
    assert_eq!(CheckedMul::checked_mul(u64::MAX, 2u64), None);
    assert_eq!(CheckedMul::checked_mul(21u64, 2u64), Some(42));
    assert_eq!(CheckedDiv::checked_div(7usize, 0usize), None);
    assert_eq!(CheckedDiv::checked_div(7usize, 2usize), Some(3));
    assert_eq!(CheckedAdd::checked_add(u128::MAX, 0u128), Some(u128::MAX));
    assert_eq!(CheckedAdd::checked_add(u16::MAX, 1u16), None);
}

#[test]
fn signed_checked_ops_reject_out_of_range_results() {
    assert_eq!(CheckedAdd::checked_add(i8::MIN, -1i8), None);
    assert_eq!(CheckedSub::checked_sub(-100i8, 28i8), Some(-128));
    assert_eq!(CheckedMul::checked_mul(-3i32, 4i32), Some(-12));
    assert_eq!(CheckedDiv::checked_div(i64::MIN, -1i64), None);
    assert_eq!(CheckedDiv::checked_div(-7i64, 2i64), Some(-3));
    assert_eq!(CheckedDiv::checked_div(7i16, 0i16), None);
    assert_eq!(CheckedAdd::checked_add(isize::MAX, 1isize), None);
    assert_eq!(CheckedMul::checked_mul(i128::MAX, 2i128), None);
}

#[test]
fn saturating_ops_clamp_to_the_bounds() {
    assert_eq!(SaturatingAdd::saturating_add(200u8, 100u8), 255);
    assert_eq!(SaturatingSub::saturating_sub(3u16, 5u16), 0);
    assert_eq!(SaturatingAdd::saturating_add(100i8, 100i8), 127);
    assert_eq!(SaturatingAdd::saturating_add(-100i8, -100i8), -128);
    assert_eq!(SaturatingSub::saturating_sub(-100i8, 100i8), -128);
    assert_eq!(SaturatingSub::saturating_sub(100i8, -100i8), 127);
    assert_eq!(SaturatingSub::saturating_sub(10i32, 3i32), 7);
    assert_eq!(SaturatingAdd::saturating_add(i64::MAX, -1i64), i64::MAX - 1);
}

#[test]
fn delta_over_unsigned_integers_round_trips() {
    for (lhs, rhs) in [(5u32, 2u32), (2, 5), (7, 7), (0, u32::MAX)] {
        let delta = Delta::between(lhs, rhs);
        assert_eq!(delta.saturating_apply_to(rhs), lhs);
        assert_eq!(delta.checked_apply_to(rhs), Some(lhs));
        assert_eq!(delta.apply_to(rhs), lhs);
    }
}

#[test]
fn delta_between_is_antisymmetric() {
    assert_eq!(Delta::between(9u8, 4u8), -Delta::between(4u8, 9u8));
    assert_eq!(Delta::between(4u8, 4u8), Delta::Zero);
}

#[test]
fn delta_negation_distributes_over_sums() {
    let a = Delta::Positive(7u16);
    let b = Delta::Negative(3u16);
    assert_eq!(-a + -b, -(a + b));
    assert_eq!(a + b, b + a);
    assert_eq!(-(-a), a);
}

#[test]
fn delta_checked_add_fails_on_overflowing_magnitudes() {
    assert_eq!(
        Delta::Positive(250u8).checked_add(Delta::Positive(10u8)),
        None
    );
    assert_eq!(
        Delta::Negative(250u8).saturating_add(Delta::Negative(10u8)),
        Delta::Negative(255)
    );
    assert_eq!(
        Delta::Positive(250u8).checked_add(Delta::Negative(10u8)),
        Some(Delta::Positive(240))
    );
}

#[test]
fn delta_checked_apply_fails_past_the_maximum() {
    assert_eq!(Delta::Positive(10u8).checked_apply_to(250u8), None);
    assert_eq!(Delta::Positive(10u8).saturating_apply_to(250u8), 255);
    assert_eq!(Delta::Negative(10u8).checked_apply_to(5u8), Some(0));
}

#[test]
fn delta_ordering_over_integers() {
    assert!(Delta::Negative(10u32) < Delta::Negative(2u32));
    assert!(Delta::Negative(1u32) < Delta::Zero);
    assert!(Delta::Zero < Delta::Positive(1u32));
    assert_eq!(
        Delta::Negative(3u32).cmp(&Delta::Negative(3u32)),
        std::cmp::Ordering::Equal
    );
}

#[test]
fn delta_map_and_transpose() {
    assert_eq!(Delta::Positive(3u8).map(|v| v as u32 * 2), Delta::Positive(6u32));
    assert_eq!(Delta::<Option<u8>>::Zero.transpose(), Some(Delta::Zero));
    assert_eq!(Delta::Negative(Err::<u8, u8>(4)).transpose(), Err(4));
}

#[test]
fn validation_error_keeps_its_message() {
    let error = ValidationError("length must be finite and non-negative");
    assert_eq!(error.message(), "length must be finite and non-negative");
}

#[test]
fn calculation_error_messages_of_both_kinds() {
    assert_eq!(
        CalculationError::InvalidArgument("can divide by zero speed").message(),
        "can divide by zero speed"
    );
    assert_eq!(
        CalculationError::Overflow("result overflowed").message(),
        "result overflowed"
    );
}

#[test]
fn validation_error_converts_to_overflow() {
    let error: CalculationError = ValidationError("too big").into();
    assert_eq!(error, CalculationError::Overflow("too big"));
}
