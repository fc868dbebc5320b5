use simdesk::ops::{CheckedAdd, Delta, SaturatingAdd, SaturatingSub};
use simdesk::traits::NonNegative;

#[derive(Clone, Copy, Debug, Default, PartialEq, Eq, PartialOrd, Ord)]
struct Quantity(i32);

impl std::ops::Add for Quantity {
    type Output = Self;

    fn add(self, rhs: Self) -> Self::Output {
        Self(self.0 + rhs.0)
    }
}

impl NonNegative for Quantity {}

impl CheckedAdd for Quantity {
    type Output = Self;

    fn checked_add(self, rhs: Self) -> Option<Self::Output> {
        Some(Self(self.0 + rhs.0))
    }
}

impl SaturatingAdd for Quantity {
    type Output = Self;

    fn saturating_add(self, rhs: Self) -> Self::Output {
        Self((self.0 + rhs.0).min(100))
    }
}

impl SaturatingSub for Quantity {
    type Output = Self;

    fn saturating_sub(self, rhs: Self) -> Self::Output {
        Self((self.0 - rhs.0).max(0))
    }
}

#[test]
fn ord_orders_negatives_before_zero_before_positives() {
    assert!(Delta::Negative(Quantity(2)) < Delta::Zero);
    assert!(Delta::Zero < Delta::Positive(Quantity(2)));
    assert!(Delta::Negative(Quantity(1)) < Delta::Positive(Quantity(1)));
}

#[test]
fn ord_orders_same_direction_by_magnitude() {
    assert!(Delta::Positive(Quantity(2)) < Delta::Positive(Quantity(10)));
    assert!(Delta::Negative(Quantity(10)) < Delta::Negative(Quantity(2)));
    assert_eq!(
        Delta::Positive(Quantity(3)).cmp(&Delta::Positive(Quantity(3))),
        std::cmp::Ordering::Equal
    );
}

#[test]
fn is_zero_detects_zero_variant() {
    assert!(Delta::<Quantity>::Zero.is_zero());
    assert!(!Delta::Positive(Quantity(1)).is_zero());
    assert!(!Delta::Negative(Quantity(1)).is_zero());
}

#[test]
fn is_positive_detects_positive_variant() {
    assert!(!Delta::<Quantity>::Zero.is_positive());
    assert!(Delta::Positive(Quantity(1)).is_positive());
    assert!(!Delta::Negative(Quantity(1)).is_positive());
}

#[test]
fn is_negative_detects_negative_variant() {
    assert!(!Delta::<Quantity>::Zero.is_negative());
    assert!(!Delta::Positive(Quantity(1)).is_negative());
    assert!(Delta::Negative(Quantity(1)).is_negative());
}

#[test]
fn between_is_positive_when_lhs_is_greater() {
    assert_eq!(
        Delta::between(Quantity(5), Quantity(2)),
        Delta::Positive(Quantity(3))
    );
}

#[test]
fn between_is_negative_when_rhs_is_greater() {
    assert_eq!(
        Delta::between(Quantity(2), Quantity(5)),
        Delta::Negative(Quantity(3))
    );
}

#[test]
fn between_is_zero_when_lhs_equals_rhs() {
    assert_eq!(Delta::between(Quantity(5), Quantity(5)), Delta::Zero);
}

#[test]
fn map_transforms_wrapped_value_preserving_direction() {
    assert_eq!(
        Delta::Positive(Quantity(1)).map(|q| q + Quantity(1)),
        Delta::Positive(Quantity(2))
    );
    assert_eq!(
        Delta::Negative(Quantity(1)).map(|q| q + Quantity(1)),
        Delta::Negative(Quantity(2))
    );
    assert_eq!(Delta::Zero.map(|q: Quantity| q + Quantity(1)), Delta::Zero);
}

#[test]
fn cloned_clones_shared_reference_contents() {
    let positive = Quantity(3);
    assert_eq!(
        Delta::Positive(&positive).cloned(),
        Delta::Positive(Quantity(3))
    );
    let negative = Quantity(3);
    assert_eq!(
        Delta::Negative(&negative).cloned(),
        Delta::Negative(Quantity(3))
    );
    let zero: Delta<&Quantity> = Delta::Zero;
    assert_eq!(zero.cloned(), Delta::Zero);
}

#[test]
fn copied_copies_shared_reference_contents() {
    let positive = Quantity(3);
    assert_eq!(
        Delta::Positive(&positive).copied(),
        Delta::Positive(Quantity(3))
    );
    let negative = Quantity(3);
    assert_eq!(
        Delta::Negative(&negative).copied(),
        Delta::Negative(Quantity(3))
    );
    let zero: Delta<&Quantity> = Delta::Zero;
    assert_eq!(zero.copied(), Delta::Zero);
}

#[test]
fn cloned_clones_mutable_reference_contents() {
    let mut positive = Quantity(3);
    assert_eq!(
        Delta::Positive(&mut positive).cloned(),
        Delta::Positive(Quantity(3))
    );
    let mut negative = Quantity(3);
    assert_eq!(
        Delta::Negative(&mut negative).cloned(),
        Delta::Negative(Quantity(3))
    );
    let zero: Delta<&mut Quantity> = Delta::Zero;
    assert_eq!(zero.cloned(), Delta::Zero);
}

#[test]
fn copied_copies_mutable_reference_contents() {
    let mut positive = Quantity(3);
    assert_eq!(
        Delta::Positive(&mut positive).copied(),
        Delta::Positive(Quantity(3))
    );
    let mut negative = Quantity(3);
    assert_eq!(
        Delta::Negative(&mut negative).copied(),
        Delta::Negative(Quantity(3))
    );
    let zero: Delta<&mut Quantity> = Delta::Zero;
    assert_eq!(zero.copied(), Delta::Zero);
}

#[test]
fn transpose_option_maps_some_preserving_direction() {
    assert_eq!(
        Delta::Positive(Some(Quantity(1))).transpose(),
        Some(Delta::Positive(Quantity(1)))
    );
    assert_eq!(
        Delta::Negative(Some(Quantity(1))).transpose(),
        Some(Delta::Negative(Quantity(1)))
    );
}

#[test]
fn transpose_option_maps_none_payload_to_none() {
    assert_eq!(Delta::Positive(None::<Quantity>).transpose(), None);
    assert_eq!(Delta::Negative(None::<Quantity>).transpose(), None);
}

#[test]
fn transpose_option_maps_zero_to_some_zero() {
    let none: Delta<Option<Quantity>> = Delta::Zero;
    assert_eq!(none.transpose(), Some(Delta::Zero));
}

#[test]
fn transpose_result_maps_ok_preserving_direction() {
    assert_eq!(
        Delta::Positive(Ok::<_, &str>(Quantity(1))).transpose(),
        Ok(Delta::Positive(Quantity(1)))
    );
    assert_eq!(
        Delta::Negative(Ok::<_, &str>(Quantity(1))).transpose(),
        Ok(Delta::Negative(Quantity(1)))
    );
}

#[test]
fn transpose_result_propagates_err() {
    assert_eq!(
        Delta::Positive(Err::<Quantity, _>("failed")).transpose(),
        Err("failed")
    );
    assert_eq!(
        Delta::Negative(Err::<Quantity, _>("failed")).transpose(),
        Err("failed")
    );
}

#[test]
fn transpose_result_maps_zero_to_ok_zero() {
    let none: Delta<Result<Quantity, &str>> = Delta::Zero;
    assert_eq!(none.transpose(), Ok(Delta::Zero));
}

#[test]
fn applied_zero_leaves_base_unchanged() {
    assert_eq!(Delta::Zero.apply_to(Quantity(5)), Quantity(5));
}

#[test]
fn applied_positive_increases_base() {
    assert_eq!(
        Delta::Positive(Quantity(3)).apply_to(Quantity(5)),
        Quantity(8)
    );
}

#[test]
fn applied_negative_decreases_base_within_bounds() {
    assert_eq!(
        Delta::Negative(Quantity(3)).apply_to(Quantity(5)),
        Quantity(2)
    );
}

#[test]
fn applied_negative_saturates_at_zero() {
    assert_eq!(
        Delta::Negative(Quantity(10)).apply_to(Quantity(5)),
        Quantity(0)
    );
}

#[test]
fn checked_applied_zero_leaves_base_unchanged() {
    assert_eq!(
        Delta::Zero.checked_apply_to(Quantity(5)).unwrap(),
        Quantity(5)
    );
}

#[test]
fn checked_applied_positive_increases_base() {
    assert_eq!(
        Delta::Positive(Quantity(3))
            .checked_apply_to(Quantity(5))
            .unwrap(),
        Quantity(8)
    );
}

#[test]
fn checked_applied_negative_decreases_base_within_bounds() {
    assert_eq!(
        Delta::Negative(Quantity(3))
            .checked_apply_to(Quantity(5))
            .unwrap(),
        Quantity(2)
    );
}

#[test]
fn checked_applied_negative_saturates_at_zero() {
    assert_eq!(
        Delta::Negative(Quantity(10))
            .checked_apply_to(Quantity(5))
            .unwrap(),
        Quantity(0)
    );
}

#[test]
fn saturating_applied_zero_leaves_base_unchanged() {
    assert_eq!(Delta::Zero.saturating_apply_to(Quantity(5)), Quantity(5));
}

#[test]
fn saturating_applied_positive_increases_base() {
    assert_eq!(
        Delta::Positive(Quantity(3)).saturating_apply_to(Quantity(5)),
        Quantity(8)
    );
}

#[test]
fn saturating_applied_negative_decreases_base_within_bounds() {
    assert_eq!(
        Delta::Negative(Quantity(3)).saturating_apply_to(Quantity(5)),
        Quantity(2)
    );
}

#[test]
fn saturating_applied_negative_saturates_at_zero() {
    assert_eq!(
        Delta::Negative(Quantity(10)).saturating_apply_to(Quantity(5)),
        Quantity(0)
    );
}

#[test]
fn saturating_applied_saturates_on_addition_overflow() {
    assert_eq!(
        Delta::Positive(Quantity(100)).saturating_apply_to(Quantity(5)),
        Quantity(100)
    );
}

#[test]
fn neg_reverses_direction() {
    assert_eq!(-Delta::Positive(Quantity(3)), Delta::Negative(Quantity(3)));
    assert_eq!(-Delta::Negative(Quantity(3)), Delta::Positive(Quantity(3)));
    assert_eq!(-Delta::<Quantity>::Zero, Delta::Zero);
}

#[test]
fn add_combines_same_direction() {
    assert_eq!(
        Delta::Positive(Quantity(1)) + Delta::Positive(Quantity(2)),
        Delta::Positive(Quantity(3))
    );
    assert_eq!(
        Delta::Negative(Quantity(1)) + Delta::Negative(Quantity(2)),
        Delta::Negative(Quantity(3))
    );
}

#[test]
fn add_nets_out_opposing_directions() {
    assert_eq!(
        Delta::Positive(Quantity(5)) + Delta::Negative(Quantity(2)),
        Delta::Positive(Quantity(3))
    );
    assert_eq!(
        Delta::Positive(Quantity(2)) + Delta::Negative(Quantity(5)),
        Delta::Negative(Quantity(3))
    );
    assert_eq!(
        Delta::Positive(Quantity(2)) + Delta::Negative(Quantity(2)),
        Delta::Zero
    );
}

#[test]
fn zero_is_identity_of_addition() {
    assert_eq!(
        Delta::Positive(Quantity(1)) + Delta::Zero,
        Delta::Positive(Quantity(1))
    );
    assert_eq!(
        Delta::Zero + Delta::Negative(Quantity(1)),
        Delta::Negative(Quantity(1))
    );
}

#[test]
fn checked_add_combines_same_direction() {
    assert_eq!(
        Delta::Positive(Quantity(1))
            .checked_add(Delta::Positive(Quantity(2)))
            .unwrap(),
        Delta::Positive(Quantity(3))
    );
    assert_eq!(
        Delta::Negative(Quantity(1))
            .checked_add(Delta::Negative(Quantity(2)))
            .unwrap(),
        Delta::Negative(Quantity(3))
    );
}

#[test]
fn checked_add_nets_out_opposing_directions() {
    assert_eq!(
        Delta::Positive(Quantity(5))
            .checked_add(Delta::Negative(Quantity(2)))
            .unwrap(),
        Delta::Positive(Quantity(3))
    );
    assert_eq!(
        Delta::Positive(Quantity(2))
            .checked_add(Delta::Negative(Quantity(5)))
            .unwrap(),
        Delta::Negative(Quantity(3))
    );
    assert_eq!(
        Delta::Positive(Quantity(2))
            .checked_add(Delta::Negative(Quantity(2)))
            .unwrap(),
        Delta::Zero
    );
}

#[test]
fn zero_is_identity_of_checked_addition() {
    assert_eq!(
        Delta::Positive(Quantity(1))
            .checked_add(Delta::Zero)
            .unwrap(),
        Delta::Positive(Quantity(1))
    );
    assert_eq!(
        Delta::Zero
            .checked_add(Delta::Negative(Quantity(1)))
            .unwrap(),
        Delta::Negative(Quantity(1))
    );
}

#[test]
fn ord_is_reflexive_antisymmetric_and_agrees_with_partial_cmp() {
    let deltas = [
        Delta::Negative(Quantity(7)),
        Delta::Negative(Quantity(1)),
        Delta::Zero,
        Delta::Positive(Quantity(1)),
        Delta::Positive(Quantity(7)),
    ];
    for (i, x) in deltas.iter().enumerate() {
        assert_eq!(x.cmp(x), std::cmp::Ordering::Equal);
        for (j, y) in deltas.iter().enumerate() {
            assert_eq!(x.cmp(y), y.cmp(x).reverse());
            assert_eq!(x.partial_cmp(y), Some(x.cmp(y)));
            assert_eq!(x.cmp(y), i.cmp(&j));
        }
    }
}

#[test]
fn copied_leaves_the_mutable_referent_unchanged() {
    let mut q = Quantity(3);
    assert_eq!(Delta::Negative(&mut q).copied(), Delta::Negative(Quantity(3)));
    assert_eq!(q, Quantity(3));
    let mut p = Quantity(4);
    assert_eq!(Delta::Positive(&mut p).cloned(), Delta::Positive(Quantity(4)));
    assert_eq!(p, Quantity(4));
}

#[test]
fn opposite_checked_sums_always_succeed_and_zero_is_neutral() {
    let up = Delta::Positive(Quantity(5));
    let down = Delta::Negative(Quantity(8));
    assert_eq!(up.checked_add(down), Some(Delta::Negative(Quantity(3))));
    assert_eq!(down.checked_add(up), Some(Delta::Negative(Quantity(3))));
    assert_eq!(Delta::Zero.checked_add(up), Some(up));
    assert_eq!(down + Delta::Zero, down);
    assert_eq!(up.saturating_add(Delta::Zero), up);
}

#[test]
fn between_then_apply_gives_the_first_value_back() {
    for (a, b) in [(7, 3), (3, 7), (4, 4), (0, 9)] {
        let (a, b) = (Quantity(a), Quantity(b));
        assert_eq!(Delta::between(a, b).apply_to(b), a);
        assert_eq!(Delta::between(a, b).checked_apply_to(b), Some(a));
    }
}
