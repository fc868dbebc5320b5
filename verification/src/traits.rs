//! Traits used to derive the checked and saturating operations of
//! `ops` for quantities.

use vstd::pervasive::arbitrary;
use vstd::prelude::*;

verus! {

/// Marks a quantity that can never go negative.
///
/// Allows us to assume that:
/// - result of addition is never less than its first operand, and that means
///   overflow can only happen over upper bound,
/// - result of subtraction is never greater than its first operand, and that
///   means underflow can only happen over lower bound.
pub trait NonNegative {}

impl<T: NonNegative> NonNegative for &T {}

impl<T: NonNegative> NonNegative for &mut T {}

impl<T: NonNegative> NonNegative for Option<T> {}

impl<T: NonNegative, E> NonNegative for Result<T, E> {}

/// A quantity backed by a validated representation.
pub trait Validated: Sized {
    /// The representation of the quantity.
    type Repr;

    /// Whether this implementation promises `repr` and `validated`. An
    /// implementation that is not verified keeps the default, `false`, and
    /// then nothing is promised of its methods.
    open spec fn obeys_validated_spec() -> bool {
        false
    }

    /// The representation of this quantity.
    open spec fn repr(&self) -> Self::Repr {
        arbitrary()
    }

    /// The quantity that `value` represents, or `None` where `value` is not
    /// a valid representation.
    open spec fn validated(value: Self::Repr) -> Option<Self> {
        None
    }

    /// Returns the representation of this quantity.
    fn as_repr(&self) -> (r: Self::Repr)
        ensures
            Self::obeys_validated_spec() ==> r == self.repr(),
    ;

    /// Returns the quantity that `value` represents, if `value` is valid.
    fn validate(value: Self::Repr) -> (r: Option<Self>)
        ensures
            Self::obeys_validated_spec() ==> r == Self::validated(value),
    ;
}

/// A quantity with both smallest and largest representable values.
pub trait Bounded {
    const MAX: Self;
    const MIN: Self;
}

/// A quantity with a largest representable value.
pub trait UpperBounded {
    const MAX: Self;
}

impl<T: Bounded> UpperBounded for T {
    const MAX: Self = <T as Bounded>::MAX;
}

/// A quantity with a smallest representable value.
pub trait LowerBounded {
    const MIN: Self;
}

impl<T: Bounded> LowerBounded for T {
    const MIN: Self = <T as Bounded>::MIN;
}

impl NonNegative for u8 {}

impl Bounded for u8 {
    const MAX: Self = u8::MAX;
    const MIN: Self = u8::MIN;
}

impl NonNegative for u16 {}

impl Bounded for u16 {
    const MAX: Self = u16::MAX;
    const MIN: Self = u16::MIN;
}

impl NonNegative for u32 {}

impl Bounded for u32 {
    const MAX: Self = u32::MAX;
    const MIN: Self = u32::MIN;
}

impl NonNegative for u64 {}

impl Bounded for u64 {
    const MAX: Self = u64::MAX;
    const MIN: Self = u64::MIN;
}

impl NonNegative for u128 {}

impl Bounded for u128 {
    const MAX: Self = u128::MAX;
    const MIN: Self = u128::MIN;
}

impl NonNegative for usize {}

impl Bounded for usize {
    const MAX: Self = usize::MAX;
    const MIN: Self = usize::MIN;
}

} // verus!
