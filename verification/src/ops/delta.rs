use core::cmp::Ordering;
use vstd::prelude::*;
use vstd::std_specs::cmp::{OrdSpec, PartialEqSpec, PartialOrdIs, PartialOrdSpec, PartialOrdSpecImpl};
use vstd::laws_cmp::{obeys_cmp, obeys_cmp_ord, obeys_partial_cmp_spec_properties};
use vstd::laws_eq::obeys_eq_spec_properties;
use vstd::std_specs::ops::{AddSpec, AddSpecImpl, NegSpecImpl};

use crate::ops::checked::CheckedAdd;
use crate::ops::saturating::{SaturatingAdd, SaturatingSub};
use crate::traits::NonNegative;

verus! {

/// A signed adjustment to some `NonNegative` quantity `T`, computed via
/// `between` and applied via `apply_to`.
#[must_use]
#[derive(Clone, Copy, Debug, Default, PartialEq)]
pub enum Delta<T: NonNegative> {
    /// No adjustment.
    #[default]
    Zero,
    /// Increase by the wrapped quantity.
    Positive(T),
    /// Decrease by the wrapped quantity.
    Negative(T),
}

impl<T: NonNegative + Eq> Eq for Delta<T> {}

impl<T: NonNegative> Delta<T> {
    /// The direction of this delta: 1 for an increase, -1 for a decrease,
    /// and 0 for `Zero`.
    pub open spec fn sign(self) -> int {
        match self {
            Delta::Zero => 0,
            Delta::Positive(_) => 1,
            Delta::Negative(_) => -1,
        }
    }

    /// Whether this delta and `other` point in opposite directions.
    pub open spec fn opposed(self, other: Self) -> bool {
        self.sign() * other.sign() == -1
    }

    /// This delta with its direction reversed.
    pub open spec fn negated(self) -> Self {
        match self {
            Delta::Zero => Delta::Zero,
            Delta::Positive(v) => Delta::Negative(v),
            Delta::Negative(v) => Delta::Positive(v),
        }
    }

    /// Checks if this `Delta` is `Zero`.
    pub fn is_zero(&self) -> (r: bool)
        ensures
            r == (*self is Zero),
    {
        match self {
            Delta::Zero => true,
            _ => false,
        }
    }

    /// Checks if this `Delta` is `Positive`.
    pub fn is_positive(&self) -> (r: bool)
        ensures
            r == (*self is Positive),
    {
        match self {
            Delta::Positive(_) => true,
            _ => false,
        }
    }

    /// Checks if this `Delta` is `Negative`.
    pub fn is_negative(&self) -> (r: bool)
        ensures
            r == (*self is Negative),
    {
        match self {
            Delta::Negative(_) => true,
            _ => false,
        }
    }

    /// Maps a `Delta<T>` to `Delta<U>` by applying a function to a contained
    /// value (if `Positive` or `Negative`) preserving direction or returns
    /// `Zero` (if `Zero`).
    pub fn map<U: NonNegative, F: FnOnce(T) -> U>(self, op: F) -> (r: Delta<U>)
        requires
            match self {
                Delta::Zero => true,
                Delta::Positive(v) => op.requires((v,)),
                Delta::Negative(v) => op.requires((v,)),
            },
        ensures
            match self {
                Delta::Zero => r is Zero,
                Delta::Positive(v) => r matches Delta::Positive(u) && op.ensures((v,), u),
                Delta::Negative(v) => r matches Delta::Negative(u) && op.ensures((v,), u),
            },
    {
        match self {
            Delta::Zero => Delta::Zero,
            Delta::Positive(value) => Delta::Positive(op(value)),
            Delta::Negative(value) => Delta::Negative(op(value)),
        }
    }
}

impl<T: NonNegative + PartialOrd + SaturatingSub<Output = T>> Delta<T> {
    /// The signed difference of `lhs` and `rhs` as the comparisons of `T`
    /// decide it.
    pub open spec fn between_spec(lhs: T, rhs: T) -> Self {
        if lhs.is_gt(&rhs) {
            Delta::Positive(lhs.saturating_sub_result(rhs))
        } else if rhs.is_gt(&lhs) {
            Delta::Negative(rhs.saturating_sub_result(lhs))
        } else {
            Delta::Zero
        }
    }

    /// What `between` needs of `T`'s subtraction: the difference that it
    /// takes must be defined (either, where `T`'s order is not known).
    pub open spec fn between_req(lhs: T, rhs: T) -> bool {
        if T::obeys_partial_cmp_spec() {
            &&& lhs.is_gt(&rhs) ==> lhs.saturating_sub_req(rhs)
            &&& !lhs.is_gt(&rhs) && rhs.is_gt(&lhs) ==> rhs.saturating_sub_req(lhs)
        } else {
            lhs.saturating_sub_req(rhs) && rhs.saturating_sub_req(lhs)
        }
    }

    /// What netting `pos` against `neg` needs of `T`'s subtraction.
    pub open spec fn net_req(pos: T, neg: T) -> bool {
        if T::obeys_partial_cmp_spec() {
            &&& pos.is_lt(&neg) ==> neg.saturating_sub_req(pos)
            &&& !pos.is_lt(&neg) && pos.is_gt(&neg) ==> pos.saturating_sub_req(neg)
        } else {
            neg.saturating_sub_req(pos) && pos.saturating_sub_req(neg)
        }
    }

    /// The signed difference between `lhs` and `rhs`. Result is `Positive`
    /// if `lhs` > `rhs`, `Negative` if `rhs` > `lhs`, and `Zero` otherwise.
    pub fn between(lhs: T, rhs: T) -> (r: Self)
        requires
            Self::between_req(lhs, rhs),
        ensures
            T::obeys_partial_cmp_spec() && T::obeys_saturating_sub_spec() ==> r
                == Self::between_spec(lhs, rhs),
            T::obeys_partial_cmp_spec() ==> r.sign() == Self::between_spec(lhs, rhs).sign(),
    {
        if lhs > rhs {
            Delta::Positive(lhs.saturating_sub(rhs))
        } else if rhs > lhs {
            Delta::Negative(rhs.saturating_sub(lhs))
        } else {
            Delta::Zero
        }
    }
}

impl<'a, T: NonNegative> Delta<&'a T> {
    /// Maps a `Delta<&T>` to a `Delta<T>` by cloning the contents of the
    /// `Positive` or `Negative` part.
    pub fn cloned(self) -> (r: Delta<T>)
        where
            T: Clone,
        ensures
            match self {
                Delta::Zero => r is Zero,
                Delta::Positive(v) => r matches Delta::Positive(u) && cloned::<T>(*v, u),
                Delta::Negative(v) => r matches Delta::Negative(u) && cloned::<T>(*v, u),
            },
    {
        match self {
            Delta::Zero => Delta::Zero,
            Delta::Positive(v) => Delta::Positive(v.clone()),
            Delta::Negative(v) => Delta::Negative(v.clone()),
        }
    }

    /// Maps a `Delta<&T>` to a `Delta<T>` by copying the contents of
    /// the `Positive` or `Negative` part.
    pub fn copied(self) -> (r: Delta<T>)
        where
            T: Copy,
        ensures
            r == match self {
                Delta::Zero => Delta::Zero,
                Delta::Positive(v) => Delta::Positive(*v),
                Delta::Negative(v) => Delta::Negative(*v),
            },
    {
        match self {
            Delta::Positive(v) => Delta::Positive(*v),
            Delta::Negative(v) => Delta::Negative(*v),
            Delta::Zero => Delta::Zero,
        }
    }
}

impl<'a, T: NonNegative> Delta<&'a mut T> {
    /// Maps a `Delta<&mut T>` to a `Delta<T>` by cloning the contents of the
    /// `Positive` or `Negative` part; the referenced value is left as it was.
    pub fn cloned(self) -> (r: Delta<T>)
        where
            T: Clone,
        ensures
            match self {
                Delta::Zero => r is Zero,
                Delta::Positive(v) => r matches Delta::Positive(u) && cloned::<T>(*v, u),
                Delta::Negative(v) => r matches Delta::Negative(u) && cloned::<T>(*v, u),
            },
            self matches Delta::Positive(v) ==> *final(v) == *v,
            self matches Delta::Negative(v) ==> *final(v) == *v,
    {
        match self {
            Delta::Zero => Delta::Zero,
            Delta::Positive(v) => Delta::Positive(v.clone()),
            Delta::Negative(v) => Delta::Negative(v.clone()),
        }
    }

    /// Maps a `Delta<&mut T>` to a `Delta<T>` by copying the contents of
    /// the `Positive` or `Negative` part; the referenced value is left as it
    /// was.
    pub fn copied(self) -> (r: Delta<T>)
        where
            T: Copy,
        ensures
            r == match self {
                Delta::Zero => Delta::Zero,
                Delta::Positive(v) => Delta::Positive(*v),
                Delta::Negative(v) => Delta::Negative(*v),
            },
            self matches Delta::Positive(v) ==> *final(v) == *v,
            self matches Delta::Negative(v) ==> *final(v) == *v,
    {
        match self {
            Delta::Positive(v) => Delta::Positive(*v),
            Delta::Negative(v) => Delta::Negative(*v),
            Delta::Zero => Delta::Zero,
        }
    }
}

impl<T: NonNegative> Delta<Option<T>> {
    /// Transposes a `Delta` of an `Option` into an `Option` of a `Delta`.
    ///
    /// `Positive(None)` will be mapped to `None`. `Positive(Some(_))` and
    /// `Zero` will be mapped to `Some(Positive(_))` and `Some(Zero)`. Same
    /// holds for `Negative`.
    pub fn transpose(self) -> (r: Option<Delta<T>>)
        ensures
            r == match self {
                Delta::Zero => Some(Delta::Zero),
                Delta::Positive(Some(v)) => Some(Delta::Positive(v)),
                Delta::Negative(Some(v)) => Some(Delta::Negative(v)),
                _ => None,
            },
    {
        match self {
            Delta::Zero => Some(Delta::Zero),
            Delta::Positive(Some(value)) => Some(Delta::Positive(value)),
            Delta::Positive(None) => None,
            Delta::Negative(Some(value)) => Some(Delta::Negative(value)),
            Delta::Negative(None) => None,
        }
    }
}

impl<T: NonNegative, E> Delta<Result<T, E>> {
    /// Transposes a `Delta` of a `Result` into a `Result` of a `Delta`.
    ///
    /// `Positive(Err(_))` will be mapped to `Err(_)`. `Positive(Ok(_))` and
    /// `Zero` will be mapped to `Ok(Positive(_))` and `Ok(Zero)`. Same holds
    /// for `Negative`.
    pub fn transpose(self) -> (r: Result<Delta<T>, E>)
        ensures
            r == match self {
                Delta::Zero => Ok(Delta::Zero),
                Delta::Positive(Ok(v)) => Ok(Delta::Positive(v)),
                Delta::Negative(Ok(v)) => Ok(Delta::Negative(v)),
                Delta::Positive(Err(e)) => Err(e),
                Delta::Negative(Err(e)) => Err(e),
            },
    {
        match self {
            Delta::Zero => Ok(Delta::Zero),
            Delta::Positive(Ok(value)) => Ok(Delta::Positive(value)),
            Delta::Positive(Err(e)) => Err(e),
            Delta::Negative(Ok(value)) => Ok(Delta::Negative(value)),
            Delta::Negative(Err(e)) => Err(e),
        }
    }
}

impl<T: NonNegative + core::ops::Add<Output = T> + SaturatingSub<Output = T>> Delta<T> {
    /// What `apply_to` gives for `base`.
    pub open spec fn applied(self, base: T) -> T {
        match self {
            Delta::Zero => base,
            Delta::Positive(d) => base.add_spec(d),
            Delta::Negative(d) => base.saturating_sub_result(d),
        }
    }

    /// Applies this `Delta` to `base`, clamping at `base`'s own notion of zero
    /// when subtracting past it.
    pub fn apply_to(self, base: T) -> (r: T)
        requires
            self matches Delta::Positive(d) ==> base.add_req(d),
            self matches Delta::Negative(d) ==> base.saturating_sub_req(d),
        ensures
            match self {
                Delta::Zero => r == base,
                Delta::Positive(d) => T::obeys_add_spec() ==> r == base.add_spec(d),
                Delta::Negative(d) => T::obeys_saturating_sub_spec() ==> r
                    == base.saturating_sub_result(d),
            },
            T::obeys_add_spec() && T::obeys_saturating_sub_spec() ==> r == self.applied(base),
    {
        match self {
            Delta::Zero => base,
            Delta::Positive(delta) => base + delta,
            Delta::Negative(delta) => base.saturating_sub(delta),
        }
    }
}

impl<T: NonNegative + CheckedAdd<Output = T> + SaturatingSub<Output = T>> Delta<T> {
    /// What `checked_apply_to` gives for `base`.
    pub open spec fn checked_applied(self, base: T) -> Option<T> {
        match self {
            Delta::Zero => Some(base),
            Delta::Positive(d) => base.checked_add_result(d),
            Delta::Negative(d) => Some(base.saturating_sub_result(d)),
        }
    }

    /// Applies this `Delta` to `base`, clamping at `base`'s own notion of zero
    /// when subtracting past it. Returns `None` if the result of an addition
    /// is not valid.
    pub fn checked_apply_to(self, base: T) -> (r: Option<T>)
        requires
            self matches Delta::Positive(d) ==> base.checked_add_req(d),
            self matches Delta::Negative(d) ==> base.saturating_sub_req(d),
        ensures
            T::obeys_checked_add_spec() && T::obeys_saturating_sub_spec() ==> r
                == self.checked_applied(base),
            self is Zero ==> r == Some(base),
            self is Negative ==> r is Some,
    {
        match self {
            Delta::Zero => Some(base),
            Delta::Positive(delta) => base.checked_add(delta),
            Delta::Negative(delta) => Some(base.saturating_sub(delta)),
        }
    }
}

impl<T: NonNegative + SaturatingAdd<Output = T> + SaturatingSub<Output = T>> Delta<T> {
    /// What `saturating_apply_to` gives for `base`.
    pub open spec fn saturating_applied(self, base: T) -> T {
        match self {
            Delta::Zero => base,
            Delta::Positive(d) => base.saturating_add_result(d),
            Delta::Negative(d) => base.saturating_sub_result(d),
        }
    }

    /// Applies this `Delta` to `base`, saturating on overflows.
    pub fn saturating_apply_to(self, base: T) -> (r: T)
        requires
            self matches Delta::Positive(d) ==> base.saturating_add_req(d),
            self matches Delta::Negative(d) ==> base.saturating_sub_req(d),
        ensures
            T::obeys_saturating_add_spec() && T::obeys_saturating_sub_spec() ==> r
                == self.saturating_applied(base),
            self is Zero ==> r == base,
    {
        match self {
            Delta::Zero => base,
            Delta::Positive(delta) => base.saturating_add(delta),
            Delta::Negative(delta) => base.saturating_sub(delta),
        }
    }
}

impl<T: NonNegative> core::ops::Neg for Delta<T> {
    type Output = Self;

    /// Negates this `Delta` by reversing its direction.
    fn neg(self) -> (r: Self)
        ensures
            r == self.negated(),
    {
        match self {
            Delta::Zero => Delta::Zero,
            Delta::Positive(v) => Delta::Negative(v),
            Delta::Negative(v) => Delta::Positive(v),
        }
    }
}

impl<T: NonNegative> NegSpecImpl for Delta<T> {
    open spec fn obeys_neg_spec() -> bool {
        true
    }

    open spec fn neg_req(self) -> bool {
        true
    }

    open spec fn neg_spec(self) -> Self {
        self.negated()
    }
}

impl<T: NonNegative + PartialOrd + SaturatingSub<Output = T>> Delta<T> {
    /// The net of an increase by `pos` and a decrease by `neg`.
    pub open spec fn netted(pos: T, neg: T) -> Self {
        if pos.is_lt(&neg) {
            Delta::Negative(neg.saturating_sub_result(pos))
        } else if pos.is_gt(&neg) {
            Delta::Positive(pos.saturating_sub_result(neg))
        } else {
            Delta::Zero
        }
    }

    /// The net of an increase by `pos` and a decrease by `neg`.
    fn net(pos: T, neg: T) -> (r: Self)
        requires
            Self::net_req(pos, neg),
        ensures
            T::obeys_partial_cmp_spec() && T::obeys_saturating_sub_spec() ==> r == Self::netted(
                pos,
                neg,
            ),
            T::obeys_partial_cmp_spec() ==> r.sign() == Self::netted(pos, neg).sign(),
    {
        if pos < neg {
            Delta::Negative(neg.saturating_sub(pos))
        } else if pos > neg {
            Delta::Positive(pos.saturating_sub(neg))
        } else {
            Delta::Zero
        }
    }
}

impl<
    T: NonNegative + Copy + PartialOrd + core::ops::Add<Output = T> + SaturatingSub<Output = T>,
> Delta<T> {
    /// The sum of two deltas: magnitudes of one direction add up, opposing
    /// directions net out, and `Zero` is neutral.
    pub open spec fn sum(self, rhs: Self) -> Self {
        match (self, rhs) {
            (Delta::Zero, other) => other,
            (other, Delta::Zero) => other,
            (Delta::Positive(e1), Delta::Positive(e2)) => Delta::Positive(e1.add_spec(e2)),
            (Delta::Negative(e1), Delta::Negative(e2)) => Delta::Negative(e1.add_spec(e2)),
            (Delta::Positive(e1), Delta::Negative(e2)) => Self::netted(e1, e2),
            (Delta::Negative(e2), Delta::Positive(e1)) => Self::netted(e1, e2),
        }
    }
}

impl<
    T: NonNegative + Copy + PartialOrd + core::ops::Add<Output = T> + SaturatingSub<Output = T>,
> core::ops::Add for Delta<T> {
    type Output = Self;

    /// Combines two deltas, netting out opposing directions.
    fn add(self, rhs: Self) -> (r: Self)
        ensures
            T::obeys_add_spec() && T::obeys_partial_cmp_spec() && T::obeys_saturating_sub_spec()
                ==> r == self.sum(rhs),
            self is Zero ==> r == rhs,
            rhs is Zero ==> r == self,
            self.sign() == rhs.sign() ==> r.sign() == self.sign(),
            T::obeys_partial_cmp_spec() ==> r.sign() == self.sum(rhs).sign(),
    {
        match (self, rhs) {
            (Delta::Zero, other) => other,
            (other, Delta::Zero) => other,
            (Delta::Positive(e1), Delta::Positive(e2)) => Delta::Positive(e1 + e2),
            (Delta::Negative(e1), Delta::Negative(e2)) => Delta::Negative(e1 + e2),
            (Delta::Positive(e1), Delta::Negative(e2)) => Self::net(e1, e2),
            (Delta::Negative(e2), Delta::Positive(e1)) => Self::net(e1, e2),
        }
    }
}

impl<
    T: NonNegative + Copy + PartialOrd + core::ops::Add<Output = T> + SaturatingSub<Output = T>,
> AddSpecImpl for Delta<T> {
    open spec fn obeys_add_spec() -> bool {
        T::obeys_add_spec() && T::obeys_partial_cmp_spec() && T::obeys_saturating_sub_spec()
    }

    /// Adding two deltas of one direction adds their magnitudes, and adding
    /// opposite ones nets them out, which `T` must allow.
    open spec fn add_req(self, rhs: Self) -> bool {
        match (self, rhs) {
            (Delta::Positive(e1), Delta::Positive(e2)) => e1.add_req(e2),
            (Delta::Negative(e1), Delta::Negative(e2)) => e1.add_req(e2),
            (Delta::Positive(e1), Delta::Negative(e2)) => Self::net_req(e1, e2),
            (Delta::Negative(e2), Delta::Positive(e1)) => Self::net_req(e1, e2),
            _ => true,
        }
    }

    open spec fn add_spec(self, rhs: Self) -> Self {
        self.sum(rhs)
    }
}

impl<
    T: NonNegative + Copy + PartialOrd + CheckedAdd<Output = T> + SaturatingSub<Output = T>,
> CheckedAdd for Delta<T> {
    type Output = Self;

    /// Adding magnitudes of one direction, or netting opposite ones, must be
    /// defined for `T`.
    open spec fn checked_add_req(self, rhs: Self) -> bool {
        match (self, rhs) {
            (Delta::Positive(e1), Delta::Positive(e2)) => e1.checked_add_req(e2),
            (Delta::Negative(e1), Delta::Negative(e2)) => e1.checked_add_req(e2),
            (Delta::Positive(e1), Delta::Negative(e2)) => Self::net_req(e1, e2),
            (Delta::Negative(e2), Delta::Positive(e1)) => Self::net_req(e1, e2),
            _ => true,
        }
    }

    open spec fn obeys_checked_add_spec() -> bool {
        T::obeys_checked_add_spec() && T::obeys_partial_cmp_spec() && T::obeys_saturating_sub_spec()
    }

    /// Like `sum`, but `None` when adding magnitudes of one direction is not
    /// valid for `T`.
    open spec fn checked_add_result(self, rhs: Self) -> Option<Self> {
        match (self, rhs) {
            (Delta::Zero, other) => Some(other),
            (other, Delta::Zero) => Some(other),
            (Delta::Positive(e1), Delta::Positive(e2)) => match e1.checked_add_result(e2) {
                Some(v) => Some(Delta::Positive(v)),
                None => None,
            },
            (Delta::Negative(e1), Delta::Negative(e2)) => match e1.checked_add_result(e2) {
                Some(v) => Some(Delta::Negative(v)),
                None => None,
            },
            (Delta::Positive(e1), Delta::Negative(e2)) => Some(Self::netted(e1, e2)),
            (Delta::Negative(e2), Delta::Positive(e1)) => Some(Self::netted(e1, e2)),
        }
    }

    /// Combines two deltas, netting out opposing directions. Returns `None`
    /// if the result of an addition is not valid.
    fn checked_add(self, rhs: Self) -> (r: Option<Self>)
        ensures
            self is Zero ==> r == Some(rhs),
            rhs is Zero ==> r == Some(self),
            self.sign() == rhs.sign() ==> (r matches Some(d) ==> d.sign() == self.sign()),
            self.opposed(rhs) ==> r is Some,
            T::obeys_partial_cmp_spec() && self.opposed(rhs) ==> (r matches Some(d)
                && self.checked_add_result(rhs) matches Some(e) && d.sign() == e.sign()),
    {
        match (self, rhs) {
            (Delta::Zero, other) => Some(other),
            (other, Delta::Zero) => Some(other),
            (Delta::Positive(e1), Delta::Positive(e2)) => match e1.checked_add(e2) {
                Some(v) => Some(Delta::Positive(v)),
                None => None,
            },
            (Delta::Negative(e1), Delta::Negative(e2)) => match e1.checked_add(e2) {
                Some(v) => Some(Delta::Negative(v)),
                None => None,
            },
            (Delta::Positive(e1), Delta::Negative(e2)) => Some(Self::net(e1, e2)),
            (Delta::Negative(e2), Delta::Positive(e1)) => Some(Self::net(e1, e2)),
        }
    }
}

impl<
    T: NonNegative + Copy + PartialOrd + SaturatingAdd<Output = T> + SaturatingSub<Output = T>,
> SaturatingAdd for Delta<T> {
    type Output = Self;

    /// Adding magnitudes of one direction, or netting opposite ones, must be
    /// defined for `T`.
    open spec fn saturating_add_req(self, rhs: Self) -> bool {
        match (self, rhs) {
            (Delta::Positive(e1), Delta::Positive(e2)) => e1.saturating_add_req(e2),
            (Delta::Negative(e1), Delta::Negative(e2)) => e1.saturating_add_req(e2),
            (Delta::Positive(e1), Delta::Negative(e2)) => Self::net_req(e1, e2),
            (Delta::Negative(e2), Delta::Positive(e1)) => Self::net_req(e1, e2),
            _ => true,
        }
    }

    open spec fn obeys_saturating_add_spec() -> bool {
        T::obeys_saturating_add_spec() && T::obeys_partial_cmp_spec()
            && T::obeys_saturating_sub_spec()
    }

    /// Like `sum`, with magnitudes of one direction added by saturation.
    open spec fn saturating_add_result(self, rhs: Self) -> Self {
        match (self, rhs) {
            (Delta::Zero, other) => other,
            (other, Delta::Zero) => other,
            (Delta::Positive(e1), Delta::Positive(e2)) => Delta::Positive(
                e1.saturating_add_result(e2),
            ),
            (Delta::Negative(e1), Delta::Negative(e2)) => Delta::Negative(
                e1.saturating_add_result(e2),
            ),
            (Delta::Positive(e1), Delta::Negative(e2)) => Self::netted(e1, e2),
            (Delta::Negative(e2), Delta::Positive(e1)) => Self::netted(e1, e2),
        }
    }

    /// Combines two deltas, netting out opposing directions. Addition of the
    /// same directions saturates inner value.
    fn saturating_add(self, rhs: Self) -> (r: Self)
        ensures
            self is Zero ==> r == rhs,
            rhs is Zero ==> r == self,
            self.sign() == rhs.sign() ==> r.sign() == self.sign(),
            T::obeys_partial_cmp_spec() ==> r.sign() == self.saturating_add_result(rhs).sign(),
    {
        match (self, rhs) {
            (Delta::Zero, other) => other,
            (other, Delta::Zero) => other,
            (Delta::Positive(e1), Delta::Positive(e2)) => Delta::Positive(e1.saturating_add(e2)),
            (Delta::Negative(e1), Delta::Negative(e2)) => Delta::Negative(e1.saturating_add(e2)),
            (Delta::Positive(e1), Delta::Negative(e2)) => Self::net(e1, e2),
            (Delta::Negative(e2), Delta::Positive(e1)) => Self::net(e1, e2),
        }
    }
}

impl<T: NonNegative + Ord> Delta<T> {
    /// Deltas compared as signed magnitudes: the most negative first, then
    /// `Zero`, and the most positive last.
    pub open spec fn compared(self, other: Self) -> Ordering {
        match (self, other) {
            (Delta::Zero, Delta::Zero) => Ordering::Equal,
            (Delta::Zero, Delta::Positive(_)) => Ordering::Less,
            (Delta::Zero, Delta::Negative(_)) => Ordering::Greater,
            (Delta::Positive(_), Delta::Zero) => Ordering::Greater,
            (Delta::Positive(a), Delta::Positive(b)) => a.cmp_spec(&b),
            (Delta::Positive(_), Delta::Negative(_)) => Ordering::Greater,
            (Delta::Negative(_), Delta::Zero) => Ordering::Less,
            (Delta::Negative(_), Delta::Positive(_)) => Ordering::Less,
            (Delta::Negative(a), Delta::Negative(b)) => b.cmp_spec(&a),
        }
    }
}

impl<T: NonNegative + Ord> PartialOrd for Delta<T> {
    fn partial_cmp(&self, other: &Self) -> (r: Option<Ordering>) {
        Some(self.cmp(other))
    }
}

impl<T: NonNegative + Ord> PartialOrdSpecImpl for Delta<T> {
    open spec fn obeys_partial_cmp_spec() -> bool {
        T::obeys_cmp_spec()
    }

    open spec fn partial_cmp_spec(&self, other: &Self) -> Option<Ordering> {
        Some(self.compared(*other))
    }
}

impl<T: NonNegative + Ord> Delta<T> {
    /// Compares two deltas as signed magnitudes: the most negative sorts
    /// first, then `Zero`, and the most positive sorts last.
    pub fn cmp(&self, other: &Self) -> (r: Ordering)
        ensures
            T::obeys_cmp_spec() ==> r == self.compared(*other),
            self.sign() != other.sign() ==> r == self.compared(*other),
    {
        match (self, other) {
            (Delta::Zero, Delta::Zero) => Ordering::Equal,
            (Delta::Zero, Delta::Positive(_)) => Ordering::Less,
            (Delta::Zero, Delta::Negative(_)) => Ordering::Greater,
            (Delta::Positive(_), Delta::Zero) => Ordering::Greater,
            (Delta::Positive(a), Delta::Positive(b)) => a.cmp(b),
            (Delta::Positive(_), Delta::Negative(_)) => Ordering::Greater,
            (Delta::Negative(_), Delta::Zero) => Ordering::Less,
            (Delta::Negative(_), Delta::Positive(_)) => Ordering::Less,
            (Delta::Negative(a), Delta::Negative(b)) => b.cmp(a),
        }
    }
}

/// Reversing the direction of a delta twice gives the delta back.
pub proof fn lemma_negation_involutive<T: NonNegative>(d: Delta<T>)
    ensures
        d.negated().negated() == d,
{
}

/// `Zero` is neutral for every way of adding deltas, on either side.
pub proof fn lemma_zero_is_neutral<
    T: NonNegative + Copy + PartialOrd + core::ops::Add<Output = T> + CheckedAdd<Output = T>
        + SaturatingAdd<Output = T> + SaturatingSub<Output = T>,
>(d: Delta<T>)
    ensures
        Delta::Zero.sum(d) == d,
        d.sum(Delta::Zero) == d,
        Delta::Zero.checked_add_result(d) == Some(d),
        d.checked_add_result(Delta::Zero) == Some(d),
        Delta::Zero.saturating_add_result(d) == d,
        d.saturating_add_result(Delta::Zero) == d,
{
}

/// For a lawful order on `T`, the difference of `rhs` and `lhs` is the
/// difference of `lhs` and `rhs` with its direction reversed.
pub proof fn lemma_between_antisymmetric<T: NonNegative + PartialOrd + SaturatingSub<Output = T>>(
    lhs: T,
    rhs: T,
)
    requires
        obeys_partial_cmp_spec_properties::<T>(),
    ensures
        Delta::between_spec(rhs, lhs) == Delta::between_spec(lhs, rhs).negated(),
{
    reveal(obeys_partial_cmp_spec_properties);
    assert(lhs.is_gt(&rhs) ==> !rhs.is_gt(&lhs)) by {
        if lhs.is_gt(&rhs) && rhs.is_gt(&lhs) {
            assert(rhs.partial_cmp_spec(&lhs) == Some(Ordering::Less));
        }
    }
}

/// For a lawful order on `T`, netting `pos` against `neg` and netting `neg`
/// against `pos` give opposite deltas.
proof fn lemma_netted_swapped<T: NonNegative + PartialOrd + SaturatingSub<Output = T>>(
    pos: T,
    neg: T,
)
    requires
        obeys_partial_cmp_spec_properties::<T>(),
    ensures
        Delta::netted(neg, pos) == Delta::netted(pos, neg).negated(),
{
    reveal(obeys_partial_cmp_spec_properties);
    assert(pos.is_lt(&neg) <==> neg.is_gt(&pos));
    assert(neg.is_lt(&pos) <==> pos.is_gt(&neg));
    assert(!(pos.is_lt(&neg) && pos.is_gt(&neg))) by {
        if pos.is_lt(&neg) && pos.is_gt(&neg) {
            assert(pos.partial_cmp_spec(&neg) == Some(Ordering::Less));
        }
    }
}

/// For a lawful order on `T`, reversing both summands reverses the sum.
pub proof fn lemma_negation_distributes_over_sum<
    T: NonNegative + Copy + PartialOrd + core::ops::Add<Output = T> + SaturatingAdd<Output = T>
        + SaturatingSub<Output = T>,
>(a: Delta<T>, b: Delta<T>)
    requires
        obeys_partial_cmp_spec_properties::<T>(),
    ensures
        a.negated().sum(b.negated()) == a.sum(b).negated(),
        a.negated().saturating_add_result(b.negated()) == a.saturating_add_result(b).negated(),
{
    match (a, b) {
        (Delta::Positive(e1), Delta::Negative(e2)) => lemma_netted_swapped(e1, e2),
        (Delta::Negative(e2), Delta::Positive(e1)) => lemma_netted_swapped(e1, e2),
        _ => {},
    }
}

/// The sum of deltas is commutative whenever the addition of `T` is.
pub proof fn lemma_sum_commutative<
    T: NonNegative + Copy + PartialOrd + core::ops::Add<Output = T> + SaturatingSub<Output = T>,
>(a: Delta<T>, b: Delta<T>)
    requires
        forall|x: T, y: T| #[trigger] x.add_spec(y) == y.add_spec(x),
    ensures
        a.sum(b) == b.sum(a),
{
    match (a, b) {
        (Delta::Positive(e1), Delta::Positive(e2)) => assert(e1.add_spec(e2) == e2.add_spec(e1)),
        (Delta::Negative(e1), Delta::Negative(e2)) => assert(e1.add_spec(e2) == e2.add_spec(e1)),
        _ => {},
    }
}

/// Reversing both deltas reverses their order.
pub proof fn lemma_negation_reverses_order<T: NonNegative + Ord>(a: Delta<T>, b: Delta<T>)
    ensures
        a.negated().compared(b.negated()) == b.compared(a),
{
}

/// `m` measures `T` by non-negative integers, and `T`'s arithmetic and
/// order are those of the measures: a sum is defined wherever some value
/// measures at least as much, and then adds up; a value less a smaller or
/// equal one loses exactly the smaller one's measure; values compare as
/// their measures do; and values of equal measure are equal.
pub open spec fn measured_by<T: NonNegative + PartialOrd + core::ops::Add<Output = T> + SaturatingSub<Output = T>>(
    m: spec_fn(T) -> int,
) -> bool {
    &&& forall|x: T| #[trigger] m(x) >= 0
    &&& forall|x: T, y: T, z: T| #![trigger x.add_req(y), m(z)] m(x) + m(y) <= m(z) ==> x.add_req(y)
    &&& forall|x: T, y: T| #[trigger] x.add_req(y) ==> m(x.add_spec(y)) == m(x) + m(y)
    &&& forall|x: T, y: T|
        m(x) >= m(y) ==> #[trigger] m(x.saturating_sub_result(y)) == m(x) - m(y)
    &&& forall|x: T, y: T|
        #[trigger] x.partial_cmp_spec(&y) == if m(x) < m(y) {
            Some(Ordering::Less)
        } else if m(x) > m(y) {
            Some(Ordering::Greater)
        } else {
            Some(Ordering::Equal)
        }
    &&& forall|x: T, y: T| #![trigger m(x), m(y)] m(x) == m(y) ==> x == y
}

/// The signed size of `d` under the measure `m`: the measure of its
/// magnitude, negative for a decrease, and zero for `Zero`.
pub open spec fn signed_size<T: NonNegative>(d: Delta<T>, m: spec_fn(T) -> int) -> int {
    match d {
        Delta::Zero => 0,
        Delta::Positive(v) => m(v),
        Delta::Negative(v) => -m(v),
    }
}

/// Where `T` is measured by `m` and the magnitudes that the sum adds up can
/// be added, adding deltas adds their signed sizes, the sum does not depend
/// on the order of the summands, and `Zero` changes nothing.
pub proof fn lemma_sum_adds_signed_sizes<
    T: NonNegative + Copy + PartialOrd + core::ops::Add<Output = T> + SaturatingSub<Output = T>,
>(a: Delta<T>, b: Delta<T>, m: spec_fn(T) -> int)
    requires
        measured_by(m),
        match (a, b) {
            (Delta::Positive(x), Delta::Positive(y)) => x.add_req(y),
            (Delta::Negative(x), Delta::Negative(y)) => x.add_req(y),
            _ => true,
        },
    ensures
        signed_size(a.sum(b), m) == signed_size(a, m) + signed_size(b, m),
        a.sum(b) == b.sum(a),
        a.sum(Delta::Zero) == a,
        Delta::Zero.sum(a) == a,
{
    match (a, b) {
        (Delta::Positive(e1), Delta::Positive(e2)) => {
            assert(m(e1.add_spec(e2)) == m(e1) + m(e2));
            assert(e2.add_req(e1));
            assert(m(e1.add_spec(e2)) == m(e2.add_spec(e1)));
        },
        (Delta::Negative(e1), Delta::Negative(e2)) => {
            assert(m(e1.add_spec(e2)) == m(e1) + m(e2));
            assert(e2.add_req(e1));
            assert(m(e1.add_spec(e2)) == m(e2.add_spec(e1)));
        },
        (Delta::Positive(e1), Delta::Negative(e2)) => {
            assert(e1.is_lt(&e2) <==> m(e1) < m(e2));
            assert(e1.is_gt(&e2) <==> m(e1) > m(e2));
            if m(e1) < m(e2) {
                assert(m(e2.saturating_sub_result(e1)) == m(e2) - m(e1));
            } else if m(e1) > m(e2) {
                assert(m(e1.saturating_sub_result(e2)) == m(e1) - m(e2));
            }
        },
        (Delta::Negative(e2), Delta::Positive(e1)) => {
            assert(e1.is_lt(&e2) <==> m(e1) < m(e2));
            assert(e1.is_gt(&e2) <==> m(e1) > m(e2));
            if m(e1) < m(e2) {
                assert(m(e2.saturating_sub_result(e1)) == m(e2) - m(e1));
            } else if m(e1) > m(e2) {
                assert(m(e1.saturating_sub_result(e2)) == m(e1) - m(e2));
            }
        },
        _ => {},
    }
}

/// Where `T` is measured by `m`, the checked and the saturating sum of two
/// deltas of opposite directions net them out: the result has the sum of
/// their signed sizes, and the checked sum never fails. Two deltas of one
/// direction keep it, with their magnitudes combined by `T`'s own checked
/// or saturating addition, and `Zero` changes nothing.
pub proof fn lemma_checked_and_saturating_sums_net<
    T: NonNegative + Copy + PartialOrd + core::ops::Add<Output = T> + CheckedAdd<Output = T>
        + SaturatingAdd<Output = T> + SaturatingSub<Output = T>,
>(a: Delta<T>, b: Delta<T>, m: spec_fn(T) -> int)
    requires
        measured_by(m),
    ensures
        a.opposed(b) ==> signed_size(a.saturating_add_result(b), m) == signed_size(a, m)
            + signed_size(b, m),
        a.opposed(b) ==> (a.checked_add_result(b) matches Some(d) && signed_size(d, m)
            == signed_size(a, m) + signed_size(b, m)),
        (a, b) matches (Delta::Positive(x), Delta::Positive(y)) ==> a.saturating_add_result(b)
            == Delta::Positive(x.saturating_add_result(y)),
        (a, b) matches (Delta::Negative(x), Delta::Negative(y)) ==> a.saturating_add_result(b)
            == Delta::Negative(x.saturating_add_result(y)),
        (a, b) matches (Delta::Positive(x), Delta::Positive(y)) ==> a.checked_add_result(b)
            == match x.checked_add_result(y) {
            Some(z) => Some(Delta::Positive(z)),
            None => None,
        },
        (a, b) matches (Delta::Negative(x), Delta::Negative(y)) ==> a.checked_add_result(b)
            == match x.checked_add_result(y) {
            Some(z) => Some(Delta::Negative(z)),
            None => None,
        },
        a.saturating_add_result(Delta::Zero) == a,
        Delta::Zero.saturating_add_result(a) == a,
        a.checked_add_result(Delta::Zero) == Some(a),
        Delta::Zero.checked_add_result(a) == Some(a),
{
    match (a, b) {
        (Delta::Positive(e1), Delta::Negative(e2)) => {
            assert(e1.is_lt(&e2) <==> m(e1) < m(e2));
            assert(e1.is_gt(&e2) <==> m(e1) > m(e2));
            if m(e1) < m(e2) {
                assert(m(e2.saturating_sub_result(e1)) == m(e2) - m(e1));
            } else if m(e1) > m(e2) {
                assert(m(e1.saturating_sub_result(e2)) == m(e1) - m(e2));
            }
        },
        (Delta::Negative(e2), Delta::Positive(e1)) => {
            assert(e1.is_lt(&e2) <==> m(e1) < m(e2));
            assert(e1.is_gt(&e2) <==> m(e1) > m(e2));
            if m(e1) < m(e2) {
                assert(m(e2.saturating_sub_result(e1)) == m(e2) - m(e1));
            } else if m(e1) > m(e2) {
                assert(m(e1.saturating_sub_result(e2)) == m(e1) - m(e2));
            }
        },
        _ => {},
    }
}

/// Where `T` is measured by `m`, applying an increase adds its measure to
/// the base, wherever `T` can add them, and applying a decrease takes its
/// measure off the base, down to nothing at the least; by any way of
/// applying it, `Zero` leaves the base as it was and a decrease never fails.
pub proof fn lemma_applied_moves_by_signed_size<
    T: NonNegative + Copy + PartialOrd + core::ops::Add<Output = T> + CheckedAdd<Output = T>
        + SaturatingAdd<Output = T> + SaturatingSub<Output = T>,
>(d: Delta<T>, base: T, m: spec_fn(T) -> int)
    requires
        measured_by(m),
    ensures
        d matches Delta::Positive(v) ==> (base.add_req(v) ==> m(d.applied(base)) == m(base) + m(v)),
        d matches Delta::Negative(v) ==> (m(v) <= m(base) ==> m(d.applied(base)) == m(base) - m(v)),
        d matches Delta::Negative(v) ==> (m(v) <= m(base) ==> d.checked_applied(base) == Some(
            d.applied(base),
        ) && d.saturating_applied(base) == d.applied(base)),
        d is Zero ==> d.applied(base) == base && d.checked_applied(base) == Some(base)
            && d.saturating_applied(base) == base,
        d is Negative ==> d.checked_applied(base) is Some,
{
    if let Delta::Negative(v) = d {
        if m(v) <= m(base) {
            assert(m(base.saturating_sub_result(v)) == m(base) - m(v));
        }
    }
}

/// Reversing a delta keeps its magnitude and flips its direction: its
/// signed size under any measure changes sign, and only `Zero` is its own
/// reverse.
pub proof fn lemma_negation_flips_signed_size<T: NonNegative>(d: Delta<T>, m: spec_fn(T) -> int)
    ensures
        signed_size(d.negated(), m) == -signed_size(d, m),
        d.negated().sign() == -d.sign(),
        d.negated() == d <==> d is Zero,
        d matches Delta::Positive(v) ==> d.negated() == Delta::Negative(v),
        d matches Delta::Negative(v) ==> d.negated() == Delta::Positive(v),
{
}

/// Where `T` is measured by `m`, applying the difference of `lhs` and `rhs`
/// to `rhs` gives `lhs` back, and the difference has the signed size
/// `m(lhs) - m(rhs)`.
pub proof fn lemma_between_then_applied<
    T: NonNegative + Copy + PartialOrd + core::ops::Add<Output = T> + SaturatingSub<Output = T>,
>(lhs: T, rhs: T, m: spec_fn(T) -> int)
    requires
        measured_by(m),
    ensures
        Delta::between_spec(lhs, rhs).applied(rhs) == lhs,
        signed_size(Delta::between_spec(lhs, rhs), m) == m(lhs) - m(rhs),
{
    assert(lhs.is_gt(&rhs) <==> m(lhs) > m(rhs));
    assert(rhs.is_gt(&lhs) <==> m(rhs) > m(lhs));
    if m(lhs) > m(rhs) {
        let d = lhs.saturating_sub_result(rhs);
        assert(m(d) == m(lhs) - m(rhs));
        assert(rhs.add_req(d));
        assert(m(rhs.add_spec(d)) == m(rhs) + m(d));
        assert(m(rhs.add_spec(d)) == m(lhs));
    } else if m(rhs) > m(lhs) {
        let d = rhs.saturating_sub_result(lhs);
        assert(m(d) == m(rhs) - m(lhs));
        assert(m(rhs.saturating_sub_result(d)) == m(rhs) - m(d));
        assert(m(rhs.saturating_sub_result(d)) == m(lhs));
    } else {
        assert(m(lhs) == m(rhs));
    }
}

/// The arithmetic and order of `u8` are those of its values.
pub proof fn lemma_u8_measured_by_value()
    ensures
        measured_by(|x: u8| x as int),
{
}

/// The arithmetic and order of `u16` are those of its values.
pub proof fn lemma_u16_measured_by_value()
    ensures
        measured_by(|x: u16| x as int),
{
}

/// The arithmetic and order of `u32` are those of its values.
pub proof fn lemma_u32_measured_by_value()
    ensures
        measured_by(|x: u32| x as int),
{
}

/// The arithmetic and order of `u64` are those of its values.
pub proof fn lemma_u64_measured_by_value()
    ensures
        measured_by(|x: u64| x as int),
{
}

/// The arithmetic and order of `u128` are those of its values.
pub proof fn lemma_u128_measured_by_value()
    ensures
        measured_by(|x: u128| x as int),
{
}

/// The arithmetic and order of `usize` are those of its values.
pub proof fn lemma_usize_measured_by_value()
    ensures
        measured_by(|x: usize| x as int),
{
}

/// `order` the other way round.
pub open spec fn reversed(order: Ordering) -> Ordering {
    match order {
        Ordering::Less => Ordering::Greater,
        Ordering::Equal => Ordering::Equal,
        Ordering::Greater => Ordering::Less,
    }
}

/// Over any lawfully ordered magnitude, deltas are totally ordered as signed
/// magnitudes: a negative delta sorts before `Zero` and a positive one after
/// it, two positive deltas sort as their magnitudes and two negative ones the
/// other way round, every delta is equal to itself, swapping two deltas
/// reverses their order, the order is transitive, and `partial_cmp` agrees
/// with `cmp`.
pub proof fn lemma_delta_total_order<T: NonNegative + Ord>(x: Delta<T>, y: Delta<T>, z: Delta<T>)
    requires
        obeys_cmp::<T>(),
    ensures
        x is Negative ==> x.compared(Delta::Zero) == Ordering::Less,
        x is Positive ==> x.compared(Delta::Zero) == Ordering::Greater,
        (x, y) matches (Delta::Positive(a), Delta::Positive(b)) ==> x.compared(y) == a.cmp_spec(&b),
        (x, y) matches (Delta::Negative(a), Delta::Negative(b)) ==> x.compared(y) == b.cmp_spec(&a),
        x.compared(x) == Ordering::Equal,
        x.compared(y) == reversed(y.compared(x)),
        x.compared(y) == Ordering::Less && y.compared(z) == Ordering::Less ==> x.compared(z)
            == Ordering::Less,
        PartialOrdSpec::partial_cmp_spec(&x, &y) == Some(x.compared(y)),
{
    reveal(obeys_partial_cmp_spec_properties);
    reveal(obeys_cmp_ord);
    reveal(obeys_eq_spec_properties);
    assert forall|a: T, b: T| #[trigger] a.cmp_spec(&b) == reversed(b.cmp_spec(&a)) by {
        assert(a.partial_cmp_spec(&b) == Some(a.cmp_spec(&b)));
        assert(b.partial_cmp_spec(&a) == Some(b.cmp_spec(&a)));
        assert(a.eq_spec(&b) <==> b.eq_spec(&a));
    }
    assert forall|a: T, b: T, c: T|
        a.cmp_spec(&b) == Ordering::Less && #[trigger] b.cmp_spec(&c) == Ordering::Less implies #[trigger] a.cmp_spec(
            &c,
        ) == Ordering::Less by {
        assert(a.partial_cmp_spec(&b) == Some(a.cmp_spec(&b)));
        assert(b.partial_cmp_spec(&c) == Some(b.cmp_spec(&c)));
        assert(a.partial_cmp_spec(&c) == Some(a.cmp_spec(&c)));
    }
    match x {
        Delta::Positive(a) => {
            assert(a.cmp_spec(&a) == reversed(a.cmp_spec(&a)));
        },
        Delta::Negative(a) => {
            assert(a.cmp_spec(&a) == reversed(a.cmp_spec(&a)));
        },
        Delta::Zero => {},
    }
    match (x, y) {
        (Delta::Positive(a), Delta::Positive(b)) => {
            assert(a.cmp_spec(&b) == reversed(b.cmp_spec(&a)));
        },
        (Delta::Negative(a), Delta::Negative(b)) => {
            assert(b.cmp_spec(&a) == reversed(a.cmp_spec(&b)));
        },
        _ => {},
    }
    match (x, y, z) {
        (Delta::Positive(a), Delta::Positive(b), Delta::Positive(c)) => {
            if a.cmp_spec(&b) == Ordering::Less && b.cmp_spec(&c) == Ordering::Less {
                assert(a.cmp_spec(&c) == Ordering::Less);
            }
        },
        (Delta::Negative(a), Delta::Negative(b), Delta::Negative(c)) => {
            if b.cmp_spec(&a) == Ordering::Less && c.cmp_spec(&b) == Ordering::Less {
                assert(c.cmp_spec(&a) == Ordering::Less);
            }
        },
        _ => {},
    }
}

/// Applying the difference of `lhs` and `rhs` to `rhs` gives `lhs` back,
/// by each way of applying it.
pub proof fn lemma_between_then_apply_u8(lhs: u8, rhs: u8)
    ensures
        Delta::between_spec(lhs, rhs).saturating_applied(rhs) == lhs,
        Delta::between_spec(lhs, rhs).checked_applied(rhs) == Some(lhs),
        Delta::between_spec(lhs, rhs) matches Delta::Positive(d) ==> rhs + d == lhs,
{
}

/// Applying the difference of `lhs` and `rhs` to `rhs` gives `lhs` back,
/// by each way of applying it.
pub proof fn lemma_between_then_apply_u16(lhs: u16, rhs: u16)
    ensures
        Delta::between_spec(lhs, rhs).saturating_applied(rhs) == lhs,
        Delta::between_spec(lhs, rhs).checked_applied(rhs) == Some(lhs),
        Delta::between_spec(lhs, rhs) matches Delta::Positive(d) ==> rhs + d == lhs,
{
}

/// Applying the difference of `lhs` and `rhs` to `rhs` gives `lhs` back,
/// by each way of applying it.
pub proof fn lemma_between_then_apply_u32(lhs: u32, rhs: u32)
    ensures
        Delta::between_spec(lhs, rhs).saturating_applied(rhs) == lhs,
        Delta::between_spec(lhs, rhs).checked_applied(rhs) == Some(lhs),
        Delta::between_spec(lhs, rhs) matches Delta::Positive(d) ==> rhs + d == lhs,
{
}

/// Applying the difference of `lhs` and `rhs` to `rhs` gives `lhs` back,
/// by each way of applying it.
pub proof fn lemma_between_then_apply_u64(lhs: u64, rhs: u64)
    ensures
        Delta::between_spec(lhs, rhs).saturating_applied(rhs) == lhs,
        Delta::between_spec(lhs, rhs).checked_applied(rhs) == Some(lhs),
        Delta::between_spec(lhs, rhs) matches Delta::Positive(d) ==> rhs + d == lhs,
{
}

/// Applying the difference of `lhs` and `rhs` to `rhs` gives `lhs` back,
/// by each way of applying it.
pub proof fn lemma_between_then_apply_u128(lhs: u128, rhs: u128)
    ensures
        Delta::between_spec(lhs, rhs).saturating_applied(rhs) == lhs,
        Delta::between_spec(lhs, rhs).checked_applied(rhs) == Some(lhs),
        Delta::between_spec(lhs, rhs) matches Delta::Positive(d) ==> rhs + d == lhs,
{
}

/// Applying the difference of `lhs` and `rhs` to `rhs` gives `lhs` back,
/// by each way of applying it.
pub proof fn lemma_between_then_apply_usize(lhs: usize, rhs: usize)
    ensures
        Delta::between_spec(lhs, rhs).saturating_applied(rhs) == lhs,
        Delta::between_spec(lhs, rhs).checked_applied(rhs) == Some(lhs),
        Delta::between_spec(lhs, rhs) matches Delta::Positive(d) ==> rhs + d == lhs,
{
}

} // verus!
