use vstd::prelude::*;
use vstd::std_specs::ops::{AddSpec, SubSpec};

use crate::ops::checked::{CheckedAdd, CheckedSub};
use crate::traits::{LowerBounded, NonNegative, UpperBounded, Validated};

verus! {

/// The saturating version of `std::ops::Add`.
pub trait SaturatingAdd<Rhs = Self>: Sized {
    /// The resulting type after applying the saturating addition operator.
    type Output;

    /// What this implementation needs of the operands; by default nothing.
    open spec fn saturating_add_req(self, rhs: Rhs) -> bool {
        true
    }

    /// Whether this implementation promises `saturating_add_result`. An
    /// implementation that is not verified keeps the default, `false`, and
    /// then nothing is promised of what it returns.
    open spec fn obeys_saturating_add_spec() -> bool {
        false
    }

    /// What `saturating_add` returns.
    open spec fn saturating_add_result(self, rhs: Rhs) -> Self::Output {
        arbitrary()
    }

    /// Performs the `+` operation. Returns the maximal value of `Output`
    /// if the result is out of valid range.
    fn saturating_add(self, rhs: Rhs) -> (r: Self::Output)
        requires
            self.saturating_add_req(rhs),
        ensures
            Self::obeys_saturating_add_spec() ==> r == self.saturating_add_result(rhs),
    ;
}

/// The saturating version of `std::ops::Sub`.
pub trait SaturatingSub<Rhs = Self>: Sized {
    /// The resulting type after applying the saturating subtraction operator.
    type Output;

    /// What this implementation needs of the operands; by default nothing.
    open spec fn saturating_sub_req(self, rhs: Rhs) -> bool {
        true
    }

    /// Whether this implementation promises `saturating_sub_result`. An
    /// implementation that is not verified keeps the default, `false`, and
    /// then nothing is promised of what it returns.
    open spec fn obeys_saturating_sub_spec() -> bool {
        false
    }

    /// What `saturating_sub` returns.
    open spec fn saturating_sub_result(self, rhs: Rhs) -> Self::Output {
        arbitrary()
    }

    /// Performs the `-` operation. Returns the minimal value of `Output`
    /// if the result is out of valid range.
    fn saturating_sub(self, rhs: Rhs) -> (r: Self::Output)
        requires
            self.saturating_sub_req(rhs),
        ensures
            Self::obeys_saturating_sub_spec() ==> r == self.saturating_sub_result(rhs),
    ;
}

/// `v` clamped into `[lo, hi]`.
pub open spec fn clamp_int(v: int, lo: int, hi: int) -> int {
    if v < lo {
        lo
    } else if v > hi {
        hi
    } else {
        v
    }
}

impl SaturatingAdd for u8 {
    type Output = Self;

    open spec fn obeys_saturating_add_spec() -> bool {
        true
    }

    open spec fn saturating_add_result(self, rhs: Self) -> Self {
        clamp_int(self + rhs, u8::MIN as int, u8::MAX as int) as u8
    }

    fn saturating_add(self, rhs: Self) -> (r: Self) {
        u8::saturating_add(self, rhs)
    }
}

impl SaturatingSub for u8 {
    type Output = Self;

    open spec fn obeys_saturating_sub_spec() -> bool {
        true
    }

    open spec fn saturating_sub_result(self, rhs: Self) -> Self {
        clamp_int(self - rhs, u8::MIN as int, u8::MAX as int) as u8
    }

    fn saturating_sub(self, rhs: Self) -> (r: Self) {
        u8::saturating_sub(self, rhs)
    }
}

impl SaturatingAdd for u16 {
    type Output = Self;

    open spec fn obeys_saturating_add_spec() -> bool {
        true
    }

    open spec fn saturating_add_result(self, rhs: Self) -> Self {
        clamp_int(self + rhs, u16::MIN as int, u16::MAX as int) as u16
    }

    fn saturating_add(self, rhs: Self) -> (r: Self) {
        u16::saturating_add(self, rhs)
    }
}

impl SaturatingSub for u16 {
    type Output = Self;

    open spec fn obeys_saturating_sub_spec() -> bool {
        true
    }

    open spec fn saturating_sub_result(self, rhs: Self) -> Self {
        clamp_int(self - rhs, u16::MIN as int, u16::MAX as int) as u16
    }

    fn saturating_sub(self, rhs: Self) -> (r: Self) {
        u16::saturating_sub(self, rhs)
    }
}

impl SaturatingAdd for u32 {
    type Output = Self;

    open spec fn obeys_saturating_add_spec() -> bool {
        true
    }

    open spec fn saturating_add_result(self, rhs: Self) -> Self {
        clamp_int(self + rhs, u32::MIN as int, u32::MAX as int) as u32
    }

    fn saturating_add(self, rhs: Self) -> (r: Self) {
        u32::saturating_add(self, rhs)
    }
}

impl SaturatingSub for u32 {
    type Output = Self;

    open spec fn obeys_saturating_sub_spec() -> bool {
        true
    }

    open spec fn saturating_sub_result(self, rhs: Self) -> Self {
        clamp_int(self - rhs, u32::MIN as int, u32::MAX as int) as u32
    }

    fn saturating_sub(self, rhs: Self) -> (r: Self) {
        u32::saturating_sub(self, rhs)
    }
}

impl SaturatingAdd for u64 {
    type Output = Self;

    open spec fn obeys_saturating_add_spec() -> bool {
        true
    }

    open spec fn saturating_add_result(self, rhs: Self) -> Self {
        clamp_int(self + rhs, u64::MIN as int, u64::MAX as int) as u64
    }

    fn saturating_add(self, rhs: Self) -> (r: Self) {
        u64::saturating_add(self, rhs)
    }
}

impl SaturatingSub for u64 {
    type Output = Self;

    open spec fn obeys_saturating_sub_spec() -> bool {
        true
    }

    open spec fn saturating_sub_result(self, rhs: Self) -> Self {
        clamp_int(self - rhs, u64::MIN as int, u64::MAX as int) as u64
    }

    fn saturating_sub(self, rhs: Self) -> (r: Self) {
        u64::saturating_sub(self, rhs)
    }
}

impl SaturatingAdd for u128 {
    type Output = Self;

    open spec fn obeys_saturating_add_spec() -> bool {
        true
    }

    open spec fn saturating_add_result(self, rhs: Self) -> Self {
        clamp_int(self + rhs, u128::MIN as int, u128::MAX as int) as u128
    }

    fn saturating_add(self, rhs: Self) -> (r: Self) {
        u128::saturating_add(self, rhs)
    }
}

impl SaturatingSub for u128 {
    type Output = Self;

    open spec fn obeys_saturating_sub_spec() -> bool {
        true
    }

    open spec fn saturating_sub_result(self, rhs: Self) -> Self {
        clamp_int(self - rhs, u128::MIN as int, u128::MAX as int) as u128
    }

    fn saturating_sub(self, rhs: Self) -> (r: Self) {
        u128::saturating_sub(self, rhs)
    }
}

impl SaturatingAdd for usize {
    type Output = Self;

    open spec fn obeys_saturating_add_spec() -> bool {
        true
    }

    open spec fn saturating_add_result(self, rhs: Self) -> Self {
        clamp_int(self + rhs, usize::MIN as int, usize::MAX as int) as usize
    }

    fn saturating_add(self, rhs: Self) -> (r: Self) {
        usize::saturating_add(self, rhs)
    }
}

impl SaturatingSub for usize {
    type Output = Self;

    open spec fn obeys_saturating_sub_spec() -> bool {
        true
    }

    open spec fn saturating_sub_result(self, rhs: Self) -> Self {
        clamp_int(self - rhs, usize::MIN as int, usize::MAX as int) as usize
    }

    fn saturating_sub(self, rhs: Self) -> (r: Self) {
        usize::saturating_sub(self, rhs)
    }
}

impl SaturatingAdd for i8 {
    type Output = Self;

    open spec fn obeys_saturating_add_spec() -> bool {
        true
    }

    open spec fn saturating_add_result(self, rhs: Self) -> Self {
        clamp_int(self + rhs, i8::MIN as int, i8::MAX as int) as i8
    }

    fn saturating_add(self, rhs: Self) -> (r: Self) {
        match i8::checked_add(self, rhs) {
            Some(v) => v,
            None => if rhs > 0 {
                i8::MAX
            } else {
                i8::MIN
            },
        }
    }
}

impl SaturatingSub for i8 {
    type Output = Self;

    open spec fn obeys_saturating_sub_spec() -> bool {
        true
    }

    open spec fn saturating_sub_result(self, rhs: Self) -> Self {
        clamp_int(self - rhs, i8::MIN as int, i8::MAX as int) as i8
    }

    fn saturating_sub(self, rhs: Self) -> (r: Self) {
        match i8::checked_sub(self, rhs) {
            Some(v) => v,
            None => if rhs < 0 {
                i8::MAX
            } else {
                i8::MIN
            },
        }
    }
}

impl SaturatingAdd for i16 {
    type Output = Self;

    open spec fn obeys_saturating_add_spec() -> bool {
        true
    }

    open spec fn saturating_add_result(self, rhs: Self) -> Self {
        clamp_int(self + rhs, i16::MIN as int, i16::MAX as int) as i16
    }

    fn saturating_add(self, rhs: Self) -> (r: Self) {
        match i16::checked_add(self, rhs) {
            Some(v) => v,
            None => if rhs > 0 {
                i16::MAX
            } else {
                i16::MIN
            },
        }
    }
}

impl SaturatingSub for i16 {
    type Output = Self;

    open spec fn obeys_saturating_sub_spec() -> bool {
        true
    }

    open spec fn saturating_sub_result(self, rhs: Self) -> Self {
        clamp_int(self - rhs, i16::MIN as int, i16::MAX as int) as i16
    }

    fn saturating_sub(self, rhs: Self) -> (r: Self) {
        match i16::checked_sub(self, rhs) {
            Some(v) => v,
            None => if rhs < 0 {
                i16::MAX
            } else {
                i16::MIN
            },
        }
    }
}

impl SaturatingAdd for i32 {
    type Output = Self;

    open spec fn obeys_saturating_add_spec() -> bool {
        true
    }

    open spec fn saturating_add_result(self, rhs: Self) -> Self {
        clamp_int(self + rhs, i32::MIN as int, i32::MAX as int) as i32
    }

    fn saturating_add(self, rhs: Self) -> (r: Self) {
        match i32::checked_add(self, rhs) {
            Some(v) => v,
            None => if rhs > 0 {
                i32::MAX
            } else {
                i32::MIN
            },
        }
    }
}

impl SaturatingSub for i32 {
    type Output = Self;

    open spec fn obeys_saturating_sub_spec() -> bool {
        true
    }

    open spec fn saturating_sub_result(self, rhs: Self) -> Self {
        clamp_int(self - rhs, i32::MIN as int, i32::MAX as int) as i32
    }

    fn saturating_sub(self, rhs: Self) -> (r: Self) {
        match i32::checked_sub(self, rhs) {
            Some(v) => v,
            None => if rhs < 0 {
                i32::MAX
            } else {
                i32::MIN
            },
        }
    }
}

impl SaturatingAdd for i64 {
    type Output = Self;

    open spec fn obeys_saturating_add_spec() -> bool {
        true
    }

    open spec fn saturating_add_result(self, rhs: Self) -> Self {
        clamp_int(self + rhs, i64::MIN as int, i64::MAX as int) as i64
    }

    fn saturating_add(self, rhs: Self) -> (r: Self) {
        match i64::checked_add(self, rhs) {
            Some(v) => v,
            None => if rhs > 0 {
                i64::MAX
            } else {
                i64::MIN
            },
        }
    }
}

impl SaturatingSub for i64 {
    type Output = Self;

    open spec fn obeys_saturating_sub_spec() -> bool {
        true
    }

    open spec fn saturating_sub_result(self, rhs: Self) -> Self {
        clamp_int(self - rhs, i64::MIN as int, i64::MAX as int) as i64
    }

    fn saturating_sub(self, rhs: Self) -> (r: Self) {
        match i64::checked_sub(self, rhs) {
            Some(v) => v,
            None => if rhs < 0 {
                i64::MAX
            } else {
                i64::MIN
            },
        }
    }
}

impl SaturatingAdd for i128 {
    type Output = Self;

    open spec fn obeys_saturating_add_spec() -> bool {
        true
    }

    open spec fn saturating_add_result(self, rhs: Self) -> Self {
        clamp_int(self + rhs, i128::MIN as int, i128::MAX as int) as i128
    }

    fn saturating_add(self, rhs: Self) -> (r: Self) {
        match i128::checked_add(self, rhs) {
            Some(v) => v,
            None => if rhs > 0 {
                i128::MAX
            } else {
                i128::MIN
            },
        }
    }
}

impl SaturatingSub for i128 {
    type Output = Self;

    open spec fn obeys_saturating_sub_spec() -> bool {
        true
    }

    open spec fn saturating_sub_result(self, rhs: Self) -> Self {
        clamp_int(self - rhs, i128::MIN as int, i128::MAX as int) as i128
    }

    fn saturating_sub(self, rhs: Self) -> (r: Self) {
        match i128::checked_sub(self, rhs) {
            Some(v) => v,
            None => if rhs < 0 {
                i128::MAX
            } else {
                i128::MIN
            },
        }
    }
}

impl SaturatingAdd for isize {
    type Output = Self;

    open spec fn obeys_saturating_add_spec() -> bool {
        true
    }

    open spec fn saturating_add_result(self, rhs: Self) -> Self {
        clamp_int(self + rhs, isize::MIN as int, isize::MAX as int) as isize
    }

    fn saturating_add(self, rhs: Self) -> (r: Self) {
        match isize::checked_add(self, rhs) {
            Some(v) => v,
            None => if rhs > 0 {
                isize::MAX
            } else {
                isize::MIN
            },
        }
    }
}

impl SaturatingSub for isize {
    type Output = Self;

    open spec fn obeys_saturating_sub_spec() -> bool {
        true
    }

    open spec fn saturating_sub_result(self, rhs: Self) -> Self {
        clamp_int(self - rhs, isize::MIN as int, isize::MAX as int) as isize
    }

    fn saturating_sub(self, rhs: Self) -> (r: Self) {
        match isize::checked_sub(self, rhs) {
            Some(v) => v,
            None => if rhs < 0 {
                isize::MAX
            } else {
                isize::MIN
            },
        }
    }
}

/// A non-negative quantity's sum is the quantity that the sum of the
/// representations validates to, or the largest quantity where that sum is
/// not valid.
impl<T: Validated + NonNegative + UpperBounded> SaturatingAdd for T where
    T::Repr: core::ops::Add<Output = T::Repr>,
 {
    type Output = Self;

    /// The addition of the two representations must be defined; where the
    /// implementation makes no promise of its representations, that of any
    /// two.
    open spec fn saturating_add_req(self, rhs: Self) -> bool {
        if T::obeys_validated_spec() {
            self.repr().add_req(rhs.repr())
        } else {
            forall|a: T::Repr, b: T::Repr| #[trigger] a.add_req(b)
        }
    }

    open spec fn obeys_saturating_add_spec() -> bool {
        T::obeys_validated_spec() && <T::Repr as AddSpec>::obeys_add_spec()
    }

    open spec fn saturating_add_result(self, rhs: Self) -> Self {
        match T::validated(self.repr().add_spec(rhs.repr())) {
            Some(v) => v,
            None => T::MAX,
        }
    }

    fn saturating_add(self, rhs: Self) -> (r: Self) {
        match T::validate(self.as_repr() + rhs.as_repr()) {
            Some(v) => v,
            None => T::MAX,
        }
    }
}

/// A non-negative quantity's difference is the quantity that the difference
/// of the representations validates to, or the smallest quantity where that
/// difference is not valid.
impl<T: Validated + NonNegative + LowerBounded> SaturatingSub for T where
    T::Repr: core::ops::Sub<Output = T::Repr>,
 {
    type Output = Self;

    /// The subtraction of the two representations must be defined; where the
    /// implementation makes no promise of its representations, that of any
    /// two.
    open spec fn saturating_sub_req(self, rhs: Self) -> bool {
        if T::obeys_validated_spec() {
            self.repr().sub_req(rhs.repr())
        } else {
            forall|a: T::Repr, b: T::Repr| #[trigger] a.sub_req(b)
        }
    }

    open spec fn obeys_saturating_sub_spec() -> bool {
        T::obeys_validated_spec() && <T::Repr as SubSpec>::obeys_sub_spec()
    }

    open spec fn saturating_sub_result(self, rhs: Self) -> Self {
        match T::validated(self.repr().sub_spec(rhs.repr())) {
            Some(v) => v,
            None => T::MIN,
        }
    }

    fn saturating_sub(self, rhs: Self) -> (r: Self) {
        match T::validate(self.as_repr() - rhs.as_repr()) {
            Some(v) => v,
            None => T::MIN,
        }
    }
}

/// Saturating arithmetic on `u8` agrees with checked arithmetic where
/// that succeeds, and gives the bound that the result passed otherwise.
pub proof fn lemma_saturating_agrees_with_checked_u8(a: u8, b: u8)
    ensures
        a.saturating_add_result(b) == match a.checked_add_result(b) {
            Some(v) => v,
            None => if a + b > u8::MAX {
                u8::MAX
            } else {
                u8::MIN
            },
        },
        a.saturating_sub_result(b) == match a.checked_sub_result(b) {
            Some(v) => v,
            None => if a - b > u8::MAX {
                u8::MAX
            } else {
                u8::MIN
            },
        },
{
}

/// Saturating arithmetic on `u16` agrees with checked arithmetic where
/// that succeeds, and gives the bound that the result passed otherwise.
pub proof fn lemma_saturating_agrees_with_checked_u16(a: u16, b: u16)
    ensures
        a.saturating_add_result(b) == match a.checked_add_result(b) {
            Some(v) => v,
            None => if a + b > u16::MAX {
                u16::MAX
            } else {
                u16::MIN
            },
        },
        a.saturating_sub_result(b) == match a.checked_sub_result(b) {
            Some(v) => v,
            None => if a - b > u16::MAX {
                u16::MAX
            } else {
                u16::MIN
            },
        },
{
}

/// Saturating arithmetic on `u32` agrees with checked arithmetic where
/// that succeeds, and gives the bound that the result passed otherwise.
pub proof fn lemma_saturating_agrees_with_checked_u32(a: u32, b: u32)
    ensures
        a.saturating_add_result(b) == match a.checked_add_result(b) {
            Some(v) => v,
            None => if a + b > u32::MAX {
                u32::MAX
            } else {
                u32::MIN
            },
        },
        a.saturating_sub_result(b) == match a.checked_sub_result(b) {
            Some(v) => v,
            None => if a - b > u32::MAX {
                u32::MAX
            } else {
                u32::MIN
            },
        },
{
}

/// Saturating arithmetic on `u64` agrees with checked arithmetic where
/// that succeeds, and gives the bound that the result passed otherwise.
pub proof fn lemma_saturating_agrees_with_checked_u64(a: u64, b: u64)
    ensures
        a.saturating_add_result(b) == match a.checked_add_result(b) {
            Some(v) => v,
            None => if a + b > u64::MAX {
                u64::MAX
            } else {
                u64::MIN
            },
        },
        a.saturating_sub_result(b) == match a.checked_sub_result(b) {
            Some(v) => v,
            None => if a - b > u64::MAX {
                u64::MAX
            } else {
                u64::MIN
            },
        },
{
}

/// Saturating arithmetic on `u128` agrees with checked arithmetic where
/// that succeeds, and gives the bound that the result passed otherwise.
pub proof fn lemma_saturating_agrees_with_checked_u128(a: u128, b: u128)
    ensures
        a.saturating_add_result(b) == match a.checked_add_result(b) {
            Some(v) => v,
            None => if a + b > u128::MAX {
                u128::MAX
            } else {
                u128::MIN
            },
        },
        a.saturating_sub_result(b) == match a.checked_sub_result(b) {
            Some(v) => v,
            None => if a - b > u128::MAX {
                u128::MAX
            } else {
                u128::MIN
            },
        },
{
}

/// Saturating arithmetic on `usize` agrees with checked arithmetic where
/// that succeeds, and gives the bound that the result passed otherwise.
pub proof fn lemma_saturating_agrees_with_checked_usize(a: usize, b: usize)
    ensures
        a.saturating_add_result(b) == match a.checked_add_result(b) {
            Some(v) => v,
            None => if a + b > usize::MAX {
                usize::MAX
            } else {
                usize::MIN
            },
        },
        a.saturating_sub_result(b) == match a.checked_sub_result(b) {
            Some(v) => v,
            None => if a - b > usize::MAX {
                usize::MAX
            } else {
                usize::MIN
            },
        },
{
}

/// Saturating arithmetic on `i8` agrees with checked arithmetic where
/// that succeeds, and gives the bound that the result passed otherwise.
pub proof fn lemma_saturating_agrees_with_checked_i8(a: i8, b: i8)
    ensures
        a.saturating_add_result(b) == match a.checked_add_result(b) {
            Some(v) => v,
            None => if a + b > i8::MAX {
                i8::MAX
            } else {
                i8::MIN
            },
        },
        a.saturating_sub_result(b) == match a.checked_sub_result(b) {
            Some(v) => v,
            None => if a - b > i8::MAX {
                i8::MAX
            } else {
                i8::MIN
            },
        },
{
}

/// Saturating arithmetic on `i16` agrees with checked arithmetic where
/// that succeeds, and gives the bound that the result passed otherwise.
pub proof fn lemma_saturating_agrees_with_checked_i16(a: i16, b: i16)
    ensures
        a.saturating_add_result(b) == match a.checked_add_result(b) {
            Some(v) => v,
            None => if a + b > i16::MAX {
                i16::MAX
            } else {
                i16::MIN
            },
        },
        a.saturating_sub_result(b) == match a.checked_sub_result(b) {
            Some(v) => v,
            None => if a - b > i16::MAX {
                i16::MAX
            } else {
                i16::MIN
            },
        },
{
}

/// Saturating arithmetic on `i32` agrees with checked arithmetic where
/// that succeeds, and gives the bound that the result passed otherwise.
pub proof fn lemma_saturating_agrees_with_checked_i32(a: i32, b: i32)
    ensures
        a.saturating_add_result(b) == match a.checked_add_result(b) {
            Some(v) => v,
            None => if a + b > i32::MAX {
                i32::MAX
            } else {
                i32::MIN
            },
        },
        a.saturating_sub_result(b) == match a.checked_sub_result(b) {
            Some(v) => v,
            None => if a - b > i32::MAX {
                i32::MAX
            } else {
                i32::MIN
            },
        },
{
}

/// Saturating arithmetic on `i64` agrees with checked arithmetic where
/// that succeeds, and gives the bound that the result passed otherwise.
pub proof fn lemma_saturating_agrees_with_checked_i64(a: i64, b: i64)
    ensures
        a.saturating_add_result(b) == match a.checked_add_result(b) {
            Some(v) => v,
            None => if a + b > i64::MAX {
                i64::MAX
            } else {
                i64::MIN
            },
        },
        a.saturating_sub_result(b) == match a.checked_sub_result(b) {
            Some(v) => v,
            None => if a - b > i64::MAX {
                i64::MAX
            } else {
                i64::MIN
            },
        },
{
}

/// Saturating arithmetic on `i128` agrees with checked arithmetic where
/// that succeeds, and gives the bound that the result passed otherwise.
pub proof fn lemma_saturating_agrees_with_checked_i128(a: i128, b: i128)
    ensures
        a.saturating_add_result(b) == match a.checked_add_result(b) {
            Some(v) => v,
            None => if a + b > i128::MAX {
                i128::MAX
            } else {
                i128::MIN
            },
        },
        a.saturating_sub_result(b) == match a.checked_sub_result(b) {
            Some(v) => v,
            None => if a - b > i128::MAX {
                i128::MAX
            } else {
                i128::MIN
            },
        },
{
}

/// Saturating arithmetic on `isize` agrees with checked arithmetic where
/// that succeeds, and gives the bound that the result passed otherwise.
pub proof fn lemma_saturating_agrees_with_checked_isize(a: isize, b: isize)
    ensures
        a.saturating_add_result(b) == match a.checked_add_result(b) {
            Some(v) => v,
            None => if a + b > isize::MAX {
                isize::MAX
            } else {
                isize::MIN
            },
        },
        a.saturating_sub_result(b) == match a.checked_sub_result(b) {
            Some(v) => v,
            None => if a - b > isize::MAX {
                isize::MAX
            } else {
                isize::MIN
            },
        },
{
}

/// Saturating arithmetic on `u8` gives the mathematical sum and difference
/// where it is a `u8`, and otherwise the bound that it passed.
pub proof fn lemma_saturating_exact_u8(a: u8, b: u8)
    ensures
        u8::MIN <= a + b <= u8::MAX ==> a.saturating_add_result(b) == a + b,
        a + b > u8::MAX ==> a.saturating_add_result(b) == u8::MAX,
        a + b < u8::MIN ==> a.saturating_add_result(b) == u8::MIN,
        u8::MIN <= a - b <= u8::MAX ==> a.saturating_sub_result(b) == a - b,
        a - b > u8::MAX ==> a.saturating_sub_result(b) == u8::MAX,
        a - b < u8::MIN ==> a.saturating_sub_result(b) == u8::MIN,
{
}

/// Saturating arithmetic on `u16` gives the mathematical sum and difference
/// where it is a `u16`, and otherwise the bound that it passed.
pub proof fn lemma_saturating_exact_u16(a: u16, b: u16)
    ensures
        u16::MIN <= a + b <= u16::MAX ==> a.saturating_add_result(b) == a + b,
        a + b > u16::MAX ==> a.saturating_add_result(b) == u16::MAX,
        a + b < u16::MIN ==> a.saturating_add_result(b) == u16::MIN,
        u16::MIN <= a - b <= u16::MAX ==> a.saturating_sub_result(b) == a - b,
        a - b > u16::MAX ==> a.saturating_sub_result(b) == u16::MAX,
        a - b < u16::MIN ==> a.saturating_sub_result(b) == u16::MIN,
{
}

/// Saturating arithmetic on `u32` gives the mathematical sum and difference
/// where it is a `u32`, and otherwise the bound that it passed.
pub proof fn lemma_saturating_exact_u32(a: u32, b: u32)
    ensures
        u32::MIN <= a + b <= u32::MAX ==> a.saturating_add_result(b) == a + b,
        a + b > u32::MAX ==> a.saturating_add_result(b) == u32::MAX,
        a + b < u32::MIN ==> a.saturating_add_result(b) == u32::MIN,
        u32::MIN <= a - b <= u32::MAX ==> a.saturating_sub_result(b) == a - b,
        a - b > u32::MAX ==> a.saturating_sub_result(b) == u32::MAX,
        a - b < u32::MIN ==> a.saturating_sub_result(b) == u32::MIN,
{
}

/// Saturating arithmetic on `u64` gives the mathematical sum and difference
/// where it is a `u64`, and otherwise the bound that it passed.
pub proof fn lemma_saturating_exact_u64(a: u64, b: u64)
    ensures
        u64::MIN <= a + b <= u64::MAX ==> a.saturating_add_result(b) == a + b,
        a + b > u64::MAX ==> a.saturating_add_result(b) == u64::MAX,
        a + b < u64::MIN ==> a.saturating_add_result(b) == u64::MIN,
        u64::MIN <= a - b <= u64::MAX ==> a.saturating_sub_result(b) == a - b,
        a - b > u64::MAX ==> a.saturating_sub_result(b) == u64::MAX,
        a - b < u64::MIN ==> a.saturating_sub_result(b) == u64::MIN,
{
}

/// Saturating arithmetic on `u128` gives the mathematical sum and difference
/// where it is a `u128`, and otherwise the bound that it passed.
pub proof fn lemma_saturating_exact_u128(a: u128, b: u128)
    ensures
        u128::MIN <= a + b <= u128::MAX ==> a.saturating_add_result(b) == a + b,
        a + b > u128::MAX ==> a.saturating_add_result(b) == u128::MAX,
        a + b < u128::MIN ==> a.saturating_add_result(b) == u128::MIN,
        u128::MIN <= a - b <= u128::MAX ==> a.saturating_sub_result(b) == a - b,
        a - b > u128::MAX ==> a.saturating_sub_result(b) == u128::MAX,
        a - b < u128::MIN ==> a.saturating_sub_result(b) == u128::MIN,
{
}

/// Saturating arithmetic on `usize` gives the mathematical sum and difference
/// where it is a `usize`, and otherwise the bound that it passed.
pub proof fn lemma_saturating_exact_usize(a: usize, b: usize)
    ensures
        usize::MIN <= a + b <= usize::MAX ==> a.saturating_add_result(b) == a + b,
        a + b > usize::MAX ==> a.saturating_add_result(b) == usize::MAX,
        a + b < usize::MIN ==> a.saturating_add_result(b) == usize::MIN,
        usize::MIN <= a - b <= usize::MAX ==> a.saturating_sub_result(b) == a - b,
        a - b > usize::MAX ==> a.saturating_sub_result(b) == usize::MAX,
        a - b < usize::MIN ==> a.saturating_sub_result(b) == usize::MIN,
{
}

/// Saturating arithmetic on `i8` gives the mathematical sum and difference
/// where it is a `i8`, and otherwise the bound that it passed.
pub proof fn lemma_saturating_exact_i8(a: i8, b: i8)
    ensures
        i8::MIN <= a + b <= i8::MAX ==> a.saturating_add_result(b) == a + b,
        a + b > i8::MAX ==> a.saturating_add_result(b) == i8::MAX,
        a + b < i8::MIN ==> a.saturating_add_result(b) == i8::MIN,
        i8::MIN <= a - b <= i8::MAX ==> a.saturating_sub_result(b) == a - b,
        a - b > i8::MAX ==> a.saturating_sub_result(b) == i8::MAX,
        a - b < i8::MIN ==> a.saturating_sub_result(b) == i8::MIN,
{
}

/// Saturating arithmetic on `i16` gives the mathematical sum and difference
/// where it is a `i16`, and otherwise the bound that it passed.
pub proof fn lemma_saturating_exact_i16(a: i16, b: i16)
    ensures
        i16::MIN <= a + b <= i16::MAX ==> a.saturating_add_result(b) == a + b,
        a + b > i16::MAX ==> a.saturating_add_result(b) == i16::MAX,
        a + b < i16::MIN ==> a.saturating_add_result(b) == i16::MIN,
        i16::MIN <= a - b <= i16::MAX ==> a.saturating_sub_result(b) == a - b,
        a - b > i16::MAX ==> a.saturating_sub_result(b) == i16::MAX,
        a - b < i16::MIN ==> a.saturating_sub_result(b) == i16::MIN,
{
}

/// Saturating arithmetic on `i32` gives the mathematical sum and difference
/// where it is a `i32`, and otherwise the bound that it passed.
pub proof fn lemma_saturating_exact_i32(a: i32, b: i32)
    ensures
        i32::MIN <= a + b <= i32::MAX ==> a.saturating_add_result(b) == a + b,
        a + b > i32::MAX ==> a.saturating_add_result(b) == i32::MAX,
        a + b < i32::MIN ==> a.saturating_add_result(b) == i32::MIN,
        i32::MIN <= a - b <= i32::MAX ==> a.saturating_sub_result(b) == a - b,
        a - b > i32::MAX ==> a.saturating_sub_result(b) == i32::MAX,
        a - b < i32::MIN ==> a.saturating_sub_result(b) == i32::MIN,
{
}

/// Saturating arithmetic on `i64` gives the mathematical sum and difference
/// where it is a `i64`, and otherwise the bound that it passed.
pub proof fn lemma_saturating_exact_i64(a: i64, b: i64)
    ensures
        i64::MIN <= a + b <= i64::MAX ==> a.saturating_add_result(b) == a + b,
        a + b > i64::MAX ==> a.saturating_add_result(b) == i64::MAX,
        a + b < i64::MIN ==> a.saturating_add_result(b) == i64::MIN,
        i64::MIN <= a - b <= i64::MAX ==> a.saturating_sub_result(b) == a - b,
        a - b > i64::MAX ==> a.saturating_sub_result(b) == i64::MAX,
        a - b < i64::MIN ==> a.saturating_sub_result(b) == i64::MIN,
{
}

/// Saturating arithmetic on `i128` gives the mathematical sum and difference
/// where it is a `i128`, and otherwise the bound that it passed.
pub proof fn lemma_saturating_exact_i128(a: i128, b: i128)
    ensures
        i128::MIN <= a + b <= i128::MAX ==> a.saturating_add_result(b) == a + b,
        a + b > i128::MAX ==> a.saturating_add_result(b) == i128::MAX,
        a + b < i128::MIN ==> a.saturating_add_result(b) == i128::MIN,
        i128::MIN <= a - b <= i128::MAX ==> a.saturating_sub_result(b) == a - b,
        a - b > i128::MAX ==> a.saturating_sub_result(b) == i128::MAX,
        a - b < i128::MIN ==> a.saturating_sub_result(b) == i128::MIN,
{
}

/// Saturating arithmetic on `isize` gives the mathematical sum and difference
/// where it is a `isize`, and otherwise the bound that it passed.
pub proof fn lemma_saturating_exact_isize(a: isize, b: isize)
    ensures
        isize::MIN <= a + b <= isize::MAX ==> a.saturating_add_result(b) == a + b,
        a + b > isize::MAX ==> a.saturating_add_result(b) == isize::MAX,
        a + b < isize::MIN ==> a.saturating_add_result(b) == isize::MIN,
        isize::MIN <= a - b <= isize::MAX ==> a.saturating_sub_result(b) == a - b,
        a - b > isize::MAX ==> a.saturating_sub_result(b) == isize::MAX,
        a - b < isize::MIN ==> a.saturating_sub_result(b) == isize::MIN,
{
}

/// A validated non-negative quantity saturates exactly where its checked
/// arithmetic fails: at its largest value when adding and its smallest when
/// subtracting.
pub proof fn lemma_saturating_agrees_with_checked<
    T: Validated + NonNegative + UpperBounded + LowerBounded,
>(a: T, b: T) where
    T::Repr: core::ops::Add<Output = T::Repr> + core::ops::Sub<Output = T::Repr>,
    ensures
        a.saturating_add_result(b) == match a.checked_add_result(b) {
            Some(v) => v,
            None => T::MAX,
        },
        a.saturating_sub_result(b) == match a.checked_sub_result(b) {
            Some(v) => v,
            None => T::MIN,
        },
{
}

} // verus!
