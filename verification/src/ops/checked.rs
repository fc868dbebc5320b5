use vstd::prelude::*;
use vstd::arithmetic::div_mod::{lemma_fundamental_div_mod, lemma_fundamental_div_mod_converse};
use vstd::std_specs::ops::{AddSpec, SubSpec};

use crate::traits::Validated;

verus! {

/// The checked version of `std::ops::Add`.
pub trait CheckedAdd<Rhs = Self>: Sized {
    /// The resulting type after applying the checked addition operator.
    type Output;

    /// What this implementation needs of the operands; by default nothing.
    open spec fn checked_add_req(self, rhs: Rhs) -> bool {
        true
    }

    /// Whether this implementation promises `checked_add_result`. An
    /// implementation that is not verified keeps the default, `false`, and
    /// then nothing is promised of what it returns.
    open spec fn obeys_checked_add_spec() -> bool {
        false
    }

    /// What `checked_add` returns: `None` exactly when the sum is not a
    /// valid `Output`.
    open spec fn checked_add_result(self, rhs: Rhs) -> Option<Self::Output> {
        None
    }

    /// Performs the `+` operation. Returns `None` if the result is invalid.
    fn checked_add(self, rhs: Rhs) -> (r: Option<Self::Output>)
        requires
            self.checked_add_req(rhs),
        ensures
            Self::obeys_checked_add_spec() ==> r == self.checked_add_result(rhs),
    ;
}

/// The checked version of `std::ops::Sub`.
pub trait CheckedSub<Rhs = Self>: Sized {
    /// The resulting type after applying the checked subtraction operator.
    type Output;

    /// What this implementation needs of the operands; by default nothing.
    open spec fn checked_sub_req(self, rhs: Rhs) -> bool {
        true
    }

    /// Whether this implementation promises `checked_sub_result`. An
    /// implementation that is not verified keeps the default, `false`, and
    /// then nothing is promised of what it returns.
    open spec fn obeys_checked_sub_spec() -> bool {
        false
    }

    /// What `checked_sub` returns: `None` exactly when the difference is not
    /// a valid `Output`.
    open spec fn checked_sub_result(self, rhs: Rhs) -> Option<Self::Output> {
        None
    }

    /// Performs the `-` operation. Returns `None` if the result is invalid.
    fn checked_sub(self, rhs: Rhs) -> (r: Option<Self::Output>)
        requires
            self.checked_sub_req(rhs),
        ensures
            Self::obeys_checked_sub_spec() ==> r == self.checked_sub_result(rhs),
    ;
}

/// The checked version of `std::ops::Mul`.
pub trait CheckedMul<Rhs = Self>: Sized {
    /// The resulting type after applying the checked multiplication operator.
    type Output;

    /// What this implementation needs of the operands; by default nothing.
    open spec fn checked_mul_req(self, rhs: Rhs) -> bool {
        true
    }

    /// Whether this implementation promises `checked_mul_result`. An
    /// implementation that is not verified keeps the default, `false`, and
    /// then nothing is promised of what it returns.
    open spec fn obeys_checked_mul_spec() -> bool {
        false
    }

    /// What `checked_mul` returns: `None` exactly when the product is not a
    /// valid `Output`.
    open spec fn checked_mul_result(self, rhs: Rhs) -> Option<Self::Output> {
        None
    }

    /// Performs the `*` operation. Returns `None` if the result is invalid.
    fn checked_mul(self, rhs: Rhs) -> (r: Option<Self::Output>)
        requires
            self.checked_mul_req(rhs),
        ensures
            Self::obeys_checked_mul_spec() ==> r == self.checked_mul_result(rhs),
    ;
}

/// The checked version of `std::ops::Div`.
pub trait CheckedDiv<Rhs = Self>: Sized {
    /// The resulting type after applying the checked division operator.
    type Output;

    /// What this implementation needs of the operands; by default nothing.
    open spec fn checked_div_req(self, rhs: Rhs) -> bool {
        true
    }

    /// Whether this implementation promises `checked_div_result`. An
    /// implementation that is not verified keeps the default, `false`, and
    /// then nothing is promised of what it returns.
    open spec fn obeys_checked_div_spec() -> bool {
        false
    }

    /// What `checked_div` returns: `None` exactly when the quotient is not a
    /// valid `Output`.
    open spec fn checked_div_result(self, rhs: Rhs) -> Option<Self::Output> {
        None
    }

    /// Performs the `/` operation. Returns `None` if the result is invalid.
    fn checked_div(self, rhs: Rhs) -> (r: Option<Self::Output>)
        requires
            self.checked_div_req(rhs),
        ensures
            Self::obeys_checked_div_spec() ==> r == self.checked_div_result(rhs),
    ;
}

impl CheckedAdd for u8 {
    type Output = Self;

    open spec fn obeys_checked_add_spec() -> bool {
        true
    }

    open spec fn checked_add_result(self, rhs: Self) -> Option<Self> {
        if u8::MIN <= self + rhs <= u8::MAX {
            Some((self + rhs) as u8)
        } else {
            None
        }
    }

    fn checked_add(self, rhs: Self) -> (r: Option<Self>) {
        u8::checked_add(self, rhs)
    }
}

impl CheckedSub for u8 {
    type Output = Self;

    open spec fn obeys_checked_sub_spec() -> bool {
        true
    }

    open spec fn checked_sub_result(self, rhs: Self) -> Option<Self> {
        if u8::MIN <= self - rhs <= u8::MAX {
            Some((self - rhs) as u8)
        } else {
            None
        }
    }

    fn checked_sub(self, rhs: Self) -> (r: Option<Self>) {
        u8::checked_sub(self, rhs)
    }
}

impl CheckedMul for u8 {
    type Output = Self;

    open spec fn obeys_checked_mul_spec() -> bool {
        true
    }

    open spec fn checked_mul_result(self, rhs: Self) -> Option<Self> {
        if u8::MIN <= self * rhs <= u8::MAX {
            Some((self * rhs) as u8)
        } else {
            None
        }
    }

    fn checked_mul(self, rhs: Self) -> (r: Option<Self>) {
        u8::checked_mul(self, rhs)
    }
}

impl CheckedDiv for u8 {
    type Output = Self;

    open spec fn obeys_checked_div_spec() -> bool {
        true
    }

    open spec fn checked_div_result(self, rhs: Self) -> Option<Self> {
        if rhs == 0 {
            None
        } else {
            Some(self / rhs)
        }
    }

    fn checked_div(self, rhs: Self) -> (r: Option<Self>) {
        u8::checked_div(self, rhs)
    }
}

impl CheckedAdd for u16 {
    type Output = Self;

    open spec fn obeys_checked_add_spec() -> bool {
        true
    }

    open spec fn checked_add_result(self, rhs: Self) -> Option<Self> {
        if u16::MIN <= self + rhs <= u16::MAX {
            Some((self + rhs) as u16)
        } else {
            None
        }
    }

    fn checked_add(self, rhs: Self) -> (r: Option<Self>) {
        u16::checked_add(self, rhs)
    }
}

impl CheckedSub for u16 {
    type Output = Self;

    open spec fn obeys_checked_sub_spec() -> bool {
        true
    }

    open spec fn checked_sub_result(self, rhs: Self) -> Option<Self> {
        if u16::MIN <= self - rhs <= u16::MAX {
            Some((self - rhs) as u16)
        } else {
            None
        }
    }

    fn checked_sub(self, rhs: Self) -> (r: Option<Self>) {
        u16::checked_sub(self, rhs)
    }
}

impl CheckedMul for u16 {
    type Output = Self;

    open spec fn obeys_checked_mul_spec() -> bool {
        true
    }

    open spec fn checked_mul_result(self, rhs: Self) -> Option<Self> {
        if u16::MIN <= self * rhs <= u16::MAX {
            Some((self * rhs) as u16)
        } else {
            None
        }
    }

    fn checked_mul(self, rhs: Self) -> (r: Option<Self>) {
        u16::checked_mul(self, rhs)
    }
}

impl CheckedDiv for u16 {
    type Output = Self;

    open spec fn obeys_checked_div_spec() -> bool {
        true
    }

    open spec fn checked_div_result(self, rhs: Self) -> Option<Self> {
        if rhs == 0 {
            None
        } else {
            Some(self / rhs)
        }
    }

    fn checked_div(self, rhs: Self) -> (r: Option<Self>) {
        u16::checked_div(self, rhs)
    }
}

impl CheckedAdd for u32 {
    type Output = Self;

    open spec fn obeys_checked_add_spec() -> bool {
        true
    }

    open spec fn checked_add_result(self, rhs: Self) -> Option<Self> {
        if u32::MIN <= self + rhs <= u32::MAX {
            Some((self + rhs) as u32)
        } else {
            None
        }
    }

    fn checked_add(self, rhs: Self) -> (r: Option<Self>) {
        u32::checked_add(self, rhs)
    }
}

impl CheckedSub for u32 {
    type Output = Self;

    open spec fn obeys_checked_sub_spec() -> bool {
        true
    }

    open spec fn checked_sub_result(self, rhs: Self) -> Option<Self> {
        if u32::MIN <= self - rhs <= u32::MAX {
            Some((self - rhs) as u32)
        } else {
            None
        }
    }

    fn checked_sub(self, rhs: Self) -> (r: Option<Self>) {
        u32::checked_sub(self, rhs)
    }
}

impl CheckedMul for u32 {
    type Output = Self;

    open spec fn obeys_checked_mul_spec() -> bool {
        true
    }

    open spec fn checked_mul_result(self, rhs: Self) -> Option<Self> {
        if u32::MIN <= self * rhs <= u32::MAX {
            Some((self * rhs) as u32)
        } else {
            None
        }
    }

    fn checked_mul(self, rhs: Self) -> (r: Option<Self>) {
        u32::checked_mul(self, rhs)
    }
}

impl CheckedDiv for u32 {
    type Output = Self;

    open spec fn obeys_checked_div_spec() -> bool {
        true
    }

    open spec fn checked_div_result(self, rhs: Self) -> Option<Self> {
        if rhs == 0 {
            None
        } else {
            Some(self / rhs)
        }
    }

    fn checked_div(self, rhs: Self) -> (r: Option<Self>) {
        u32::checked_div(self, rhs)
    }
}

impl CheckedAdd for u64 {
    type Output = Self;

    open spec fn obeys_checked_add_spec() -> bool {
        true
    }

    open spec fn checked_add_result(self, rhs: Self) -> Option<Self> {
        if u64::MIN <= self + rhs <= u64::MAX {
            Some((self + rhs) as u64)
        } else {
            None
        }
    }

    fn checked_add(self, rhs: Self) -> (r: Option<Self>) {
        u64::checked_add(self, rhs)
    }
}

impl CheckedSub for u64 {
    type Output = Self;

    open spec fn obeys_checked_sub_spec() -> bool {
        true
    }

    open spec fn checked_sub_result(self, rhs: Self) -> Option<Self> {
        if u64::MIN <= self - rhs <= u64::MAX {
            Some((self - rhs) as u64)
        } else {
            None
        }
    }

    fn checked_sub(self, rhs: Self) -> (r: Option<Self>) {
        u64::checked_sub(self, rhs)
    }
}

impl CheckedMul for u64 {
    type Output = Self;

    open spec fn obeys_checked_mul_spec() -> bool {
        true
    }

    open spec fn checked_mul_result(self, rhs: Self) -> Option<Self> {
        if u64::MIN <= self * rhs <= u64::MAX {
            Some((self * rhs) as u64)
        } else {
            None
        }
    }

    fn checked_mul(self, rhs: Self) -> (r: Option<Self>) {
        u64::checked_mul(self, rhs)
    }
}

impl CheckedDiv for u64 {
    type Output = Self;

    open spec fn obeys_checked_div_spec() -> bool {
        true
    }

    open spec fn checked_div_result(self, rhs: Self) -> Option<Self> {
        if rhs == 0 {
            None
        } else {
            Some(self / rhs)
        }
    }

    fn checked_div(self, rhs: Self) -> (r: Option<Self>) {
        u64::checked_div(self, rhs)
    }
}

impl CheckedAdd for u128 {
    type Output = Self;

    open spec fn obeys_checked_add_spec() -> bool {
        true
    }

    open spec fn checked_add_result(self, rhs: Self) -> Option<Self> {
        if u128::MIN <= self + rhs <= u128::MAX {
            Some((self + rhs) as u128)
        } else {
            None
        }
    }

    fn checked_add(self, rhs: Self) -> (r: Option<Self>) {
        u128::checked_add(self, rhs)
    }
}

impl CheckedSub for u128 {
    type Output = Self;

    open spec fn obeys_checked_sub_spec() -> bool {
        true
    }

    open spec fn checked_sub_result(self, rhs: Self) -> Option<Self> {
        if u128::MIN <= self - rhs <= u128::MAX {
            Some((self - rhs) as u128)
        } else {
            None
        }
    }

    fn checked_sub(self, rhs: Self) -> (r: Option<Self>) {
        u128::checked_sub(self, rhs)
    }
}

impl CheckedMul for u128 {
    type Output = Self;

    open spec fn obeys_checked_mul_spec() -> bool {
        true
    }

    open spec fn checked_mul_result(self, rhs: Self) -> Option<Self> {
        if u128::MIN <= self * rhs <= u128::MAX {
            Some((self * rhs) as u128)
        } else {
            None
        }
    }

    fn checked_mul(self, rhs: Self) -> (r: Option<Self>) {
        u128::checked_mul(self, rhs)
    }
}

impl CheckedDiv for u128 {
    type Output = Self;

    open spec fn obeys_checked_div_spec() -> bool {
        true
    }

    open spec fn checked_div_result(self, rhs: Self) -> Option<Self> {
        if rhs == 0 {
            None
        } else {
            Some(self / rhs)
        }
    }

    fn checked_div(self, rhs: Self) -> (r: Option<Self>) {
        u128::checked_div(self, rhs)
    }
}

impl CheckedAdd for usize {
    type Output = Self;

    open spec fn obeys_checked_add_spec() -> bool {
        true
    }

    open spec fn checked_add_result(self, rhs: Self) -> Option<Self> {
        if usize::MIN <= self + rhs <= usize::MAX {
            Some((self + rhs) as usize)
        } else {
            None
        }
    }

    fn checked_add(self, rhs: Self) -> (r: Option<Self>) {
        usize::checked_add(self, rhs)
    }
}

impl CheckedSub for usize {
    type Output = Self;

    open spec fn obeys_checked_sub_spec() -> bool {
        true
    }

    open spec fn checked_sub_result(self, rhs: Self) -> Option<Self> {
        if usize::MIN <= self - rhs <= usize::MAX {
            Some((self - rhs) as usize)
        } else {
            None
        }
    }

    fn checked_sub(self, rhs: Self) -> (r: Option<Self>) {
        usize::checked_sub(self, rhs)
    }
}

impl CheckedMul for usize {
    type Output = Self;

    open spec fn obeys_checked_mul_spec() -> bool {
        true
    }

    open spec fn checked_mul_result(self, rhs: Self) -> Option<Self> {
        if usize::MIN <= self * rhs <= usize::MAX {
            Some((self * rhs) as usize)
        } else {
            None
        }
    }

    fn checked_mul(self, rhs: Self) -> (r: Option<Self>) {
        usize::checked_mul(self, rhs)
    }
}

impl CheckedDiv for usize {
    type Output = Self;

    open spec fn obeys_checked_div_spec() -> bool {
        true
    }

    open spec fn checked_div_result(self, rhs: Self) -> Option<Self> {
        if rhs == 0 {
            None
        } else {
            Some(self / rhs)
        }
    }

    fn checked_div(self, rhs: Self) -> (r: Option<Self>) {
        usize::checked_div(self, rhs)
    }
}

impl CheckedAdd for i8 {
    type Output = Self;

    open spec fn obeys_checked_add_spec() -> bool {
        true
    }

    open spec fn checked_add_result(self, rhs: Self) -> Option<Self> {
        if i8::MIN <= self + rhs <= i8::MAX {
            Some((self + rhs) as i8)
        } else {
            None
        }
    }

    fn checked_add(self, rhs: Self) -> (r: Option<Self>) {
        i8::checked_add(self, rhs)
    }
}

impl CheckedSub for i8 {
    type Output = Self;

    open spec fn obeys_checked_sub_spec() -> bool {
        true
    }

    open spec fn checked_sub_result(self, rhs: Self) -> Option<Self> {
        if i8::MIN <= self - rhs <= i8::MAX {
            Some((self - rhs) as i8)
        } else {
            None
        }
    }

    fn checked_sub(self, rhs: Self) -> (r: Option<Self>) {
        i8::checked_sub(self, rhs)
    }
}

impl CheckedMul for i8 {
    type Output = Self;

    open spec fn obeys_checked_mul_spec() -> bool {
        true
    }

    open spec fn checked_mul_result(self, rhs: Self) -> Option<Self> {
        if i8::MIN <= self * rhs <= i8::MAX {
            Some((self * rhs) as i8)
        } else {
            None
        }
    }

    fn checked_mul(self, rhs: Self) -> (r: Option<Self>) {
        i8::checked_mul(self, rhs)
    }
}

impl CheckedDiv for i8 {
    type Output = Self;

    open spec fn obeys_checked_div_spec() -> bool {
        true
    }

    /// Division truncates toward zero; `None` on a zero divisor and when
    /// the quotient does not fit (`MIN / -1`).
    open spec fn checked_div_result(self, rhs: Self) -> Option<Self> {
        if rhs == 0 {
            None
        } else if i8::MIN <= truncating_div(self as int, rhs as int) <= i8::MAX {
            Some(truncating_div(self as int, rhs as int) as i8)
        } else {
            None
        }
    }

    fn checked_div(self, rhs: Self) -> (r: Option<Self>) {
        i8::checked_div(self, rhs)
    }
}

impl CheckedAdd for i16 {
    type Output = Self;

    open spec fn obeys_checked_add_spec() -> bool {
        true
    }

    open spec fn checked_add_result(self, rhs: Self) -> Option<Self> {
        if i16::MIN <= self + rhs <= i16::MAX {
            Some((self + rhs) as i16)
        } else {
            None
        }
    }

    fn checked_add(self, rhs: Self) -> (r: Option<Self>) {
        i16::checked_add(self, rhs)
    }
}

impl CheckedSub for i16 {
    type Output = Self;

    open spec fn obeys_checked_sub_spec() -> bool {
        true
    }

    open spec fn checked_sub_result(self, rhs: Self) -> Option<Self> {
        if i16::MIN <= self - rhs <= i16::MAX {
            Some((self - rhs) as i16)
        } else {
            None
        }
    }

    fn checked_sub(self, rhs: Self) -> (r: Option<Self>) {
        i16::checked_sub(self, rhs)
    }
}

impl CheckedMul for i16 {
    type Output = Self;

    open spec fn obeys_checked_mul_spec() -> bool {
        true
    }

    open spec fn checked_mul_result(self, rhs: Self) -> Option<Self> {
        if i16::MIN <= self * rhs <= i16::MAX {
            Some((self * rhs) as i16)
        } else {
            None
        }
    }

    fn checked_mul(self, rhs: Self) -> (r: Option<Self>) {
        i16::checked_mul(self, rhs)
    }
}

impl CheckedDiv for i16 {
    type Output = Self;

    open spec fn obeys_checked_div_spec() -> bool {
        true
    }

    /// Division truncates toward zero; `None` on a zero divisor and when
    /// the quotient does not fit (`MIN / -1`).
    open spec fn checked_div_result(self, rhs: Self) -> Option<Self> {
        if rhs == 0 {
            None
        } else if i16::MIN <= truncating_div(self as int, rhs as int) <= i16::MAX {
            Some(truncating_div(self as int, rhs as int) as i16)
        } else {
            None
        }
    }

    fn checked_div(self, rhs: Self) -> (r: Option<Self>) {
        i16::checked_div(self, rhs)
    }
}

impl CheckedAdd for i32 {
    type Output = Self;

    open spec fn obeys_checked_add_spec() -> bool {
        true
    }

    open spec fn checked_add_result(self, rhs: Self) -> Option<Self> {
        if i32::MIN <= self + rhs <= i32::MAX {
            Some((self + rhs) as i32)
        } else {
            None
        }
    }

    fn checked_add(self, rhs: Self) -> (r: Option<Self>) {
        i32::checked_add(self, rhs)
    }
}

impl CheckedSub for i32 {
    type Output = Self;

    open spec fn obeys_checked_sub_spec() -> bool {
        true
    }

    open spec fn checked_sub_result(self, rhs: Self) -> Option<Self> {
        if i32::MIN <= self - rhs <= i32::MAX {
            Some((self - rhs) as i32)
        } else {
            None
        }
    }

    fn checked_sub(self, rhs: Self) -> (r: Option<Self>) {
        i32::checked_sub(self, rhs)
    }
}

impl CheckedMul for i32 {
    type Output = Self;

    open spec fn obeys_checked_mul_spec() -> bool {
        true
    }

    open spec fn checked_mul_result(self, rhs: Self) -> Option<Self> {
        if i32::MIN <= self * rhs <= i32::MAX {
            Some((self * rhs) as i32)
        } else {
            None
        }
    }

    fn checked_mul(self, rhs: Self) -> (r: Option<Self>) {
        i32::checked_mul(self, rhs)
    }
}

impl CheckedDiv for i32 {
    type Output = Self;

    open spec fn obeys_checked_div_spec() -> bool {
        true
    }

    /// Division truncates toward zero; `None` on a zero divisor and when
    /// the quotient does not fit (`MIN / -1`).
    open spec fn checked_div_result(self, rhs: Self) -> Option<Self> {
        if rhs == 0 {
            None
        } else if i32::MIN <= truncating_div(self as int, rhs as int) <= i32::MAX {
            Some(truncating_div(self as int, rhs as int) as i32)
        } else {
            None
        }
    }

    fn checked_div(self, rhs: Self) -> (r: Option<Self>) {
        i32::checked_div(self, rhs)
    }
}

impl CheckedAdd for i64 {
    type Output = Self;

    open spec fn obeys_checked_add_spec() -> bool {
        true
    }

    open spec fn checked_add_result(self, rhs: Self) -> Option<Self> {
        if i64::MIN <= self + rhs <= i64::MAX {
            Some((self + rhs) as i64)
        } else {
            None
        }
    }

    fn checked_add(self, rhs: Self) -> (r: Option<Self>) {
        i64::checked_add(self, rhs)
    }
}

impl CheckedSub for i64 {
    type Output = Self;

    open spec fn obeys_checked_sub_spec() -> bool {
        true
    }

    open spec fn checked_sub_result(self, rhs: Self) -> Option<Self> {
        if i64::MIN <= self - rhs <= i64::MAX {
            Some((self - rhs) as i64)
        } else {
            None
        }
    }

    fn checked_sub(self, rhs: Self) -> (r: Option<Self>) {
        i64::checked_sub(self, rhs)
    }
}

impl CheckedMul for i64 {
    type Output = Self;

    open spec fn obeys_checked_mul_spec() -> bool {
        true
    }

    open spec fn checked_mul_result(self, rhs: Self) -> Option<Self> {
        if i64::MIN <= self * rhs <= i64::MAX {
            Some((self * rhs) as i64)
        } else {
            None
        }
    }

    fn checked_mul(self, rhs: Self) -> (r: Option<Self>) {
        i64::checked_mul(self, rhs)
    }
}

impl CheckedDiv for i64 {
    type Output = Self;

    open spec fn obeys_checked_div_spec() -> bool {
        true
    }

    /// Division truncates toward zero; `None` on a zero divisor and when
    /// the quotient does not fit (`MIN / -1`).
    open spec fn checked_div_result(self, rhs: Self) -> Option<Self> {
        if rhs == 0 {
            None
        } else if i64::MIN <= truncating_div(self as int, rhs as int) <= i64::MAX {
            Some(truncating_div(self as int, rhs as int) as i64)
        } else {
            None
        }
    }

    fn checked_div(self, rhs: Self) -> (r: Option<Self>) {
        i64::checked_div(self, rhs)
    }
}

impl CheckedAdd for i128 {
    type Output = Self;

    open spec fn obeys_checked_add_spec() -> bool {
        true
    }

    open spec fn checked_add_result(self, rhs: Self) -> Option<Self> {
        if i128::MIN <= self + rhs <= i128::MAX {
            Some((self + rhs) as i128)
        } else {
            None
        }
    }

    fn checked_add(self, rhs: Self) -> (r: Option<Self>) {
        i128::checked_add(self, rhs)
    }
}

impl CheckedSub for i128 {
    type Output = Self;

    open spec fn obeys_checked_sub_spec() -> bool {
        true
    }

    open spec fn checked_sub_result(self, rhs: Self) -> Option<Self> {
        if i128::MIN <= self - rhs <= i128::MAX {
            Some((self - rhs) as i128)
        } else {
            None
        }
    }

    fn checked_sub(self, rhs: Self) -> (r: Option<Self>) {
        i128::checked_sub(self, rhs)
    }
}

impl CheckedMul for i128 {
    type Output = Self;

    open spec fn obeys_checked_mul_spec() -> bool {
        true
    }

    open spec fn checked_mul_result(self, rhs: Self) -> Option<Self> {
        if i128::MIN <= self * rhs <= i128::MAX {
            Some((self * rhs) as i128)
        } else {
            None
        }
    }

    fn checked_mul(self, rhs: Self) -> (r: Option<Self>) {
        i128::checked_mul(self, rhs)
    }
}

impl CheckedDiv for i128 {
    type Output = Self;

    open spec fn obeys_checked_div_spec() -> bool {
        true
    }

    /// Division truncates toward zero; `None` on a zero divisor and when
    /// the quotient does not fit (`MIN / -1`).
    open spec fn checked_div_result(self, rhs: Self) -> Option<Self> {
        if rhs == 0 {
            None
        } else if i128::MIN <= truncating_div(self as int, rhs as int) <= i128::MAX {
            Some(truncating_div(self as int, rhs as int) as i128)
        } else {
            None
        }
    }

    fn checked_div(self, rhs: Self) -> (r: Option<Self>) {
        i128::checked_div(self, rhs)
    }
}

impl CheckedAdd for isize {
    type Output = Self;

    open spec fn obeys_checked_add_spec() -> bool {
        true
    }

    open spec fn checked_add_result(self, rhs: Self) -> Option<Self> {
        if isize::MIN <= self + rhs <= isize::MAX {
            Some((self + rhs) as isize)
        } else {
            None
        }
    }

    fn checked_add(self, rhs: Self) -> (r: Option<Self>) {
        isize::checked_add(self, rhs)
    }
}

impl CheckedSub for isize {
    type Output = Self;

    open spec fn obeys_checked_sub_spec() -> bool {
        true
    }

    open spec fn checked_sub_result(self, rhs: Self) -> Option<Self> {
        if isize::MIN <= self - rhs <= isize::MAX {
            Some((self - rhs) as isize)
        } else {
            None
        }
    }

    fn checked_sub(self, rhs: Self) -> (r: Option<Self>) {
        isize::checked_sub(self, rhs)
    }
}

impl CheckedMul for isize {
    type Output = Self;

    open spec fn obeys_checked_mul_spec() -> bool {
        true
    }

    open spec fn checked_mul_result(self, rhs: Self) -> Option<Self> {
        if isize::MIN <= self * rhs <= isize::MAX {
            Some((self * rhs) as isize)
        } else {
            None
        }
    }

    fn checked_mul(self, rhs: Self) -> (r: Option<Self>) {
        isize::checked_mul(self, rhs)
    }
}

impl CheckedDiv for isize {
    type Output = Self;

    open spec fn obeys_checked_div_spec() -> bool {
        true
    }

    /// Division truncates toward zero; `None` on a zero divisor and when
    /// the quotient does not fit (`MIN / -1`).
    open spec fn checked_div_result(self, rhs: Self) -> Option<Self> {
        if rhs == 0 {
            None
        } else if isize::MIN <= truncating_div(self as int, rhs as int) <= isize::MAX {
            Some(truncating_div(self as int, rhs as int) as isize)
        } else {
            None
        }
    }

    fn checked_div(self, rhs: Self) -> (r: Option<Self>) {
        isize::checked_div(self, rhs)
    }
}

/// Checked arithmetic on `u8` gives the mathematical sum, difference and
/// product exactly where it is a `u8`, and `None` where it is not; it divides
/// by any divisor but zero, and the quotient is the largest that does not
/// overshoot the dividend.
pub proof fn lemma_checked_exact_u8(a: u8, b: u8)
    ensures
        a.checked_add_result(b) is Some <==> a + b <= u8::MAX,
        a.checked_add_result(b) matches Some(v) ==> v == a + b,
        a.checked_sub_result(b) is Some <==> b <= a,
        a.checked_sub_result(b) matches Some(v) ==> v == a - b,
        a.checked_mul_result(b) is Some <==> a * b <= u8::MAX,
        a.checked_mul_result(b) matches Some(v) ==> v == a * b,
        a.checked_div_result(b) is Some <==> b != 0,
        a.checked_div_result(b) matches Some(v) ==> v * b <= a < v * b + b,
{
    if b != 0 {
        lemma_truncating_div_rounds(a as int, b as int);
    }
}

/// Checked arithmetic on `u16` gives the mathematical sum, difference and
/// product exactly where it is a `u16`, and `None` where it is not; it divides
/// by any divisor but zero, and the quotient is the largest that does not
/// overshoot the dividend.
pub proof fn lemma_checked_exact_u16(a: u16, b: u16)
    ensures
        a.checked_add_result(b) is Some <==> a + b <= u16::MAX,
        a.checked_add_result(b) matches Some(v) ==> v == a + b,
        a.checked_sub_result(b) is Some <==> b <= a,
        a.checked_sub_result(b) matches Some(v) ==> v == a - b,
        a.checked_mul_result(b) is Some <==> a * b <= u16::MAX,
        a.checked_mul_result(b) matches Some(v) ==> v == a * b,
        a.checked_div_result(b) is Some <==> b != 0,
        a.checked_div_result(b) matches Some(v) ==> v * b <= a < v * b + b,
{
    if b != 0 {
        lemma_truncating_div_rounds(a as int, b as int);
    }
}

/// Checked arithmetic on `u32` gives the mathematical sum, difference and
/// product exactly where it is a `u32`, and `None` where it is not; it divides
/// by any divisor but zero, and the quotient is the largest that does not
/// overshoot the dividend.
pub proof fn lemma_checked_exact_u32(a: u32, b: u32)
    ensures
        a.checked_add_result(b) is Some <==> a + b <= u32::MAX,
        a.checked_add_result(b) matches Some(v) ==> v == a + b,
        a.checked_sub_result(b) is Some <==> b <= a,
        a.checked_sub_result(b) matches Some(v) ==> v == a - b,
        a.checked_mul_result(b) is Some <==> a * b <= u32::MAX,
        a.checked_mul_result(b) matches Some(v) ==> v == a * b,
        a.checked_div_result(b) is Some <==> b != 0,
        a.checked_div_result(b) matches Some(v) ==> v * b <= a < v * b + b,
{
    if b != 0 {
        lemma_truncating_div_rounds(a as int, b as int);
    }
}

/// Checked arithmetic on `u64` gives the mathematical sum, difference and
/// product exactly where it is a `u64`, and `None` where it is not; it divides
/// by any divisor but zero, and the quotient is the largest that does not
/// overshoot the dividend.
pub proof fn lemma_checked_exact_u64(a: u64, b: u64)
    ensures
        a.checked_add_result(b) is Some <==> a + b <= u64::MAX,
        a.checked_add_result(b) matches Some(v) ==> v == a + b,
        a.checked_sub_result(b) is Some <==> b <= a,
        a.checked_sub_result(b) matches Some(v) ==> v == a - b,
        a.checked_mul_result(b) is Some <==> a * b <= u64::MAX,
        a.checked_mul_result(b) matches Some(v) ==> v == a * b,
        a.checked_div_result(b) is Some <==> b != 0,
        a.checked_div_result(b) matches Some(v) ==> v * b <= a < v * b + b,
{
    if b != 0 {
        lemma_truncating_div_rounds(a as int, b as int);
    }
}

/// Checked arithmetic on `u128` gives the mathematical sum, difference and
/// product exactly where it is a `u128`, and `None` where it is not; it divides
/// by any divisor but zero, and the quotient is the largest that does not
/// overshoot the dividend.
pub proof fn lemma_checked_exact_u128(a: u128, b: u128)
    ensures
        a.checked_add_result(b) is Some <==> a + b <= u128::MAX,
        a.checked_add_result(b) matches Some(v) ==> v == a + b,
        a.checked_sub_result(b) is Some <==> b <= a,
        a.checked_sub_result(b) matches Some(v) ==> v == a - b,
        a.checked_mul_result(b) is Some <==> a * b <= u128::MAX,
        a.checked_mul_result(b) matches Some(v) ==> v == a * b,
        a.checked_div_result(b) is Some <==> b != 0,
        a.checked_div_result(b) matches Some(v) ==> v * b <= a < v * b + b,
{
    if b != 0 {
        lemma_truncating_div_rounds(a as int, b as int);
    }
}

/// Checked arithmetic on `usize` gives the mathematical sum, difference and
/// product exactly where it is a `usize`, and `None` where it is not; it divides
/// by any divisor but zero, and the quotient is the largest that does not
/// overshoot the dividend.
pub proof fn lemma_checked_exact_usize(a: usize, b: usize)
    ensures
        a.checked_add_result(b) is Some <==> a + b <= usize::MAX,
        a.checked_add_result(b) matches Some(v) ==> v == a + b,
        a.checked_sub_result(b) is Some <==> b <= a,
        a.checked_sub_result(b) matches Some(v) ==> v == a - b,
        a.checked_mul_result(b) is Some <==> a * b <= usize::MAX,
        a.checked_mul_result(b) matches Some(v) ==> v == a * b,
        a.checked_div_result(b) is Some <==> b != 0,
        a.checked_div_result(b) matches Some(v) ==> v * b <= a < v * b + b,
{
    if b != 0 {
        lemma_truncating_div_rounds(a as int, b as int);
    }
}

/// Checked arithmetic on `i8` gives the mathematical sum, difference and
/// product exactly where it is a `i8`, and `None` where it is not; it divides
/// by any divisor but zero, except `MIN` by `-1`, and the quotient is rounded
/// toward zero: the remainder has the dividend's sign and is smaller than the
/// divisor.
pub proof fn lemma_checked_exact_i8(a: i8, b: i8)
    ensures
        a.checked_add_result(b) is Some <==> i8::MIN <= a + b <= i8::MAX,
        a.checked_add_result(b) matches Some(v) ==> v == a + b,
        a.checked_sub_result(b) is Some <==> i8::MIN <= a - b <= i8::MAX,
        a.checked_sub_result(b) matches Some(v) ==> v == a - b,
        a.checked_mul_result(b) is Some <==> i8::MIN <= a * b <= i8::MAX,
        a.checked_mul_result(b) matches Some(v) ==> v == a * b,
        a.checked_div_result(b) is Some <==> b != 0 && !(a == i8::MIN && b == -1),
        a.checked_div_result(b) matches Some(v) ==> {
            &&& a >= 0 ==> 0 <= a - v * b < abs_int(b as int)
            &&& a < 0 ==> -abs_int(b as int) < a - v * b <= 0
        },
{
    if b != 0 {
        lemma_truncating_div_rounds(a as int, b as int);
    }
}

/// Checked arithmetic on `i16` gives the mathematical sum, difference and
/// product exactly where it is a `i16`, and `None` where it is not; it divides
/// by any divisor but zero, except `MIN` by `-1`, and the quotient is rounded
/// toward zero: the remainder has the dividend's sign and is smaller than the
/// divisor.
pub proof fn lemma_checked_exact_i16(a: i16, b: i16)
    ensures
        a.checked_add_result(b) is Some <==> i16::MIN <= a + b <= i16::MAX,
        a.checked_add_result(b) matches Some(v) ==> v == a + b,
        a.checked_sub_result(b) is Some <==> i16::MIN <= a - b <= i16::MAX,
        a.checked_sub_result(b) matches Some(v) ==> v == a - b,
        a.checked_mul_result(b) is Some <==> i16::MIN <= a * b <= i16::MAX,
        a.checked_mul_result(b) matches Some(v) ==> v == a * b,
        a.checked_div_result(b) is Some <==> b != 0 && !(a == i16::MIN && b == -1),
        a.checked_div_result(b) matches Some(v) ==> {
            &&& a >= 0 ==> 0 <= a - v * b < abs_int(b as int)
            &&& a < 0 ==> -abs_int(b as int) < a - v * b <= 0
        },
{
    if b != 0 {
        lemma_truncating_div_rounds(a as int, b as int);
    }
}

/// Checked arithmetic on `i32` gives the mathematical sum, difference and
/// product exactly where it is a `i32`, and `None` where it is not; it divides
/// by any divisor but zero, except `MIN` by `-1`, and the quotient is rounded
/// toward zero: the remainder has the dividend's sign and is smaller than the
/// divisor.
pub proof fn lemma_checked_exact_i32(a: i32, b: i32)
    ensures
        a.checked_add_result(b) is Some <==> i32::MIN <= a + b <= i32::MAX,
        a.checked_add_result(b) matches Some(v) ==> v == a + b,
        a.checked_sub_result(b) is Some <==> i32::MIN <= a - b <= i32::MAX,
        a.checked_sub_result(b) matches Some(v) ==> v == a - b,
        a.checked_mul_result(b) is Some <==> i32::MIN <= a * b <= i32::MAX,
        a.checked_mul_result(b) matches Some(v) ==> v == a * b,
        a.checked_div_result(b) is Some <==> b != 0 && !(a == i32::MIN && b == -1),
        a.checked_div_result(b) matches Some(v) ==> {
            &&& a >= 0 ==> 0 <= a - v * b < abs_int(b as int)
            &&& a < 0 ==> -abs_int(b as int) < a - v * b <= 0
        },
{
    if b != 0 {
        lemma_truncating_div_rounds(a as int, b as int);
    }
}

/// Checked arithmetic on `i64` gives the mathematical sum, difference and
/// product exactly where it is a `i64`, and `None` where it is not; it divides
/// by any divisor but zero, except `MIN` by `-1`, and the quotient is rounded
/// toward zero: the remainder has the dividend's sign and is smaller than the
/// divisor.
pub proof fn lemma_checked_exact_i64(a: i64, b: i64)
    ensures
        a.checked_add_result(b) is Some <==> i64::MIN <= a + b <= i64::MAX,
        a.checked_add_result(b) matches Some(v) ==> v == a + b,
        a.checked_sub_result(b) is Some <==> i64::MIN <= a - b <= i64::MAX,
        a.checked_sub_result(b) matches Some(v) ==> v == a - b,
        a.checked_mul_result(b) is Some <==> i64::MIN <= a * b <= i64::MAX,
        a.checked_mul_result(b) matches Some(v) ==> v == a * b,
        a.checked_div_result(b) is Some <==> b != 0 && !(a == i64::MIN && b == -1),
        a.checked_div_result(b) matches Some(v) ==> {
            &&& a >= 0 ==> 0 <= a - v * b < abs_int(b as int)
            &&& a < 0 ==> -abs_int(b as int) < a - v * b <= 0
        },
{
    if b != 0 {
        lemma_truncating_div_rounds(a as int, b as int);
    }
}

/// Checked arithmetic on `i128` gives the mathematical sum, difference and
/// product exactly where it is a `i128`, and `None` where it is not; it divides
/// by any divisor but zero, except `MIN` by `-1`, and the quotient is rounded
/// toward zero: the remainder has the dividend's sign and is smaller than the
/// divisor.
pub proof fn lemma_checked_exact_i128(a: i128, b: i128)
    ensures
        a.checked_add_result(b) is Some <==> i128::MIN <= a + b <= i128::MAX,
        a.checked_add_result(b) matches Some(v) ==> v == a + b,
        a.checked_sub_result(b) is Some <==> i128::MIN <= a - b <= i128::MAX,
        a.checked_sub_result(b) matches Some(v) ==> v == a - b,
        a.checked_mul_result(b) is Some <==> i128::MIN <= a * b <= i128::MAX,
        a.checked_mul_result(b) matches Some(v) ==> v == a * b,
        a.checked_div_result(b) is Some <==> b != 0 && !(a == i128::MIN && b == -1),
        a.checked_div_result(b) matches Some(v) ==> {
            &&& a >= 0 ==> 0 <= a - v * b < abs_int(b as int)
            &&& a < 0 ==> -abs_int(b as int) < a - v * b <= 0
        },
{
    if b != 0 {
        lemma_truncating_div_rounds(a as int, b as int);
    }
}

/// Checked arithmetic on `isize` gives the mathematical sum, difference and
/// product exactly where it is a `isize`, and `None` where it is not; it divides
/// by any divisor but zero, except `MIN` by `-1`, and the quotient is rounded
/// toward zero: the remainder has the dividend's sign and is smaller than the
/// divisor.
pub proof fn lemma_checked_exact_isize(a: isize, b: isize)
    ensures
        a.checked_add_result(b) is Some <==> isize::MIN <= a + b <= isize::MAX,
        a.checked_add_result(b) matches Some(v) ==> v == a + b,
        a.checked_sub_result(b) is Some <==> isize::MIN <= a - b <= isize::MAX,
        a.checked_sub_result(b) matches Some(v) ==> v == a - b,
        a.checked_mul_result(b) is Some <==> isize::MIN <= a * b <= isize::MAX,
        a.checked_mul_result(b) matches Some(v) ==> v == a * b,
        a.checked_div_result(b) is Some <==> b != 0 && !(a == isize::MIN && b == -1),
        a.checked_div_result(b) matches Some(v) ==> {
            &&& a >= 0 ==> 0 <= a - v * b < abs_int(b as int)
            &&& a < 0 ==> -abs_int(b as int) < a - v * b <= 0
        },
{
    if b != 0 {
        lemma_truncating_div_rounds(a as int, b as int);
    }
}

/// A quantity's sum is the quantity that the sum of the representations
/// validates to, or `None` where that sum is not valid.
impl<T: Validated> CheckedAdd for T where T::Repr: core::ops::Add<Output = T::Repr> {
    type Output = Self;

    /// The addition of the two representations must be defined; where the
    /// implementation makes no promise of its representations, that of any
    /// two.
    open spec fn checked_add_req(self, rhs: Self) -> bool {
        if T::obeys_validated_spec() {
            self.repr().add_req(rhs.repr())
        } else {
            forall|a: T::Repr, b: T::Repr| #[trigger] a.add_req(b)
        }
    }

    open spec fn obeys_checked_add_spec() -> bool {
        T::obeys_validated_spec() && <T::Repr as AddSpec>::obeys_add_spec()
    }

    open spec fn checked_add_result(self, rhs: Self) -> Option<Self> {
        T::validated(self.repr().add_spec(rhs.repr()))
    }

    fn checked_add(self, rhs: Self) -> (r: Option<Self>) {
        T::validate(self.as_repr() + rhs.as_repr())
    }
}

/// A quantity's difference is the quantity that the difference of the
/// representations validates to, or `None` where that difference is not
/// valid.
impl<T: Validated> CheckedSub for T where T::Repr: core::ops::Sub<Output = T::Repr> {
    type Output = Self;

    /// The subtraction of the two representations must be defined; where the
    /// implementation makes no promise of its representations, that of any
    /// two.
    open spec fn checked_sub_req(self, rhs: Self) -> bool {
        if T::obeys_validated_spec() {
            self.repr().sub_req(rhs.repr())
        } else {
            forall|a: T::Repr, b: T::Repr| #[trigger] a.sub_req(b)
        }
    }

    open spec fn obeys_checked_sub_spec() -> bool {
        T::obeys_validated_spec() && <T::Repr as SubSpec>::obeys_sub_spec()
    }

    open spec fn checked_sub_result(self, rhs: Self) -> Option<Self> {
        T::validated(self.repr().sub_spec(rhs.repr()))
    }

    fn checked_sub(self, rhs: Self) -> (r: Option<Self>) {
        T::validate(self.as_repr() - rhs.as_repr())
    }
}

/// The magnitude of `x`.
pub open spec fn abs_int(x: int) -> int {
    if x < 0 {
        -x
    } else {
        x
    }
}

/// Division rounding toward zero leaves a remainder with the dividend's
/// sign that is smaller than the divisor; dividing by one or minus one keeps
/// or flips the dividend, and any larger divisor at least halves it.
pub proof fn lemma_truncating_div_rounds(x: int, d: int)
    requires
        d != 0,
    ensures
        x >= 0 ==> 0 <= x - truncating_div(x, d) * d < abs_int(d),
        x < 0 ==> -abs_int(d) < x - truncating_div(x, d) * d <= 0,
        d == 1 ==> truncating_div(x, d) == x,
        d == -1 ==> truncating_div(x, d) == -x,
        abs_int(d) >= 2 ==> 2 * abs_int(truncating_div(x, d)) <= abs_int(x),
{
    let q = truncating_div(x, d);
    let (ax, ad) = (abs_int(x), abs_int(d));
    lemma_fundamental_div_mod(ax, ad);
    let (p, r) = (ax / ad, ax % ad);
    assert(0 <= p) by (nonlinear_arith)
        requires
            ax == ad * p + r,
            0 <= r < ad,
            0 <= ax,
    ;
    assert(abs_int(q) == p) by {
        if x > 0 && d < 0 {
            assert(q == -(x / (-d)));
        }
    }
    assert(x - q * d == if x >= 0 { r } else { -r }) by (nonlinear_arith)
        requires
            ax == ad * p + r,
            ax == abs_int(x),
            ad == abs_int(d),
            abs_int(q) == p,
            x == 0 ==> q == 0,
            x > 0 && d > 0 ==> q == p,
            x < 0 && d < 0 ==> q == p,
            x < 0 && d > 0 ==> q == -p,
            x > 0 && d < 0 ==> q == -p,
    ;
    if ad == 1 {
        lemma_fundamental_div_mod_converse(ax, 1, ax, 0);
    }
    if ad >= 2 {
        assert(2 * p <= ax) by (nonlinear_arith)
            requires
                ax == ad * p + r,
                0 <= r,
                ad >= 2,
                p >= 0,
        ;
    }
}

/// Integer division rounding toward zero, as Rust's `/` does.
pub open spec fn truncating_div(x: int, d: int) -> int {
    if x == 0 {
        0
    } else if x > 0 && d > 0 {
        x / d
    } else if x < 0 && d < 0 {
        (-x) / (-d)
    } else if x < 0 {
        -((-x) / d)
    } else {
        -(x / (-d))
    }
}

} // verus!
