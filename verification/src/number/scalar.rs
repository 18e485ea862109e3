//! The home of scalar types.

use vstd::prelude::*;

verus! {

/// A scalar: a single, uniquely representable value of fixed size that is trivially copyable
/// and at least partially ordered.
///
/// This trait makes no assumptions about the algebraic properties of the scalar.
pub trait Scalar: 'static + Copy + PartialOrd + Sized {

}

/// Every suitable type is a scalar.
impl<T> Scalar for T where T: 'static + Copy + PartialOrd + Sized {

}

/// A scalar type with a zero value.
pub trait Zero: Sized {
    /// The zero value.
    spec fn zero_value() -> Self;

    /// The zero value.
    fn zero() -> (target_value: Self)
        ensures
            target_value == Self::zero_value(),
    ;
}

impl Zero for u8 {
    open spec fn zero_value() -> u8 {
        0
    }

    fn zero() -> (target_value: u8) {
        0
    }
}

impl Zero for u16 {
    open spec fn zero_value() -> u16 {
        0
    }

    fn zero() -> (target_value: u16) {
        0
    }
}

impl Zero for u32 {
    open spec fn zero_value() -> u32 {
        0
    }

    fn zero() -> (target_value: u32) {
        0
    }
}

impl Zero for u64 {
    open spec fn zero_value() -> u64 {
        0
    }

    fn zero() -> (target_value: u64) {
        0
    }
}

impl Zero for i8 {
    open spec fn zero_value() -> i8 {
        0
    }

    fn zero() -> (target_value: i8) {
        0
    }
}

impl Zero for i16 {
    open spec fn zero_value() -> i16 {
        0
    }

    fn zero() -> (target_value: i16) {
        0
    }
}

impl Zero for i32 {
    open spec fn zero_value() -> i32 {
        0
    }

    fn zero() -> (target_value: i32) {
        0
    }
}

impl Zero for i64 {
    open spec fn zero_value() -> i64 {
        0
    }

    fn zero() -> (target_value: i64) {
        0
    }
}

} // verus!
