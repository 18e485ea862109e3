//! The gain factors of a PID controller.
//!
//! Each factor is a transparent wrapper over its scalar that tags it with its use.

use vstd::prelude::*;

use crate::number::scalar::{Scalar, Zero};

verus! {

/// The proportional gain of a PID controller.
#[derive(Clone, Copy, PartialEq, Eq, Hash)]
pub struct Proportional<T>(T);

impl<T: Scalar> Proportional<T> {
    /// The gain.
    pub closed spec fn value_of(&self) -> T {
        self.0
    }

    /// Instantiate a new [`Proportional`] gain factor from the target scalar.
    pub fn raw(scalar: T) -> (target_gain: Self)
        ensures
            target_gain.value_of() == scalar,
    {
        Proportional(scalar)
    }

    /// Determine the value of the gain factor.
    pub fn value(&self) -> (target_value: T)
        ensures
            target_value == self.value_of(),
    {
        self.0
    }
}

/// The integral gain of a PID controller, or the integral it accumulates.
#[derive(Clone, Copy, PartialEq, Eq, Hash)]
pub struct Integral<T>(pub T);

impl<T: Scalar> Integral<T> {
    /// Instantiate a new integral of `0`.
    pub fn zero() -> (target_integral: Self)
        where
            T: Zero,
        ensures
            target_integral.0 == T::zero_value(),
    {
        Integral(T::zero())
    }

    /// Instantiate a new [`Integral`] gain factor from the target scalar.
    pub fn raw(scalar: T) -> (target_integral: Self)
        ensures
            target_integral.0 == scalar,
    {
        Integral(scalar)
    }

    /// Determine the value of the integral gain factor.
    pub fn value(&self) -> (target_value: T)
        ensures
            target_value == self.0,
    {
        self.0
    }
}

/// The derivative gain of a PID controller.
#[derive(Clone, Copy, PartialEq, Eq, Hash)]
pub struct Derivative<T>(T);

impl<T: Scalar> Derivative<T> {
    /// The gain.
    pub closed spec fn value_of(&self) -> T {
        self.0
    }

    /// Instantiate a new [`Derivative`] gain factor from the target scalar.
    pub fn raw(scalar: T) -> (target_gain: Self)
        ensures
            target_gain.value_of() == scalar,
    {
        Derivative(scalar)
    }

    /// Determine the value of the gain factor.
    pub fn value(&self) -> (target_value: T)
        ensures
            target_value == self.value_of(),
    {
        self.0
    }
}

/// All gain factors of a PID controller.
#[derive(Clone, Copy, PartialEq, Eq, Hash)]
pub struct Gain<T>(Proportional<T>, Integral<T>, Derivative<T>);

impl<T: Scalar> Gain<T> {
    /// The proportional factor.
    pub closed spec fn p_of(&self) -> Proportional<T> {
        self.0
    }

    /// The integral factor.
    pub closed spec fn i_of(&self) -> Integral<T> {
        self.1
    }

    /// The derivative factor.
    pub closed spec fn d_of(&self) -> Derivative<T> {
        self.2
    }

    /// Instantiate a new [`Gain`] from the 3-tuple of raw values `(K_p, K_i, K_d)`.
    pub fn tuple(target_tuple: (T, T, T)) -> (target_gain: Self)
        ensures
            target_gain.p_of().value_of() == target_tuple.0,
            target_gain.i_of().0 == target_tuple.1,
            target_gain.d_of().value_of() == target_tuple.2,
    {
        let (p, i, d) = target_tuple;
        let p = Proportional::raw(p);
        let i = Integral::raw(i);
        let d = Derivative::raw(d);
        Gain(p, i, d)
    }

    /// Determine the proportional gain factor.
    pub fn p(&self) -> (target_gain: Proportional<T>)
        ensures
            target_gain == self.p_of(),
    {
        self.0
    }

    /// Determine the integral gain factor.
    pub fn i(&self) -> (target_gain: Integral<T>)
        ensures
            target_gain == self.i_of(),
    {
        self.1
    }

    /// Determine the derivative gain factor.
    pub fn d(&self) -> (target_gain: Derivative<T>)
        ensures
            target_gain == self.d_of(),
    {
        self.2
    }
}

} // verus!
