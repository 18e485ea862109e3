//! The state of a control system, be it closed-loop or open-loop.

use vstd::prelude::*;

use crate::number::scalar::{Scalar, Zero};

verus! {

/// The setpoint of a closed-loop control system: the target value the system is trying to
/// achieve.
#[derive(Clone, Copy, PartialEq, Eq, Hash)]
pub struct Setpoint<T>(T);

impl<T: Scalar> Setpoint<T> {
    /// The target value.
    pub closed spec fn value_of(&self) -> T {
        self.0
    }

    /// Instantiate a new [`Setpoint`] from the target scalar.
    pub fn raw(scalar: T) -> (target_setpoint: Self)
        ensures
            target_setpoint.value_of() == scalar,
    {
        Setpoint(scalar)
    }

    /// Determine the value of the setpoint.
    pub fn value(&self) -> (target_value: T)
        ensures
            target_value == self.value_of(),
    {
        self.0
    }
}

/// The process variable of a control system: the value the system is measuring or
/// controlling.
#[derive(Clone, Copy, PartialEq, Eq, Hash)]
pub struct Variable<T>(T);

impl<T: Scalar> Variable<T> {
    /// The measured value.
    pub closed spec fn value_of(&self) -> T {
        self.0
    }

    /// Instantiate a new [`Variable`] from the target scalar.
    pub fn raw(scalar: T) -> (target_variable: Self)
        ensures
            target_variable.value_of() == scalar,
    {
        Variable(scalar)
    }

    /// Determine the value of the process variable.
    pub fn value(&self) -> (target_value: T)
        ensures
            target_value == self.value_of(),
    {
        self.0
    }
}

/// The `SP - PV` error of a control system.
///
/// It has no explicit meaning by itself; the user of the system defines it.
#[derive(Clone, Copy, PartialEq, Eq, Hash)]
pub struct Error<T>(T);

impl<T: Scalar> Error<T> {
    /// The error value.
    pub closed spec fn value_of(&self) -> T {
        self.0
    }

    /// Instantiate a new error of `0`.
    pub fn zero() -> (target_error: Self)
        where
            T: Zero,
        ensures
            target_error.value_of() == T::zero_value(),
    {
        Error(T::zero())
    }

    /// Instantiate a new [`Error`] from the target scalar.
    pub fn raw(target_error: T) -> (wrapped_error: Self)
        ensures
            wrapped_error.value_of() == target_error,
    {
        Error(target_error)
    }

    /// Determine the value of the error.
    pub fn value(&self) -> (target_value: T)
        ensures
            target_value == self.value_of(),
    {
        self.0
    }
}

} // verus!
