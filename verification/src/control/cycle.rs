//! Control cycles: distinct periods of time during which a control system performs its
//! operations.

use vstd::prelude::*;

use crate::number::scalar::Scalar;
use crate::unit::dimension::Time;
use crate::unit::unit::Unit;

verus! {

/// The delta-time of a control cycle, measured in a unit of time.
#[derive(Clone, Copy, PartialEq, Eq, Hash, PartialOrd, Ord)]
pub struct Delta<U>(U);

impl<U: Unit<Dimension = Time>> Delta<U> {
    /// The elapsed time.
    pub closed spec fn unit_of(&self) -> U {
        self.0
    }

    /// Instantiate a new [`Delta`] from a time value.
    pub fn time(unit: U) -> (target_delta: Self)
        ensures
            target_delta.unit_of() == unit,
    {
        Delta(unit)
    }

    /// Determine the elapsed time.
    pub fn unit(&self) -> (target_unit: &U)
        ensures
            *target_unit == self.unit_of(),
    {
        &self.0
    }
}

/// The output of a control system that outputs a scalar value.
#[derive(Clone, Copy, PartialEq, Eq, Hash)]
pub struct Output<T>(T);

impl<T: Scalar> Output<T> {
    /// The output value.
    pub closed spec fn value_of(&self) -> T {
        self.0
    }

    /// Instantiate a new [`Output`] from the target scalar.
    pub fn raw(target_output: T) -> (wrapped_output: Self)
        ensures
            wrapped_output.value_of() == target_output,
    {
        Output(target_output)
    }

    /// Take the scalar value of the output.
    pub fn take(self) -> (target_output: T)
        ensures
            target_output == self.value_of(),
    {
        self.0
    }
}

/// A limit of the output of a control system.
#[derive(Clone, Copy, PartialEq, Eq, Hash)]
pub struct Limit<T> {
    /// The minimum value of the limit.
    min: T,
    /// The maximum value of the limit.
    max: T,
}

/// The filtered output of a control system: the output together with the limit applied to it.
#[derive(Clone, Copy, PartialEq, Eq, Hash)]
pub struct Filtered<T> {
    /// The limit that was applied to the output.
    limit: Limit<T>,
    /// The unfiltered output.
    output: Output<T>,
}

impl<T: Scalar> Filtered<T> {
    /// The limit that was applied.
    pub closed spec fn limit_of(&self) -> Limit<T> {
        self.limit
    }

    /// The unfiltered output.
    pub closed spec fn output_of(&self) -> Output<T> {
        self.output
    }

    /// Determine the limit that was applied to the output.
    pub fn limit(&self) -> (target_limit: &Limit<T>)
        ensures
            *target_limit == self.limit_of(),
    {
        &self.limit
    }

    /// Determine the unfiltered output of the control system.
    pub fn output(&self) -> (target_output: &Output<T>)
        ensures
            *target_output == self.output_of(),
    {
        &self.output
    }
}

} // verus!
