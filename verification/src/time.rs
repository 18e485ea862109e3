//! Units of time.

use vstd::prelude::*;

use crate::number::ratio::Const;
use crate::unit::dimension::Time;
use crate::unit::unit::{Magnitude, Measure, Scale, Unit};

verus! {

/// The SI unit of time, the second.
#[derive(Clone, Copy, PartialEq, Eq, Hash, PartialOrd, Ord)]
pub struct Second<T>(T);

impl<T: Magnitude> Measure for Second<T> {
    type Dimension = Time;

    type Magnitude = T;

    closed spec fn magnitude_of(&self) -> T {
        self.0
    }

    fn raw(scalar: T) -> (target_unit: Self) {
        Second(scalar)
    }

    fn magnitude(self) -> (scalar: T) {
        self.0
    }
}

impl<T: Magnitude> Unit for Second<T> {
    type Base = Self;

    open spec fn scale_of() -> Scale {
        Scale::Same
    }

    fn scale_to_base() -> (target_scale: Scale) {
        Scale::Same
    }
}

/// A millisecond: one thousandth of a second.
#[derive(Clone, Copy, PartialEq, Eq, Hash, PartialOrd, Ord)]
pub struct Millisecond<T>(T);

impl<T: Magnitude> Measure for Millisecond<T> {
    type Dimension = Time;

    type Magnitude = T;

    closed spec fn magnitude_of(&self) -> T {
        self.0
    }

    fn raw(scalar: T) -> (target_unit: Self) {
        Millisecond(scalar)
    }

    fn magnitude(self) -> (scalar: T) {
        self.0
    }
}

impl<T: Magnitude> Unit for Millisecond<T> {
    type Base = Second<T>;

    /// Fractional by 1_000.
    open spec fn scale_of() -> Scale {
        Scale::Fractional(Const::<1000>::ratio_of())
    }

    fn scale_to_base() -> (target_scale: Scale) {
        Scale::Fractional(Const::<1000>::ratio())
    }
}

/// A microsecond: one millionth of a second.
#[derive(Clone, Copy, PartialEq, Eq, Hash, PartialOrd, Ord)]
pub struct Microsecond<T>(T);

impl<T: Magnitude> Measure for Microsecond<T> {
    type Dimension = Time;

    type Magnitude = T;

    closed spec fn magnitude_of(&self) -> T {
        self.0
    }

    fn raw(scalar: T) -> (target_unit: Self) {
        Microsecond(scalar)
    }

    fn magnitude(self) -> (scalar: T) {
        self.0
    }
}

impl<T: Magnitude> Unit for Microsecond<T> {
    type Base = Second<T>;

    /// Fractional by 1_000_000.
    open spec fn scale_of() -> Scale {
        Scale::Fractional(Const::<1000000>::ratio_of())
    }

    fn scale_to_base() -> (target_scale: Scale) {
        Scale::Fractional(Const::<1000000>::ratio())
    }
}

/// A nanosecond: one billionth of a second.
#[derive(Clone, Copy, PartialEq, Eq, Hash, PartialOrd, Ord)]
pub struct Nanosecond<T>(T);

impl<T: Magnitude> Measure for Nanosecond<T> {
    type Dimension = Time;

    type Magnitude = T;

    closed spec fn magnitude_of(&self) -> T {
        self.0
    }

    fn raw(scalar: T) -> (target_unit: Self) {
        Nanosecond(scalar)
    }

    fn magnitude(self) -> (scalar: T) {
        self.0
    }
}

impl<T: Magnitude> Unit for Nanosecond<T> {
    type Base = Second<T>;

    /// Fractional by 1_000_000_000.
    open spec fn scale_of() -> Scale {
        Scale::Fractional(Const::<1000000000>::ratio_of())
    }

    fn scale_to_base() -> (target_scale: Scale) {
        Scale::Fractional(Const::<1000000000>::ratio())
    }
}

/// A minute: sixty seconds.
#[derive(Clone, Copy, PartialEq, Eq, Hash, PartialOrd, Ord)]
pub struct Minute<T>(T);

impl<T: Magnitude> Measure for Minute<T> {
    type Dimension = Time;

    type Magnitude = T;

    closed spec fn magnitude_of(&self) -> T {
        self.0
    }

    fn raw(scalar: T) -> (target_unit: Self) {
        Minute(scalar)
    }

    fn magnitude(self) -> (scalar: T) {
        self.0
    }
}

impl<T: Magnitude> Unit for Minute<T> {
    type Base = Second<T>;

    /// Multiple by 60.
    open spec fn scale_of() -> Scale {
        Scale::Multiple(Const::<60>::ratio_of())
    }

    fn scale_to_base() -> (target_scale: Scale) {
        Scale::Multiple(Const::<60>::ratio())
    }
}

/// An hour: sixty minutes.
#[derive(Clone, Copy, PartialEq, Eq, Hash, PartialOrd, Ord)]
pub struct Hour<T>(T);

impl<T: Magnitude> Measure for Hour<T> {
    type Dimension = Time;

    type Magnitude = T;

    closed spec fn magnitude_of(&self) -> T {
        self.0
    }

    fn raw(scalar: T) -> (target_unit: Self) {
        Hour(scalar)
    }

    fn magnitude(self) -> (scalar: T) {
        self.0
    }
}

impl<T: Magnitude> Unit for Hour<T> {
    type Base = Second<T>;

    /// Multiple by 3_600.
    open spec fn scale_of() -> Scale {
        Scale::Multiple(Const::<3600>::ratio_of())
    }

    fn scale_to_base() -> (target_scale: Scale) {
        Scale::Multiple(Const::<3600>::ratio())
    }
}

/// A day: twenty-four hours.
#[derive(Clone, Copy, PartialEq, Eq, Hash, PartialOrd, Ord)]
pub struct Day<T>(T);

impl<T: Magnitude> Measure for Day<T> {
    type Dimension = Time;

    type Magnitude = T;

    closed spec fn magnitude_of(&self) -> T {
        self.0
    }

    fn raw(scalar: T) -> (target_unit: Self) {
        Day(scalar)
    }

    fn magnitude(self) -> (scalar: T) {
        self.0
    }
}

impl<T: Magnitude> Unit for Day<T> {
    type Base = Second<T>;

    /// Multiple by 86_400.
    open spec fn scale_of() -> Scale {
        Scale::Multiple(Const::<86400>::ratio_of())
    }

    fn scale_to_base() -> (target_scale: Scale) {
        Scale::Multiple(Const::<86400>::ratio())
    }
}

} // verus!
