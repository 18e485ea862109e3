//! Sensor scales.

use vstd::prelude::*;

use crate::fixpoint::Fixpoint;

verus! {

/// A scale for a sensor value, as a fixed-point number with 12 fractional bits.
///
/// This is applied to the raw sensor data to convert it into a meaningful value, as per the
/// setting of the sensor.
#[derive(Debug, Clone, Copy, PartialEq, Eq, PartialOrd, Ord)]
pub struct Scale(Fixpoint<u32, 12>);

impl Scale {
    /// The raw fixed-point value of the scale.
    pub closed spec fn word(&self) -> u32 {
        self.0.inner()
    }

    /// Instantiate a new scale from the raw value of its fixed-point number.
    pub fn raw(raw_value: u32) -> (target_scale: Self)
        ensures
            target_scale.word() == raw_value,
    {
        Scale(Fixpoint::raw(raw_value))
    }

    /// Instantiate a new scale from a fixed-point number.
    pub fn fixed(target_value: Fixpoint<u32, 12>) -> (target_scale: Self)
        ensures
            target_scale.word() == target_value.inner(),
    {
        Scale(target_value)
    }

    /// The raw value of the scale's fixed-point number.
    pub fn value(self) -> (raw_value: u32)
        ensures
            raw_value == self.word(),
    {
        self.0.value()
    }
}

/// A sensor range with a preset scale.
pub trait Scaled {
    /// The raw fixed-point value of the range's scale.
    spec fn scale_word(&self) -> u32;

    /// Determine the sensor scale for the target range.
    fn scale(&self) -> (target_scale: Scale)
        ensures
            target_scale.word() == self.scale_word(),
    ;
}

} // verus!
