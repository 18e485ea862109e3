//! Physical dimensions.

use vstd::prelude::*;

verus! {

/// A dimension of a physical unit.
pub trait Dimension {

}

/// The dimension of length.
#[derive(Clone, Copy, PartialEq, Eq, Hash)]
pub struct Length;

impl Dimension for Length {

}

/// The dimension of mass.
#[derive(Clone, Copy, PartialEq, Eq, Hash)]
pub struct Mass;

impl Dimension for Mass {

}

/// The dimension of time.
#[derive(Clone, Copy, PartialEq, Eq, Hash)]
pub struct Time;

impl Dimension for Time {

}

/// The dimension of electric current.
#[derive(Clone, Copy, PartialEq, Eq, Hash)]
pub struct Current;

impl Dimension for Current {

}

/// The dimension of temperature.
#[derive(Clone, Copy, PartialEq, Eq, Hash)]
pub struct Temperature;

impl Dimension for Temperature {

}

/// The dimension of amount of substance.
#[derive(Clone, Copy, PartialEq, Eq, Hash)]
pub struct Substance;

impl Dimension for Substance {

}

/// The dimension of luminous intensity.
#[derive(Clone, Copy, PartialEq, Eq, Hash)]
pub struct Luminance;

impl Dimension for Luminance {

}

} // verus!
