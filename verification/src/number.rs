//! Number types: scalars, normalized numbers and ratios.

pub mod scalar;

pub mod normal;

pub mod ratio;
