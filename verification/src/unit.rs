//! Physical dimensions and units of measure.

pub mod dimension;

pub mod unit;
