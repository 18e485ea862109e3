//! The BMI160 inertial measurement unit.

pub mod raw;

pub mod scale;

pub mod sensor;

pub mod register;

pub mod config;

pub mod readout;
