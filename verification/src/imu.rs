//! Inertial measurement unit support.
//!
//! See each chip's module: the register files, the decoding of sensor data and the register
//! values that configure each device.

pub mod bmi160;

pub mod lsm6ds3;
