//! Yakka: the verified core of a quadcopter flight-control stack.
//!
//! The library holds the bit-level register model, fixed-point arithmetic, sensor data
//! decoding and register configuration for the supported inertial measurement units, motor
//! throttle representations, the control-system data types and the editable state of the
//! remote controller's terminal.

pub mod bit;

pub mod register;

pub mod fixpoint;

pub mod imu;

pub mod number;

pub mod unit;

pub mod time;

pub mod motor;

pub mod signed_motor;

pub mod control;

pub mod protocol;

pub mod log;

pub mod drone;

pub mod remote;
