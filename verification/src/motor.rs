//! Motor control: throttles, limits, motor drivers and the quadcopter layout.

pub mod setting;

pub mod throttle;

pub mod driver;

pub mod actuate;
