//! The protocol for controlling the aircraft's setpoints remotely.

pub mod packet;

pub mod control;
