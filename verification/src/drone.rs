//! The decisions of the drone firmware's subsystems.

pub mod powerplant;

pub mod server;

pub mod network;

pub mod trace;
