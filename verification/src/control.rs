//! Control-system data types: setpoints, process variables, errors, control cycles and the
//! state of a PID controller.

pub mod system;

pub mod cycle;

pub mod pid;
