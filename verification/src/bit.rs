//! Bit-level manipulation of register-like values.

pub mod state;

pub mod take;

pub mod many;

pub mod handle;
