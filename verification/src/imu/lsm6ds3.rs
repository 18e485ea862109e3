//! The LSM6DS3 inertial measurement unit.

pub mod range;

pub mod interrupt;

pub mod register;

pub mod fifo;

pub mod readout;

pub mod config;

use vstd::prelude::*;

verus! {

/// The default bus address of an LSM6DS3 device for an address mode.
pub trait DefaultAddress: Sized {
    /// The default address in this address mode.
    const DEFAULT: Self;
}

/// Seven-bit addressing: the device answers at `0x68` by default.
impl DefaultAddress for u8 {
    const DEFAULT: u8 = 0x68;
}

} // verus!
