//! Machine register access for the LSM6DS3.

use vstd::prelude::*;

pub mod file;

verus! {

/// A register of the LSM6DS3, located at [`Register::ADDRESS`].
pub trait Register {
    /// The address of the register.
    const ADDRESS: u8;
}

} // verus!
