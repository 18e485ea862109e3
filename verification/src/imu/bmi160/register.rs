//! Machine register access for the BMI160.

use vstd::prelude::*;

pub mod file;

verus! {

/// A register of the BMI160, located at [`Register::ADDRESS`].
pub trait Register {
    /// The address of the register.
    const ADDRESS: u8;
}

} // verus!
