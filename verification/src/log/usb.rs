//! The over-USB logging facade.

use vstd::prelude::*;

verus! {

/// A log facade for over-USB logging with a buffer of `S` bytes.
#[derive(Debug, Clone, Copy, PartialEq, Eq, Hash)]
pub struct Usb<const S: usize> {}

impl<const S: usize> Usb<S> {
    /// The default buffer size for the USB logger.
    pub const DEFAULT_BUFFER_SIZE: usize = 0x400;
}

} // verus!
