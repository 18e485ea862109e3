//! The TCP server of the drone.

use vstd::prelude::*;

verus! {

/// A TCP server on port `P` with receive and transmit buffers of `N` bytes each.
#[derive(Debug, Clone, Copy)]
pub struct Server<const P: u16, const N: usize>;

} // verus!
