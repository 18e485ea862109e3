//! Interrupt routing.

use vstd::prelude::*;

verus! {

/// The route of an interrupt.
#[derive(Debug, Clone, Copy, PartialEq, Eq, Structural, PartialOrd, Ord, Hash)]
pub enum Route {
    /// Route the interrupt only through the `INT1` pin.
    Int1,
    /// Route the interrupt only through the `INT2` pin.
    Int2,
    /// Route the interrupt through both the `INT1` and `INT2` pins at once.
    Simultaneous,
}

impl Route {
    /// Whether the route goes through the `INT1` pin.
    pub fn uses_int1(&self) -> (flag: bool)
        ensures
            flag == (*self is Int1 || *self is Simultaneous),
    {
        match self {
            Route::Int1 | Route::Simultaneous => true,
            Route::Int2 => false,
        }
    }

    /// Whether the route goes through the `INT2` pin.
    pub fn uses_int2(&self) -> (flag: bool)
        ensures
            flag == (*self is Int2 || *self is Simultaneous),
    {
        match self {
            Route::Int2 | Route::Simultaneous => true,
            Route::Int1 => false,
        }
    }
}

/// The configuration of the interrupt generator pins: `INT1` and `INT2`.
///
/// It carries no setting yet.
pub struct InterruptConfig {}

} // verus!
