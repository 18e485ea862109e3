//! Packets that control the aircraft.

use vstd::prelude::*;

verus! {

/// The control behavior of the aircraft.
#[derive(Debug, Clone, Copy, PartialEq, Eq, Structural)]
pub enum ControlBehavior {
    /// Fully-manual control, no automated stabilization.
    Accrobatic,
    /// Control outputs are the weighted sum of the manual and the automated control inputs.
    ///
    /// This is the default behavior.
    Managed,
}

impl Default for ControlBehavior {
    fn default() -> (target_behavior: Self)
        ensures
            target_behavior == ControlBehavior::Managed,
    {
        ControlBehavior::Managed
    }
}

} // verus!
