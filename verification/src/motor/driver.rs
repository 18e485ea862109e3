//! The motor driver interface.

use vstd::prelude::*;

use crate::motor::setting::Limit;
use crate::motor::throttle::Throttle;

verus! {

/// A motor driver that can be controlled by a single [`Throttle`] value.
pub trait Motor {
    /// The throttle currently set on the motor, if any.
    spec fn commanded(&self) -> Option<Throttle>;

    /// The limit currently imposed on the motor, if any.
    spec fn imposed(&self) -> Option<Limit>;

    /// Set the throttle output to the specified [`Throttle`] value.
    ///
    /// The motor keeps outputting the same throttle until a new one is set; its limit stays as
    /// it was. Yields back the throttle that was set before, if any.
    fn control(&mut self, target_throttle: Throttle) -> (previous_throttle: Option<Throttle>)
        ensures
            previous_throttle == old(self).commanded(),
            final(self).commanded() == Some(target_throttle),
            final(self).imposed() == old(self).imposed(),
    ;

    /// Artificially limit any throttle values sent to this motor.
    ///
    /// The throttle set on the motor stays as it was. Yields back the limit that was imposed
    /// before, if any.
    fn limit(&mut self, target_limit: Limit) -> (previous_limit: Option<Limit>)
        ensures
            previous_limit == old(self).imposed(),
            final(self).imposed() == Some(target_limit),
            final(self).commanded() == old(self).commanded(),
    ;
}

} // verus!
