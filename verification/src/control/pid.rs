//! The state of a Proportional-Integral-Derivative (PID) controller.
//!
//! The controller's cycle computes in floating point and lives with the firmware; this module
//! holds the controller's state and its accessors.

use vstd::prelude::*;

pub mod gain;

use crate::control::cycle::Delta;
use crate::control::pid::gain::{Gain, Integral};
use crate::control::system::{Error, Setpoint, Variable};
use crate::number::scalar::Scalar;
use crate::time::Millisecond;
use crate::unit::unit::Measure;

verus! {

/// A PID controller that operates on setpoints and process variables of type `T`.
#[derive(Clone, Copy, PartialEq, Eq, Hash)]
pub struct Pid<T> {
    /// The three gain factors of the controller: `(K_p, K_i, K_d)`.
    gain_factor: Gain<T>,
    /// The setpoint of the controller.
    setpoint: Setpoint<T>,
    /// The accumulated integral component of the controller.
    integral: Integral<T>,
    /// The `SP - PV` error measured in the previous control cycle.
    previous_error: Error<T>,
}

impl<T: Scalar> Pid<T> {
    /// The gain factors.
    pub closed spec fn gain_of(&self) -> Gain<T> {
        self.gain_factor
    }

    /// The setpoint.
    pub closed spec fn setpoint_of(&self) -> Setpoint<T> {
        self.setpoint
    }

    /// The accumulated integral.
    pub closed spec fn integral_of(&self) -> Integral<T> {
        self.integral
    }

    /// The error of the previous cycle.
    pub closed spec fn previous_error_of(&self) -> Error<T> {
        self.previous_error
    }

    /// Instantiate a controller from its gains, its setpoint, its accumulated integral and the
    /// error of the previous cycle.
    pub fn state(
        gain_factor: Gain<T>,
        setpoint: Setpoint<T>,
        integral: Integral<T>,
        previous_error: Error<T>,
    ) -> (target_pid: Self)
        ensures
            target_pid.gain_of() == gain_factor,
            target_pid.setpoint_of() == setpoint,
            target_pid.integral_of() == integral,
            target_pid.previous_error_of() == previous_error,
    {
        Pid { gain_factor, setpoint, integral, previous_error }
    }

    /// Determine the gain factors in use by this controller.
    pub fn gain(&self) -> (target_gain: &Gain<T>)
        ensures
            *target_gain == self.gain_of(),
    {
        &self.gain_factor
    }

    /// Determine the setpoint of this controller.
    pub fn setpoint(&self) -> (target_setpoint: &Setpoint<T>)
        ensures
            *target_setpoint == self.setpoint_of(),
    {
        &self.setpoint
    }

    /// Determine the setpoint of this controller, mutably.
    pub fn setpoint_mut(&mut self) -> (target_setpoint: &mut Setpoint<T>)
        ensures
            *target_setpoint == old(self).setpoint_of(),
            final(self).setpoint_of() == *final(target_setpoint),
            final(self).gain_of() == old(self).gain_of(),
            final(self).integral_of() == old(self).integral_of(),
            final(self).previous_error_of() == old(self).previous_error_of(),
    {
        &mut self.setpoint
    }

    /// The state a control cycle updates, mutably: the accumulated integral and the error of
    /// the previous cycle.
    pub fn cycle_state_mut(&mut self) -> (target_state: (&mut Integral<T>, &mut Error<T>))
        ensures
            *target_state.0 == old(self).integral_of(),
            *target_state.1 == old(self).previous_error_of(),
            final(self).integral_of() == *final(target_state.0),
            final(self).previous_error_of() == *final(target_state.1),
            final(self).gain_of() == old(self).gain_of(),
            final(self).setpoint_of() == old(self).setpoint_of(),
    {
        (&mut self.integral, &mut self.previous_error)
    }
}

/// The context passed to a control cycle of a [`Pid`] controller.
#[derive(Clone, Copy, PartialEq, Eq)]
pub struct PidContext<T> {
    /// The process variable as measured by the driver.
    variable: Variable<T>,
    /// The time delta of this control cycle.
    delta_time: Delta<Millisecond<u8>>,
    /// The index of the control cycle, if any; never `0`.
    cycle_index: Option<usize>,
}

impl<T: Scalar> PidContext<T> {
    /// The measured process variable.
    pub closed spec fn variable_of(&self) -> Variable<T> {
        self.variable
    }

    /// The time delta.
    pub closed spec fn delta_of(&self) -> Delta<Millisecond<u8>> {
        self.delta_time
    }

    /// The cycle index.
    pub closed spec fn index_of(&self) -> Option<usize> {
        self.cycle_index
    }

    /// Instantiate a context from the measured variable, the time delta of the cycle and the
    /// cycle's index, a zero index counting as none.
    pub fn cycle(
        variable: Variable<T>,
        delta_time: Delta<Millisecond<u8>>,
        cycle_index: usize,
    ) -> (target_context: Self)
        ensures
            target_context.variable_of() == variable,
            target_context.delta_of() == delta_time,
            cycle_index == 0 ==> target_context.index_of() is None,
            cycle_index != 0 ==> target_context.index_of() == Some(cycle_index),
    {
        let cycle_index = if cycle_index == 0 {
            None
        } else {
            Some(cycle_index)
        };
        PidContext { variable, delta_time, cycle_index }
    }

    /// The measured process variable.
    pub fn variable(&self) -> (target_variable: Variable<T>)
        ensures
            target_variable == self.variable_of(),
    {
        self.variable
    }

    /// The time delta of the cycle.
    pub fn delta_time(&self) -> (target_delta: Delta<Millisecond<u8>>)
        ensures
            target_delta == self.delta_of(),
    {
        self.delta_time
    }

    /// The elapsed time of the cycle in milliseconds, a zero delta counting as one
    /// millisecond so that the cycle always spans some time.
    pub fn elapsed_milliseconds(&self) -> (elapsed: u8)
        ensures
            elapsed == (if self.delta_of().unit_of().magnitude_of() == 0 {
                1
            } else {
                self.delta_of().unit_of().magnitude_of()
            }),
            elapsed >= 1,
    {
        let milliseconds = self.delta_time.unit().magnitude();
        if milliseconds == 0 {
            1
        } else {
            milliseconds
        }
    }

    /// The index of the cycle, if any.
    pub fn cycle_index(&self) -> (target_index: Option<usize>)
        ensures
            target_index == self.index_of(),
    {
        self.cycle_index
    }
}

} // verus!
