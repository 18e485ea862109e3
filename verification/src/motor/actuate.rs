//! The quadcopter motor layout.

use vstd::prelude::*;

use crate::motor::driver::Motor;
use crate::motor::setting::Limit;
use crate::motor::throttle::Throttle;

verus! {

/// The throttle parameters for the principal axes of an aircraft.
#[derive(Debug, Clone, Copy, PartialEq, Eq, Structural)]
pub struct Axes {
    /// The pitch throttle parameter.
    pitch: Throttle,
    /// The yaw throttle parameter.
    yaw: Throttle,
    /// The roll throttle parameter.
    roll: Throttle,
}

impl Axes {
    /// The pitch throttle parameter.
    pub closed spec fn pitch_of(&self) -> Throttle {
        self.pitch
    }

    /// The yaw throttle parameter.
    pub closed spec fn yaw_of(&self) -> Throttle {
        self.yaw
    }

    /// The roll throttle parameter.
    pub closed spec fn roll_of(&self) -> Throttle {
        self.roll
    }

    /// A zeroed axes control vector: the minimal throttle on every axis.
    pub fn zero() -> (target_axes: Self)
        ensures
            target_axes == Self::zero_axes(),
            target_axes.pitch_of() == Throttle::min_throttle(),
            target_axes.yaw_of() == Throttle::min_throttle(),
            target_axes.roll_of() == Throttle::min_throttle(),
            target_axes.pitch_of().level_of() == 1,
            target_axes.yaw_of().level_of() == 1,
            target_axes.roll_of().level_of() == 1,
    {
        Axes { pitch: Throttle::min(), yaw: Throttle::min(), roll: Throttle::min() }
    }

    /// The pitch throttle parameter.
    pub fn pitch(&self) -> (target_throttle: Throttle)
        ensures
            target_throttle == self.pitch_of(),
    {
        self.pitch
    }

    /// The yaw throttle parameter.
    pub fn yaw(&self) -> (target_throttle: Throttle)
        ensures
            target_throttle == self.yaw_of(),
    {
        self.yaw
    }

    /// The roll throttle parameter.
    pub fn roll(&self) -> (target_throttle: Throttle)
        ensures
            target_throttle == self.roll_of(),
    {
        self.roll
    }
}

/// The control vector of an aircraft: a baseline throttle and a throttle for each principal
/// axis (pitch, yaw and roll).
pub struct ControlVector {
    /// The baseline throttle input.
    throttle_baseline: Throttle,
    /// The throttle for each aircraft axis.
    axes_throttle: Axes,
}

impl ControlVector {
    /// The baseline throttle.
    pub closed spec fn baseline_of(&self) -> Throttle {
        self.throttle_baseline
    }

    /// The axes throttles.
    pub closed spec fn axes_of(&self) -> Axes {
        self.axes_throttle
    }

    /// Instantiate a new bare, throttle-only control vector: the given baseline and zeroed
    /// axes.
    pub fn bare(target_throttle: Throttle) -> (target_vector: Self)
        ensures
            target_vector.baseline_of() == target_throttle,
            target_vector.axes_of() == Axes::zero_axes(),
            target_vector.axes_of().pitch_of() == Throttle::min_throttle(),
            target_vector.axes_of().yaw_of() == Throttle::min_throttle(),
            target_vector.axes_of().roll_of() == Throttle::min_throttle(),
            target_vector.axes_of().pitch_of().level_of() == 1,
            target_vector.axes_of().yaw_of().level_of() == 1,
            target_vector.axes_of().roll_of().level_of() == 1,
    {
        ControlVector { throttle_baseline: target_throttle, axes_throttle: Axes::zero() }
    }

    /// The baseline throttle.
    pub fn baseline(&self) -> (target_throttle: Throttle)
        ensures
            target_throttle == self.baseline_of(),
    {
        self.throttle_baseline
    }

    /// The axes throttles.
    pub fn axes(&self) -> (target_axes: Axes)
        ensures
            target_axes == self.axes_of(),
    {
        self.axes_throttle
    }
}

impl Axes {
    /// The zeroed axes.
    pub closed spec fn zero_axes() -> Axes {
        Axes { pitch: Throttle::min_throttle(), yaw: Throttle::min_throttle(), roll: Throttle::min_throttle() }
    }
}

/// A quadcopter motor layout arranged in an `X` shape.
///
/// ```text
///     UPPER
///       ↑
/// (M1)     (M2)
///  CCW       CW
///    \     /
///      \ /
///      / \
///    /     \
///  CW       CCW
/// (M4)     (M3)
///       ↓
///     LOWER
/// ```
pub struct Quad<M> {
    /// The motor in the upper left quadrant, rotating counter-clockwise.
    upper_left: M,
    /// The motor in the upper right quadrant, rotating clockwise.
    upper_right: M,
    /// The motor in the lower left quadrant, rotating clockwise.
    lower_left: M,
    /// The motor in the lower right quadrant, rotating counter-clockwise.
    lower_right: M,
}

impl<M: Motor> Quad<M> {
    /// The four motors: upper left, upper right, lower left, lower right.
    pub closed spec fn motors(&self) -> (M, M, M, M) {
        (self.upper_left, self.upper_right, self.lower_left, self.lower_right)
    }

    /// Create a new quadcopter layout from its motors, in the order upper left, upper right,
    /// lower left, lower right.
    pub fn tuple(target_motors: (M, M, M, M)) -> (target_quad: Self)
        ensures
            target_quad.motors() == target_motors,
    {
        let (upper_left, upper_right, lower_left, lower_right) = target_motors;
        Quad { upper_left, upper_right, lower_left, lower_right }
    }

    /// Set the throttle limit of every motor.
    ///
    /// Yields back the limit already present in each motor, in the order upper left, upper
    /// right, lower left, lower right.
    pub fn limit(&mut self, target_limit: Limit) -> (previous_limits: [Option<Limit>; 4])
        ensures
            previous_limits[0] == old(self).motors().0.imposed(),
            previous_limits[1] == old(self).motors().1.imposed(),
            previous_limits[2] == old(self).motors().2.imposed(),
            previous_limits[3] == old(self).motors().3.imposed(),
            final(self).motors().0.imposed() == Some(target_limit),
            final(self).motors().0.commanded() == old(self).motors().0.commanded(),
            final(self).motors().1.imposed() == Some(target_limit),
            final(self).motors().1.commanded() == old(self).motors().1.commanded(),
            final(self).motors().2.imposed() == Some(target_limit),
            final(self).motors().2.commanded() == old(self).motors().2.commanded(),
            final(self).motors().3.imposed() == Some(target_limit),
            final(self).motors().3.commanded() == old(self).motors().3.commanded(),
    {
        let l0 = self.upper_left.limit(target_limit);
        let l1 = self.upper_right.limit(target_limit);
        let l2 = self.lower_left.limit(target_limit);
        let l3 = self.lower_right.limit(target_limit);
        [l0, l1, l2, l3]
    }

    /// Hand one throttle to each motor, in the order upper left, upper right, lower left,
    /// lower right.
    ///
    /// Yields back the throttle already present in each motor, in the same order.
    pub fn drive(&mut self, target_throttles: [Throttle; 4]) -> (previous_throttles: [Option<Throttle>; 4])
        ensures
            previous_throttles[0] == old(self).motors().0.commanded(),
            previous_throttles[1] == old(self).motors().1.commanded(),
            previous_throttles[2] == old(self).motors().2.commanded(),
            previous_throttles[3] == old(self).motors().3.commanded(),
            final(self).motors().0.commanded() == Some(target_throttles[0]),
            final(self).motors().0.imposed() == old(self).motors().0.imposed(),
            final(self).motors().1.commanded() == Some(target_throttles[1]),
            final(self).motors().1.imposed() == old(self).motors().1.imposed(),
            final(self).motors().2.commanded() == Some(target_throttles[2]),
            final(self).motors().2.imposed() == old(self).motors().2.imposed(),
            final(self).motors().3.commanded() == Some(target_throttles[3]),
            final(self).motors().3.imposed() == old(self).motors().3.imposed(),
    {
        let t0 = self.upper_left.control(target_throttles[0]);
        let t1 = self.upper_right.control(target_throttles[1]);
        let t2 = self.lower_left.control(target_throttles[2]);
        let t3 = self.lower_right.control(target_throttles[3]);
        [t0, t1, t2, t3]
    }
}

} // verus!
