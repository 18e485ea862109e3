//! The throttle of a motor.

use vstd::prelude::*;

verus! {

/// The throttle output to a motor controller.
///
/// A throttle is in one of two modes:
///  - `neutral`, where no control output is expected;
///  - `active`, where the output is a non-zero level `k` standing for `k / 255`.
///
/// The `neutral` throttle and the lowest `active` throttle are not equivalent: a small throttle
/// is perfectly achievable during flight.
///
/// The representation is the level itself, `0` standing for `neutral`.
#[derive(Debug, Clone, Copy, PartialEq, Eq, Structural, Hash, PartialOrd, Ord)]
pub struct Throttle(u8);

impl Throttle {
    /// The active level, or `0` for the neutral throttle.
    pub closed spec fn level_of(&self) -> u8 {
        self.0
    }

    /// The minimal active throttle.
    pub closed spec fn min_throttle() -> Throttle {
        Throttle(1)
    }

    /// A neutral throttle output.
    pub fn neutral() -> (target_throttle: Self)
        ensures
            target_throttle.level_of() == 0,
    {
        Throttle(0)
    }

    /// A maximal throttle output (`100%`).
    pub fn max() -> (target_throttle: Self)
        ensures
            target_throttle.level_of() == u8::MAX,
    {
        Throttle(u8::MAX)
    }

    /// A minimal active throttle output: the level `1`.
    pub fn min() -> (target_throttle: Self)
        ensures
            target_throttle == Self::min_throttle(),
            target_throttle.level_of() == 1,
    {
        Throttle(1)
    }

    /// The active throttle of level `raw_level`, where a level of `0` gives the minimal active
    /// throttle.
    pub fn level(raw_level: u8) -> (target_throttle: Self)
        ensures
            target_throttle.level_of() == (if raw_level == 0 {
                1
            } else {
                raw_level
            }),
    {
        if raw_level == 0 {
            Throttle(1)
        } else {
            Throttle(raw_level)
        }
    }

    /// The active level, or `None` for the neutral throttle.
    pub fn raw(&self) -> (raw_level: Option<u8>)
        ensures
            self.level_of() == 0 ==> raw_level is None,
            self.level_of() != 0 ==> raw_level == Some(self.level_of()),
    {
        if self.0 == 0 {
            None
        } else {
            Some(self.0)
        }
    }

    /// The level the output stands for, in increments of `1 / 255`: a neutral throttle stands
    /// for the minimal active level.
    pub fn magnitude(&self) -> (target_level: u8)
        ensures
            target_level == (if self.level_of() == 0 {
                1
            } else {
                self.level_of()
            }),
            target_level >= 1,
    {
        if self.0 == 0 {
            1
        } else {
            self.0
        }
    }
}

} // verus!
