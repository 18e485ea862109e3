//! Normal numbers in the `[0, 1]` range.

use vstd::prelude::*;

verus! {

/// A number in the `[0, 1]` range represented in increments of **1 / [`u8::MAX`]**: the level
/// `k` stands for `k / 255`.
///
/// Conversions from and to floating-point numbers round, so a round-trip is not guaranteed to
/// give back the exact same value.
#[derive(Debug, Clone, Copy, PartialEq, Eq, Structural, PartialOrd, Ord, Hash)]
pub struct Normal(u8);

impl Normal {
    /// The level, in increments of `1 / 255`.
    pub closed spec fn level_of(&self) -> u8 {
        self.0
    }

    /// The `1` value.
    pub fn one() -> (target_value: Self)
        ensures
            target_value.level_of() == u8::MAX,
    {
        Normal(u8::MAX)
    }

    /// The `0` value.
    pub fn zero() -> (target_value: Self)
        ensures
            target_value.level_of() == 0,
    {
        Normal(0)
    }

    /// The number `level / 255`.
    pub fn level(level: u8) -> (target_value: Self)
        ensures
            target_value.level_of() == level,
    {
        Normal(level)
    }

    /// The level of this number, in increments of `1 / 255`.
    pub fn value(&self) -> (level: u8)
        ensures
            level == self.level_of(),
    {
        self.0
    }
}

} // verus!
