//! Handles over single bits of a value.

use vstd::prelude::*;

use crate::bit::state::State;
use crate::bit::take::{Bits, HasPrimitive, state_at, with_state};

verus! {

/// The read-only `N`-th bit of a value of type `I`.
#[derive(Debug)]
pub struct Bit<'a, I, const N: usize>(&'a I);

impl<'a, I: Bits, const N: usize> Bit<'a, I, N> {
    /// The value the handle refers to.
    pub closed spec fn target(&self) -> I {
        *self.0
    }

    /// Wrap the target value's bit in a [`Bit`] handle.
    pub fn wrap(target_value: &'a I) -> (target_bit: Self)
        ensures
            target_bit.target() == *target_value,
    {
        Bit(target_value)
    }

    /// Determine the [`State`] of this bit.
    pub fn state(&self) -> (target_state: State)
        requires
            N < I::width(),
        ensures
            target_state == state_at(self.target().word(), N as u16),
    {
        self.0.get::<N>()
    }

    /// A copy of the underlying value with this bit cleared.
    pub fn cleared(&self) -> (target_value: I)
        requires
            N < I::width(),
        ensures
            target_value.word() == with_state(self.target().word(), N as u16, State::Cleared),
    {
        self.0.cleared::<N>()
    }

    /// A copy of the underlying value with this bit set.
    pub fn enabled(&self) -> (target_value: I)
        requires
            N < I::width(),
        ensures
            target_value.word() == with_state(self.target().word(), N as u16, State::Enabled),
    {
        self.0.enabled::<N>()
    }
}

/// The read-write `N`-th bit of a value of type `I`.
#[derive(Debug)]
pub struct BitMut<'a, I, const N: usize>(&'a mut I);

impl<'a, I: Bits, const N: usize> BitMut<'a, I, N> {
    /// The value currently behind the handle.
    pub closed spec fn current(&self) -> I {
        *self.0
    }

    /// Wrap the target value's bit in a [`BitMut`] handle.
    ///
    /// The handle never writes: once it is done with, the value is as it was.
    pub fn wrap(target_value: &'a mut I) -> (target_bit: Self)
        ensures
            target_bit.current() == *old(target_value),
            has_resolved(target_bit) ==> *final(target_value) == target_bit.current(),
    {
        BitMut(target_value)
    }
}

} // verus!
