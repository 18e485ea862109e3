//! Raw register values with bit-level access.

use vstd::prelude::*;

use crate::bit::many::Extract;
use crate::bit::take::{Bits, HasPrimitive};

verus! {

/// The little-endian value of a two-byte array: `low + 256 * high`.
pub open spec fn le_word(low: u8, high: u8) -> u16 {
    (low as u16 | ((high as u16) << 8u16)) as u16
}

/// An 8-bit register: a new-type over a [`u8`] with bit-manipulation facilities.
#[derive(Debug, Clone, Copy, PartialEq, Eq, Structural, PartialOrd, Ord)]
pub struct Register8(u8);

impl Register8 {
    /// Instantiate a new [`Register8`] from a raw [`u8`] value.
    pub fn raw(target_value: u8) -> (target_register: Self)
        ensures
            target_register.word() == target_value as u16,
    {
        Register8(target_value)
    }

    /// Deconstruct this [`Register8`] into its raw [`u8`] value.
    pub fn value(self) -> (target_value: u8)
        ensures
            target_value as u16 == self.word(),
    {
        self.0
    }
}

impl HasPrimitive for Register8 {
    type Primitive = u8;

    open spec fn width() -> nat {
        8
    }

    closed spec fn word(&self) -> u16 {
        self.0 as u16
    }

    open spec fn primitive_word(target_value: u8) -> u16 {
        target_value as u16
    }

    proof fn lemma_layout(&self) {
    }

    fn raw(self) -> (target_value: u8) {
        self.0
    }

    fn load(&self) -> (target_word: u16) {
        self.0 as u16
    }

    fn store(target_word: u16) -> (target_value: Self) {
        Register8(target_word as u8)
    }
}

impl Bits for Register8 {
    fn single<const N: usize>() -> (target_value: Self) {
        Register8(u8::single::<N>())
    }
}

impl Extract for Register8 {
}

/// A 16-bit register: a new-type over a [`u16`] with bit-manipulation facilities.
#[derive(Debug, Clone, Copy, PartialEq, Eq, Structural, PartialOrd, Ord)]
pub struct Register16(u16);

impl Register16 {
    /// Reinterpret a 2-byte array in little-endian byte order (low byte first) as a
    /// [`Register16`].
    pub fn bytes(target_bytes: [u8; 2]) -> (target_register: Self)
        ensures
            target_register.word() == le_word(target_bytes[0], target_bytes[1]),
    {
        let low = target_bytes[0];
        let high = target_bytes[1];
        Self::raw(low as u16 | ((high as u16) << 8u16))
    }

    /// Instantiate a new [`Register16`] from a raw [`u16`] value.
    pub fn raw(target_value: u16) -> (target_register: Self)
        ensures
            target_register.word() == target_value,
    {
        Register16(target_value)
    }

    /// Deconstruct this [`Register16`] into its raw [`u16`] value.
    pub fn value(self) -> (target_value: u16)
        ensures
            target_value == self.word(),
    {
        self.0
    }
}

impl HasPrimitive for Register16 {
    type Primitive = u16;

    open spec fn width() -> nat {
        16
    }

    closed spec fn word(&self) -> u16 {
        self.0
    }

    open spec fn primitive_word(target_value: u16) -> u16 {
        target_value
    }

    proof fn lemma_layout(&self) {
    }

    fn raw(self) -> (target_value: u16) {
        self.0
    }

    fn load(&self) -> (target_word: u16) {
        self.0
    }

    fn store(target_word: u16) -> (target_value: Self) {
        Register16(target_word)
    }
}

impl Bits for Register16 {
    fn single<const N: usize>() -> (target_value: Self) {
        Register16(u16::single::<N>())
    }
}

impl Extract for Register16 {
}

/// The low byte of a little-endian word is its first byte, the high byte its second.
pub proof fn lemma_le_word_bytes(low: u8, high: u8)
    ensures
        le_word(low, high) & 0xff == low as u16,
        le_word(low, high) >> 8u16 == high as u16,
        le_word(low, high) == low as int + 256 * high as int,
{
    let target_word = le_word(low, high);
    assert(target_word & 0xff == low as u16 && target_word >> 8u16 == high as u16 && target_word
        == low as u16 + 256u16 * high as u16) by (bit_vector)
        requires
            target_word == (low as u16 | ((high as u16) << 8u16)) as u16,
    ;
}

} // verus!
