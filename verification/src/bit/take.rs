//! Single-bit access on register-like values.
//!
//! Every register-like type is modelled by its underlying word, an 8-bit or a 16-bit unsigned
//! integer, held zero-extended in a `u16`.

use vstd::prelude::*;

use crate::bit::state::{State, opposite};

verus! {

/// One more than the largest word of a type that is `width` bits wide.
pub open spec fn word_limit(width: nat) -> int {
    if width == 8 {
        0x100
    } else {
        0x1_0000
    }
}

/// The state of the bit at `index` in `word`.
pub open spec fn state_at(word: u16, index: u16) -> State {
    if word & (1u16 << index) == 0 {
        State::Cleared
    } else {
        State::Enabled
    }
}

/// `word` with the bit at `index` put in `target_state`, every other bit unchanged.
pub open spec fn with_state(word: u16, index: u16, target_state: State) -> u16 {
    match target_state {
        State::Enabled => word | (1u16 << index),
        State::Cleared => word & !(1u16 << index),
    }
}

/// A type that is built upon a primitive unsigned integer of 8 or 16 bits.
pub trait HasPrimitive: Sized + Copy {
    /// The primitive scalar type of this type.
    type Primitive;

    /// The number of bits of the primitive: 8 or 16.
    spec fn width() -> nat;

    /// The primitive value, zero-extended to 16 bits.
    spec fn word(&self) -> u16;

    /// A primitive value, zero-extended to 16 bits.
    spec fn primitive_word(target_value: Self::Primitive) -> u16;

    /// Every value has a width of 8 or 16 bits and a word that fits in it.
    proof fn lemma_layout(&self)
        ensures
            Self::width() == 8 || Self::width() == 16,
            self.word() < word_limit(Self::width()),
    ;

    /// Convert this value into its primitive type.
    fn raw(self) -> (target_value: Self::Primitive)
        ensures
            Self::primitive_word(target_value) == self.word(),
    ;

    /// Read the underlying word, zero-extended to 16 bits.
    fn load(&self) -> (target_word: u16)
        ensures
            target_word == self.word(),
    ;

    /// Build a value from a word that fits in its width.
    fn store(target_word: u16) -> (target_value: Self)
        requires
            target_word < word_limit(Self::width()),
        ensures
            target_value.word() == target_word,
    ;
}

proof fn lemma_mask_fits(target_word: u16, index: u16, width: u16)
    by (bit_vector)
    requires
        width == 8 || width == 16,
        index < width,
        width == 8 ==> target_word < 0x100,
    ensures
        index < 16,
        width == 8 ==> (target_word | (1u16 << index)) < 0x100,
        width == 8 ==> (target_word & !(1u16 << index)) < 0x100,
        width == 8 ==> (1u16 << index) < 0x100,
{
}

/// A type whose bits can be manipulated individually.
///
/// The bit index `N` counts from the least significant bit.
pub trait Bits: HasPrimitive {
    /// Set the [`State`] of the `N`-th bit.
    ///
    /// Yields back the previous state of the bit.
    fn set<const N: usize>(&mut self, target_state: State) -> (previous_state: State)
        requires
            N < Self::width(),
        ensures
            previous_state == state_at(old(self).word(), N as u16),
            final(self).word() == with_state(old(self).word(), N as u16, target_state),
    {
        proof {
            self.lemma_layout();
            lemma_mask_fits(self.word(), N as u16, Self::width() as u16);
        }
        let previous_state = self.get::<N>();
        let target_word = self.load();
        let target_mask: u16 = 1u16 << (N as u16);
        let target_word = match target_state {
            State::Enabled => target_word | target_mask,
            State::Cleared => target_word & !target_mask,
        };
        *self = Self::store(target_word);
        previous_state
    }

    /// Determine the [`State`] of the `N`-th bit.
    fn get<const N: usize>(&self) -> (target_state: State)
        requires
            N < Self::width(),
        ensures
            target_state == state_at(self.word(), N as u16),
    {
        proof {
            self.lemma_layout();
        }
        let target_word = self.load();
        let target_mask: u16 = 1u16 << (N as u16);
        if target_word & target_mask == 0 {
            State::Cleared
        } else {
            State::Enabled
        }
    }

    /// Instantiate a new value of this type with only the `N`-th bit set.
    fn single<const N: usize>() -> (target_value: Self)
        requires
            N < Self::width(),
        ensures
            target_value.word() == 1u16 << (N as u16),
    ;

    /// Toggle the state of the `N`-th bit.
    ///
    /// Yields back the previous state of the bit.
    fn toggle<const N: usize>(&mut self) -> (previous_state: State)
        requires
            N < Self::width(),
        ensures
            previous_state == state_at(old(self).word(), N as u16),
            final(self).word() == with_state(
                old(self).word(),
                N as u16,
                opposite(state_at(old(self).word(), N as u16)),
            ),
    {
        let target_state = self.get::<N>();
        match target_state {
            State::Enabled => self.set::<N>(State::Cleared),
            State::Cleared => self.set::<N>(State::Enabled),
        }
    }

    /// Copy this value, but with the `N`-th bit toggled.
    fn toggled<const N: usize>(&self) -> (target_copy: Self)
        requires
            N < Self::width(),
        ensures
            target_copy.word() == with_state(
                self.word(),
                N as u16,
                opposite(state_at(self.word(), N as u16)),
            ),
    {
        let mut target_copy = *self;
        let _ = target_copy.toggle::<N>();
        target_copy
    }

    /// Copy this value, but with the `N`-th bit cleared.
    fn cleared<const N: usize>(&self) -> (target_copy: Self)
        requires
            N < Self::width(),
        ensures
            target_copy.word() == with_state(self.word(), N as u16, State::Cleared),
    {
        let mut target_copy = *self;
        let _ = target_copy.set::<N>(State::Cleared);
        target_copy
    }

    /// Copy this value, but with the `N`-th bit set.
    fn enabled<const N: usize>(&self) -> (target_copy: Self)
        requires
            N < Self::width(),
        ensures
            target_copy.word() == with_state(self.word(), N as u16, State::Enabled),
    {
        let mut target_copy = *self;
        let _ = target_copy.set::<N>(State::Enabled);
        target_copy
    }
}

impl HasPrimitive for u8 {
    type Primitive = u8;

    open spec fn width() -> nat {
        8
    }

    open spec fn word(&self) -> u16 {
        *self as u16
    }

    open spec fn primitive_word(target_value: u8) -> u16 {
        target_value as u16
    }

    proof fn lemma_layout(&self) {
    }

    fn raw(self) -> (target_value: u8) {
        self
    }

    fn load(&self) -> (target_word: u16) {
        *self as u16
    }

    fn store(target_word: u16) -> (target_value: u8) {
        target_word as u8
    }
}

impl Bits for u8 {
    fn single<const N: usize>() -> (target_value: u8) {
        proof {
            lemma_mask_fits(0, N as u16, 8);
        }
        (1u16 << (N as u16)) as u8
    }
}

impl HasPrimitive for u16 {
    type Primitive = u16;

    open spec fn width() -> nat {
        16
    }

    open spec fn word(&self) -> u16 {
        *self
    }

    open spec fn primitive_word(target_value: u16) -> u16 {
        target_value
    }

    proof fn lemma_layout(&self) {
    }

    fn raw(self) -> (target_value: u16) {
        self
    }

    fn load(&self) -> (target_word: u16) {
        *self
    }

    fn store(target_word: u16) -> (target_value: u16) {
        target_word
    }
}

impl Bits for u16 {
    fn single<const N: usize>() -> (target_value: u16) {
        1u16 << (N as u16)
    }
}

/// Setting a bit makes it read back in that state.
pub proof fn lemma_get_after_set(target_word: u16, index: u16, target_state: State)
    requires
        index < 16,
    ensures
        state_at(with_state(target_word, index, target_state), index) == target_state,
{
    let set_word = target_word | (1u16 << index);
    let cleared_word = target_word & !(1u16 << index);
    assert(set_word & (1u16 << index) != 0 && cleared_word & (1u16 << index) == 0)
        by (bit_vector)
        requires
            index < 16,
            set_word == target_word | (1u16 << index),
            cleared_word == target_word & !(1u16 << index),
    ;
}

/// Setting a bit leaves every other bit as it was.
pub proof fn lemma_set_preserves_others(
    target_word: u16,
    index: u16,
    other_index: u16,
    target_state: State,
)
    requires
        index < 16,
        other_index < 16,
        index != other_index,
    ensures
        state_at(with_state(target_word, index, target_state), other_index) == state_at(
            target_word,
            other_index,
        ),
{
    let set_word = target_word | (1u16 << index);
    let cleared_word = target_word & !(1u16 << index);
    assert((set_word & (1u16 << other_index) == 0) == (target_word & (1u16 << other_index) == 0)
        && (cleared_word & (1u16 << other_index) == 0) == (target_word & (1u16 << other_index)
        == 0)) by (bit_vector)
        requires
            index < 16,
            other_index < 16,
            index != other_index,
            set_word == target_word | (1u16 << index),
            cleared_word == target_word & !(1u16 << index),
    ;
}

/// Toggling a bit twice gives back the original word.
pub proof fn lemma_toggle_involutive(target_word: u16, index: u16)
    requires
        index < 16,
    ensures
        ({
            let once = with_state(target_word, index, opposite(state_at(target_word, index)));
            with_state(once, index, opposite(state_at(once, index))) == target_word
        }),
{
    let once = with_state(target_word, index, opposite(state_at(target_word, index)));
    lemma_get_after_set(target_word, index, opposite(state_at(target_word, index)));
    assert((target_word & (1u16 << index) == 0 ==> ((target_word | (1u16 << index)) & !(1u16
        << index)) == target_word) && (target_word & (1u16 << index) != 0 ==> ((target_word & !(1u16
        << index)) | (1u16 << index)) == target_word)) by (bit_vector)
        requires
            index < 16,
    ;
}

/// Putting a bit in the state it already holds changes nothing.
pub proof fn lemma_set_same_state(target_word: u16, index: u16)
    requires
        index < 16,
    ensures
        with_state(target_word, index, state_at(target_word, index)) == target_word,
{
    assert((target_word & (1u16 << index) == 0 ==> (target_word & !(1u16 << index))
        == target_word) && (target_word & (1u16 << index) != 0 ==> (target_word | (1u16 << index))
        == target_word)) by (bit_vector)
        requires
            index < 16,
    ;
}

} // verus!
