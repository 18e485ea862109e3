//! Bit-wise state.

use vstd::prelude::*;

verus! {

/// The state of a single bit.
#[derive(Debug, Clone, Copy, PartialEq, Eq, Structural, PartialOrd, Ord, Hash)]
pub enum State {
    /// A set state, i.e. a bit holding `1`.
    Enabled,
    /// A non-set state, i.e. a bit holding `0`.
    ///
    /// This is the default state.
    Cleared,
}

/// The state that corresponds to a boolean, `true` being a set bit.
pub open spec fn state_of(flag: bool) -> State {
    if flag {
        State::Enabled
    } else {
        State::Cleared
    }
}

/// The opposite of a state.
pub open spec fn opposite(target_state: State) -> State {
    match target_state {
        State::Enabled => State::Cleared,
        State::Cleared => State::Enabled,
    }
}

impl State {
    /// Convert a [`State`] into a [`bool`]: `true` for a set bit.
    pub fn bool(self) -> (flag: bool)
        ensures
            flag == (self is Enabled),
    {
        match self {
            State::Enabled => true,
            State::Cleared => false,
        }
    }

    /// The opposite state.
    pub fn not(self) -> (flipped: State)
        ensures
            flipped == opposite(self),
    {
        match self {
            State::Enabled => State::Cleared,
            State::Cleared => State::Enabled,
        }
    }
}

impl Default for State {
    fn default() -> (target_state: State)
        ensures
            target_state == State::Cleared,
    {
        State::Cleared
    }
}

/// Flipping a state twice gives it back.
pub proof fn lemma_opposite_involutive(target_state: State)
    ensures
        opposite(opposite(target_state)) == target_state,
{
}

} // verus!
