//! The bidirectional throttle of a motor.

use vstd::prelude::*;

use core::cmp::Ordering;

use vstd::std_specs::cmp::PartialOrdSpec;

verus! {

/// The throttle output to a motor controller.
///
/// A throttle is in one of two modes:
///  - `neutral`, where no control output is expected;
///  - `active`, where the output is a non-zero level `k` standing for `(k - 127) / 127`,
///    i.e. a level with a bias of `floor(255 / 2)`.
///
/// The `neutral` throttle and the `0%` throttle are not equivalent: a throttle of `0%` is
/// perfectly achievable during flight.
///
/// Throttles are ordered by the level they stand for, the neutral throttle standing for `0%`
/// but placed just below the active `0%` throttle, from which it differs.
///
/// The representation is the throttle's rank in that order: twice the level of an active
/// throttle, and one less than twice the bias for the neutral throttle.
#[derive(Debug, Clone, Copy, PartialEq, Eq, Structural, Hash, Ord)]
pub struct Throttle(u16);

impl Throttle {
    /// The raw integer bias of the level: the level of a `0%` throttle.
    pub const RAW_BIAS: u8 = 127;

    /// The rank of the neutral throttle: just below the rank of the active `0%` throttle.
    const NEUTRAL_RANK: u16 = 253;

    /// The rank is the neutral rank, or twice an active level.
    #[verifier::type_invariant]
    spec fn well_ranked(self) -> bool {
        self.0 == Self::NEUTRAL_RANK || (self.0 % 2 == 0 && 2 <= self.0 <= 510)
    }

    /// The active level, or `0` for the neutral throttle.
    pub closed spec fn level_of(&self) -> u8 {
        if self.0 == Self::NEUTRAL_RANK {
            0
        } else {
            (self.0 / 2) as u8
        }
    }

    /// The level the output stands for: the neutral throttle stands for the bias.
    pub open spec fn magnitude_of(&self) -> u8 {
        if self.level_of() == 0 {
            Self::RAW_BIAS
        } else {
            self.level_of()
        }
    }

    /// The position of a throttle in the order of throttles: twice its level, the neutral
    /// throttle coming just below the active `0%` throttle.
    pub open spec fn order_key(&self) -> int {
        if self.level_of() == 0 {
            2 * Self::RAW_BIAS - 1
        } else {
            2 * self.level_of()
        }
    }

    /// The rank of the throttle is its order key.
    proof fn lemma_rank(self)
        requires
            self.well_ranked(),
        ensures
            self.0 == self.order_key(),
            self.level_of() == 0 <==> self.0 == Self::NEUTRAL_RANK,
    {
    }

    /// A neutral throttle output.
    pub fn neutral() -> (target_throttle: Self)
        ensures
            target_throttle.level_of() == 0,
    {
        Throttle(Self::NEUTRAL_RANK)
    }

    /// A maximal throttle output (`100%`).
    pub fn max() -> (target_throttle: Self)
        ensures
            target_throttle.level_of() == u8::MAX,
    {
        Throttle(510)
    }

    /// A minimal throttle output: the level `1`.
    ///
    /// This is *not* a throttle of `0%` but the one immediately above `-100%`; see
    /// [`Throttle::zero`] for `0%`.
    pub fn min() -> (target_throttle: Self)
        ensures
            target_throttle.level_of() == 1,
    {
        Throttle(2)
    }

    /// A nil throttle output (`0%`): the bias level.
    pub fn zero() -> (target_throttle: Self)
        ensures
            target_throttle.level_of() == Self::RAW_BIAS,
    {
        Throttle(254)
    }

    /// The active throttle of level `raw_level`, where a level of `0` (i.e. `-100%`) gives the
    /// minimal throttle.
    pub fn level(raw_level: u8) -> (target_throttle: Self)
        ensures
            target_throttle.level_of() == (if raw_level == 0 {
                1
            } else {
                raw_level
            }),
    {
        if raw_level == 0 {
            Throttle(2)
        } else {
            Throttle(2 * (raw_level as u16))
        }
    }

    /// The active level, or `None` for the neutral throttle.
    pub fn raw(&self) -> (raw_level: Option<u8>)
        ensures
            self.level_of() == 0 ==> raw_level is None,
            self.level_of() != 0 ==> raw_level == Some(self.level_of()),
    {
        proof {
            use_type_invariant(self);
        }
        if self.0 == Self::NEUTRAL_RANK {
            None
        } else {
            Some((self.0 / 2) as u8)
        }
    }

    /// The level the output stands for: the neutral throttle stands for `0%`, the bias.
    pub fn magnitude(&self) -> (target_level: u8)
        ensures
            target_level == self.magnitude_of(),
    {
        proof {
            use_type_invariant(self);
        }
        if self.0 == Self::NEUTRAL_RANK {
            Self::RAW_BIAS
        } else {
            (self.0 / 2) as u8
        }
    }
}

/// Throttles are ordered by their [`Throttle::order_key`]: by the level they stand for, the
/// neutral throttle coming just below the active `0%` throttle. Two throttles compare equal
/// exactly when they are equal.
impl PartialOrd for Throttle {
    fn partial_cmp(&self, other: &Self) -> (target_ordering: Option<Ordering>) {
        proof {
            use_type_invariant(self);
            use_type_invariant(other);
            self.lemma_rank();
            other.lemma_rank();
        }
        if self.0 < other.0 {
            Some(Ordering::Less)
        } else if self.0 == other.0 {
            Some(Ordering::Equal)
        } else {
            Some(Ordering::Greater)
        }
    }
}

impl vstd::std_specs::cmp::PartialOrdSpecImpl for Throttle {
    open spec fn obeys_partial_cmp_spec() -> bool {
        true
    }

    open spec fn partial_cmp_spec(&self, other: &Self) -> Option<Ordering> {
        if self.order_key() < other.order_key() {
            Some(Ordering::Less)
        } else if self.order_key() == other.order_key() {
            Some(Ordering::Equal)
        } else {
            Some(Ordering::Greater)
        }
    }
}

/// The neutral throttle compares as the `0%` throttle does against every other active
/// throttle, comes just below the `0%` throttle itself, and two throttles compare equal
/// exactly when they stand for the same level.
pub proof fn lemma_neutral_order(neutral: Throttle, active: Throttle, other: Throttle)
    requires
        neutral.level_of() == 0,
        active.level_of() != 0,
    ensures
        active.level_of() < Throttle::RAW_BIAS ==> neutral.partial_cmp_spec(&active) == Some(
            Ordering::Greater,
        ),
        active.level_of() >= Throttle::RAW_BIAS ==> neutral.partial_cmp_spec(&active) == Some(
            Ordering::Less,
        ),
        active.partial_cmp_spec(&other) == Some(Ordering::Equal) <==> active.level_of()
            == other.level_of(),
{
}

/// The magnitude of a throttle is the level it stands for: an active throttle's own level,
/// and the bias (`0%`) for the neutral throttle. So magnitudes follow the order of throttles:
/// twice the magnitude is the order key, one more for the neutral throttle, which sits just
/// below `0%`; and of two active throttles the higher level has the higher magnitude.
pub proof fn lemma_magnitude_is_level(target_throttle: Throttle, other: Throttle)
    ensures
        target_throttle.level_of() != 0 ==> target_throttle.magnitude_of()
            == target_throttle.level_of(),
        target_throttle.level_of() == 0 ==> target_throttle.magnitude_of() == 127,
        target_throttle.order_key() == 2 * target_throttle.magnitude_of() - (
        if target_throttle.level_of() == 0 {
            1int
        } else {
            0int
        }),
        target_throttle.level_of() != 0 && other.level_of() != 0 && target_throttle.level_of()
            < other.level_of() ==> target_throttle.magnitude_of() < other.magnitude_of(),
{
}

} // verus!
