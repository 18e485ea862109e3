//! The unit trait and its scales.

use vstd::prelude::*;

use crate::number::ratio::{Ratio, Transform};
use crate::number::scalar::Scalar;
use crate::unit::dimension::Dimension;

verus! {

/// A type that can be used as the magnitude of a physical unit.
pub trait Magnitude: Scalar + Transform {

}

impl<T> Magnitude for T where T: Scalar + Transform {

}

/// The relationship between a [`Unit`] and its base unit.
#[derive(Clone, Copy, PartialEq, Eq, Structural, Hash, PartialOrd, Ord)]
pub enum Scale {
    /// A multiple of the base unit.
    Multiple(Ratio),
    /// A fraction of the base unit.
    Fractional(Ratio),
    /// The base unit itself.
    Same,
}

impl Scale {
    /// A value measured in a unit of this scale, measured in the base unit.
    pub open spec fn applied<S: Magnitude>(self, target_value: S) -> S {
        match self {
            Scale::Multiple(scale) => target_value.scaled_up(scale),
            Scale::Fractional(scale) => target_value.scaled_down(scale),
            Scale::Same => target_value,
        }
    }

    /// Whether [`Scale::apply`] is defined on the value.
    pub open spec fn applies<S: Magnitude>(self, target_value: S) -> bool {
        match self {
            Scale::Multiple(scale) => target_value.fits_up(scale),
            Scale::Fractional(_) => true,
            Scale::Same => true,
        }
    }

    /// A value measured in the base unit, measured in a unit of this scale.
    pub open spec fn inverse_applied<S: Magnitude>(self, target_value: S) -> S {
        match self {
            Scale::Multiple(scale) => target_value.scaled_down(scale),
            Scale::Fractional(scale) => target_value.scaled_up(scale),
            Scale::Same => target_value,
        }
    }

    /// Whether [`Scale::inversed`] is defined on the value.
    pub open spec fn inverse_applies<S: Magnitude>(self, target_value: S) -> bool {
        match self {
            Scale::Multiple(_) => true,
            Scale::Fractional(scale) => target_value.fits_up(scale),
            Scale::Same => true,
        }
    }

    /// Apply the scale to a value: convert it from a unit of this scale to the base unit.
    pub fn apply<S: Magnitude>(&self, target_value: S) -> (scaled_value: S)
        requires
            self.applies(target_value),
        ensures
            scaled_value == self.applied(target_value),
    {
        match self {
            Scale::Multiple(scale) => target_value.up(*scale),
            Scale::Fractional(scale) => target_value.down(*scale),
            Scale::Same => target_value,
        }
    }

    /// Apply the scale inversely: convert a value from the base unit to a unit of this scale.
    pub fn inversed<S: Magnitude>(&self, target_value: S) -> (scaled_value: S)
        requires
            self.inverse_applies(target_value),
        ensures
            scaled_value == self.inverse_applied(target_value),
    {
        match self {
            Scale::Multiple(scale) => target_value.down(*scale),
            Scale::Fractional(scale) => target_value.up(*scale),
            Scale::Same => target_value,
        }
    }
}

/// Converting a value to the base unit and back again gives the value, for a unit that is a
/// multiple of its base unit or the base unit itself. (A fraction of the base unit is left
/// out: the division to the base unit drops the remainder.)
pub proof fn lemma_inverse_undoes_apply<S: Magnitude>(scale: Scale, target_value: S)
    requires
        !(scale is Fractional),
        scale matches Scale::Multiple(ratio) ==> ratio.count() != 0,
        scale.applies(target_value),
    ensures
        scale.inverse_applied(scale.applied(target_value)) == target_value,
{
    if let Scale::Multiple(ratio) = scale {
        target_value.lemma_down_undoes_up(ratio);
    }
}

/// Converting a value from the base unit to a unit and back again gives the value, for a unit
/// that is a fraction of its base unit or the base unit itself. (A multiple of the base unit is
/// left out: the division from the base unit drops the remainder.)
pub proof fn lemma_apply_undoes_inverse<S: Magnitude>(scale: Scale, target_value: S)
    requires
        !(scale is Multiple),
        scale matches Scale::Fractional(ratio) ==> ratio.count() != 0,
        scale.inverse_applies(target_value),
    ensures
        scale.applied(scale.inverse_applied(target_value)) == target_value,
{
    if let Scale::Fractional(ratio) = scale {
        target_value.lemma_down_undoes_up(ratio);
    }
}

/// A measured quantity: a magnitude in some unit of a dimension.
pub trait Measure: Sized {
    /// The dimension of the unit.
    type Dimension: Dimension;

    /// The magnitude of the unit.
    type Magnitude: Magnitude;

    /// The magnitude of a value of this unit.
    spec fn magnitude_of(&self) -> Self::Magnitude;

    /// Construct a new value of this unit from a bare magnitude scalar.
    fn raw(scalar: Self::Magnitude) -> (target_unit: Self)
        ensures
            target_unit.magnitude_of() == scalar,
    ;

    /// Determine the magnitude of the current value as-is.
    fn magnitude(self) -> (scalar: Self::Magnitude)
        ensures
            scalar == self.magnitude_of(),
    ;
}

/// A physical unit of measure, a scale of a base unit of the same dimension.
pub trait Unit: Measure {
    /// The base unit of the unit.
    type Base: Measure<Magnitude = Self::Magnitude, Dimension = Self::Dimension>;

    /// The scale of the unit respective to [`Unit::Base`].
    spec fn scale_of() -> Scale;

    /// The scale of the unit respective to [`Unit::Base`].
    fn scale_to_base() -> (target_scale: Scale)
        ensures
            target_scale == Self::scale_of(),
    ;

    /// Convert a value measured in [`Unit::Base`] to the current unit.
    fn base(target_value: Self::Base) -> (target_unit: Self)
        requires
            Self::scale_of().inverse_applies(target_value.magnitude_of()),
        ensures
            target_unit.magnitude_of() == Self::scale_of().inverse_applied(
                target_value.magnitude_of(),
            ),
    {
        let scalar_value = target_value.magnitude();
        let scalar_value = Self::scale_to_base().inversed(scalar_value);
        Self::raw(scalar_value)
    }

    /// Convert a value measured in the current unit to one measured in [`Unit::Base`].
    fn value(self) -> (target_value: Self::Base)
        requires
            Self::scale_of().applies(self.magnitude_of()),
        ensures
            target_value.magnitude_of() == Self::scale_of().applied(self.magnitude_of()),
    {
        let scalar_value = self.magnitude();
        let scalar_value = Self::scale_to_base().apply(scalar_value);
        Self::Base::raw(scalar_value)
    }
}

/// Convert a value measured in the unit `S` to one measured in another unit `U` of the same
/// base unit: to the base unit first, then from it.
pub fn to<S: Unit, U: Unit<Base = S::Base, Magnitude = S::Magnitude, Dimension = S::Dimension>>(
    target_value: S,
) -> (target_unit: U)
    requires
        S::scale_of().applies(target_value.magnitude_of()),
        U::scale_of().inverse_applies(S::scale_of().applied(target_value.magnitude_of())),
    ensures
        target_unit.magnitude_of() == U::scale_of().inverse_applied(
            S::scale_of().applied(target_value.magnitude_of()),
        ),
{
    U::base(target_value.value())
}

} // verus!
