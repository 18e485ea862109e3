//! Basic motor settings.

use vstd::prelude::*;

use crate::number::normal::Normal;

verus! {

/// The artificial throttle limit imposed on a motor controller: a fraction `N` of the motor's
/// real capacity.
///
/// The limit applies in both directions: the acceptable range is `-N` to `N`, inclusively.
#[derive(Debug, Clone, Copy, PartialEq, Eq, Structural, PartialOrd, Ord)]
pub struct Limit(pub Normal);

} // verus!
