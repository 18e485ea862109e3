//! Basic motor settings.

use vstd::prelude::*;

use crate::number::normal::Normal;

verus! {

/// The artificial throttle limit imposed on a motor controller: a fraction of the motor's real
/// capacity.
#[derive(Debug, Clone, Copy, PartialEq, Eq, Structural, PartialOrd, Ord)]
pub struct Limit(pub Normal);

} // verus!
