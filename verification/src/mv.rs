//! The immutable description of one requested rotation.

use vstd::prelude::*;

verus! {

/// One requested rotation of an axis.
///
/// Angles and rates are fixed-point: `degrees_milli` is the magnitude
/// in thousandths of a degree, `velocity_milli` the rate in thousandths
/// of a degree per second.  `fwd` picks the direction pin level:
/// `true` drives it high, `false` low, identically on both axes.
#[derive(Clone, Copy, PartialEq, Eq, Structural, Debug)]
pub struct Move {
    pub degrees_milli: u32,
    pub velocity_milli: u32,
    pub fwd: bool,
}

impl Move {
    /// A move is well-formed when its velocity is positive; a zero
    /// velocity cannot be turned into a pulse rate and is rejected at
    /// dispatch.
    pub open spec fn valid(self) -> bool {
        self.velocity_milli > 0
    }
}

} // verus!
