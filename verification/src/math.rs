//! Two-dimensional unsigned coordinates.

use vstd::prelude::*;

verus! {

/// A position or an extent in buffer coordinates: `x` counts along a line,
/// `y` counts lines.
#[derive(Clone, Copy, Debug, PartialEq, Eq, Structural)]
pub struct Pos2u {
    pub x: u64,
    pub y: u64,
}

impl Pos2u {
    /// The origin.
    pub fn zero() -> (p: Pos2u)
        ensures
            p.x == 0,
            p.y == 0,
    {
        Pos2u { x: 0, y: 0 }
    }
}

} // verus!
