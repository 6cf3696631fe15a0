//! Integer points of a plane.

use vstd::prelude::*;

verus! {

/// A point of the integer plane.
#[derive(Clone, Copy, Debug, PartialEq, Eq, Structural, Hash)]
pub struct GridPoint {
    pub x: i32,
    pub y: i32,
}

impl GridPoint {
    pub fn new(x: i32, y: i32) -> (r: GridPoint)
        ensures
            r.x == x,
            r.y == y,
    {
        GridPoint { x, y }
    }
}

} // verus!
