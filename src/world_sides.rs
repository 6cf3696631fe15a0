//! The four sides of the world, clockwise from `Up`, with the grid offset
//! that each side faces.

use crate::grid_point::GridPoint;
use crate::idir2::{direction_of, IDir2};
use vstd::prelude::*;

verus! {

/// A side of the world, as seen from above.
#[derive(Clone, Copy, Debug, PartialEq, Eq, Structural, Hash)]
pub enum WorldSides {
    Up,
    Right,
    Down,
    Left,
}

/// The grid offset `(x, y, z)` that `side` faces.
pub open spec fn side_offset(side: WorldSides) -> (int, int, int) {
    match side {
        WorldSides::Up => (0, 0, 1),
        WorldSides::Right => (-1, 0, 0),
        WorldSides::Down => (0, 0, -1),
        WorldSides::Left => (1, 0, 0),
    }
}

/// The side after `side`, turning clockwise.
pub open spec fn clockwise(side: WorldSides) -> WorldSides {
    match side {
        WorldSides::Up => WorldSides::Right,
        WorldSides::Right => WorldSides::Down,
        WorldSides::Down => WorldSides::Left,
        WorldSides::Left => WorldSides::Up,
    }
}

/// Each side's offset, read in the `x`-`z` plane, is already a unit
/// direction.
proof fn lemma_offset_is_direction(side: WorldSides)
    ensures
        side_offset(side).0 * side_offset(side).0 + side_offset(side).2 * side_offset(side).2 <= 1,
        direction_of(side_offset(side).0, side_offset(side).2) matches Ok(d) && d == (
            side_offset(side).0,
            side_offset(side).2,
        ),
{
    let (x, _, z) = side_offset(side);
    assert(x * x + z * z <= 1) by (nonlinear_arith)
        requires
            x == 0 && (z == 1 || z == -1) || z == 0 && (x == 1 || x == -1),
    ;
}

impl WorldSides {
    /// The grid offset that this side faces; the plane of the sides is
    /// spanned by `x` and `z`.
    pub fn offset(&self) -> (r: (i16, i16, i16))
        ensures
            (r.0 as int, r.1 as int, r.2 as int) == side_offset(*self),
    {
        match self {
            WorldSides::Up => (0, 0, 1),
            WorldSides::Right => (-1, 0, 0),
            WorldSides::Down => (0, 0, -1),
            WorldSides::Left => (1, 0, 0),
        }
    }

    /// All four sides, clockwise from `Up`.
    pub fn to_array() -> (r: [WorldSides; 4])
        ensures
            r@ == seq![WorldSides::Up, WorldSides::Right, WorldSides::Down, WorldSides::Left],
    {
        let r = [WorldSides::Up, WorldSides::Right, WorldSides::Down, WorldSides::Left];
        assert(r@ =~= seq![WorldSides::Up, WorldSides::Right, WorldSides::Down, WorldSides::Left]);
        r
    }

    /// The side after this one, turning clockwise.
    pub fn next(&self) -> (r: WorldSides)
        ensures
            r == clockwise(*self),
    {
        match self {
            WorldSides::Up => WorldSides::Right,
            WorldSides::Right => WorldSides::Down,
            WorldSides::Down => WorldSides::Left,
            WorldSides::Left => WorldSides::Up,
        }
    }

    /// The side whose offset, read in the `x`-`z` plane, points along
    /// `direction`.
    pub fn dir_to_side(direction: IDir2) -> (r: WorldSides)
        ensures
            (side_offset(r).0, side_offset(r).2) == direction@,
    {
        let wanted = direction.as_ivec2();
        let sides = Self::to_array();
        let mut i: usize = 0;
        while i < 4
            invariant
                0 <= i <= 4,
                sides@ == seq![WorldSides::Up, WorldSides::Right, WorldSides::Down, WorldSides::Left],
                (wanted.x as int, wanted.y as int) == direction@,
                wanted.x == 0 && (wanted.y == 1 || wanted.y == -1) || wanted.y == 0 && (wanted.x
                    == 1 || wanted.x == -1),
                forall|j: int|
                    0 <= j < i ==> (side_offset(#[trigger] sides@[j]).0, side_offset(sides@[j]).2)
                        != direction@,
            decreases 4 - i,
        {
            let side = sides[i];
            let offset = side.offset();
            proof {
                lemma_offset_is_direction(side);
            }
            let side_dir = IDir2::new(GridPoint { x: offset.0 as i32, y: offset.2 as i32 });
            match side_dir {
                Ok(d) => {
                    if d.as_ivec2() == wanted {
                        return side;
                    }
                },
                Err(_) => {},
            }
            i = i + 1;
        }
        WorldSides::Up
    }
}

} // verus!
