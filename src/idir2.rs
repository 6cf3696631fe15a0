//! Axis-aligned unit directions of the integer plane.

use crate::grid_point::GridPoint;
use vstd::prelude::*;

verus! {

/// Why a vector has no axis direction.
#[derive(Clone, Copy, Debug, PartialEq, Eq, Structural)]
pub enum InvalidDirectionError {
    /// Both components are zero.
    Zero,
    /// Both components have the same magnitude, so neither axis dominates.
    XYAbsEqual,
}

pub open spec fn abs(v: int) -> int {
    if v < 0 {
        -v
    } else {
        v
    }
}

pub open spec fn sign(v: int) -> int {
    if v < 0 {
        -1
    } else if v > 0 {
        1
    } else {
        0
    }
}

/// The unit vector along the axis on which `(x, y)` is longer, pointing the
/// way that component points.
pub open spec fn dominant_axis(x: int, y: int) -> (int, int) {
    if abs(x) < abs(y) {
        (0, sign(y))
    } else {
        (sign(x), 0)
    }
}

/// What turning `(x, y)` into a direction gives: the error, or the dominant
/// axis.
pub open spec fn direction_of(x: int, y: int) -> Result<(int, int), InvalidDirectionError> {
    if x == 0 && y == 0 {
        Err(InvalidDirectionError::Zero)
    } else if abs(x) == abs(y) {
        Err(InvalidDirectionError::XYAbsEqual)
    } else {
        Ok(dominant_axis(x, y))
    }
}

/// One of the four axis-aligned unit vectors of the plane.
#[derive(Clone, Copy, Debug, PartialEq, Eq, Structural, Hash)]
pub struct IDir2 {
    v: GridPoint,
}

impl View for IDir2 {
    type V = (int, int);

    closed spec fn view(&self) -> (int, int) {
        (self.v.x as int, self.v.y as int)
    }
}

impl IDir2 {
    #[verifier::type_invariant]
    spec fn unit_axis(self) -> bool {
        ||| self.v.x == 0 && (self.v.y == 1 || self.v.y == -1)
        ||| self.v.y == 0 && (self.v.x == 1 || self.v.x == -1)
    }

    /// The direction of the longer component of `value`.
    pub fn new(value: GridPoint) -> (r: Result<IDir2, InvalidDirectionError>)
        requires
            value.x * value.x + value.y * value.y <= i32::MAX,
        ensures
            match direction_of(value.x as int, value.y as int) {
                Ok(d) => r matches Ok(dir) && dir@ == d,
                Err(e) => r == Err::<IDir2, InvalidDirectionError>(e),
            },
    {
        match Self::new_and_length_squared(value) {
            Ok((dir, _)) => Ok(dir),
            Err(e) => Err(e),
        }
    }

    /// The direction of the longer component of `value`, with the squared
    /// length of `value`.
    pub fn new_and_length_squared(value: GridPoint) -> (r: Result<(IDir2, i32), InvalidDirectionError>)
        requires
            value.x * value.x + value.y * value.y <= i32::MAX,
        ensures
            match direction_of(value.x as int, value.y as int) {
                Ok(d) => r matches Ok((dir, len)) && dir@ == d && len == value.x * value.x
                    + value.y * value.y,
                Err(e) => r == Err::<(IDir2, i32), InvalidDirectionError>(e),
            },
    {
        let x = value.x;
        let y = value.y;
        assert(0 <= x * x && 0 <= y * y) by (nonlinear_arith);
        let length = x * x + y * y;
        if x == 0 && y == 0 {
            return Err(InvalidDirectionError::Zero);
        }
        let abs_x: i64 = if x < 0 {
            -(x as i64)
        } else {
            x as i64
        };
        let abs_y: i64 = if y < 0 {
            -(y as i64)
        } else {
            y as i64
        };
        if abs_x == abs_y {
            return Err(InvalidDirectionError::XYAbsEqual);
        }
        let v = if abs_x < abs_y {
            GridPoint { x: 0, y: if y < 0 { -1 } else { 1 } }
        } else {
            GridPoint { x: if x < 0 { -1 } else { 1 }, y: 0 }
        };
        Ok((IDir2 { v }, length))
    }

    /// The direction of `(x, y)`.
    pub fn from_xy(x: i32, y: i32) -> (r: Result<IDir2, InvalidDirectionError>)
        requires
            x * x + y * y <= i32::MAX,
        ensures
            match direction_of(x as int, y as int) {
                Ok(d) => r matches Ok(dir) && dir@ == d,
                Err(e) => r == Err::<IDir2, InvalidDirectionError>(e),
            },
    {
        Self::new(GridPoint { x, y })
    }

    /// The unit vector itself.
    pub fn as_ivec2(&self) -> (r: GridPoint)
        ensures
            (r.x as int, r.y as int) == self@,
            r.x == 0 && (r.y == 1 || r.y == -1) || r.y == 0 && (r.x == 1 || r.x == -1),
    {
        proof {
            use_type_invariant(self);
        }
        self.v
    }
}

} // verus!
