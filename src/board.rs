//! The grid side of a board: an inclusive rectangle of valid cells and the
//! graph of blocked movements between cells.

use crate::graph::{entry_at, one_way_value, EdgeData, Graph};
use crate::graph_key::{EdgeKey, Vertex3Key};
use crate::grid_point::GridPoint;
use vstd::prelude::*;

verus! {

/// The cell `(x, y)` lies in the rectangle from `lo` to `hi`, both corners
/// included.
pub open spec fn in_bounds(lo: GridPoint, hi: GridPoint, x: int, y: int) -> bool {
    lo.x <= x <= hi.x && lo.y <= y <= hi.y
}

/// Movement along `edge` is blocked in `graph`: data is written for the
/// direction leaving the edge's first cell.
pub open spec fn blocked(
    graph: Map<(Vertex3Key, Vertex3Key), EdgeData<()>>,
    edge: EdgeKey,
) -> bool {
    one_way_value(entry_at(graph, edge.pair()), edge@.0) is Some
}

/// An inclusive rectangle of valid cells, with the graph of blocked movements
/// that the board owns.
pub struct Board {
    bounds_min: GridPoint,
    bounds_max: GridPoint,
    movement_graph: Graph<()>,
}

impl Board {
    #[verifier::type_invariant]
    spec fn ordered_bounds(self) -> bool {
        self.bounds_min.x <= self.bounds_max.x && self.bounds_min.y <= self.bounds_max.y
    }

    pub closed spec fn spec_bounds_min(self) -> GridPoint {
        self.bounds_min
    }

    pub closed spec fn spec_bounds_max(self) -> GridPoint {
        self.bounds_max
    }

    pub closed spec fn spec_movement_graph(self) -> Map<(Vertex3Key, Vertex3Key), EdgeData<()>> {
        self.movement_graph@
    }

    /// A board over the rectangle with corners `bounds_min` and `bounds_max`,
    /// given in either order on each axis.
    pub fn new(bounds_min: GridPoint, bounds_max: GridPoint, movement_graph: Graph<()>) -> (r:
        Board)
        ensures
            r.spec_bounds_min().x == if bounds_min.x <= bounds_max.x {
                bounds_min.x
            } else {
                bounds_max.x
            },
            r.spec_bounds_min().y == if bounds_min.y <= bounds_max.y {
                bounds_min.y
            } else {
                bounds_max.y
            },
            r.spec_bounds_max().x == if bounds_min.x <= bounds_max.x {
                bounds_max.x
            } else {
                bounds_min.x
            },
            r.spec_bounds_max().y == if bounds_min.y <= bounds_max.y {
                bounds_max.y
            } else {
                bounds_min.y
            },
            r.spec_bounds_min().x <= r.spec_bounds_max().x,
            r.spec_bounds_min().y <= r.spec_bounds_max().y,
            r.spec_movement_graph() == movement_graph@,
    {
        let (min_x, max_x) = if bounds_min.x <= bounds_max.x {
            (bounds_min.x, bounds_max.x)
        } else {
            (bounds_max.x, bounds_min.x)
        };
        let (min_y, max_y) = if bounds_min.y <= bounds_max.y {
            (bounds_min.y, bounds_max.y)
        } else {
            (bounds_max.y, bounds_min.y)
        };
        Board {
            bounds_min: GridPoint { x: min_x, y: min_y },
            bounds_max: GridPoint { x: max_x, y: max_y },
            movement_graph,
        }
    }

    /// Whether `point` lies in the board's rectangle, corners included.
    pub fn is_point_in_grid(&self, point: GridPoint) -> (r: bool)
        ensures
            r == in_bounds(self.spec_bounds_min(), self.spec_bounds_max(), point.x as int, point.y as int),
    {
        point.x >= self.bounds_min.x && point.y >= self.bounds_min.y && point.x
            <= self.bounds_max.x && point.y <= self.bounds_max.y
    }

    /// Whether movement along `edge`, from its first cell to its second, is
    /// blocked.
    pub fn is_movement_blocked(&self, edge: EdgeKey) -> (r: bool)
        ensures
            r == blocked(self.spec_movement_graph(), edge),
    {
        self.movement_graph.get_edge_one_way(edge).is_some()
    }

    /// The rectangle's lower corner.
    pub fn bounds_min(&self) -> (r: GridPoint)
        ensures
            r == self.spec_bounds_min(),
            r.x <= self.spec_bounds_max().x,
            r.y <= self.spec_bounds_max().y,
    {
        proof {
            use_type_invariant(self);
        }
        self.bounds_min
    }

    /// The rectangle's upper corner.
    pub fn bounds_max(&self) -> (r: GridPoint)
        ensures
            r == self.spec_bounds_max(),
            self.spec_bounds_min().x <= r.x,
            self.spec_bounds_min().y <= r.y,
    {
        proof {
            use_type_invariant(self);
        }
        self.bounds_max
    }

    /// The graph of blocked movements.
    pub fn movement_graph(&self) -> (r: &Graph<()>)
        ensures
            r@ == self.spec_movement_graph(),
    {
        &self.movement_graph
    }
}

/// The rectangle's corners are inside it, and every cell one step beyond an
/// edge of the rectangle, along either axis, is not.
pub proof fn lemma_bounds_inclusive(lo: GridPoint, hi: GridPoint)
    requires
        lo.x <= hi.x,
        lo.y <= hi.y,
    ensures
        in_bounds(lo, hi, lo.x as int, lo.y as int),
        in_bounds(lo, hi, hi.x as int, hi.y as int),
        forall|y: int|
            !#[trigger] in_bounds(lo, hi, lo.x - 1, y) && !in_bounds(lo, hi, hi.x + 1, y),
        forall|x: int|
            !#[trigger] in_bounds(lo, hi, x, lo.y - 1) && !in_bounds(lo, hi, x, hi.y + 1),
{
}

} // verus!
