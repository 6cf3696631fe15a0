//! Keys of the movement graph: grid cells, undirected edges between two
//! distinct cells, and the directional data attached to an edge.

use core::cmp::Ordering;
use vstd::prelude::*;
use vstd::std_specs::cmp::PartialEqSpec;

verus! {

/// One grid cell, named by its coordinates. Ordered lexicographically by
/// `x`, then `y`, then `z`.
#[derive(Clone, Copy, Debug, PartialEq, Eq, Structural, Hash, PartialOrd, Ord)]
pub struct Vertex3Key {
    pub x: i16,
    pub y: i16,
    pub z: i16,
}

/// Strict lexicographic order on cells.
pub open spec fn vertex_lt(a: Vertex3Key, b: Vertex3Key) -> bool {
    ||| a.x < b.x
    ||| a.x == b.x && a.y < b.y
    ||| a.x == b.x && a.y == b.y && a.z < b.z
}

/// Three-way comparison of two cells.
pub open spec fn vertex_order(a: Vertex3Key, b: Vertex3Key) -> Ordering {
    if a == b {
        Ordering::Equal
    } else if vertex_lt(a, b) {
        Ordering::Less
    } else {
        Ordering::Greater
    }
}

impl Vertex3Key {
    pub fn new(x: i16, y: i16, z: i16) -> (r: Vertex3Key)
        ensures
            r.x == x,
            r.y == y,
            r.z == z,
    {
        Vertex3Key { x, y, z }
    }

    /// Compares two cells by `x`, then `y`, then `z`.
    pub fn compare(&self, other: &Vertex3Key) -> (r: Ordering)
        ensures
            r == vertex_order(*self, *other),
    {
        if self.x < other.x {
            Ordering::Less
        } else if self.x > other.x {
            Ordering::Greater
        } else if self.y < other.y {
            Ordering::Less
        } else if self.y > other.y {
            Ordering::Greater
        } else if self.z < other.z {
            Ordering::Less
        } else if self.z > other.z {
            Ordering::Greater
        } else {
            Ordering::Equal
        }
    }
}

/// The two ends of an edge, the smaller cell first.
pub open spec fn unordered_pair(a: Vertex3Key, b: Vertex3Key) -> (Vertex3Key, Vertex3Key) {
    if vertex_lt(b, a) {
        (b, a)
    } else {
        (a, b)
    }
}

/// An edge between two distinct cells. Two keys are equal when they join the
/// same two cells, whichever end each of them names first.
#[derive(Clone, Copy, Debug, Eq)]
pub struct EdgeKey {
    from: Vertex3Key,
    to: Vertex3Key,
}

impl View for EdgeKey {
    type V = (Vertex3Key, Vertex3Key);

    /// The ends as given: `(from, to)`.
    closed spec fn view(&self) -> (Vertex3Key, Vertex3Key) {
        (self.from, self.to)
    }
}

impl EdgeKey {
    #[verifier::type_invariant]
    spec fn no_self_loop(self) -> bool {
        self.from != self.to
    }

    /// The undirected pair that the key names; equal keys name the same pair.
    pub open spec fn pair(self) -> (Vertex3Key, Vertex3Key) {
        unordered_pair(self@.0, self@.1)
    }

    /// A key for the edge walked from `from` to `to`; `None` when the two
    /// cells are the same.
    pub fn new(from: Vertex3Key, to: Vertex3Key) -> (r: Option<EdgeKey>)
        ensures
            r is None <==> from == to,
            r matches Some(k) ==> k@ == (from, to),
    {
        if from == to {
            None
        } else {
            Some(EdgeKey { from, to })
        }
    }

    /// The cell that the key's direction leaves from.
    pub fn from(&self) -> (r: Vertex3Key)
        ensures
            r == self@.0,
            r != self@.1,
    {
        proof {
            use_type_invariant(self);
        }
        self.from
    }

    /// The cell that the key's direction arrives at.
    pub fn to(&self) -> (r: Vertex3Key)
        ensures
            r == self@.1,
            r != self@.0,
    {
        proof {
            use_type_invariant(self);
        }
        self.to
    }

    /// Orders keys by their undirected pairs, compared lexicographically.
    pub fn compare(&self, other: &EdgeKey) -> (r: Ordering)
        ensures
            r == pair_order(self.pair(), other.pair()),
    {
        let (a_low, a_high) = if matches!(self.to.compare(&self.from), Ordering::Less) {
            (self.to, self.from)
        } else {
            (self.from, self.to)
        };
        let (b_low, b_high) = if matches!(other.to.compare(&other.from), Ordering::Less) {
            (other.to, other.from)
        } else {
            (other.from, other.to)
        };
        match a_low.compare(&b_low) {
            Ordering::Less => Ordering::Less,
            Ordering::Greater => Ordering::Greater,
            Ordering::Equal => a_high.compare(&b_high),
        }
    }
}

/// Lexicographic comparison of two ordered pairs of cells.
pub open spec fn pair_order(
    a: (Vertex3Key, Vertex3Key),
    b: (Vertex3Key, Vertex3Key),
) -> Ordering {
    if a.0 == b.0 {
        vertex_order(a.1, b.1)
    } else {
        vertex_order(a.0, b.0)
    }
}

impl PartialEq for EdgeKey {
    fn eq(&self, other: &EdgeKey) -> (r: bool) {
        self.from == other.from && self.to == other.to
            || self.from == other.to && self.to == other.from
    }
}

impl vstd::std_specs::cmp::PartialEqSpecImpl for EdgeKey {
    open spec fn obeys_eq_spec() -> bool {
        true
    }

    open spec fn eq_spec(&self, other: &EdgeKey) -> bool {
        self@ == other@ || (self@.0 == other@.1 && self@.1 == other@.0)
    }
}

/// Keys made from the same two distinct cells in either order are equal and
/// name the same pair.
pub proof fn lemma_new_symmetric(a: Vertex3Key, b: Vertex3Key, ab: EdgeKey, ba: EdgeKey)
    requires
        a != b,
        ab@ == (a, b),
        ba@ == (b, a),
    ensures
        ab.eq_spec(&ba),
        ab.pair() == ba.pair(),
{
}

/// Two keys are equal exactly when they name the same undirected pair.
pub proof fn lemma_eq_iff_same_pair(a: EdgeKey, b: EdgeKey)
    ensures
        a.eq_spec(&b) <==> a.pair() == b.pair(),
{
}

} // verus!
