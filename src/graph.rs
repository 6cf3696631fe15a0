//! The movement graph: at most one entry per undirected pair of cells, each
//! entry holding the data written for one or both directions of the edge.

use crate::graph_key::{lemma_eq_iff_same_pair, EdgeKey, Vertex3Key};
use vstd::laws_eq::obeys_concrete_eq;
use vstd::prelude::*;
use vstd::std_specs::cmp::PartialEqSpec;

verus! {

/// Data written for one direction of an edge, tagged with the cell that the
/// direction leaves from.
#[derive(Clone, Debug)]
pub struct VertexPointAndData<T>(pub Vertex3Key, pub T);

/// What an edge holds: data for one direction, the same data for both, or
/// different data for each.
#[derive(Clone, Debug)]
pub enum EdgeData<T> {
    One(VertexPointAndData<T>),
    IdenticalTwo(T),
    NonIdenticalTwo(VertexPointAndData<T>, VertexPointAndData<T>),
}

/// Two entries are equal when they hold the same data for the same
/// directions; the order of the two halves of a `NonIdenticalTwo` does not
/// matter.
impl<T: PartialEq> PartialEq for EdgeData<T> {
    fn eq(&self, other: &EdgeData<T>) -> (r: bool) {
        match self {
            EdgeData::One(a) => match other {
                EdgeData::One(b) => a.0 == b.0 && a.1 == b.1,
                _ => false,
            },
            EdgeData::IdenticalTwo(a) => match other {
                EdgeData::IdenticalTwo(b) => *a == *b,
                _ => false,
            },
            EdgeData::NonIdenticalTwo(a, b) => match other {
                EdgeData::NonIdenticalTwo(c, d) => a.0 == c.0 && a.1 == c.1 && b.0 == d.0 && b.1
                    == d.1 || a.0 == d.0 && a.1 == d.1 && b.0 == c.0 && b.1 == c.1,
                _ => false,
            },
        }
    }
}

impl<T: PartialEq> vstd::std_specs::cmp::PartialEqSpecImpl for EdgeData<T> {
    open spec fn obeys_eq_spec() -> bool {
        T::obeys_eq_spec()
    }

    open spec fn eq_spec(&self, other: &EdgeData<T>) -> bool {
        match (*self, *other) {
            (EdgeData::One(a), EdgeData::One(b)) => a.0 == b.0 && a.1.eq_spec(&b.1),
            (EdgeData::IdenticalTwo(a), EdgeData::IdenticalTwo(b)) => a.eq_spec(&b),
            (EdgeData::NonIdenticalTwo(a, b), EdgeData::NonIdenticalTwo(c, d)) => {
                ||| a.0 == c.0 && a.1.eq_spec(&c.1) && b.0 == d.0 && b.1.eq_spec(&d.1)
                ||| a.0 == d.0 && a.1.eq_spec(&d.1) && b.0 == c.0 && b.1.eq_spec(&c.1)
            },
            _ => false,
        }
    }
}

/// The data that `e` holds for the direction leaving `from`.
pub open spec fn one_way_value<T>(e: Option<EdgeData<T>>, from: Vertex3Key) -> Option<T> {
    match e {
        None => None,
        Some(EdgeData::One(a)) => if a.0 == from {
            Some(a.1)
        } else {
            None
        },
        Some(EdgeData::IdenticalTwo(v)) => Some(v),
        Some(EdgeData::NonIdenticalTwo(a, b)) => if a.0 == from {
            Some(a.1)
        } else if b.0 == from {
            Some(b.1)
        } else {
            None
        },
    }
}

/// The entry after `data` is written for the direction from `from` to `to`.
pub open spec fn after_insert_one_way<T>(
    e: Option<EdgeData<T>>,
    from: Vertex3Key,
    to: Vertex3Key,
    data: T,
) -> EdgeData<T> {
    match e {
        None => EdgeData::One(VertexPointAndData(from, data)),
        Some(EdgeData::One(a)) => if a.0 == from {
            EdgeData::One(VertexPointAndData(from, data))
        } else if a.1 == data {
            EdgeData::IdenticalTwo(data)
        } else {
            EdgeData::NonIdenticalTwo(a, VertexPointAndData(from, data))
        },
        Some(EdgeData::IdenticalTwo(v)) => EdgeData::NonIdenticalTwo(
            VertexPointAndData(to, v),
            VertexPointAndData(from, data),
        ),
        Some(EdgeData::NonIdenticalTwo(a, b)) => if a.0 == from {
            EdgeData::NonIdenticalTwo(VertexPointAndData(from, data), b)
        } else {
            EdgeData::NonIdenticalTwo(a, VertexPointAndData(from, data))
        },
    }
}

/// The entry after the direction from `from` to `to` is cleared; `None` when
/// nothing is left.
pub open spec fn after_remove_one_way<T>(
    e: Option<EdgeData<T>>,
    from: Vertex3Key,
    to: Vertex3Key,
) -> Option<EdgeData<T>> {
    match e {
        None => None,
        Some(EdgeData::One(_)) => None,
        Some(EdgeData::IdenticalTwo(v)) => Some(EdgeData::One(VertexPointAndData(to, v))),
        Some(EdgeData::NonIdenticalTwo(a, b)) => if a.0 == from {
            Some(EdgeData::One(b))
        } else {
            Some(EdgeData::One(a))
        },
    }
}

/// Every direction that `e` tags leaves from `a` or from `b`, and the two
/// directions of a `NonIdenticalTwo` leave from different ends.
pub open spec fn origins_within<T>(e: EdgeData<T>, a: Vertex3Key, b: Vertex3Key) -> bool {
    match e {
        EdgeData::One(x) => x.0 == a || x.0 == b,
        EdgeData::IdenticalTwo(_) => true,
        EdgeData::NonIdenticalTwo(x, y) => (x.0 == a && y.0 == b) || (x.0 == b && y.0 == a),
    }
}

/// The entry of `m` at `p`, if any.
pub open spec fn entry_at<T>(
    m: Map<(Vertex3Key, Vertex3Key), EdgeData<T>>,
    p: (Vertex3Key, Vertex3Key),
) -> Option<EdgeData<T>> {
    if m.contains_key(p) {
        Some(m[p])
    } else {
        None
    }
}

impl<T> EdgeData<T> {
    /// This entry with `data` written for the direction from `from` to `to`.
    pub fn with_one_way(self, from: Vertex3Key, to: Vertex3Key, data: T) -> (r: EdgeData<T>)
        where
            T: PartialEq,
        requires
            obeys_concrete_eq::<T>(),
            from != to,
            origins_within(self, from, to),
        ensures
            r == after_insert_one_way(Some(self), from, to, data),
            origins_within(r, from, to),
    {
        proof {
            reveal(obeys_concrete_eq);
        }
        match self {
            EdgeData::One(existing) => {
                if existing.0 == from {
                    EdgeData::One(VertexPointAndData(from, data))
                } else if existing.1 == data {
                    EdgeData::IdenticalTwo(data)
                } else {
                    EdgeData::NonIdenticalTwo(existing, VertexPointAndData(from, data))
                }
            },
            EdgeData::IdenticalTwo(existing) => EdgeData::NonIdenticalTwo(
                VertexPointAndData(to, existing),
                VertexPointAndData(from, data),
            ),
            EdgeData::NonIdenticalTwo(first, second) => {
                if first.0 == from {
                    EdgeData::NonIdenticalTwo(VertexPointAndData(from, data), second)
                } else {
                    EdgeData::NonIdenticalTwo(first, VertexPointAndData(from, data))
                }
            },
        }
    }

    /// This entry with the direction from `from` to `to` cleared; `None` when
    /// nothing is left.
    pub fn without_one_way(self, from: Vertex3Key, to: Vertex3Key) -> (r: Option<EdgeData<T>>)
        requires
            from != to,
            origins_within(self, from, to),
        ensures
            r == after_remove_one_way(Some(self), from, to),
            r matches Some(e) ==> origins_within(e, from, to),
    {
        match self {
            EdgeData::One(_) => None,
            EdgeData::IdenticalTwo(existing) => Some(
                EdgeData::One(VertexPointAndData(to, existing)),
            ),
            EdgeData::NonIdenticalTwo(first, second) => {
                if first.0 == from {
                    Some(EdgeData::One(second))
                } else {
                    Some(EdgeData::One(first))
                }
            },
        }
    }
}

/// Keys and entries in the order in which the keys were first stored.
type Entries<T> = Seq<(EdgeKey, EdgeData<T>)>;

/// No undirected pair is stored twice.
spec fn unique_pairs<T>(s: Entries<T>) -> bool {
    forall|i: int, j: int|
        0 <= i < s.len() && 0 <= j < s.len() && i != j ==> #[trigger] s[i].0.pair()
            != #[trigger] s[j].0.pair()
}

/// Each entry's origins lie on the ends of the key that it is stored under.
spec fn all_fit<T>(s: Entries<T>) -> bool {
    forall|i: int|
        0 <= i < s.len() ==> origins_within(#[trigger] s[i].1, s[i].0@.0, s[i].0@.1)
}

/// The entry's origins lie on `key`'s two ends, whichever way `key` names them.
proof fn lemma_entry_fits<T>(s: Entries<T>, key: EdgeKey, i: int)
    requires
        all_fit(s),
        0 <= i < s.len(),
        s[i].0.pair() == key.pair(),
    ensures
        origins_within(s[i].1, key@.0, key@.1),
{
    lemma_eq_iff_same_pair(s[i].0, key);
}

/// Some entry of `s` is stored under the pair `p`.
spec fn stores_pair<T>(s: Entries<T>, p: (Vertex3Key, Vertex3Key)) -> bool {
    exists|i: int| 0 <= i < s.len() && #[trigger] s[i].0.pair() == p
}

spec fn entries_view<T>(s: Entries<T>) -> Map<(Vertex3Key, Vertex3Key), EdgeData<T>> {
    Map::new(
        |p: (Vertex3Key, Vertex3Key)| stores_pair(s, p),
        |p: (Vertex3Key, Vertex3Key)|
            s[choose|i: int| 0 <= i < s.len() && #[trigger] s[i].0.pair() == p].1,
    )
}

proof fn lemma_view_at<T>(s: Entries<T>, i: int)
    requires
        unique_pairs(s),
        0 <= i < s.len(),
    ensures
        entries_view(s).contains_key(s[i].0.pair()),
        entries_view(s)[s[i].0.pair()] == s[i].1,
{
    let p = s[i].0.pair();
    assert(stores_pair(s, p));
    let j = choose|j: int| 0 <= j < s.len() && #[trigger] s[j].0.pair() == p;
    assert(j == i);
}

proof fn lemma_view_push<T>(s: Entries<T>, e: (EdgeKey, EdgeData<T>))
    requires
        unique_pairs(s),
        !entries_view(s).contains_key(e.0.pair()),
    ensures
        unique_pairs(s.push(e)),
        entries_view(s.push(e)) == entries_view(s).insert(e.0.pair(), e.1),
{
    let s2 = s.push(e);
    assert forall|i: int, j: int|
        0 <= i < s2.len() && 0 <= j < s2.len() && i != j implies #[trigger] s2[i].0.pair()
            != #[trigger] s2[j].0.pair() by {
        if i == s.len() {
            assert(s2[j] == s[j]);
        } else if j == s.len() {
            assert(s2[i] == s[i]);
        } else {
            assert(s2[i] == s[i] && s2[j] == s[j]);
        }
    }
    let m = entries_view(s).insert(e.0.pair(), e.1);
    assert forall|p: (Vertex3Key, Vertex3Key)|
        #![trigger entries_view(s2).dom().contains(p)]
        #![trigger m.dom().contains(p)]
        entries_view(s2).dom().contains(p) == m.dom().contains(p) && (m.dom().contains(p)
            ==> entries_view(s2)[p] == m[p]) by {
        if p == e.0.pair() {
            lemma_view_at(s2, s.len() as int);
        } else if stores_pair(s, p) {
            let j = choose|j: int| 0 <= j < s.len() && #[trigger] s[j].0.pair() == p;
            assert(s2[j] == s[j]);
            lemma_view_at(s, j);
            lemma_view_at(s2, j);
        } else {
            assert forall|j: int| 0 <= j < s2.len() implies #[trigger] s2[j].0.pair() != p by {
                if j < s.len() {
                    assert(s2[j] == s[j]);
                }
            }
        }
    }
    assert(entries_view(s2) =~= m);
}

proof fn lemma_view_update<T>(s: Entries<T>, i: int, e: (EdgeKey, EdgeData<T>))
    requires
        unique_pairs(s),
        0 <= i < s.len(),
        e.0.pair() == s[i].0.pair(),
    ensures
        unique_pairs(s.update(i, e)),
        entries_view(s.update(i, e)) == entries_view(s).insert(e.0.pair(), e.1),
{
    let s2 = s.update(i, e);
    assert forall|a: int, b: int|
        0 <= a < s2.len() && 0 <= b < s2.len() && a != b implies #[trigger] s2[a].0.pair()
            != #[trigger] s2[b].0.pair() by {
        assert(s2[a].0.pair() == s[a].0.pair());
        assert(s2[b].0.pair() == s[b].0.pair());
    }
    let m = entries_view(s).insert(e.0.pair(), e.1);
    assert forall|p: (Vertex3Key, Vertex3Key)|
        #![trigger entries_view(s2).dom().contains(p)]
        #![trigger m.dom().contains(p)]
        entries_view(s2).dom().contains(p) == m.dom().contains(p) && (m.dom().contains(p)
            ==> entries_view(s2)[p] == m[p]) by {
        if p == e.0.pair() {
            lemma_view_at(s2, i);
            lemma_view_at(s, i);
        } else if stores_pair(s, p) {
            let j = choose|j: int| 0 <= j < s.len() && #[trigger] s[j].0.pair() == p;
            assert(s2[j] == s[j]);
            lemma_view_at(s, j);
            lemma_view_at(s2, j);
        } else {
            assert forall|j: int| 0 <= j < s2.len() implies #[trigger] s2[j].0.pair() != p by {
                assert(s2[j].0.pair() == s[j].0.pair());
            }
        }
    }
    assert(entries_view(s2) =~= m);
}

proof fn lemma_view_remove<T>(s: Entries<T>, i: int)
    requires
        unique_pairs(s),
        0 <= i < s.len(),
    ensures
        unique_pairs(s.remove(i)),
        entries_view(s.remove(i)) == entries_view(s).remove(s[i].0.pair()),
{
    let s2 = s.remove(i);
    let p0 = s[i].0.pair();
    assert forall|a: int, b: int|
        0 <= a < s2.len() && 0 <= b < s2.len() && a != b implies #[trigger] s2[a].0.pair()
            != #[trigger] s2[b].0.pair() by {
        let a0 = if a < i { a } else { a + 1 };
        let b0 = if b < i { b } else { b + 1 };
        assert(s2[a] == s[a0]);
        assert(s2[b] == s[b0]);
    }
    let m = entries_view(s).remove(p0);
    assert forall|p: (Vertex3Key, Vertex3Key)|
        #![trigger entries_view(s2).dom().contains(p)]
        #![trigger m.dom().contains(p)]
        entries_view(s2).dom().contains(p) == m.dom().contains(p) && (m.dom().contains(p)
            ==> entries_view(s2)[p] == m[p]) by {
        if p == p0 {
            assert forall|j: int| 0 <= j < s2.len() implies #[trigger] s2[j].0.pair() != p by {
                let j0 = if j < i { j } else { j + 1 };
                assert(s2[j] == s[j0]);
            }
        } else if stores_pair(s, p) {
            let j = choose|j: int| 0 <= j < s.len() && #[trigger] s[j].0.pair() == p;
            let j2 = if j < i { j } else { j - 1 };
            assert(s2[j2] == s[j]);
            lemma_view_at(s, j);
            lemma_view_at(s2, j2);
        } else {
            assert forall|j: int| 0 <= j < s2.len() implies #[trigger] s2[j].0.pair() != p by {
                let j0 = if j < i { j } else { j + 1 };
                assert(s2[j] == s[j0]);
            }
        }
    }
    assert(entries_view(s2) =~= m);
}

/// The position of the entry stored under `key`'s pair, if there is one.
fn position_of<T>(entries: &Vec<(EdgeKey, EdgeData<T>)>, key: &EdgeKey) -> (r: Option<usize>)
    ensures
        match r {
            Some(i) => i < entries.len() && entries@[i as int].0.pair() == key.pair(),
            None => forall|j: int|
                0 <= j < entries.len() ==> #[trigger] entries@[j].0.pair() != key.pair(),
        },
{
    let mut i: usize = 0;
    while i < entries.len()
        invariant
            i <= entries.len(),
            forall|j: int| 0 <= j < i ==> #[trigger] entries@[j].0.pair() != key.pair(),
        decreases entries.len() - i,
    {
        let same = entries[i].0 == *key;
        proof {
            lemma_eq_iff_same_pair(entries@[i as int].0, *key);
        }
        if same {
            return Some(i);
        }
        i = i + 1;
    }
    None
}

/// Directional data on the edges between grid cells, one entry per
/// undirected pair, kept in the order in which the pairs were first written.
#[derive(Debug)]
pub struct Graph<T> {
    edges_data: Vec<(EdgeKey, EdgeData<T>)>,
}

impl<T> View for Graph<T> {
    type V = Map<(Vertex3Key, Vertex3Key), EdgeData<T>>;

    /// Each stored entry under its key's undirected pair.
    closed spec fn view(&self) -> Map<(Vertex3Key, Vertex3Key), EdgeData<T>> {
        entries_view(self.edges_data@)
    }
}

impl<T> Graph<T> {
    #[verifier::type_invariant]
    spec fn well_formed(self) -> bool {
        &&& unique_pairs(self.edges_data@)
        &&& all_fit(self.edges_data@)
    }

    pub fn new() -> (r: Graph<T>)
        ensures
            r@ == Map::<(Vertex3Key, Vertex3Key), EdgeData<T>>::empty(),
    {
        let r = Graph { edges_data: Vec::new() };
        assert(r@ =~= Map::<(Vertex3Key, Vertex3Key), EdgeData<T>>::empty());
        r
    }

    /// Writes `data` for the direction leaving `edge_key`'s first cell; the
    /// other direction keeps what it had. The payload's `==` must be plain
    /// equality, as it is for the integer types (vstd's `group_laws_eq`).
    pub fn insert_edge_one_way(&mut self, edge_key: EdgeKey, data: T)
        where
            T: PartialEq,
        requires
            obeys_concrete_eq::<T>(),
        ensures
            final(self)@ == old(self)@.insert(
                edge_key.pair(),
                after_insert_one_way(
                    entry_at(old(self)@, edge_key.pair()),
                    edge_key@.0,
                    edge_key@.1,
                    data,
                ),
            ),
    {
        proof {
            use_type_invariant(&*self);
        }
        let from = edge_key.from();
        let to = edge_key.to();
        let mut entries = Vec::new();
        std::mem::swap(&mut entries, &mut self.edges_data);
        let ghost s = entries@;
        match position_of(&entries, &edge_key) {
            None => {
                proof {
                    assert(!entries_view(s).contains_key(edge_key.pair()));
                    lemma_view_push(s, (edge_key, EdgeData::One(VertexPointAndData(from, data))));
                }
                entries.push((edge_key, EdgeData::One(VertexPointAndData(from, data))));
            },
            Some(i) => {
                proof {
                    lemma_entry_fits(s, edge_key, i as int);
                    lemma_view_at(s, i as int);
                }
                let (key, existing) = entries.remove(i);
                let updated = existing.with_one_way(from, to, data);
                entries.insert(i, (key, updated));
                proof {
                    assert(entries@ =~= s.update(i as int, (key, updated)));
                    lemma_view_update(s, i as int, (key, updated));
                }
            },
        }
        self.edges_data = entries;
    }

    /// Stores `data` for both directions of the edge, whatever was there.
    pub fn insert_edge_two_way(&mut self, edge_key: EdgeKey, data: T)
        ensures
            final(self)@ == old(self)@.insert(edge_key.pair(), EdgeData::IdenticalTwo(data)),
    {
        proof {
            use_type_invariant(&*self);
        }
        let mut entries = Vec::new();
        std::mem::swap(&mut entries, &mut self.edges_data);
        let ghost s = entries@;
        match position_of(&entries, &edge_key) {
            None => {
                proof {
                    lemma_view_push(s, (edge_key, EdgeData::IdenticalTwo(data)));
                }
                entries.push((edge_key, EdgeData::IdenticalTwo(data)));
            },
            Some(i) => {
                let (key, _) = entries.remove(i);
                entries.insert(i, (key, EdgeData::IdenticalTwo(data)));
                proof {
                    assert(entries@ =~= s.update(i as int, (key, EdgeData::IdenticalTwo(data))));
                    lemma_view_update(s, i as int, (key, EdgeData::IdenticalTwo(data)));
                }
            },
        }
        self.edges_data = entries;
    }

    /// Clears the direction leaving `edge_key`'s first cell; the other
    /// direction keeps what it had, and an entry left with nothing goes.
    pub fn remove_edge_one_way(&mut self, edge_key: EdgeKey)
        ensures
            final(self)@ == match after_remove_one_way(
                entry_at(old(self)@, edge_key.pair()),
                edge_key@.0,
                edge_key@.1,
            ) {
                Some(e) => old(self)@.insert(edge_key.pair(), e),
                None => old(self)@.remove(edge_key.pair()),
            },
    {
        proof {
            use_type_invariant(&*self);
        }
        let from = edge_key.from();
        let to = edge_key.to();
        let mut entries = Vec::new();
        std::mem::swap(&mut entries, &mut self.edges_data);
        let ghost s = entries@;
        match position_of(&entries, &edge_key) {
            None => {
                proof {
                    assert(!entries_view(s).contains_key(edge_key.pair()));
                    assert(entries_view(s).remove(edge_key.pair()) =~= entries_view(s));
                }
            },
            Some(i) => {
                proof {
                    lemma_entry_fits(s, edge_key, i as int);
                    lemma_view_at(s, i as int);
                    lemma_view_remove(s, i as int);
                }
                let (key, existing) = entries.remove(i);
                match existing.without_one_way(from, to) {
                    Some(rest) => {
                        entries.insert(i, (key, rest));
                        proof {
                            assert(entries@ =~= s.update(i as int, (key, rest)));
                            lemma_view_update(s, i as int, (key, rest));
                        }
                    },
                    None => {},
                }
            },
        }
        self.edges_data = entries;
    }

    /// Deletes the edge's entry, whatever it held.
    pub fn remove_edge_two_way(&mut self, edge_key: EdgeKey)
        ensures
            final(self)@ == old(self)@.remove(edge_key.pair()),
    {
        proof {
            use_type_invariant(&*self);
        }
        let mut entries = Vec::new();
        std::mem::swap(&mut entries, &mut self.edges_data);
        let ghost s = entries@;
        match position_of(&entries, &edge_key) {
            None => {
                proof {
                    assert(!entries_view(s).contains_key(edge_key.pair()));
                    assert(entries_view(s).remove(edge_key.pair()) =~= entries_view(s));
                }
            },
            Some(i) => {
                proof {
                    lemma_view_remove(s, i as int);
                }
                entries.remove(i);
            },
        }
        self.edges_data = entries;
    }

    /// The data written for the direction leaving `edge_key`'s first cell.
    pub fn get_edge_one_way(&self, edge_key: EdgeKey) -> (r: Option<&T>)
        ensures
            match one_way_value(entry_at(self@, edge_key.pair()), edge_key@.0) {
                Some(v) => r == Some(&v),
                None => r is None,
            },
    {
        let from = edge_key.from();
        match self.get_edge_two_way(edge_key) {
            None => None,
            Some(EdgeData::One(stored)) => {
                if stored.0 == from {
                    Some(&stored.1)
                } else {
                    None
                }
            },
            Some(EdgeData::IdenticalTwo(stored)) => Some(stored),
            Some(EdgeData::NonIdenticalTwo(first, second)) => {
                if first.0 == from {
                    Some(&first.1)
                } else if second.0 == from {
                    Some(&second.1)
                } else {
                    None
                }
            },
        }
    }

    /// The entry stored for the edge, looked up the same way for either
    /// direction of the key. Its origins lie on the key's two ends.
    pub fn get_edge_two_way(&self, edge_key: EdgeKey) -> (r: Option<&EdgeData<T>>)
        ensures
            match entry_at(self@, edge_key.pair()) {
                Some(e) => r == Some(&e),
                None => r is None,
            },
            r matches Some(e) ==> origins_within(*e, edge_key@.0, edge_key@.1),
    {
        proof {
            use_type_invariant(self);
        }
        match position_of(&self.edges_data, &edge_key) {
            None => None,
            Some(i) => {
                proof {
                    lemma_entry_fits(self.edges_data@, edge_key, i as int);
                    lemma_view_at(self.edges_data@, i as int);
                }
                Some(&self.edges_data[i].1)
            },
        }
    }
}

/// Writing one direction of an absent edge makes that direction read back
/// the data, and leaves the reverse direction unset.
pub proof fn lemma_one_way_round_trip<T>(
    g: Map<(Vertex3Key, Vertex3Key), EdgeData<T>>,
    key: EdgeKey,
    reverse: EdgeKey,
    d: T,
)
    requires
        key@.0 != key@.1,
        reverse@ == (key@.1, key@.0),
        !g.contains_key(key.pair()),
    ensures
        ({
            let g2 = g.insert(key.pair(), after_insert_one_way(entry_at(g, key.pair()), key@.0, key@.1, d));
            &&& one_way_value(entry_at(g2, key.pair()), key@.0) == Some(d)
            &&& one_way_value(entry_at(g2, reverse.pair()), reverse@.0) is None
        }),
{
}

/// Writing `d1` from `a` to `b` on an absent edge, then a different `d2` from
/// `b` to `a`, stores both directions apart, and each reads back its own data.
/// The entry is stored as `((a, d1), (b, d2))`, which is equal to
/// `((b, d2), (a, d1))`.
pub proof fn lemma_asymmetric_merge<T: PartialEq>(
    g: Map<(Vertex3Key, Vertex3Key), EdgeData<T>>,
    ab: EdgeKey,
    ba: EdgeKey,
    d1: T,
    d2: T,
)
    requires
        ab@.0 != ab@.1,
        ba@ == (ab@.1, ab@.0),
        !g.contains_key(ab.pair()),
        obeys_concrete_eq::<T>(),
        d1 != d2,
    ensures
        ({
            let g1 = g.insert(ab.pair(), after_insert_one_way(entry_at(g, ab.pair()), ab@.0, ab@.1, d1));
            let g2 = g1.insert(ba.pair(), after_insert_one_way(entry_at(g1, ba.pair()), ba@.0, ba@.1, d2));
            &&& entry_at(g2, ab.pair()) == Some(
                EdgeData::NonIdenticalTwo(
                    VertexPointAndData(ab@.0, d1),
                    VertexPointAndData(ba@.0, d2),
                ),
            )
            &&& entry_at(g2, ab.pair())->0.eq_spec(
                &EdgeData::NonIdenticalTwo(
                    VertexPointAndData(ba@.0, d2),
                    VertexPointAndData(ab@.0, d1),
                ),
            )
            &&& one_way_value(entry_at(g2, ab.pair()), ab@.0) == Some(d1)
            &&& one_way_value(entry_at(g2, ba.pair()), ba@.0) == Some(d2)
        }),
{
    reveal(obeys_concrete_eq);
}

/// Writing the same `d` in both directions, one after the other, collapses
/// the edge to `IdenticalTwo(d)`.
pub proof fn lemma_symmetric_collapse<T>(
    g: Map<(Vertex3Key, Vertex3Key), EdgeData<T>>,
    ab: EdgeKey,
    ba: EdgeKey,
    d: T,
)
    requires
        ab@.0 != ab@.1,
        ba@ == (ab@.1, ab@.0),
        !g.contains_key(ab.pair()),
    ensures
        ({
            let g1 = g.insert(ab.pair(), after_insert_one_way(entry_at(g, ab.pair()), ab@.0, ab@.1, d));
            let g2 = g1.insert(ba.pair(), after_insert_one_way(entry_at(g1, ba.pair()), ba@.0, ba@.1, d));
            entry_at(g2, ab.pair()) == Some(EdgeData::IdenticalTwo(d))
        }),
{
}

/// After a two-way write of `d`, whatever was there before, the edge holds
/// `IdenticalTwo(d)` and both directions read back `d`.
pub proof fn lemma_two_way_collapses<T>(
    g: Map<(Vertex3Key, Vertex3Key), EdgeData<T>>,
    key: EdgeKey,
    reverse: EdgeKey,
    d: T,
)
    requires
        reverse@ == (key@.1, key@.0),
    ensures
        ({
            let g2 = g.insert(key.pair(), EdgeData::IdenticalTwo(d));
            &&& entry_at(g2, key.pair()) == Some(EdgeData::IdenticalTwo(d))
            &&& entry_at(g2, reverse.pair()) == Some(EdgeData::IdenticalTwo(d))
            &&& one_way_value(entry_at(g2, key.pair()), key@.0) == Some(d)
            &&& one_way_value(entry_at(g2, reverse.pair()), reverse@.0) == Some(d)
        }),
{
}

/// Clearing one direction of an `IdenticalTwo(d)` edge leaves the other
/// direction, under its own origin, for both query directions; clearing that
/// one too deletes the edge.
pub proof fn lemma_partial_removal<T>(
    g: Map<(Vertex3Key, Vertex3Key), EdgeData<T>>,
    ab: EdgeKey,
    ba: EdgeKey,
    d: T,
)
    requires
        ab@.0 != ab@.1,
        ba@ == (ab@.1, ab@.0),
        entry_at(g, ab.pair()) == Some(EdgeData::IdenticalTwo(d)),
    ensures
        ({
            let g1 = match after_remove_one_way(entry_at(g, ab.pair()), ab@.0, ab@.1) {
                Some(e) => g.insert(ab.pair(), e),
                None => g.remove(ab.pair()),
            };
            let g2 = match after_remove_one_way(entry_at(g1, ba.pair()), ba@.0, ba@.1) {
                Some(e) => g1.insert(ba.pair(), e),
                None => g1.remove(ba.pair()),
            };
            &&& entry_at(g1, ab.pair()) == Some(EdgeData::One(VertexPointAndData(ab@.1, d)))
            &&& entry_at(g1, ba.pair()) == Some(EdgeData::One(VertexPointAndData(ab@.1, d)))
            &&& one_way_value(entry_at(g1, ab.pair()), ab@.0) is None
            &&& one_way_value(entry_at(g1, ba.pair()), ba@.0) == Some(d)
            &&& entry_at(g2, ab.pair()) is None
            &&& entry_at(g2, ba.pair()) is None
        }),
{
}

/// After a two-way removal, whatever was there before, neither direction
/// finds an entry.
pub proof fn lemma_full_removal<T>(
    g: Map<(Vertex3Key, Vertex3Key), EdgeData<T>>,
    key: EdgeKey,
    reverse: EdgeKey,
)
    requires
        reverse@ == (key@.1, key@.0),
    ensures
        ({
            let g2 = g.remove(key.pair());
            &&& entry_at(g2, key.pair()) is None
            &&& entry_at(g2, reverse.pair()) is None
            &&& one_way_value(entry_at(g2, key.pair()), key@.0) is None
            &&& one_way_value(entry_at(g2, reverse.pair()), reverse@.0) is None
        }),
{
}

} // verus!
