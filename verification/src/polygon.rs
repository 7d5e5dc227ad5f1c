//! Edge-set bookkeeping for polygons: which segments are present, and how
//! many edges leave and enter each vertex.

use vstd::prelude::*;

verus! {

/// A point in the plane, with exact integer coordinates.
#[derive(Clone, Copy, Debug, PartialEq, Eq, Structural)]
pub struct Pnt2 {
    /// First coordinate.
    pub x: i64,
    /// Second coordinate.
    pub y: i64,
}

impl Pnt2 {
    /// Construct a point from its coordinates.
    pub fn new(x: i64, y: i64) -> (r: Pnt2)
        ensures
            r == (Pnt2 { x, y }),
    {
        Pnt2 { x, y }
    }
}

/// A directed segment between two points.
#[derive(Clone, Copy, Debug, PartialEq, Eq, Structural)]
pub struct Seg2 {
    /// The point the segment leaves.
    pub a: Pnt2,
    /// The point the segment enters.
    pub b: Pnt2,
}

impl Seg2 {
    /// Construct a segment from its end points.
    pub fn new(a: Pnt2, b: Pnt2) -> (r: Seg2)
        ensures
            r == (Seg2 { a, b }),
    {
        Seg2 { a, b }
    }
}

/// How often the vertex occurs as an end point among the edges: each edge
/// contributes one for its start and one for its end.
pub open spec fn edge_occ(s: Seq<Seg2>, v: Pnt2) -> nat
    decreases s.len(),
{
    if s.len() == 0 {
        0
    } else {
        edge_occ(s.drop_last(), v) + (if s.last().a == v {
            1nat
        } else {
            0nat
        }) + (if s.last().b == v {
            1nat
        } else {
            0nat
        })
    }
}

/// How many edges leave the vertex.
pub open spec fn out_occ(s: Seq<Seg2>, v: Pnt2) -> nat
    decreases s.len(),
{
    if s.len() == 0 {
        0
    } else {
        out_occ(s.drop_last(), v) + (if s.last().a == v {
            1nat
        } else {
            0nat
        })
    }
}

/// How many edges enter the vertex.
pub open spec fn in_occ(s: Seq<Seg2>, v: Pnt2) -> nat
    decreases s.len(),
{
    if s.len() == 0 {
        0
    } else {
        in_occ(s.drop_last(), v) + (if s.last().b == v {
            1nat
        } else {
            0nat
        })
    }
}

/// Whether the vertex is an end point of any edge.
pub open spec fn is_endpoint(s: Seq<Seg2>, v: Pnt2) -> bool {
    exists|i: int| 0 <= i < s.len() && (s[i].a == v || s[i].b == v)
}

/// Occurrence counts are bounded by twice the number of edges.
proof fn lemma_occ_bounds(s: Seq<Seg2>, v: Pnt2)
    ensures
        edge_occ(s, v) <= 2 * s.len(),
        out_occ(s, v) <= s.len(),
        in_occ(s, v) <= s.len(),
    decreases s.len(),
{
    if s.len() > 0 {
        lemma_occ_bounds(s.drop_last(), v);
    }
}

/// The position of an edge in the sequence; meaningful when the edge
/// occurs and the edges are distinct.
pub open spec fn edge_index(s: Seq<Seg2>, e: Seg2) -> int {
    choose|i: int| 0 <= i < s.len() && s[i] == e
}

/// Among distinct edges, `edge_index` is the one position the edge holds.
proof fn lemma_edge_index_unique(s: Seq<Seg2>, j: int, e: Seg2)
    requires
        forall|a: int, b: int| 0 <= a < b < s.len() ==> s[a] != s[b],
        0 <= j < s.len(),
        s[j] == e,
    ensures
        edge_index(s, e) == j,
{
    assert(exists|i: int| 0 <= i < s.len() && s[i] == e);
    let c = edge_index(s, e);
    if c != j {
        assert(s[c] == e);
        assert(false);
    }
}

/// A vertex occurs among the edges exactly if it is an end point of one.
proof fn lemma_occ_endpoint(s: Seq<Seg2>, v: Pnt2)
    ensures
        edge_occ(s, v) > 0 <==> is_endpoint(s, v),
        out_occ(s, v) > 0 ==> is_endpoint(s, v),
        in_occ(s, v) > 0 ==> is_endpoint(s, v),
    decreases s.len(),
{
    if s.len() > 0 {
        lemma_occ_endpoint(s.drop_last(), v);
        if is_endpoint(s, v) && !(s.last().a == v || s.last().b == v) {
            let i = choose|i: int| 0 <= i < s.len() && (s[i].a == v || s[i].b == v);
            assert(s.drop_last()[i] == s[i]);
            assert(is_endpoint(s.drop_last(), v));
        }
    }
}

/// The edge set of a polygon, with derived counts of outgoing and incoming
/// edges per vertex.
#[derive(Debug)]
pub struct PolygonData {
    edges: Vec<Seg2>,
}

impl PolygonData {
    /// The edges, as a spec value.
    pub closed spec fn spec_edges(&self) -> Seq<Seg2> {
        self.edges@
    }

    /// No edge occurs twice.
    pub open spec fn wf(&self) -> bool {
        forall|i: int, j: int|
            0 <= i < j < self.spec_edges().len() ==> self.spec_edges()[i] != self.spec_edges()[j]
    }

    /// An empty polygon.
    pub fn new() -> (r: PolygonData)
        ensures
            r.spec_edges().len() == 0,
            r.wf(),
    {
        PolygonData { edges: Vec::new() }
    }

    /// Access the edges.
    pub fn edges(&self) -> (r: &Vec<Seg2>)
        ensures
            r@ == self.spec_edges(),
    {
        &self.edges
    }

    /// Whether the polygon has no edges.
    pub fn is_empty(&self) -> (r: bool)
        ensures
            r == (self.spec_edges().len() == 0),
    {
        self.edges.len() == 0
    }

    /// Whether the vertex is an end point of any edge.
    pub fn contains_vertex(&self, vertex: &Pnt2) -> (r: bool)
        ensures
            r == is_endpoint(self.spec_edges(), *vertex),
            r == (edge_occ(self.spec_edges(), *vertex) > 0),
    {
        proof {
            lemma_occ_endpoint(self.spec_edges(), *vertex);
        }
        let n = self.edges.len();
        let mut i: usize = 0;
        while i < n
            invariant
                n == self.edges.len(),
                0 <= i <= n,
                forall|k: int| 0 <= k < i ==> !(self.edges@[k].a == *vertex || self.edges@[k].b
                    == *vertex),
            decreases n - i,
        {
            let e = self.edges[i];
            if e.a == *vertex || e.b == *vertex {
                proof {
                    assert(self.edges@[i as int].a == *vertex || self.edges@[i as int].b
                        == *vertex);
                    assert(is_endpoint(self.spec_edges(), *vertex));
                    lemma_occ_endpoint(self.spec_edges(), *vertex);
                    assert(edge_occ(self.spec_edges(), *vertex) > 0);
                }
                return true;
            }
            i = i + 1;
        }
        false
    }

    /// How many edges leave the vertex: `None` if the vertex is not an end
    /// point of any edge, the exact count otherwise (possibly zero).
    pub fn outgoing_edges(&self, vertex: &Pnt2) -> (r: Option<u32>)
        requires
            self.spec_edges().len() < 0x4000_0000,
        ensures
            is_endpoint(self.spec_edges(), *vertex) ==> r == Some(
                out_occ(self.spec_edges(), *vertex) as u32,
            ),
            !is_endpoint(self.spec_edges(), *vertex) ==> r is None,
    {
        proof {
            lemma_occ_bounds(self.spec_edges(), *vertex);
        }
        let n = self.edges.len();
        let mut count: u32 = 0;
        let mut seen = false;
        let mut i: usize = 0;
        while i < n
            invariant
                n == self.edges.len(),
                self.spec_edges().len() < 0x4000_0000,
                0 <= i <= n,
                count == out_occ(self.spec_edges().take(i as int), *vertex),
                seen == is_endpoint(self.spec_edges().take(i as int), *vertex),
            decreases n - i,
        {
            let e = self.edges[i];
            proof {
                assert(self.spec_edges().take(i + 1).drop_last() =~= self.spec_edges().take(
                    i as int,
                ));
                assert(self.spec_edges().take(i + 1).last() == self.spec_edges()[i as int]);
                lemma_occ_bounds(self.spec_edges().take(i as int), *vertex);
                if is_endpoint(self.spec_edges().take(i as int), *vertex) {
                    let w = choose|w: int|
                        0 <= w < i && (self.spec_edges().take(i as int)[w].a == *vertex
                            || self.spec_edges().take(i as int)[w].b == *vertex);
                    assert(self.spec_edges().take(i + 1)[w] == self.spec_edges().take(
                        i as int,
                    )[w]);
                }
            }
            if e.a == *vertex {
                count = count + 1;
                seen = true;
            }
            if e.b == *vertex {
                seen = true;
            }
            i = i + 1;
        }
        proof {
            assert(self.spec_edges().take(n as int) =~= self.spec_edges());
        }
        if seen {
            Some(count)
        } else {
            None
        }
    }

    /// How many edges enter the vertex: `None` if the vertex is not an end
    /// point of any edge, the exact count otherwise (possibly zero).
    pub fn incoming_edges(&self, vertex: &Pnt2) -> (r: Option<u32>)
        requires
            self.spec_edges().len() < 0x4000_0000,
        ensures
            is_endpoint(self.spec_edges(), *vertex) ==> r == Some(
                in_occ(self.spec_edges(), *vertex) as u32,
            ),
            !is_endpoint(self.spec_edges(), *vertex) ==> r is None,
    {
        proof {
            lemma_occ_bounds(self.spec_edges(), *vertex);
        }
        let n = self.edges.len();
        let mut count: u32 = 0;
        let mut seen = false;
        let mut i: usize = 0;
        while i < n
            invariant
                n == self.edges.len(),
                self.spec_edges().len() < 0x4000_0000,
                0 <= i <= n,
                count == in_occ(self.spec_edges().take(i as int), *vertex),
                seen == is_endpoint(self.spec_edges().take(i as int), *vertex),
            decreases n - i,
        {
            let e = self.edges[i];
            proof {
                assert(self.spec_edges().take(i + 1).drop_last() =~= self.spec_edges().take(
                    i as int,
                ));
                assert(self.spec_edges().take(i + 1).last() == self.spec_edges()[i as int]);
                lemma_occ_bounds(self.spec_edges().take(i as int), *vertex);
                if is_endpoint(self.spec_edges().take(i as int), *vertex) {
                    let w = choose|w: int|
                        0 <= w < i && (self.spec_edges().take(i as int)[w].a == *vertex
                            || self.spec_edges().take(i as int)[w].b == *vertex);
                    assert(self.spec_edges().take(i + 1)[w] == self.spec_edges().take(
                        i as int,
                    )[w]);
                }
            }
            if e.b == *vertex {
                count = count + 1;
                seen = true;
            }
            if e.a == *vertex {
                seen = true;
            }
            i = i + 1;
        }
        proof {
            assert(self.spec_edges().take(n as int) =~= self.spec_edges());
        }
        if seen {
            Some(count)
        } else {
            None
        }
    }

    /// Insert an edge.  An edge that is already present is not inserted
    /// again.
    pub fn insert_edge(&mut self, edge: Seg2)
        requires
            old(self).wf(),
            old(self).spec_edges().len() < 0x4000_0000,
        ensures
            final(self).wf(),
            old(self).spec_edges().contains(edge) ==> final(self).spec_edges() == old(self).spec_edges(),
            !old(self).spec_edges().contains(edge) ==> final(self).spec_edges() == old(self).spec_edges().push(edge),
    {
        let n = self.edges.len();
        let mut i: usize = 0;
        let mut present = false;
        while i < n
            invariant
                self.spec_edges() == old(self).spec_edges(),
                n == self.edges.len(),
                0 <= i <= n,
                present ==> self.spec_edges().contains(edge),
                !present ==> forall|k: int| 0 <= k < i ==> self.edges@[k] != edge,
            decreases n - i,
        {
            let e = self.edges[i];
            if e == edge {
                proof {
                    assert(self.edges@[i as int] == edge);
                }
                present = true;
            }
            i = i + 1;
        }
        if !present {
            proof {
                assert(!self.spec_edges().contains(edge)) by {
                    if self.spec_edges().contains(edge) {
                        let w = choose|w: int|
                            0 <= w < self.spec_edges().len() && self.spec_edges()[w] == edge;
                        assert(self.edges@[w] == edge);
                    }
                }
            }
            self.edges.push(edge);
            proof {
                let s = self.spec_edges();
                assert forall|a: int, b: int| 0 <= a < b < s.len() implies s[a] != s[b] by {
                    assert(s[a] == old(self).spec_edges()[a]);
                    if b < s.len() - 1 {
                        assert(s[b] == old(self).spec_edges()[b]);
                    } else {
                        assert(s[b] == edge);
                    }
                }
            }
        }
    }

    /// Retain only the edges accepted by the given predicate.
    ///
    /// Every kept edge was present before and was accepted; every edge that
    /// was present before is either kept or was rejected.  The derived
    /// vertex and edge counts follow the retained edge set.
    pub fn retain_edges<F: Fn(&Seg2) -> bool>(&mut self, f: F)
        requires
            old(self).wf(),
            forall|e: Seg2| old(self).spec_edges().contains(e) ==> call_requires(f, (&e,)),
        ensures
            final(self).wf(),
            forall|k: int|
                0 <= k < final(self).spec_edges().len() ==> old(self).spec_edges().contains(
                    #[trigger] final(self).spec_edges()[k],
                ) && call_ensures(f, (&final(self).spec_edges()[k],), true),
            forall|k: int|
                0 <= k < old(self).spec_edges().len() ==> (final(self).spec_edges().contains(
                    #[trigger] old(self).spec_edges()[k],
                ) || call_ensures(f, (&old(self).spec_edges()[k],), false)),
            forall|a: int, b: int|
                #![trigger final(self).spec_edges()[a], final(self).spec_edges()[b]]
                0 <= a < b < final(self).spec_edges().len() ==> edge_index(
                    old(self).spec_edges(),
                    final(self).spec_edges()[a],
                ) < edge_index(old(self).spec_edges(), final(self).spec_edges()[b]),
    {
        let n = self.edges.len();
        let mut kept: Vec<Seg2> = Vec::new();
        let mut i: usize = 0;
        while i < n
            invariant
                self.spec_edges() == old(self).spec_edges(),
                old(self).wf(),
                forall|e: Seg2| old(self).spec_edges().contains(e) ==> call_requires(f, (&e,)),
                n == self.edges.len(),
                0 <= i <= n,
                forall|k: int|
                    0 <= k < kept@.len() ==> old(self).spec_edges().contains(
                        #[trigger] kept@[k],
                    ) && call_ensures(f, (&kept@[k],), true),
                forall|k: int|
                    0 <= k < i ==> (kept@.contains(#[trigger] self.edges@[k]) || call_ensures(
                        f,
                        (&self.edges@[k],),
                        false,
                    )),
                forall|a: int, b: int| 0 <= a < b < kept@.len() ==> kept@[a] != kept@[b],
                forall|k: int|
                    0 <= k < kept@.len() ==> exists|j: int|
                        0 <= j < i && #[trigger] kept@[k] == self.edges@[j],
                forall|k: int|
                    0 <= k < kept@.len() ==> 0 <= edge_index(
                        old(self).spec_edges(),
                        #[trigger] kept@[k],
                    ) < i,
                forall|a: int, b: int|
                    #![trigger kept@[a], kept@[b]]
                    0 <= a < b < kept@.len() ==> edge_index(old(self).spec_edges(), kept@[a])
                        < edge_index(old(self).spec_edges(), kept@[b]),
            decreases n - i,
        {
            let e = self.edges[i];
            proof {
                assert(self.spec_edges().contains(self.spec_edges()[i as int]));
            }
            if f(&e) {
                let ghost old_kept = kept@;
                kept.push(e);
                proof {
                    assert forall|k: int|
                        0 <= k < kept@.len() implies exists|j: int|
                        0 <= j < i + 1 && #[trigger] kept@[k] == self.edges@[j] by {
                        if k < kept@.len() - 1 {
                            assert(kept@[k] == old_kept[k]);
                            let j = choose|j: int| 0 <= j < i && old_kept[k] == self.edges@[j];
                            assert(kept@[k] == self.edges@[j]);
                        } else {
                            assert(kept@[k] == self.edges@[i as int]);
                        }
                    }
                    assert forall|a: int, b: int|
                        0 <= a < b < kept@.len() implies kept@[a] != kept@[b] by {
                        assert(kept@[a] == old_kept[a]);
                        if b < kept@.len() - 1 {
                            assert(kept@[b] == old_kept[b]);
                        } else {
                            assert(kept@[b] == e);
                            let j = choose|j: int| 0 <= j < i && old_kept[a] == self.edges@[j];
                            if old_kept[a] == e {
                                assert(self.edges@[j] == self.edges@[i as int]);
                                assert(false);
                            }
                        }
                    }
                    assert forall|k: int|
                        0 <= k < kept@.len() implies old(self).spec_edges().contains(
                        #[trigger] kept@[k],
                    ) && call_ensures(f, (&kept@[k],), true) by {
                        if k < kept@.len() - 1 {
                            assert(kept@[k] == old_kept[k]);
                        } else {
                            assert(kept@[k] == e);
                        }
                    }
                    assert forall|k: int|
                        0 <= k < i + 1 implies (kept@.contains(#[trigger] self.edges@[k])
                        || call_ensures(f, (&self.edges@[k],), false)) by {
                        if k < i {
                            if old_kept.contains(self.edges@[k]) {
                                let w = choose|w: int|
                                    0 <= w < old_kept.len() && old_kept[w] == self.edges@[k];
                                assert(kept@[w] == self.edges@[k]);
                                assert(kept@.contains(self.edges@[k]));
                            }
                        } else {
                            assert(kept@[kept@.len() - 1] == self.edges@[k]);
                            assert(kept@.contains(self.edges@[k]));
                        }
                    }
                    lemma_edge_index_unique(old(self).spec_edges(), i as int, e);
                    assert forall|k: int|
                        0 <= k < kept@.len() implies 0 <= edge_index(
                        old(self).spec_edges(),
                        #[trigger] kept@[k],
                    ) < i + 1 by {
                        if k < kept@.len() - 1 {
                            assert(kept@[k] == old_kept[k]);
                        } else {
                            assert(kept@[k] == e);
                        }
                    }
                    assert forall|a: int, b: int|
                        #![trigger kept@[a], kept@[b]]
                        0 <= a < b < kept@.len() implies edge_index(
                        old(self).spec_edges(),
                        kept@[a],
                    ) < edge_index(old(self).spec_edges(), kept@[b]) by {
                        assert(kept@[a] == old_kept[a]);
                        if b < kept@.len() - 1 {
                            assert(kept@[b] == old_kept[b]);
                        } else {
                            assert(kept@[b] == e);
                            assert(edge_index(old(self).spec_edges(), kept@[a]) < i);
                        }
                    }
                }
            }
            i = i + 1;
        }
        self.edges = kept;
    }
}

/// Reference counts for the vertices of a polygon: how many edges touch
/// each point.
#[derive(Debug)]
pub struct Vertices {
    counts: Vec<(Pnt2, u32)>,
}

impl Vertices {
    /// The stored counts, as a spec value.
    pub closed spec fn spec_entries(&self) -> Seq<(Pnt2, u32)> {
        self.counts@
    }

    /// Each point occurs at most once, and every stored count is positive.
    pub open spec fn wf(&self) -> bool {
        &&& (forall|i: int, j: int|
            0 <= i < j < self.spec_entries().len() ==> (#[trigger] self.spec_entries()[i]).0 != (
            #[trigger] self.spec_entries()[j]).0)
        &&& (forall|i: int|
            0 <= i < self.spec_entries().len() ==> (#[trigger] self.spec_entries()[i]).1 > 0)
    }

    /// Whether a count is stored for the point.
    pub open spec fn spec_has(&self, v: Pnt2) -> bool {
        exists|i: int| 0 <= i < self.spec_entries().len() && self.spec_entries()[i].0 == v
    }

    /// The count stored for the point.
    pub open spec fn spec_count(&self, v: Pnt2) -> u32 {
        self.spec_entries()[choose|i: int|
            0 <= i < self.spec_entries().len() && self.spec_entries()[i].0 == v].1
    }

    /// An empty table.
    pub fn new() -> (r: Vertices)
        ensures
            r.spec_entries().len() == 0,
            r.wf(),
    {
        Vertices { counts: Vec::new() }
    }

    /// Count one more reference to the point.
    pub fn up(&mut self, vertex: Pnt2)
        requires
            old(self).wf(),
            old(self).spec_has(vertex) ==> old(self).spec_count(vertex) < u32::MAX,
        ensures
            final(self).wf(),
            final(self).spec_has(vertex),
            old(self).spec_has(vertex) ==> final(self).spec_count(vertex) == old(self).spec_count(vertex) + 1,
            !old(self).spec_has(vertex) ==> final(self).spec_count(vertex) == 1,
            forall|w: Pnt2|
                w != vertex ==> (final(self).spec_has(w) == old(self).spec_has(w) && (old(self).spec_has(w) ==> final(self).spec_count(w) == old(self).spec_count(w))),
    {
        self.bump(vertex);
    }

    /// Count one reference to the point less; remove the point when its
    /// count reaches zero.  Returns whether the point was removed.
    pub fn down(&mut self, vertex: Pnt2) -> (removed: bool)
        requires
            old(self).wf(),
            old(self).spec_has(vertex),
        ensures
            final(self).wf(),
            removed == (old(self).spec_count(vertex) == 1),
            removed ==> !final(self).spec_has(vertex),
            !removed ==> final(self).spec_has(vertex) && final(self).spec_count(vertex) == old(self).spec_count(vertex) - 1,
            forall|w: Pnt2|
                w != vertex ==> (final(self).spec_has(w) == old(self).spec_has(w) && (old(self).spec_has(w) ==> final(self).spec_count(w) == old(self).spec_count(w))),
    {
        self.change(vertex, false)
    }

    /// Rebuild the table with the count of one point changed: raised by one,
    /// or lowered by one with the entry dropped at zero.
    fn change(&mut self, vertex: Pnt2, raise: bool) -> (removed: bool)
        requires
            old(self).wf(),
            raise && old(self).spec_has(vertex) ==> old(self).spec_count(vertex) < u32::MAX,
            !raise ==> old(self).spec_has(vertex),
        ensures
            final(self).wf(),
            raise ==> {
                &&& final(self).spec_has(vertex)
                &&& (old(self).spec_has(vertex) ==> final(self).spec_count(vertex) == old(self).spec_count(vertex) + 1)
                &&& (!old(self).spec_has(vertex) ==> final(self).spec_count(vertex) == 1)
            },
            !raise ==> {
                &&& removed == (old(self).spec_count(vertex) == 1)
                &&& (removed ==> !final(self).spec_has(vertex))
                &&& (!removed ==> final(self).spec_has(vertex) && final(self).spec_count(vertex)
                    == old(self).spec_count(vertex) - 1)
            },
            forall|w: Pnt2|
                w != vertex ==> (final(self).spec_has(w) == old(self).spec_has(w) && (old(self).spec_has(w) ==> final(self).spec_count(w) == old(self).spec_count(w))),
    {
        let n = self.counts.len();
        let mut out: Vec<(Pnt2, u32)> = Vec::new();
        let mut found: Option<u32> = None;
        let mut i: usize = 0;
        while i < n
            invariant
                self.spec_entries() == old(self).spec_entries(),
                old(self).wf(),
                n == self.counts.len(),
                0 <= i <= n,
                forall|k: int|
                    0 <= k < out@.len() ==> old(self).spec_entries().contains(
                        #[trigger] out@[k],
                    ) && out@[k].0 != vertex,
                forall|k: int|
                    0 <= k < i ==> (self.counts@[k].0 == vertex || out@.contains(
                        #[trigger] self.counts@[k],
                    )),
                forall|a: int, b: int| 0 <= a < b < out@.len() ==> out@[a].0 != out@[b].0,
                forall|k: int|
                    0 <= k < out@.len() ==> exists|j: int|
                        0 <= j < i && #[trigger] out@[k] == self.counts@[j],
                found matches Some(c) ==> old(self).spec_has(vertex) && c == old(self).spec_count(vertex),
                found is None ==> forall|k: int| 0 <= k < i ==> self.counts@[k].0 != vertex,
            decreases n - i,
        {
            let entry = self.counts[i];
            proof {
                assert(self.spec_entries().contains(self.spec_entries()[i as int]));
            }
            if entry.0 == vertex {
                proof {
                    assert(self.spec_entries()[i as int].0 == vertex);
                    let w = choose|w: int|
                        0 <= w < self.spec_entries().len() && self.spec_entries()[w].0 == vertex;
                    if w != i {
                        assert(false);
                    }
                }
                found = Some(entry.1);
            } else {
                let ghost old_out = out@;
                out.push(entry);
                proof {
                    assert forall|k: int|
                        0 <= k < out@.len() implies exists|j: int|
                        0 <= j < i + 1 && #[trigger] out@[k] == self.counts@[j] by {
                        if k < out@.len() - 1 {
                            assert(out@[k] == old_out[k]);
                            let j = choose|j: int| 0 <= j < i && old_out[k] == self.counts@[j];
                            assert(out@[k] == self.counts@[j]);
                        } else {
                            assert(out@[k] == self.counts@[i as int]);
                        }
                    }
                    assert forall|a: int, b: int|
                        0 <= a < b < out@.len() implies out@[a].0 != out@[b].0 by {
                        assert(out@[a] == old_out[a]);
                        if b < out@.len() - 1 {
                            assert(out@[b] == old_out[b]);
                        } else {
                            assert(out@[b] == entry);
                            let j = choose|j: int| 0 <= j < i && old_out[a] == self.counts@[j];
                            if old_out[a].0 == entry.0 {
                                assert(self.counts@[j].0 == self.counts@[i as int].0);
                                assert(false);
                            }
                        }
                    }
                    assert forall|k: int|
                        0 <= k < out@.len() implies old(self).spec_entries().contains(
                        #[trigger] out@[k],
                    ) && out@[k].0 != vertex by {
                        if k < out@.len() - 1 {
                            assert(out@[k] == old_out[k]);
                        } else {
                            assert(out@[k] == entry);
                            assert(self.spec_entries().contains(self.spec_entries()[i as int]));
                        }
                    }
                    assert forall|k: int|
                        0 <= k < i + 1 implies (self.counts@[k].0 == vertex || out@.contains(
                        #[trigger] self.counts@[k],
                    )) by {
                        if k < i {
                            if old_out.contains(self.counts@[k]) {
                                let w = choose|w: int|
                                    0 <= w < old_out.len() && old_out[w] == self.counts@[k];
                                assert(out@[w] == self.counts@[k]);
                                assert(out@.contains(self.counts@[k]));
                            }
                        } else {
                            assert(out@[out@.len() - 1] == self.counts@[k]);
                            assert(out@.contains(self.counts@[k]));
                        }
                    }
                }
            }
            i = i + 1;
        }
        proof {
            assert forall|k: int|
                0 <= k < n implies (old(self).spec_entries()[k].0 == vertex || out@.contains(
                #[trigger] old(self).spec_entries()[k],
            )) by {
                assert(self.counts@[k] == old(self).spec_entries()[k]);
            }
        }
        let ghost out_mid = out@;
        let removed: bool;
        let newcount: Option<u32> = if raise {
            match found {
                Some(c) => Some(c + 1),
                None => Some(1),
            }
        } else {
            let c = match found {
                Some(c) => c,
                None => {
                    proof {
                        let w = choose|w: int|
                            0 <= w < old(self).spec_entries().len() && old(
                                self,
                            ).spec_entries()[w].0 == vertex;
                        assert(false);
                    }
                    1
                },
            };
            if c == 1 {
                None
            } else {
                Some(c - 1)
            }
        };
        removed = !raise && newcount.is_none();
        match newcount {
            Some(c) => {
                out.push((vertex, c));
                proof {
                    assert(out@[out@.len() - 1] == (vertex, c));
                    assert forall|x: (Pnt2, u32)| out_mid.contains(x) implies out@.contains(
                        x,
                    ) by {
                        let w = choose|w: int| 0 <= w < out_mid.len() && out_mid[w] == x;
                        assert(out@[w] == x);
                    }
                    assert forall|a: int, b: int|
                        0 <= a < b < out@.len() implies out@[a].0 != out@[b].0 by {
                        assert(out@[a] == out_mid[a]);
                        if b < out@.len() - 1 {
                            assert(out@[b] == out_mid[b]);
                        }
                    }
                }
            },
            None => {},
        }
        self.counts = out;
        proof {
            let oldents = old(self).spec_entries();
            assert(self.spec_entries() == out@);
            // facts carried over: every old entry for another key survives
            assert forall|k: int|
                0 <= k < n implies (oldents[k].0 == vertex || out@.contains(
                #[trigger] oldents[k],
            )) by {
                if oldents[k].0 != vertex {
                    assert(out_mid.contains(oldents[k]));
                    let w = choose|w: int| 0 <= w < out_mid.len() && out_mid[w] == oldents[k];
                    assert(out@[w] == oldents[k]);
                }
            }
            assert forall|w: Pnt2|
                w != vertex implies (self.spec_has(w) == old(self).spec_has(w) && (old(
                self,
            ).spec_has(w) ==> self.spec_count(w) == old(self).spec_count(w))) by {
                if old(self).spec_has(w) {
                    let wi = choose|k: int| 0 <= k < oldents.len() && oldents[k].0 == w;
                    assert(out@.contains(oldents[wi]));
                    let oi = choose|k: int| 0 <= k < out@.len() && out@[k] == oldents[wi];
                    assert(self.spec_entries()[oi].0 == w);
                    assert(self.spec_has(w));
                    let fi = choose|k: int|
                        0 <= k < self.spec_entries().len() && self.spec_entries()[k].0 == w;
                    if fi != oi {
                        assert(false);
                    }
                    let ci = choose|k: int| 0 <= k < oldents.len() && oldents[k].0 == w;
                    if ci != wi {
                        assert(false);
                    }
                }
                if self.spec_has(w) {
                    let fi = choose|k: int|
                        0 <= k < self.spec_entries().len() && self.spec_entries()[k].0 == w;
                    assert(out_mid.contains(out@[fi]) || out@[fi] == (
                    vertex,
                    newcount.unwrap(),
                    )) by {
                        if fi < out_mid.len() {
                            assert(out@[fi] == out_mid[fi]);
                        }
                    }
                    assert(old(self).spec_entries().contains(out@[fi]) || out@[fi].0 == vertex);
                    if old(self).spec_entries().contains(out@[fi]) {
                        let w2 = choose|k: int|
                            0 <= k < oldents.len() && oldents[k] == out@[fi];
                        assert(oldents[w2].0 == w);
                        assert(old(self).spec_has(w));
                    }
                }
            }
            if self.spec_has(vertex) {
                let fi = choose|k: int|
                    0 <= k < self.spec_entries().len() && self.spec_entries()[k].0 == vertex;
                assert(out_mid.contains(out@[fi]) || out@[fi] == (vertex, newcount.unwrap()))
                    by {
                    if fi < out_mid.len() {
                        assert(out@[fi] == out_mid[fi]);
                    }
                }
                assert(out@[fi] == (vertex, newcount.unwrap()));
            }
            match newcount {
                Some(c) => {
                    assert(out@[out@.len() - 1] == (vertex, c));
                    assert(self.spec_has(vertex));
                },
                None => {},
            }
        }
        removed
    }

    /// Count one more reference to the point.
    fn bump(&mut self, vertex: Pnt2) -> (r: bool)
        requires
            old(self).wf(),
            old(self).spec_has(vertex) ==> old(self).spec_count(vertex) < u32::MAX,
        ensures
            final(self).wf(),
            final(self).spec_has(vertex),
            old(self).spec_has(vertex) ==> final(self).spec_count(vertex) == old(self).spec_count(vertex) + 1,
            !old(self).spec_has(vertex) ==> final(self).spec_count(vertex) == 1,
            forall|w: Pnt2|
                w != vertex ==> (final(self).spec_has(w) == old(self).spec_has(w) && (old(self).spec_has(w) ==> final(self).spec_count(w) == old(self).spec_count(w))),
    {
        self.change(vertex, true)
    }
}

} // verus!
