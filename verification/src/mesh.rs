//! A triangle mesh that deduplicates vertices.
//!
//! Vertices carry exact integer positions and normals; computing a normal
//! from floating-point positions (cross products, normalization) is the
//! renderer's business and happens outside this library.  The mesh's own
//! job is bookkeeping: every distinct vertex is stored once, and triangles
//! reference vertices by index.

use vstd::prelude::*;
use crate::math::{Point3, Vector3};

verus! {

/// An index into the vertex table of a [`Mesh`].
#[derive(Clone, Copy, Debug, PartialEq, Eq, Structural)]
pub struct Index(u16);

impl Index {
    /// The position in the vertex table, as a spec value.
    pub closed spec fn spec_value(self) -> u16 {
        self.0
    }

    /// The position in the vertex table.
    #[verifier::when_used_as_spec(spec_value)]
    pub fn value(self) -> (r: u16)
        ensures
            r == self.spec_value(),
    {
        self.0
    }
}

/// A mesh vertex: a position and the normal of the face it was emitted
/// for.  Two vertices are the same exactly if both agree.
#[derive(Clone, Copy, Debug, PartialEq, Eq, Structural)]
pub struct Vertex {
    /// The position of the vertex.
    pub position: Point3,
    /// The normal of the face the vertex belongs to.
    pub normal: Vector3,
}

/// A triangle mesh: deduplicated vertices, and triangles as triples of
/// indices into the vertex table.
#[derive(Debug)]
pub struct Mesh {
    vertices: Vec<Vertex>,
    indices: Vec<Index>,
}

impl Mesh {
    /// The vertex table, as a spec value.
    pub closed spec fn spec_vertices(&self) -> Seq<Vertex> {
        self.vertices@
    }

    /// The index list, as a spec value.
    pub closed spec fn spec_indices(&self) -> Seq<Index> {
        self.indices@
    }

    /// No vertex is stored twice, the table fits the index type, and every
    /// index points into the table.
    pub open spec fn wf(&self) -> bool {
        &&& (forall|i: int, j: int|
            0 <= i < j < self.spec_vertices().len() ==> self.spec_vertices()[i]
                != self.spec_vertices()[j])
        &&& self.spec_vertices().len() <= 0x1_0000
        &&& (forall|i: int|
            0 <= i < self.spec_indices().len() ==> (#[trigger] self.spec_indices()[i]).spec_value()
                < self.spec_vertices().len())
    }

    /// An empty mesh.
    pub fn new() -> (r: Mesh)
        ensures
            r.wf(),
            r.spec_vertices().len() == 0,
            r.spec_indices().len() == 0,
    {
        Mesh { vertices: Vec::new(), indices: Vec::new() }
    }

    /// The deduplicated vertices.
    pub fn vertices(&self) -> (r: &Vec<Vertex>)
        ensures
            r@ == self.spec_vertices(),
    {
        &self.vertices
    }

    /// The triangles, as triples of consecutive indices.
    pub fn indices(&self) -> (r: &Vec<Index>)
        ensures
            r@ == self.spec_indices(),
    {
        &self.indices
    }

    /// Add a triangle.  Each corner that is not yet in the vertex table is
    /// appended; each corner's index is pushed onto the index list.
    pub fn triangle(&mut self, v0: Vertex, v1: Vertex, v2: Vertex)
        requires
            old(self).wf(),
            old(self).spec_vertices().len() + 3 <= 0x1_0000,
        ensures
            final(self).wf(),
            final(self).spec_indices().len() == old(self).spec_indices().len() + 3,
            forall|i: int|
                0 <= i < old(self).spec_indices().len() ==> #[trigger] final(self).spec_indices()[i] == old(self).spec_indices()[i],
            final(self).spec_vertices()[final(self).spec_indices()[final(self).spec_indices().len() - 3].spec_value() as int] == v0,
            final(self).spec_vertices()[final(self).spec_indices()[final(self).spec_indices().len() - 2].spec_value() as int] == v1,
            final(self).spec_vertices()[final(self).spec_indices()[final(self).spec_indices().len() - 1].spec_value() as int] == v2,
            forall|i: int|
                0 <= i < old(self).spec_vertices().len() ==> #[trigger] final(self).spec_vertices()[i] == old(self).spec_vertices()[i],
            final(self).spec_vertices().len() <= old(self).spec_vertices().len() + 3,
    {
        let i0 = self.index_for_vertex(v0);
        let ghost m1 = *self;
        let i1 = self.index_for_vertex(v1);
        let ghost m2 = *self;
        let i2 = self.index_for_vertex(v2);
        proof {
            assert(m1.spec_vertices()[i0.spec_value() as int] == v0);
            assert(m2.spec_vertices()[i0.spec_value() as int] == m1.spec_vertices()[
                i0.spec_value() as int]);
            assert(m2.spec_vertices()[i1.spec_value() as int] == v1);
            assert(self.spec_vertices()[i0.spec_value() as int] == m2.spec_vertices()[
                i0.spec_value() as int]);
            assert(self.spec_vertices()[i1.spec_value() as int] == m2.spec_vertices()[
                i1.spec_value() as int]);
            assert(self.spec_vertices()[i2.spec_value() as int] == v2);
        }
        let ghost pre_push = *self;
        self.indices.push(i0);
        self.indices.push(i1);
        self.indices.push(i2);
        proof {
            assert(pre_push.wf());
            assert(self.spec_vertices() == pre_push.spec_vertices());
            assert forall|k: int|
                0 <= k < self.spec_indices().len() implies (
            #[trigger] self.spec_indices()[k]).spec_value() < self.spec_vertices().len() by {
                if k < pre_push.spec_indices().len() {
                    assert(self.spec_indices()[k] == pre_push.spec_indices()[k]);
                } else if k == self.spec_indices().len() - 3 {
                    assert(self.spec_indices()[k] == i0);
                } else if k == self.spec_indices().len() - 2 {
                    assert(self.spec_indices()[k] == i1);
                } else {
                    assert(self.spec_indices()[k] == i2);
                }
            }
            assert(self.spec_indices()[self.spec_indices().len() - 3] == i0);
            assert(self.spec_indices()[self.spec_indices().len() - 2] == i1);
            assert(self.spec_indices()[self.spec_indices().len() - 1] == i2);
        }
    }

    /// The index of the vertex in the table, appending it if it is new.
    fn index_for_vertex(&mut self, vertex: Vertex) -> (r: Index)
        requires
            old(self).wf(),
            old(self).spec_vertices().len() < 0x1_0000,
        ensures
            final(self).wf(),
            final(self).spec_indices() == old(self).spec_indices(),
            r.spec_value() < final(self).spec_vertices().len(),
            final(self).spec_vertices()[r.spec_value() as int] == vertex,
            forall|i: int|
                0 <= i < old(self).spec_vertices().len() ==> #[trigger] final(self).spec_vertices()[i] == old(self).spec_vertices()[i],
            final(self).spec_vertices().len() <= old(self).spec_vertices().len() + 1,
            final(self).spec_vertices().len() >= old(self).spec_vertices().len(),
    {
        let n = self.vertices.len();
        let mut i: usize = 0;
        while i < n
            invariant
                self.wf(),
                self.spec_vertices() == old(self).spec_vertices(),
                self.spec_indices() == old(self).spec_indices(),
                n == self.vertices.len(),
                n < 0x1_0000,
                0 <= i <= n,
                forall|k: int| 0 <= k < i ==> self.vertices@[k] != vertex,
            decreases n - i,
        {
            if self.vertices[i] == vertex {
                proof {
                    assert(self.wf());
                }
                return Index(i as u16);
            }
            i = i + 1;
        }
        self.vertices.push(vertex);
        proof {
            let s = self.spec_vertices();
            assert forall|a: int, b: int| 0 <= a < b < s.len() implies s[a] != s[b] by {
                assert(s[a] == old(self).spec_vertices()[a]);
                if b < s.len() - 1 {
                    assert(s[b] == old(self).spec_vertices()[b]);
                } else {
                    assert(s[b] == vertex);
                }
            }
            assert forall|k: int|
                0 <= k < self.spec_indices().len() implies (
            #[trigger] self.spec_indices()[k]).spec_value() < self.spec_vertices().len() by {
                assert(self.spec_indices()[k] == old(self).spec_indices()[k]);
                assert((old(self).spec_indices()[k]).spec_value() < old(self).spec_vertices().len());
            }
        }
        Index(n as u16)
    }
}

} // verus!
