//! The fully built topological objects.
//!
//! A full object is immutable once built.  Objects reference each other
//! through [`Handle`]s, giving structural sharing: many faces may share one
//! surface, many half-edges one curve.  The mutable counterparts that exist
//! while an object is under construction live in [`crate::partial`].

use vstd::prelude::*;
use crate::math::{
    in_coord_range, lemma_mul_bound, point3_in_range, vector3_in_range, GlobalPath, Line3,
    Point2, Point3, SurfacePath, Vector2, Vector3,
};
use crate::storage::Handle;

verus! {

/// A two-dimensional shape: a 2D coordinate system embedded in 3D space.
///
/// The `u` axis follows a path in global coordinates; the `v` axis is a
/// direction in global coordinates.  A surface point `(u, v)` denotes the
/// global point `u` along the path plus `v` times the direction.
#[derive(Clone, Copy, Debug, PartialEq, Eq, Structural)]
pub struct Surface {
    u: GlobalPath,
    v: Vector3,
}

/// Whether every coordinate of a global path is in coordinate range.
pub open spec fn global_path_in_range(p: GlobalPath) -> bool {
    match p {
        GlobalPath::Circle(c) => point3_in_range(c.center) && in_coord_range(c.radius),
        GlobalPath::Line(l) => point3_in_range(l.origin) && vector3_in_range(l.direction),
    }
}

/// Whether every coordinate of a surface is in coordinate range.
pub open spec fn surface_in_range(s: Surface) -> bool {
    global_path_in_range(s.spec_u()) && vector3_in_range(s.spec_v())
}

/// First coordinate of the global point denoted by surface coordinates
/// `(pu, pv)`, over unbounded integers.  Meaningful for surfaces whose `u`
/// path is a line.
pub open spec fn spec_surface_point_x(s: Surface, pu: int, pv: int) -> int {
    s.spec_u()->Line_0.origin.x + s.spec_u()->Line_0.direction.x * pu + s.spec_v().x * pv
}

/// Second coordinate of the global point denoted by surface coordinates.
pub open spec fn spec_surface_point_y(s: Surface, pu: int, pv: int) -> int {
    s.spec_u()->Line_0.origin.y + s.spec_u()->Line_0.direction.y * pu + s.spec_v().y * pv
}

/// Third coordinate of the global point denoted by surface coordinates.
pub open spec fn spec_surface_point_z(s: Surface, pu: int, pv: int) -> int {
    s.spec_u()->Line_0.origin.z + s.spec_u()->Line_0.direction.z * pu + s.spec_v().z * pv
}

/// First coordinate of the global vector denoted by surface vector
/// `(vu, vv)`.
pub open spec fn spec_surface_vector_x(s: Surface, vu: int, vv: int) -> int {
    s.spec_u()->Line_0.direction.x * vu + s.spec_v().x * vv
}

/// Second coordinate of the global vector denoted by a surface vector.
pub open spec fn spec_surface_vector_y(s: Surface, vu: int, vv: int) -> int {
    s.spec_u()->Line_0.direction.y * vu + s.spec_v().y * vv
}

/// Third coordinate of the global vector denoted by a surface vector.
pub open spec fn spec_surface_vector_z(s: Surface, vu: int, vv: int) -> int {
    s.spec_u()->Line_0.direction.z * vu + s.spec_v().z * vv
}

/// The surface with the given axes, as a spec value.  Used by contracts to
/// pin down exactly which surface an operation constructs.
pub closed spec fn spec_surface(u: GlobalPath, v: Vector3) -> Surface {
    Surface { u, v }
}

/// `spec_surface` really has the axes it was formed from.
pub broadcast proof fn lemma_spec_surface(u: GlobalPath, v: Vector3)
    ensures
        (#[trigger] spec_surface(u, v)).spec_u() == u,
        spec_surface(u, v).spec_v() == v,
{
}

/// Every surface is the `spec_surface` of its axes.
pub broadcast proof fn lemma_surface_parts(s: Surface)
    ensures
        s == spec_surface(#[trigger] s.spec_u(), s.spec_v()),
{
}

impl Surface {
    /// The path that defines the u-coordinate, as a spec value.
    pub closed spec fn spec_u(&self) -> GlobalPath {
        self.u
    }

    /// The direction that defines the v-coordinate, as a spec value.
    pub closed spec fn spec_v(&self) -> Vector3 {
        self.v
    }

    /// Construct a surface from the path and direction that define its
    /// coordinate system.
    pub fn new(u: GlobalPath, v: Vector3) -> (r: Surface)
        ensures
            r.spec_u() == u,
            r.spec_v() == v,
    {
        Surface { u, v }
    }

    /// Construct a plane from three points: the `u` path is the line from the
    /// first point towards the second, the `v` direction points from the
    /// first towards the third.
    pub fn plane_from_points(points: [Point3; 3]) -> (r: Surface)
        requires
            point3_in_range(points[0]),
            point3_in_range(points[1]),
            point3_in_range(points[2]),
        ensures
            (r.spec_u() matches GlobalPath::Line(l) && l.origin == points[0]
                && l.direction.x == points[1].x - points[0].x
                && l.direction.y == points[1].y - points[0].y
                && l.direction.z == points[1].z - points[0].z),
            r.spec_v().x == points[2].x - points[0].x,
            r.spec_v().y == points[2].y - points[0].y,
            r.spec_v().z == points[2].z - points[0].z,
    {
        let a = points[0];
        let b = points[1];
        let c = points[2];
        let u = GlobalPath::Line(Line3 {
            origin: a,
            direction: Vector3 { x: b.x - a.x, y: b.y - a.y, z: b.z - a.z },
        });
        let v = Vector3 { x: c.x - a.x, y: c.y - a.y, z: c.z - a.z };
        Surface { u, v }
    }

    /// Access the path that defines the u-coordinate of this surface.
    #[verifier::when_used_as_spec(spec_u)]
    pub fn u(&self) -> (r: GlobalPath)
        ensures
            r == self.spec_u(),
    {
        self.u
    }

    /// Access the direction that defines the v-coordinate of this surface.
    #[verifier::when_used_as_spec(spec_v)]
    pub fn v(&self) -> (r: Vector3)
        ensures
            r == self.spec_v(),
    {
        self.v
    }

    /// Convert a point in surface coordinates to model coordinates.
    ///
    /// The evaluation is exact for surfaces swept along a line; evaluating a
    /// circular sweep takes trigonometry, which belongs to the floating-point
    /// math backend outside this library.
    pub fn point_from_surface_coords(&self, point: Point2) -> (r: Point3)
        requires
            self.spec_u() is Line,
            surface_in_range(*self),
            in_coord_range(point.u),
            in_coord_range(point.v),
        ensures
            r.x == spec_surface_point_x(*self, point.u as int, point.v as int),
            r.y == spec_surface_point_y(*self, point.u as int, point.v as int),
            r.z == spec_surface_point_z(*self, point.u as int, point.v as int),
    {
        let line = self.path_to_line();
        proof {
            let l = self.spec_u()->Line_0;
            lemma_mul_bound(l.direction.x, point.u);
            lemma_mul_bound(l.direction.y, point.u);
            lemma_mul_bound(l.direction.z, point.u);
            lemma_mul_bound(self.spec_v().x, point.v);
            lemma_mul_bound(self.spec_v().y, point.v);
            lemma_mul_bound(self.spec_v().z, point.v);
        }
        let along_u = match self.u {
            GlobalPath::Line(l) => (Point3 {
                x: l.origin.x + l.direction.x * point.u,
                y: l.origin.y + l.direction.y * point.u,
                z: l.origin.z + l.direction.z * point.u,
            }),
            GlobalPath::Circle(_) => (Point3 { x: 0, y: 0, z: 0 }),
        };
        Point3 {
            x: along_u.x + line.direction.x * point.v,
            y: along_u.y + line.direction.y * point.v,
            z: along_u.z + line.direction.z * point.v,
        }
    }

    /// Convert a vector in surface coordinates to model coordinates.
    pub fn vector_from_surface_coords(&self, vector: Vector2) -> (r: Vector3)
        requires
            self.spec_u() is Line,
            surface_in_range(*self),
            in_coord_range(vector.u),
            in_coord_range(vector.v),
        ensures
            r.x == spec_surface_vector_x(*self, vector.u as int, vector.v as int),
            r.y == spec_surface_vector_y(*self, vector.u as int, vector.v as int),
            r.z == spec_surface_vector_z(*self, vector.u as int, vector.v as int),
    {
        let line = self.path_to_line();
        proof {
            let l = self.spec_u()->Line_0;
            lemma_mul_bound(l.direction.x, vector.u);
            lemma_mul_bound(l.direction.y, vector.u);
            lemma_mul_bound(l.direction.z, vector.u);
            lemma_mul_bound(self.spec_v().x, vector.v);
            lemma_mul_bound(self.spec_v().y, vector.v);
            lemma_mul_bound(self.spec_v().z, vector.v);
        }
        let along_u = match self.u {
            GlobalPath::Line(l) => (Vector3 {
                x: l.direction.x * vector.u,
                y: l.direction.y * vector.u,
                z: l.direction.z * vector.u,
            }),
            GlobalPath::Circle(_) => (Vector3 { x: 0, y: 0, z: 0 }),
        };
        Vector3 {
            x: along_u.x + line.direction.x * vector.v,
            y: along_u.y + line.direction.y * vector.v,
            z: along_u.z + line.direction.z * vector.v,
        }
    }

    /// The line along which the `v` direction acts, anchored at the origin of
    /// the `u` path.
    fn path_to_line(&self) -> (r: Line3)
        ensures
            r.origin == self.spec_u().spec_origin(),
            r.direction == self.spec_v(),
    {
        Line3 { origin: self.u.origin(), direction: self.v }
    }
}

/// A vertex in global 3D model coordinates.
#[derive(Clone, Copy, Debug)]
pub struct GlobalVertex {
    /// The position of the vertex in model coordinates.
    pub position: Point3,
}

impl GlobalVertex {
    /// The position of the vertex in model coordinates.
    pub fn position(&self) -> (r: Point3)
        ensures
            r == self.position,
    {
        self.position
    }
}

/// A curve that exists in global coordinates, independently of any surface.
///
/// A global curve carries no data of its own; it is pure identity, shared by
/// all surface-local curves that coincide in space.
#[derive(Clone, Copy, Debug)]
pub struct GlobalCurve {}

/// A curve in the 2D coordinate system of a surface.
#[derive(Clone, Copy, Debug)]
pub struct Curve {
    /// The path the curve follows, in surface coordinates.
    pub path: SurfacePath,
    /// The surface the curve is defined in.
    pub surface: Handle<Surface>,
    /// The global form of the curve.
    pub global_form: Handle<GlobalCurve>,
}

impl Curve {
    /// The path the curve follows, in surface coordinates.
    pub fn path(&self) -> (r: SurfacePath)
        ensures
            r == self.path,
    {
        self.path
    }

    /// The surface the curve is defined in.
    pub fn surface(&self) -> (r: &Handle<Surface>)
        ensures
            *r == self.surface,
    {
        &self.surface
    }

    /// The global form of the curve.
    pub fn global_form(&self) -> (r: &Handle<GlobalCurve>)
        ensures
            *r == self.global_form,
    {
        &self.global_form
    }
}

/// A vertex in the 2D coordinate system of a surface.
#[derive(Clone, Copy, Debug)]
pub struct SurfaceVertex {
    /// The position of the vertex in surface coordinates.
    pub position: Point2,
    /// The surface the vertex is defined in.
    pub surface: Handle<Surface>,
    /// The global form of the vertex.
    pub global_form: Handle<GlobalVertex>,
}

impl SurfaceVertex {
    /// The position of the vertex in surface coordinates.
    pub fn position(&self) -> (r: Point2)
        ensures
            r == self.position,
    {
        self.position
    }

    /// The surface the vertex is defined in.
    pub fn surface(&self) -> (r: &Handle<Surface>)
        ensures
            *r == self.surface,
    {
        &self.surface
    }

    /// The global form of the vertex.
    pub fn global_form(&self) -> (r: &Handle<GlobalVertex>)
        ensures
            *r == self.global_form,
    {
        &self.global_form
    }
}

/// A vertex in the 1D coordinate system of a curve.
#[derive(Clone, Copy, Debug)]
pub struct Vertex {
    /// The position of the vertex on the curve, in curve coordinates.
    pub position: i64,
    /// The curve the vertex is defined on.
    pub curve: Handle<Curve>,
    /// The surface form of the vertex.
    pub surface_form: Handle<SurfaceVertex>,
}

impl Vertex {
    /// The position of the vertex on the curve.
    pub fn position(&self) -> (r: i64)
        ensures
            r == self.position,
    {
        self.position
    }

    /// The curve the vertex is defined on.
    pub fn curve(&self) -> (r: &Handle<Curve>)
        ensures
            *r == self.curve,
    {
        &self.curve
    }

    /// The surface form of the vertex.
    pub fn surface_form(&self) -> (r: &Handle<SurfaceVertex>)
        ensures
            *r == self.surface_form,
    {
        &self.surface_form
    }

    /// The global form of the vertex, reached through its surface form.
    pub fn global_form(&self) -> (r: Handle<GlobalVertex>)
        ensures
            r == self.surface_form.value().global_form,
    {
        self.surface_form.get().global_form
    }
}

/// The undirected global edge between two global vertices.
///
/// The vertices are stored in normalized order: the handle with the smaller
/// id first.  Two half-edges that run along the same edge in opposite
/// directions share one global edge.
#[derive(Clone, Copy, Debug)]
pub struct GlobalEdge {
    /// The global curve the edge runs along.
    pub curve: Handle<GlobalCurve>,
    /// The end vertices of the edge, in normalized order.
    pub vertices: [Handle<GlobalVertex>; 2],
}

impl GlobalEdge {
    /// The global curve the edge runs along.
    pub fn curve(&self) -> (r: &Handle<GlobalCurve>)
        ensures
            *r == self.curve,
    {
        &self.curve
    }

    /// The end vertices of the edge, in normalized order.
    pub fn vertices(&self) -> (r: [Handle<GlobalVertex>; 2])
        ensures
            r == self.vertices,
    {
        self.vertices
    }
}

/// A directed edge in the 2D coordinate system of a surface, bounded by a
/// back and a front vertex.
#[derive(Clone, Copy, Debug)]
pub struct HalfEdge {
    /// The curve the half-edge runs along.
    pub curve: Handle<Curve>,
    /// The end vertices, back first, front second.
    pub vertices: [Handle<Vertex>; 2],
    /// The undirected global edge this half-edge runs along.
    pub global_form: Handle<GlobalEdge>,
}

impl HalfEdge {
    /// The curve the half-edge runs along.
    pub fn curve(&self) -> (r: &Handle<Curve>)
        ensures
            *r == self.curve,
    {
        &self.curve
    }

    /// The end vertices, back first, front second.
    pub fn vertices(&self) -> (r: [Handle<Vertex>; 2])
        ensures
            r == self.vertices,
    {
        self.vertices
    }

    /// The vertex the half-edge starts from.
    pub fn back(&self) -> (r: &Handle<Vertex>)
        ensures
            *r == self.vertices[0],
    {
        &self.vertices[0]
    }

    /// The vertex the half-edge points to.
    pub fn front(&self) -> (r: &Handle<Vertex>)
        ensures
            *r == self.vertices[1],
    {
        &self.vertices[1]
    }

    /// The undirected global edge this half-edge runs along.
    pub fn global_form(&self) -> (r: &Handle<GlobalEdge>)
        ensures
            *r == self.global_form,
    {
        &self.global_form
    }
}

/// An ordered, closed loop of half-edges bounding a face.
#[derive(Debug)]
pub struct Cycle {
    half_edges: Vec<Handle<HalfEdge>>,
}

impl Cycle {
    /// The half-edges of the cycle, in order, as a spec value.
    pub closed spec fn spec_half_edges(&self) -> Seq<Handle<HalfEdge>> {
        self.half_edges@
    }

    /// Create a cycle from its half-edges.
    pub fn new(half_edges: Vec<Handle<HalfEdge>>) -> (r: Cycle)
        ensures
            r.spec_half_edges() == half_edges@,
    {
        Cycle { half_edges }
    }

    /// Access the half-edges of the cycle, in order.
    pub fn half_edges(&self) -> (r: &Vec<Handle<HalfEdge>>)
        ensures
            r@ == self.spec_half_edges(),
    {
        &self.half_edges
    }
}

/// A face: a region of a surface, bounded by cycles.  Only the data this
/// core reads is modeled here: the surface the face lies in.
#[derive(Clone, Copy, Debug)]
pub struct Face {
    /// The surface the face lies in.
    pub surface: Handle<Surface>,
}

impl Face {
    /// The surface the face lies in.
    pub fn surface(&self) -> (r: &Handle<Surface>)
        ensures
            *r == self.surface,
    {
        &self.surface
    }
}

/// Whether a sequence of face handles contains the given id.
pub open spec fn contains_face_id(s: Seq<Handle<Face>>, id: u64) -> bool {
    exists|i: int| 0 <= i < s.len() && s[i].spec_id() == id
}

/// Whether no two face handles in the sequence share an id.
pub open spec fn distinct_face_ids(s: Seq<Handle<Face>>) -> bool {
    forall|i: int, j: int| 0 <= i < j < s.len() ==> s[i].spec_id() != s[j].spec_id()
}

/// A set of faces, deduplicated by identity.
#[derive(Debug)]
pub struct FaceSet {
    faces: Vec<Handle<Face>>,
}

impl FaceSet {
    /// The faces in the set, in insertion order, as a spec value.
    pub closed spec fn spec_faces(&self) -> Seq<Handle<Face>> {
        self.faces@
    }

    /// No two faces in the set share an identity.
    pub open spec fn wf(&self) -> bool {
        distinct_face_ids(self.spec_faces())
    }

    /// An empty set of faces.
    pub fn new() -> (r: FaceSet)
        ensures
            r.spec_faces().len() == 0,
            r.wf(),
    {
        FaceSet { faces: Vec::new() }
    }

    /// How many faces the set holds.
    pub fn len(&self) -> (r: usize)
        ensures
            r == self.spec_faces().len(),
    {
        self.faces.len()
    }

    /// The faces in the set, in insertion order.
    pub fn faces(&self) -> (r: &Vec<Handle<Face>>)
        ensures
            r@ == self.spec_faces(),
    {
        &self.faces
    }

    /// Insert a face.  A face whose identity is already present is not
    /// inserted again.
    pub fn insert(&mut self, face: Handle<Face>)
        requires
            old(self).wf(),
        ensures
            final(self).wf(),
            contains_face_id(old(self).spec_faces(), face.spec_id()) ==> final(self).spec_faces()
                == old(self).spec_faces(),
            !contains_face_id(old(self).spec_faces(), face.spec_id()) ==> final(self).spec_faces()
                == old(self).spec_faces().push(face),
    {
        let n = self.faces.len();
        let mut i: usize = 0;
        let mut present = false;
        while i < n
            invariant
                self.spec_faces() == old(self).spec_faces(),
                n == self.faces.len(),
                0 <= i <= n,
                present ==> contains_face_id(self.spec_faces(), face.spec_id()),
                !present ==> forall|k: int|
                    0 <= k < i ==> self.faces@[k].spec_id() != face.spec_id(),
            decreases n - i,
        {
            if self.faces[i].id() == face.id() {
                present = true;
            }
            i = i + 1;
        }
        if !present {
            proof {
                assert(!contains_face_id(self.spec_faces(), face.spec_id()));
            }
            self.faces.push(face);
            proof {
                let s = self.spec_faces();
                assert forall|a: int, b: int| 0 <= a < b < s.len() implies s[a].spec_id()
                    != s[b].spec_id() by {
                    assert(s[a] == old(self).spec_faces()[a]);
                    if b < s.len() - 1 {
                        assert(s[b] == old(self).spec_faces()[b]);
                    } else {
                        assert(s[b] == face);
                    }
                }
            }
        }
    }

    /// Find the face with the same identity as the given one.
    pub fn find(&self, face: &Handle<Face>) -> (r: Option<Handle<Face>>)
        ensures
            r matches Some(h) ==> h.spec_id() == face.spec_id() && self.spec_faces().contains(h),
            r is None ==> !contains_face_id(self.spec_faces(), face.spec_id()),
    {
        let n = self.faces.len();
        let mut i: usize = 0;
        while i < n
            invariant
                n == self.faces.len(),
                0 <= i <= n,
                forall|k: int| 0 <= k < i ==> self.faces@[k].spec_id() != face.spec_id(),
            decreases n - i,
        {
            if self.faces[i].id() == face.id() {
                let found = self.faces[i];
                assert(self.spec_faces().contains(found));
                return Some(found);
            }
            i = i + 1;
        }
        None
    }
}

/// A 3-dimensional closed shell.
///
/// The faces that make up a shell should be closed ("watertight"); that is a
/// validation concern, not enforced by this type.
#[derive(Debug)]
pub struct Shell {
    faces: FaceSet,
}

impl Shell {
    /// The faces of the shell, as a spec value.
    pub closed spec fn spec_faces(&self) -> Seq<Handle<Face>> {
        self.faces.spec_faces()
    }

    /// No two faces of the shell share an identity.
    pub open spec fn wf(&self) -> bool {
        distinct_face_ids(self.spec_faces())
    }

    /// Build a shell step by step with a [`ShellBuilder`].
    pub fn builder() -> (r: ShellBuilder)
        ensures
            r.spec_faces().len() == 0,
            r.wf(),
    {
        ShellBuilder { faces: FaceSet::new() }
    }

    /// Construct a shell from the given faces, deduplicating by identity.
    pub fn new(faces: Vec<Handle<Face>>) -> (r: Shell)
        ensures
            r.wf(),
            forall|i: int|
                0 <= i < faces@.len() ==> contains_face_id(
                    r.spec_faces(),
                    #[trigger] faces@[i].spec_id(),
                ),
            forall|i: int|
                0 <= i < r.spec_faces().len() ==> contains_face_id(
                    faces@,
                    #[trigger] r.spec_faces()[i].spec_id(),
                ),
    {
        let mut set = FaceSet::new();
        let n = faces.len();
        let mut i: usize = 0;
        while i < n
            invariant
                n == faces.len(),
                0 <= i <= n,
                set.wf(),
                forall|k: int|
                    0 <= k < i ==> contains_face_id(
                        set.spec_faces(),
                        #[trigger] faces@[k].spec_id(),
                    ),
                forall|k: int|
                    0 <= k < set.spec_faces().len() ==> contains_face_id(
                        faces@,
                        #[trigger] set.spec_faces()[k].spec_id(),
                    ),
            decreases n - i,
        {
            let ghost old_set = set.spec_faces();
            set.insert(faces[i]);
            proof {
                let new_set = set.spec_faces();
                assert forall|w: int| 0 <= w < old_set.len() implies #[trigger] new_set[w]
                    == old_set[w] by {
                    if !contains_face_id(old_set, faces@[i as int].spec_id()) {
                        assert(new_set == old_set.push(faces@[i as int]));
                    }
                }
                assert forall|k: int| 0 <= k <= i implies contains_face_id(
                    new_set,
                    #[trigger] faces@[k].spec_id(),
                ) by {
                    if k < i {
                        let w = choose|w: int|
                            0 <= w < old_set.len() && old_set[w].spec_id()
                                == faces@[k].spec_id();
                        assert(new_set[w].spec_id() == faces@[k].spec_id());
                    } else {
                        if contains_face_id(old_set, faces@[i as int].spec_id()) {
                            let w = choose|w: int|
                                0 <= w < old_set.len() && old_set[w].spec_id()
                                    == faces@[i as int].spec_id();
                            assert(new_set[w].spec_id() == faces@[i as int].spec_id());
                        } else {
                            assert(new_set == old_set.push(faces@[i as int]));
                            assert(new_set[old_set.len() as int].spec_id()
                                == faces@[i as int].spec_id());
                        }
                    }
                }
                assert forall|k: int| 0 <= k < new_set.len() implies contains_face_id(
                    faces@,
                    #[trigger] new_set[k].spec_id(),
                ) by {
                    if k < old_set.len() {
                        assert(new_set[k] == old_set[k]);
                    } else {
                        assert(new_set == old_set.push(faces@[i as int]));
                        assert(new_set[k] == faces@[i as int]);
                    }
                }
            }
            i = i + 1;
        }
        Shell { faces: set }
    }

    /// Access the shell's faces.
    pub fn faces(&self) -> (r: &FaceSet)
        ensures
            r.spec_faces() == self.spec_faces(),
    {
        &self.faces
    }

    /// Find the given face in this shell, by identity.
    pub fn find_face(&self, face: &Handle<Face>) -> (r: Option<Handle<Face>>)
        ensures
            r matches Some(h) ==> h.spec_id() == face.spec_id() && self.spec_faces().contains(h),
            r is None ==> !contains_face_id(self.spec_faces(), face.spec_id()),
    {
        self.faces.find(face)
    }
}

/// A fluent builder for [`Shell`].
#[derive(Debug)]
pub struct ShellBuilder {
    faces: FaceSet,
}

impl ShellBuilder {
    /// The faces collected so far, as a spec value.
    pub closed spec fn spec_faces(&self) -> Seq<Handle<Face>> {
        self.faces.spec_faces()
    }

    /// No two collected faces share an identity.
    pub open spec fn wf(&self) -> bool {
        distinct_face_ids(self.spec_faces())
    }

    /// Add a face to the shell under construction.
    pub fn with_face(self, face: Handle<Face>) -> (r: ShellBuilder)
        requires
            self.wf(),
        ensures
            r.wf(),
            contains_face_id(self.spec_faces(), face.spec_id()) ==> r.spec_faces()
                == self.spec_faces(),
            !contains_face_id(self.spec_faces(), face.spec_id()) ==> r.spec_faces()
                == self.spec_faces().push(face),
    {
        let mut faces = self.faces;
        faces.insert(face);
        ShellBuilder { faces }
    }

    /// Finish the shell.
    pub fn build(self) -> (r: Shell)
        requires
            self.wf(),
        ensures
            r.wf(),
            r.spec_faces() == self.spec_faces(),
    {
        Shell { faces: self.faces }
    }
}

} // verus!
