//! Recursive application of an affine transform across a partial object
//! graph, respecting which coordinate frame each field lives in.
//!
//! The rule: a quantity expressed in a *local* frame — a vertex's 1D
//! position on its curve, a surface vertex's 2D position on its surface, a
//! curve's path in surface coordinates — is never touched; only the objects
//! that define those frames, and quantities expressed in global
//! coordinates, are transformed.  A local coordinate stays correct exactly
//! because its defining frame is transformed consistently.

use vstd::prelude::*;
use crate::math::{
    apply_linear_x, apply_linear_y, apply_linear_z, apply_x, apply_y, apply_z, is_composition,
    lemma_mul_bound, lemma_transform_composition, point3_in_range, transform_in_range,
    vector3_in_range, Circle3, GlobalPath, Line3, Point3, Transform, Vector3,
};
use crate::objects::{
    global_path_in_range, lemma_spec_surface, lemma_surface_parts, spec_surface, surface_in_range,
    Curve, GlobalVertex, Surface, SurfaceVertex,
};
use crate::partial::objects::{
    PartialCurve, PartialGlobalVertex, PartialSurfaceVertex, PartialVertex,
};
use crate::partial::{HasPartial, MaybePartial, ValidationError};
use crate::storage::{spec_handle, spec_objects, Handle, Objects};

verus! {

broadcast use crate::storage::lemma_spec_handle, crate::storage::lemma_spec_objects,
    crate::objects::lemma_spec_surface;

/// The image of a point under a transform, as a point value.  Faithful
/// whenever the transform and the point are in coordinate range.
pub open spec fn spec_tp(t: Transform, p: Point3) -> Point3 {
    Point3 {
        x: apply_x(t, p.x as int, p.y as int, p.z as int) as i64,
        y: apply_y(t, p.x as int, p.y as int, p.z as int) as i64,
        z: apply_z(t, p.x as int, p.y as int, p.z as int) as i64,
    }
}

/// The image of a vector under the linear part of a transform.
pub open spec fn spec_tv(t: Transform, v: Vector3) -> Vector3 {
    Vector3 {
        x: apply_linear_x(t, v.x as int, v.y as int, v.z as int) as i64,
        y: apply_linear_y(t, v.x as int, v.y as int, v.z as int) as i64,
        z: apply_linear_z(t, v.x as int, v.y as int, v.z as int) as i64,
    }
}

/// The image of a global path under a transform.  A line's origin and
/// direction are mapped through the transform; a circle's center is mapped
/// and its radius carried over, which is exact for rigid motions.
pub open spec fn spec_transform_path(t: Transform, p: GlobalPath) -> GlobalPath {
    match p {
        GlobalPath::Line(l) => GlobalPath::Line(
            Line3 { origin: spec_tp(t, l.origin), direction: spec_tv(t, l.direction) },
        ),
        GlobalPath::Circle(c) => GlobalPath::Circle(
            Circle3 { center: spec_tp(t, c.center), radius: c.radius },
        ),
    }
}

/// The image of a surface under a transform: both axes are mapped through
/// the transform.
pub open spec fn spec_transform_surface(t: Transform, s: Surface) -> Surface {
    spec_surface(spec_transform_path(t, s.spec_u()), spec_tv(t, s.spec_v()))
}

/// Transform a surface value.  Pure; the store is not involved.
pub fn transform_surface(s: &Surface, t: &Transform) -> (r: Surface)
    requires
        transform_in_range(*t),
        surface_in_range(*s),
    ensures
        r == spec_transform_surface(*t, *s),
{
    let u = match s.u() {
        GlobalPath::Line(l) => GlobalPath::Line(
            Line3 { origin: t.transform_point(&l.origin), direction: t.transform_vector(&l.direction) },
        ),
        GlobalPath::Circle(c) => GlobalPath::Circle(
            Circle3 { center: t.transform_point(&c.center), radius: c.radius },
        ),
    };
    let v3 = t.transform_vector(&s.v());
    let r = Surface::new(u, v3);
    proof {
        lemma_surface_parts(r);
    }
    r
}

/// An object that a transform propagates through.
pub trait TransformObject: Sized {
    /// Machine-limit preconditions: the coordinates that the transform is
    /// applied to must be in coordinate range, as must the transform.
    spec fn transform_req(self, t: Transform) -> bool;

    /// How many identities transforming this object consumes for the full
    /// objects it re-inserts in transformed form.
    spec fn transform_ids(self) -> nat;

    /// The transformed object, given the store the transform starts from.
    spec fn transform_spec(self, t: Transform, o: Objects) -> Self;

    /// Transform the object.  Pure except for inserting transformed full
    /// dependencies into the store; never fails.
    fn transform(self, t: &Transform, objects: &mut Objects) -> (r: Result<
        Self,
        ValidationError,
    >)
        requires
            self.transform_req(*t),
            old(objects).id_count() + self.transform_ids() < u64::MAX,
        ensures
            r matches Ok(v) && v == self.transform_spec(*t, *old(objects)),
            final(objects).id_count() == old(objects).id_count() + self.transform_ids(),
    ;
}

impl TransformObject for PartialGlobalVertex {
    open spec fn transform_req(self, t: Transform) -> bool {
        &&& transform_in_range(t)
        &&& (self.position matches Some(p) ==> point3_in_range(p))
    }

    open spec fn transform_ids(self) -> nat {
        0
    }

    open spec fn transform_spec(self, t: Transform, o: Objects) -> Self {
        PartialGlobalVertex {
            position: match self.position {
                None => None,
                Some(p) => Some(spec_tp(t, p)),
            },
        }
    }

    fn transform(self, t: &Transform, objects: &mut Objects) -> (r: Result<
        Self,
        ValidationError,
    >) {
        let position = match self.position {
            None => None,
            Some(p) => Some(t.transform_point(&p)),
        };
        Ok(PartialGlobalVertex { position })
    }
}

impl TransformObject for MaybePartial<GlobalVertex> {
    open spec fn transform_req(self, t: Transform) -> bool {
        &&& transform_in_range(t)
        &&& (self matches MaybePartial::Full(g) ==> point3_in_range(g.value().position))
        &&& (self matches MaybePartial::Partial(pgv) ==> (pgv.position matches Some(p)
            ==> point3_in_range(p)))
    }

    open spec fn transform_ids(self) -> nat {
        match self {
            MaybePartial::Full(_) => 1,
            MaybePartial::Partial(_) => 0,
        }
    }

    open spec fn transform_spec(self, t: Transform, o: Objects) -> Self {
        match self {
            MaybePartial::Full(g) => MaybePartial::Full(
                spec_handle(o.id_count(), GlobalVertex { position: spec_tp(t, g.value().position) }),
            ),
            MaybePartial::Partial(pgv) => MaybePartial::Partial(pgv.transform_spec(t, o)),
        }
    }

    fn transform(self, t: &Transform, objects: &mut Objects) -> (r: Result<
        Self,
        ValidationError,
    >) {
        match self {
            MaybePartial::Full(g) => {
                let position = t.transform_point(&g.get().position());
                Ok(MaybePartial::Full(objects.insert(GlobalVertex { position })))
            },
            MaybePartial::Partial(pgv) => match pgv.transform(t, objects) {
                Ok(p) => Ok(MaybePartial::Partial(p)),
                Err(e) => Err(e),
            },
        }
    }
}

impl TransformObject for PartialSurfaceVertex {
    open spec fn transform_req(self, t: Transform) -> bool {
        &&& transform_in_range(t)
        &&& (self.surface matches Some(s) ==> surface_in_range(s.value()))
        &&& self.global_form.transform_req(t)
    }

    open spec fn transform_ids(self) -> nat {
        (match self.surface {
            None => 0nat,
            Some(_) => 1nat,
        }) + self.global_form.transform_ids()
    }

    open spec fn transform_spec(self, t: Transform, o: Objects) -> Self {
        let surface_ids: nat = match self.surface {
            None => 0nat,
            Some(_) => 1nat,
        };
        PartialSurfaceVertex {
            position: self.position,
            surface: match self.surface {
                None => None,
                Some(h) => Some(
                    spec_handle(o.id_count(), spec_transform_surface(t, h.value())),
                ),
            },
            global_form: self.global_form.transform_spec(
                t,
                spec_objects((o.id_count() + surface_ids) as u64),
            ),
        }
    }

    fn transform(self, t: &Transform, objects: &mut Objects) -> (r: Result<
        Self,
        ValidationError,
    >) {
        let surface = match self.surface {
            None => None,
            Some(h) => Some(objects.insert(transform_surface(h.get(), t))),
        };
        proof {
            crate::storage::lemma_objects_parts(*objects);
        }
        let global_form = match self.global_form.transform(t, objects) {
            Ok(g) => g,
            Err(e) => {
                return Err(e);
            },
        };
        // The vertex's own surface-local position is untouched: it stays
        // valid relative to the transformed surface.
        Ok(PartialSurfaceVertex { position: self.position, surface, global_form })
    }
}

impl TransformObject for PartialCurve {
    open spec fn transform_req(self, t: Transform) -> bool {
        &&& transform_in_range(t)
        &&& (self.surface matches Some(s) ==> surface_in_range(s.value()))
    }

    open spec fn transform_ids(self) -> nat {
        match self.surface {
            None => 0,
            Some(_) => 1,
        }
    }

    open spec fn transform_spec(self, t: Transform, o: Objects) -> Self {
        PartialCurve {
            path: self.path,
            surface: match self.surface {
                None => None,
                Some(h) => Some(
                    spec_handle(o.id_count(), spec_transform_surface(t, h.value())),
                ),
            },
            global_form: self.global_form,
        }
    }

    fn transform(self, t: &Transform, objects: &mut Objects) -> (r: Result<
        Self,
        ValidationError,
    >) {
        let surface = match self.surface {
            None => None,
            Some(h) => Some(objects.insert(transform_surface(h.get(), t))),
        };
        // The path is expressed in surface coordinates and stays untouched;
        // the global form carries no geometry of its own.
        Ok(PartialCurve { path: self.path, surface, global_form: self.global_form })
    }
}

impl TransformObject for MaybePartial<Curve> {
    open spec fn transform_req(self, t: Transform) -> bool {
        &&& transform_in_range(t)
        &&& (self matches MaybePartial::Full(c) ==> surface_in_range(c.value().surface.value()))
        &&& (self matches MaybePartial::Partial(pc) ==> pc.transform_req(t))
    }

    open spec fn transform_ids(self) -> nat {
        match self {
            MaybePartial::Full(_) => 2,
            MaybePartial::Partial(pc) => pc.transform_ids(),
        }
    }

    open spec fn transform_spec(self, t: Transform, o: Objects) -> Self {
        match self {
            MaybePartial::Full(c) => MaybePartial::Full(
                spec_handle(
                    (o.id_count() + 1) as u64,
                    Curve {
                        path: c.value().path,
                        surface: spec_handle(
                            o.id_count(),
                            spec_transform_surface(t, c.value().surface.value()),
                        ),
                        global_form: c.value().global_form,
                    },
                ),
            ),
            MaybePartial::Partial(pc) => MaybePartial::Partial(pc.transform_spec(t, o)),
        }
    }

    fn transform(self, t: &Transform, objects: &mut Objects) -> (r: Result<
        Self,
        ValidationError,
    >) {
        match self {
            MaybePartial::Full(c) => {
                let surface = objects.insert(transform_surface(c.get().surface().get(), t));
                let curve = Curve {
                    path: c.get().path(),
                    surface,
                    global_form: *c.get().global_form(),
                };
                Ok(MaybePartial::Full(objects.insert(curve)))
            },
            MaybePartial::Partial(pc) => match pc.transform(t, objects) {
                Ok(p) => Ok(MaybePartial::Partial(p)),
                Err(e) => Err(e),
            },
        }
    }
}

impl TransformObject for PartialVertex {
    open spec fn transform_req(self, t: Transform) -> bool {
        &&& transform_in_range(t)
        &&& self.curve.transform_req(t)
        &&& self.surface_form.into_partial_spec().transform_req(t)
    }

    open spec fn transform_ids(self) -> nat {
        self.curve.transform_ids() + self.surface_form.into_partial_spec().transform_ids()
    }

    open spec fn transform_spec(self, t: Transform, o: Objects) -> Self {
        PartialVertex {
            position: self.position,
            curve: self.curve.transform_spec(t, o),
            surface_form: MaybePartial::Partial(
                self.surface_form.into_partial_spec().transform_spec(
                    t,
                    spec_objects((o.id_count() + self.curve.transform_ids()) as u64),
                ),
            ),
        }
    }

    fn transform(self, t: &Transform, objects: &mut Objects) -> (r: Result<
        Self,
        ValidationError,
    >) {
        let curve = match self.curve.transform(t, objects) {
            Ok(c) => c,
            Err(e) => {
                return Err(e);
            },
        };
        proof {
            crate::storage::lemma_objects_parts(*objects);
        }
        let sf_partial = self.surface_form.into_partial();
        let surface_form = match sf_partial.transform(t, objects) {
            Ok(p) => p,
            Err(e) => {
                return Err(e);
            },
        };
        // The vertex's own curve-local position is untouched: it stays
        // valid relative to the transformed curve.
        Ok(
            PartialVertex {
                position: self.position,
                curve,
                surface_form: MaybePartial::Partial(surface_form),
            },
        )
    }
}

/// The partial counterpart of a maybe-partial surface vertex: the partial
/// side unchanged, the full side with every field filled in.
pub open spec fn into_partial_spec_sv(m: MaybePartial<SurfaceVertex>) -> PartialSurfaceVertex {
    match m {
        MaybePartial::Partial(p) => p,
        MaybePartial::Full(h) => h.value().to_partial_spec(),
    }
}

impl MaybePartial<SurfaceVertex> {
    /// The partial counterpart of this value, as a spec value.
    pub open spec fn into_partial_spec(self) -> PartialSurfaceVertex {
        into_partial_spec_sv(self)
    }
}

/// Transforming a partial vertex never changes its curve-local position,
/// and transforming a partial surface vertex never changes its
/// surface-local position: local coordinates stay valid because their
/// defining frames are transformed consistently.
pub proof fn lemma_transform_preserves_local_positions(
    pv: PartialVertex,
    psv: PartialSurfaceVertex,
    t: Transform,
    o: Objects,
)
    ensures
        pv.transform_spec(t, o).position == pv.position,
        psv.transform_spec(t, o).position == psv.position,
{
}

/// Transforming a point by `t1` and then by `t2` is the same as
/// transforming it once by their composition.  Exact in this integer model;
/// no tolerance is involved.
pub proof fn lemma_transform_point_composition(
    tc: Transform,
    t2: Transform,
    t1: Transform,
    p: Point3,
)
    requires
        is_composition(tc, t2, t1),
        transform_in_range(t1),
        point3_in_range(p),
    ensures
        spec_tp(t2, spec_tp(t1, p)) == spec_tp(tc, p),
{
    lemma_mul_bound(t1.xx, p.x);
    lemma_mul_bound(t1.xy, p.y);
    lemma_mul_bound(t1.xz, p.z);
    lemma_mul_bound(t1.yx, p.x);
    lemma_mul_bound(t1.yy, p.y);
    lemma_mul_bound(t1.yz, p.z);
    lemma_mul_bound(t1.zx, p.x);
    lemma_mul_bound(t1.zy, p.y);
    lemma_mul_bound(t1.zz, p.z);
    lemma_transform_composition(tc, t2, t1, p.x as int, p.y as int, p.z as int);
}

/// Transforming a partial global vertex by `t1` and then by `t2` is the
/// same as transforming it once by their composition.
pub proof fn lemma_transform_composition_global_vertex(
    tc: Transform,
    t2: Transform,
    t1: Transform,
    pgv: PartialGlobalVertex,
    o1: Objects,
    o2: Objects,
    o3: Objects,
)
    requires
        is_composition(tc, t2, t1),
        transform_in_range(t1),
        pgv.transform_req(t1),
    ensures
        pgv.transform_spec(t1, o1).transform_spec(t2, o2) == pgv.transform_spec(tc, o3),
{
    match pgv.position {
        None => {},
        Some(p) => {
            lemma_transform_point_composition(tc, t2, t1, p);
        },
    }
}

} // verus!

verus! {

/// Transforming a vector by `t1` and then by `t2` is the same as
/// transforming it once by their composition.
pub proof fn lemma_transform_vector_composition(
    tc: Transform,
    t2: Transform,
    t1: Transform,
    v: Vector3,
)
    requires
        is_composition(tc, t2, t1),
        transform_in_range(t1),
        vector3_in_range(v),
    ensures
        spec_tv(t2, spec_tv(t1, v)) == spec_tv(tc, v),
{
    lemma_mul_bound(t1.xx, v.x);
    lemma_mul_bound(t1.xy, v.y);
    lemma_mul_bound(t1.xz, v.z);
    lemma_mul_bound(t1.yx, v.x);
    lemma_mul_bound(t1.yy, v.y);
    lemma_mul_bound(t1.yz, v.z);
    lemma_mul_bound(t1.zx, v.x);
    lemma_mul_bound(t1.zy, v.y);
    lemma_mul_bound(t1.zz, v.z);
    crate::math::lemma_transform_linear_composition(
        tc,
        t2,
        t1,
        v.x as int,
        v.y as int,
        v.z as int,
    );
}

/// Transforming a surface by `t1` and then by `t2` is the same as
/// transforming it once by their composition: both axes compose exactly.
pub proof fn lemma_transform_surface_composition(
    tc: Transform,
    t2: Transform,
    t1: Transform,
    s: Surface,
)
    requires
        is_composition(tc, t2, t1),
        transform_in_range(t1),
        surface_in_range(s),
    ensures
        spec_transform_surface(t2, spec_transform_surface(t1, s)) == spec_transform_surface(
            tc,
            s,
        ),
{
    match s.spec_u() {
        GlobalPath::Line(l) => {
            lemma_transform_point_composition(tc, t2, t1, l.origin);
            lemma_transform_vector_composition(tc, t2, t1, l.direction);
        },
        GlobalPath::Circle(c) => {
            lemma_transform_point_composition(tc, t2, t1, c.center);
        },
    }
    lemma_transform_vector_composition(tc, t2, t1, s.spec_v());
}

/// Transforming a partial surface vertex by `t1` and then by `t2` agrees,
/// in every geometric field, with transforming it once by the composition:
/// the surface-local position, the surface's axes, and the global
/// position.  Only the identities of the re-inserted surface and global
/// vertex differ between the two routes, since each insertion draws a
/// fresh id.
pub proof fn lemma_transform_composition_surface_vertex(
    tc: Transform,
    t2: Transform,
    t1: Transform,
    psv: PartialSurfaceVertex,
    o1: Objects,
    o2: Objects,
    o3: Objects,
)
    requires
        is_composition(tc, t2, t1),
        transform_in_range(t1),
        psv.transform_req(t1),
    ensures
        ({
            let twice = psv.transform_spec(t1, o1).transform_spec(t2, o2);
            let once = psv.transform_spec(tc, o3);
            &&& twice.position == once.position
            &&& (twice.surface is Some <==> once.surface is Some)
            &&& (twice.surface matches Some(a) ==> (once.surface matches Some(b) ==> a.value()
                == b.value()))
            &&& (psv.global_form matches MaybePartial::Full(g) ==> (
            twice.global_form matches MaybePartial::Full(a) && once.global_form
                matches MaybePartial::Full(b) && a.value() == b.value()))
            &&& (psv.global_form matches MaybePartial::Partial(_) ==> twice.global_form
                == once.global_form)
        }),
{
    match psv.surface {
        None => {},
        Some(h) => {
            lemma_transform_surface_composition(tc, t2, t1, h.value());
        },
    }
    match psv.global_form {
        MaybePartial::Full(g) => {
            lemma_transform_point_composition(tc, t2, t1, g.value().position);
        },
        MaybePartial::Partial(pgv) => {
            match pgv.position {
                None => {},
                Some(p) => {
                    lemma_transform_point_composition(tc, t2, t1, p);
                },
            }
        },
    }
}

/// Transforming a partial vertex by `t1` and then by `t2` agrees, in every
/// geometric field, with transforming it once by the composition: the
/// curve-local position, the curve's path, the surface's axes and the
/// vertex's surface-local and global positions.  Only the identities of
/// re-inserted objects differ between the two routes.
pub proof fn lemma_transform_composition_vertex(
    tc: Transform,
    t2: Transform,
    t1: Transform,
    pv: PartialVertex,
    o1: Objects,
    o2: Objects,
    o3: Objects,
)
    requires
        is_composition(tc, t2, t1),
        transform_in_range(t1),
        pv.transform_req(t1),
    ensures
        ({
            let twice = pv.transform_spec(t1, o1).transform_spec(t2, o2);
            let once = pv.transform_spec(tc, o3);
            &&& twice.position == once.position
            &&& (pv.curve matches MaybePartial::Full(c) ==> (
            twice.curve matches MaybePartial::Full(a) && once.curve matches MaybePartial::Full(b)
                && a.value().path == b.value().path && a.value().surface.value()
                == b.value().surface.value() && a.value().global_form == b.value().global_form))
            &&& (pv.curve matches MaybePartial::Partial(pc) ==> (
            twice.curve matches MaybePartial::Partial(pa) && once.curve
                matches MaybePartial::Partial(pb) && pa.path == pb.path && (pa.surface is Some
                <==> pb.surface is Some) && (pa.surface matches Some(ha) ==> (
            pb.surface matches Some(hb) ==> ha.value() == hb.value())) && pa.global_form
                == pb.global_form))
            &&& (twice.surface_form matches MaybePartial::Partial(pa) && once.surface_form
                matches MaybePartial::Partial(pb) && pa.position == pb.position && (
            pa.surface is Some <==> pb.surface is Some) && (pa.surface matches Some(ha) ==> (
            pb.surface matches Some(hb) ==> ha.value() == hb.value())))
        }),
{
    match pv.curve {
        MaybePartial::Full(c) => {
            lemma_transform_surface_composition(tc, t2, t1, c.value().surface.value());
        },
        MaybePartial::Partial(pc) => {
            match pc.surface {
                None => {},
                Some(h) => {
                    lemma_transform_surface_composition(tc, t2, t1, h.value());
                },
            }
        },
    }
    let psv0 = pv.surface_form.into_partial_spec();
    lemma_transform_composition_surface_vertex(
        tc,
        t2,
        t1,
        psv0,
        spec_objects((o1.id_count() + pv.curve.transform_ids()) as u64),
        o2,
        spec_objects((o3.id_count() + pv.curve.transform_ids()) as u64),
    );
}

} // verus!
