//! Partial counterparts of the full object kinds, with their merge and build
//! semantics.
//!
//! Each partial type carries every field of its full counterpart as an
//! option (or as a [`MaybePartial`] where the field is itself an object).
//! Merging resolves each field by "first present value wins"; building
//! validates, infers what can be inferred from cross-references, and inserts
//! the finished objects into the store.

use vstd::prelude::*;
use crate::math::{
    in_coord_range, point2_in_range, surface_path_in_range, Point2, Point3, SurfacePath,
};
use crate::objects::{
    spec_surface_point_x, spec_surface_point_y, spec_surface_point_z, surface_in_range, Curve,
    GlobalCurve, GlobalVertex, Surface, SurfaceVertex,
};
use crate::partial::{HasPartial, MaybePartial, PartialObject, ValidationError};
use crate::storage::{spec_handle, Handle, Objects};

verus! {

/// The first option that holds a value, or `None` if neither does.
pub open spec fn spec_merge_options<T>(a: Option<T>, b: Option<T>) -> Option<T> {
    if a is Some {
        a
    } else {
        b
    }
}

/// Merge two optional values: the first present value wins, absence
/// propagates.
pub fn merge_options<T>(a: Option<T>, b: Option<T>) -> (r: Option<T>)
    ensures
        r == spec_merge_options(a, b),
{
    match a {
        Some(v) => Some(v),
        None => b,
    }
}

/// A partial global vertex.
#[derive(Clone, Copy, Debug)]
pub struct PartialGlobalVertex {
    /// The position of the vertex in model coordinates.
    pub position: Option<Point3>,
}

impl PartialGlobalVertex {
    /// The merge of two partial global vertices: first present position
    /// wins.
    pub open spec fn merged(self, other: Self) -> Self {
        PartialGlobalVertex { position: spec_merge_options(self.position, other.position) }
    }

    /// Access the position.
    pub fn position(&self) -> (r: Option<Point3>)
        ensures
            r == self.position,
    {
        self.position
    }

    /// Provide the position, if one is given; `None` leaves the value
    /// unchanged.
    pub fn with_position(self, position: Option<Point3>) -> (r: Self)
        ensures
            position matches Some(p) ==> r == (PartialGlobalVertex { position: Some(p) }),
            position is None ==> r == self,
    {
        match position {
            Some(p) => PartialGlobalVertex { position: Some(p) },
            None => self,
        }
    }
}

impl Default for PartialGlobalVertex {
    /// An empty partial global vertex.
    fn default() -> (r: Self)
        ensures
            r == (PartialGlobalVertex { position: None::<Point3> }),
    {
        PartialGlobalVertex { position: None }
    }
}

impl PartialObject for PartialGlobalVertex {
    type Full = GlobalVertex;

    open spec fn merge_spec(self, other: Self) -> Self {
        self.merged(other)
    }

    fn merge_with(self, other: Self) -> (r: Self) {
        PartialGlobalVertex { position: merge_options(self.position, other.position) }
    }

    open spec fn build_req(self) -> bool {
        true
    }

    open spec fn build_ids(self) -> nat {
        0
    }

    open spec fn build_ok(self) -> bool {
        self.position is Some
    }

    open spec fn build_err(self) -> ValidationError {
        ValidationError::MissingPosition
    }

    open spec fn built_value(self, o: Objects) -> GlobalVertex {
        GlobalVertex { position: self.position.unwrap() }
    }

    fn build(self, objects: &mut Objects) -> (r: Result<GlobalVertex, ValidationError>) {
        match self.position {
            Some(position) => Ok(GlobalVertex { position }),
            None => Err(ValidationError::MissingPosition),
        }
    }
}

impl HasPartial for GlobalVertex {
    type Partial = PartialGlobalVertex;

    open spec fn to_partial_spec(self) -> PartialGlobalVertex {
        PartialGlobalVertex { position: Some(self.position) }
    }

    fn to_partial(&self) -> (r: PartialGlobalVertex) {
        PartialGlobalVertex { position: Some(self.position) }
    }
}

/// Merge two maybe-partial global vertices: a full object wins over a
/// partial one, two full objects keep the first, two partial objects merge
/// field by field.
pub open spec fn spec_merge_maybe_global_vertex(
    a: MaybePartial<GlobalVertex>,
    b: MaybePartial<GlobalVertex>,
) -> MaybePartial<GlobalVertex> {
    match (a, b) {
        (MaybePartial::Full(x), _) => MaybePartial::Full(x),
        (MaybePartial::Partial(_), MaybePartial::Full(y)) => MaybePartial::Full(y),
        (MaybePartial::Partial(x), MaybePartial::Partial(y)) => MaybePartial::Partial(
            x.merged(y),
        ),
    }
}

fn merge_maybe_global_vertex(
    a: MaybePartial<GlobalVertex>,
    b: MaybePartial<GlobalVertex>,
) -> (r: MaybePartial<GlobalVertex>)
    ensures
        r == spec_merge_maybe_global_vertex(a, b),
{
    match (a, b) {
        (MaybePartial::Full(x), _) => MaybePartial::Full(x),
        (MaybePartial::Partial(_), MaybePartial::Full(y)) => MaybePartial::Full(y),
        (MaybePartial::Partial(x), MaybePartial::Partial(y)) => MaybePartial::Partial(
            x.merge_with(y),
        ),
    }
}

/// A partial global curve.  A global curve has no data of its own, so its
/// partial counterpart is already complete.
#[derive(Clone, Copy, Debug)]
pub struct PartialGlobalCurve {}

impl PartialGlobalCurve {
    /// The merge of two partial global curves.
    pub open spec fn merged(self, other: Self) -> Self {
        PartialGlobalCurve {  }
    }
}

impl Default for PartialGlobalCurve {
    /// An empty partial global curve.
    fn default() -> (r: Self)
        ensures
            r == (PartialGlobalCurve {  }),
    {
        PartialGlobalCurve {  }
    }
}

impl PartialObject for PartialGlobalCurve {
    type Full = GlobalCurve;

    open spec fn merge_spec(self, other: Self) -> Self {
        self.merged(other)
    }

    fn merge_with(self, other: Self) -> (r: Self) {
        PartialGlobalCurve {  }
    }

    open spec fn build_req(self) -> bool {
        true
    }

    open spec fn build_ids(self) -> nat {
        0
    }

    open spec fn build_ok(self) -> bool {
        true
    }

    /// A partial global curve always builds; no error is ever produced.
    open spec fn build_err(self) -> ValidationError {
        ValidationError::Mismatch
    }

    open spec fn built_value(self, o: Objects) -> GlobalCurve {
        GlobalCurve {  }
    }

    fn build(self, objects: &mut Objects) -> (r: Result<GlobalCurve, ValidationError>) {
        Ok(GlobalCurve {  })
    }
}

impl HasPartial for GlobalCurve {
    type Partial = PartialGlobalCurve;

    open spec fn to_partial_spec(self) -> PartialGlobalCurve {
        PartialGlobalCurve {  }
    }

    fn to_partial(&self) -> (r: PartialGlobalCurve) {
        PartialGlobalCurve {  }
    }
}

/// Merge two maybe-partial global curves.
pub open spec fn spec_merge_maybe_global_curve(
    a: MaybePartial<GlobalCurve>,
    b: MaybePartial<GlobalCurve>,
) -> MaybePartial<GlobalCurve> {
    match (a, b) {
        (MaybePartial::Full(x), _) => MaybePartial::Full(x),
        (MaybePartial::Partial(_), MaybePartial::Full(y)) => MaybePartial::Full(y),
        (MaybePartial::Partial(x), MaybePartial::Partial(y)) => MaybePartial::Partial(
            x.merged(y),
        ),
    }
}

fn merge_maybe_global_curve(
    a: MaybePartial<GlobalCurve>,
    b: MaybePartial<GlobalCurve>,
) -> (r: MaybePartial<GlobalCurve>)
    ensures
        r == spec_merge_maybe_global_curve(a, b),
{
    match (a, b) {
        (MaybePartial::Full(x), _) => MaybePartial::Full(x),
        (MaybePartial::Partial(_), MaybePartial::Full(y)) => MaybePartial::Full(y),
        (MaybePartial::Partial(x), MaybePartial::Partial(y)) => MaybePartial::Partial(
            x.merge_with(y),
        ),
    }
}

/// A partial curve.
#[derive(Clone, Copy, Debug)]
pub struct PartialCurve {
    /// The path the curve follows, in surface coordinates.
    pub path: Option<SurfacePath>,
    /// The surface the curve is defined in.
    pub surface: Option<Handle<Surface>>,
    /// The global form of the curve.
    pub global_form: MaybePartial<GlobalCurve>,
}

impl PartialCurve {
    /// The merge of two partial curves, field by field.
    pub open spec fn merged(self, other: Self) -> Self {
        PartialCurve {
            path: spec_merge_options(self.path, other.path),
            surface: spec_merge_options(self.surface, other.surface),
            global_form: spec_merge_maybe_global_curve(self.global_form, other.global_form),
        }
    }

    /// Access the path.
    pub fn path(&self) -> (r: Option<SurfacePath>)
        ensures
            r == self.path,
    {
        self.path
    }

    /// Access the surface.
    pub fn surface(&self) -> (r: Option<Handle<Surface>>)
        ensures
            r == self.surface,
    {
        self.surface
    }

    /// Access the global form.
    pub fn global_form(&self) -> (r: Option<MaybePartial<GlobalCurve>>)
        ensures
            r == Some(self.global_form),
    {
        Some(self.global_form)
    }

    /// Provide the path, if one is given.
    pub fn with_path(self, path: Option<SurfacePath>) -> (r: Self)
        ensures
            path matches Some(p) ==> r == (PartialCurve { path: Some(p), ..self }),
            path is None ==> r == self,
    {
        match path {
            Some(p) => PartialCurve { path: Some(p), ..self },
            None => self,
        }
    }

    /// Provide the surface, if one is given.
    pub fn with_surface(self, surface: Option<Handle<Surface>>) -> (r: Self)
        ensures
            surface matches Some(s) ==> r == (PartialCurve { surface: Some(s), ..self }),
            surface is None ==> r == self,
    {
        match surface {
            Some(s) => PartialCurve { surface: Some(s), ..self },
            None => self,
        }
    }

    /// Provide the global form, if one is given.
    pub fn with_global_form(self, global_form: Option<MaybePartial<GlobalCurve>>) -> (r: Self)
        ensures
            global_form matches Some(g) ==> r == (PartialCurve { global_form: g, ..self }),
            global_form is None ==> r == self,
    {
        match global_form {
            Some(g) => PartialCurve { global_form: g, ..self },
            None => self,
        }
    }
}

impl Default for PartialCurve {
    /// An empty partial curve.
    fn default() -> (r: Self)
        ensures
            r == (PartialCurve {
                path: None::<SurfacePath>,
                surface: None::<Handle<Surface>>,
                global_form: MaybePartial::Partial(PartialGlobalCurve {  }),
            }),
    {
        PartialCurve {
            path: None,
            surface: None,
            global_form: MaybePartial::Partial(PartialGlobalCurve {  }),
        }
    }
}

impl PartialObject for PartialCurve {
    type Full = Curve;

    open spec fn merge_spec(self, other: Self) -> Self {
        self.merged(other)
    }

    fn merge_with(self, other: Self) -> (r: Self) {
        PartialCurve {
            path: merge_options(self.path, other.path),
            surface: merge_options(self.surface, other.surface),
            global_form: merge_maybe_global_curve(self.global_form, other.global_form),
        }
    }

    open spec fn build_req(self) -> bool {
        true
    }

    open spec fn build_ids(self) -> nat {
        if self.global_form is Full {
            0
        } else {
            1
        }
    }

    open spec fn build_ok(self) -> bool {
        self.path is Some && self.surface is Some
    }

    open spec fn build_err(self) -> ValidationError {
        if self.path is None {
            ValidationError::MissingPath
        } else {
            ValidationError::MissingSurface
        }
    }

    open spec fn built_value(self, o: Objects) -> Curve {
        Curve {
            path: self.path.unwrap(),
            surface: self.surface.unwrap(),
            global_form: match self.global_form {
                MaybePartial::Full(g) => g,
                MaybePartial::Partial(_) => spec_handle(o.id_count(), GlobalCurve {  }),
            },
        }
    }

    fn build(self, objects: &mut Objects) -> (r: Result<Curve, ValidationError>) {
        let path = match self.path {
            Some(p) => p,
            None => {
                return Err(ValidationError::MissingPath);
            },
        };
        let surface = match self.surface {
            Some(s) => s,
            None => {
                return Err(ValidationError::MissingSurface);
            },
        };
        let global_form = match self.global_form {
            MaybePartial::Full(g) => g,
            MaybePartial::Partial(_) => objects.insert(GlobalCurve {  }),
        };
        Ok(Curve { path, surface, global_form })
    }
}

impl HasPartial for Curve {
    type Partial = PartialCurve;

    open spec fn to_partial_spec(self) -> PartialCurve {
        PartialCurve {
            path: Some(self.path),
            surface: Some(self.surface),
            global_form: MaybePartial::Full(self.global_form),
        }
    }

    fn to_partial(&self) -> (r: PartialCurve) {
        PartialCurve {
            path: Some(self.path),
            surface: Some(self.surface),
            global_form: MaybePartial::Full(self.global_form),
        }
    }
}

/// A partial surface vertex.
#[derive(Clone, Copy, Debug)]
pub struct PartialSurfaceVertex {
    /// The position of the vertex in surface coordinates.
    pub position: Option<Point2>,
    /// The surface the vertex is defined in.
    pub surface: Option<Handle<Surface>>,
    /// The global form of the vertex.
    pub global_form: MaybePartial<GlobalVertex>,
}

impl PartialSurfaceVertex {
    /// The merge of two partial surface vertices, field by field.
    pub open spec fn merged(self, other: Self) -> Self {
        PartialSurfaceVertex {
            position: spec_merge_options(self.position, other.position),
            surface: spec_merge_options(self.surface, other.surface),
            global_form: spec_merge_maybe_global_vertex(self.global_form, other.global_form),
        }
    }

    /// The global position this vertex must have, inferred by mapping the
    /// surface position through the surface.  `None` when the position or
    /// surface is still unknown, or when the surface sweeps along a circle,
    /// whose exact evaluation is outside this library.
    pub open spec fn expected_global(self) -> Option<Point3> {
        match (self.position, self.surface) {
            (Some(p), Some(s)) => if s.value().spec_u() is Line {
                Some(
                    Point3 {
                        x: spec_surface_point_x(s.value(), p.u as int, p.v as int) as i64,
                        y: spec_surface_point_y(s.value(), p.u as int, p.v as int) as i64,
                        z: spec_surface_point_z(s.value(), p.u as int, p.v as int) as i64,
                    },
                )
            } else {
                None
            },
            _ => None,
        }
    }

    /// Access the position.
    pub fn position(&self) -> (r: Option<Point2>)
        ensures
            r == self.position,
    {
        self.position
    }

    /// Access the surface.
    pub fn surface(&self) -> (r: Option<Handle<Surface>>)
        ensures
            r == self.surface,
    {
        self.surface
    }

    /// Access the global form.
    pub fn global_form(&self) -> (r: MaybePartial<GlobalVertex>)
        ensures
            r == self.global_form,
    {
        self.global_form
    }

    /// Provide the position, if one is given.
    pub fn with_position(self, position: Option<Point2>) -> (r: Self)
        ensures
            position matches Some(p) ==> r == (PartialSurfaceVertex { position: Some(p), ..self }),
            position is None ==> r == self,
    {
        match position {
            Some(p) => PartialSurfaceVertex { position: Some(p), ..self },
            None => self,
        }
    }

    /// Provide the surface, if one is given.
    pub fn with_surface(self, surface: Option<Handle<Surface>>) -> (r: Self)
        ensures
            surface matches Some(s) ==> r == (PartialSurfaceVertex { surface: Some(s), ..self }),
            surface is None ==> r == self,
    {
        match surface {
            Some(s) => PartialSurfaceVertex { surface: Some(s), ..self },
            None => self,
        }
    }

    /// Provide the global form, if one is given.
    pub fn with_global_form(self, global_form: Option<MaybePartial<GlobalVertex>>) -> (r: Self)
        ensures
            global_form matches Some(g) ==> r == (PartialSurfaceVertex {
                global_form: g,
                ..self
            }),
            global_form is None ==> r == self,
    {
        match global_form {
            Some(g) => PartialSurfaceVertex { global_form: g, ..self },
            None => self,
        }
    }
}

impl Default for PartialSurfaceVertex {
    /// An empty partial surface vertex.
    fn default() -> (r: Self)
        ensures
            r == (PartialSurfaceVertex {
                position: None::<Point2>,
                surface: None::<Handle<Surface>>,
                global_form: MaybePartial::Partial(PartialGlobalVertex { position: None }),
            }),
    {
        PartialSurfaceVertex {
            position: None,
            surface: None,
            global_form: MaybePartial::Partial(PartialGlobalVertex { position: None }),
        }
    }
}

impl PartialObject for PartialSurfaceVertex {
    type Full = SurfaceVertex;

    open spec fn merge_spec(self, other: Self) -> Self {
        self.merged(other)
    }

    fn merge_with(self, other: Self) -> (r: Self) {
        PartialSurfaceVertex {
            position: merge_options(self.position, other.position),
            surface: merge_options(self.surface, other.surface),
            global_form: merge_maybe_global_vertex(self.global_form, other.global_form),
        }
    }

    open spec fn build_req(self) -> bool {
        &&& (self.position matches Some(p) ==> point2_in_range(p))
        &&& (self.surface matches Some(s) ==> surface_in_range(s.value()))
    }

    open spec fn build_ids(self) -> nat {
        if self.global_form is Full {
            0
        } else {
            1
        }
    }

    open spec fn build_ok(self) -> bool {
        &&& self.position is Some
        &&& self.surface is Some
        &&& match self.global_form {
            MaybePartial::Full(g) => (self.expected_global() matches Some(e) ==> g.value().position
                == e),
            MaybePartial::Partial(pgv) => match (pgv.position, self.expected_global()) {
                (Some(gp), Some(e)) => gp == e,
                (None, None) => false,
                _ => true,
            },
        }
    }

    open spec fn build_err(self) -> ValidationError {
        if self.position is None {
            ValidationError::MissingPosition
        } else if self.surface is None {
            ValidationError::MissingSurface
        } else {
            match self.global_form {
                MaybePartial::Full(_) => ValidationError::Mismatch,
                MaybePartial::Partial(pgv) => if pgv.position is Some {
                    ValidationError::Mismatch
                } else {
                    ValidationError::NonLinearPath
                },
            }
        }
    }

    open spec fn built_value(self, o: Objects) -> SurfaceVertex {
        SurfaceVertex {
            position: self.position.unwrap(),
            surface: self.surface.unwrap(),
            global_form: match self.global_form {
                MaybePartial::Full(g) => g,
                MaybePartial::Partial(pgv) => spec_handle(
                    o.id_count(),
                    GlobalVertex {
                        position: spec_merge_options(
                            pgv.position,
                            self.expected_global(),
                        ).unwrap(),
                    },
                ),
            },
        }
    }

    fn build(self, objects: &mut Objects) -> (r: Result<SurfaceVertex, ValidationError>) {
        let position = match self.position {
            Some(p) => p,
            None => {
                return Err(ValidationError::MissingPosition);
            },
        };
        let surface = match self.surface {
            Some(s) => s,
            None => {
                return Err(ValidationError::MissingSurface);
            },
        };
        let expected: Option<Point3> = match surface.get().u() {
            crate::math::GlobalPath::Line(_) => Some(
                surface.get().point_from_surface_coords(position),
            ),
            crate::math::GlobalPath::Circle(_) => None,
        };
        let global_form = match self.global_form {
            MaybePartial::Full(g) => {
                match expected {
                    Some(e) => {
                        if !(g.get().position == e) {
                            return Err(ValidationError::Mismatch);
                        }
                    },
                    None => {},
                }
                g
            },
            MaybePartial::Partial(pgv) => {
                let global_position = match (pgv.position, expected) {
                    (Some(gp), Some(e)) => {
                        if !(gp == e) {
                            return Err(ValidationError::Mismatch);
                        }
                        gp
                    },
                    (Some(gp), None) => gp,
                    (None, Some(e)) => e,
                    (None, None) => {
                        return Err(ValidationError::NonLinearPath);
                    },
                };
                objects.insert(GlobalVertex { position: global_position })
            },
        };
        Ok(SurfaceVertex { position, surface, global_form })
    }
}

impl HasPartial for SurfaceVertex {
    type Partial = PartialSurfaceVertex;

    open spec fn to_partial_spec(self) -> PartialSurfaceVertex {
        PartialSurfaceVertex {
            position: Some(self.position),
            surface: Some(self.surface),
            global_form: MaybePartial::Full(self.global_form),
        }
    }

    fn to_partial(&self) -> (r: PartialSurfaceVertex) {
        PartialSurfaceVertex {
            position: Some(self.position),
            surface: Some(self.surface),
            global_form: MaybePartial::Full(self.global_form),
        }
    }
}

} // verus!

use crate::math::{spec_line2_at, Line2, Vector2};
use crate::objects::Vertex;
use crate::storage::spec_objects;

verus! {

/// Merge two maybe-partial surface vertices.
pub open spec fn spec_merge_maybe_surface_vertex(
    a: MaybePartial<SurfaceVertex>,
    b: MaybePartial<SurfaceVertex>,
) -> MaybePartial<SurfaceVertex> {
    match (a, b) {
        (MaybePartial::Full(x), _) => MaybePartial::Full(x),
        (MaybePartial::Partial(_), MaybePartial::Full(y)) => MaybePartial::Full(y),
        (MaybePartial::Partial(x), MaybePartial::Partial(y)) => MaybePartial::Partial(
            x.merged(y),
        ),
    }
}

fn merge_maybe_surface_vertex(
    a: MaybePartial<SurfaceVertex>,
    b: MaybePartial<SurfaceVertex>,
) -> (r: MaybePartial<SurfaceVertex>)
    ensures
        r == spec_merge_maybe_surface_vertex(a, b),
{
    match (a, b) {
        (MaybePartial::Full(x), _) => MaybePartial::Full(x),
        (MaybePartial::Partial(_), MaybePartial::Full(y)) => MaybePartial::Full(y),
        (MaybePartial::Partial(x), MaybePartial::Partial(y)) => MaybePartial::Partial(
            x.merge_with(y),
        ),
    }
}

/// Merge two maybe-partial curves.
pub open spec fn spec_merge_maybe_curve(
    a: MaybePartial<Curve>,
    b: MaybePartial<Curve>,
) -> MaybePartial<Curve> {
    match (a, b) {
        (MaybePartial::Full(x), _) => MaybePartial::Full(x),
        (MaybePartial::Partial(_), MaybePartial::Full(y)) => MaybePartial::Full(y),
        (MaybePartial::Partial(x), MaybePartial::Partial(y)) => MaybePartial::Partial(
            x.merged(y),
        ),
    }
}

fn merge_maybe_curve(a: MaybePartial<Curve>, b: MaybePartial<Curve>) -> (r: MaybePartial<Curve>)
    ensures
        r == spec_merge_maybe_curve(a, b),
{
    match (a, b) {
        (MaybePartial::Full(x), _) => MaybePartial::Full(x),
        (MaybePartial::Partial(_), MaybePartial::Full(y)) => MaybePartial::Full(y),
        (MaybePartial::Partial(x), MaybePartial::Partial(y)) => MaybePartial::Partial(
            x.merge_with(y),
        ),
    }
}

/// The path of a maybe-partial curve, as far as it is known.
pub open spec fn resolved_path(c: MaybePartial<Curve>) -> Option<SurfacePath> {
    match c {
        MaybePartial::Full(h) => Some(h.value().path),
        MaybePartial::Partial(pc) => pc.path,
    }
}

/// The surface of a maybe-partial curve, as far as it is known.
pub open spec fn resolved_surface(c: MaybePartial<Curve>) -> Option<Handle<Surface>> {
    match c {
        MaybePartial::Full(h) => Some(h.value().surface),
        MaybePartial::Partial(pc) => pc.surface,
    }
}

/// Whether a maybe-partial curve can be resolved to a full curve.
pub open spec fn curve_ok(c: MaybePartial<Curve>) -> bool {
    match c {
        MaybePartial::Full(_) => true,
        MaybePartial::Partial(pc) => pc.build_ok(),
    }
}

/// How many identities resolving a maybe-partial curve consumes.
pub open spec fn curve_ids(c: MaybePartial<Curve>) -> nat {
    match c {
        MaybePartial::Full(_) => 0,
        MaybePartial::Partial(pc) => pc.build_ids() + 1,
    }
}

/// The handle that resolving a maybe-partial curve yields.
pub open spec fn curve_handle(c: MaybePartial<Curve>, o: Objects) -> Handle<Curve> {
    match c {
        MaybePartial::Full(h) => h,
        MaybePartial::Partial(pc) => spec_handle(
            (o.id_count() + pc.build_ids()) as u64,
            pc.built_value(o),
        ),
    }
}

/// The error that resolving a maybe-partial curve reports when it cannot be
/// resolved.
pub open spec fn curve_err(c: MaybePartial<Curve>) -> ValidationError {
    match c {
        MaybePartial::Full(_) => ValidationError::Mismatch,
        MaybePartial::Partial(pc) => pc.build_err(),
    }
}

/// The path of a maybe-partial curve, as far as it is known.
pub(crate) fn curve_path_of(c: &MaybePartial<Curve>) -> (r: Option<SurfacePath>)
    ensures
        r == resolved_path(*c),
{
    match c {
        MaybePartial::Full(h) => Some(h.get().path()),
        MaybePartial::Partial(pc) => pc.path,
    }
}

/// The surface of a maybe-partial curve, as far as it is known.
fn curve_surface_of(c: &MaybePartial<Curve>) -> (r: Option<Handle<Surface>>)
    ensures
        r == resolved_surface(*c),
{
    match c {
        MaybePartial::Full(h) => Some(*h.get().surface()),
        MaybePartial::Partial(pc) => pc.surface,
    }
}

/// Check that a maybe-partial curve can be resolved, without touching the
/// store.
pub(crate) fn check_curve(c: &MaybePartial<Curve>) -> (r: Result<(), ValidationError>)
    ensures
        r is Ok <==> curve_ok(*c),
        r matches Err(e) ==> e == curve_err(*c),
{
    match c {
        MaybePartial::Full(_) => Ok(()),
        MaybePartial::Partial(pc) => {
            if pc.path.is_none() {
                Err(ValidationError::MissingPath)
            } else if pc.surface.is_none() {
                Err(ValidationError::MissingSurface)
            } else {
                Ok(())
            }
        },
    }
}

/// The surface position reached by walking `t` along the path, exact for
/// line paths; `None` for circles, whose evaluation is outside this library.
pub(crate) fn position_on_path(path: &SurfacePath, t: i64) -> (r: Option<Point2>)
    requires
        surface_path_in_range(*path),
        in_coord_range(t),
    ensures
        path matches SurfacePath::Line(l) ==> r == Some(spec_line2_at(*l, t as int)),
        path is Circle ==> r is None,
{
    match path {
        SurfacePath::Line(l) => {
            proof {
                crate::math::lemma_mul_bound(l.direction.u, t);
                crate::math::lemma_mul_bound(l.direction.v, t);
            }
            Some(Point2 { u: l.origin.u + l.direction.u * t, v: l.origin.v + l.direction.v * t })
        },
        SurfacePath::Circle(_) => None,
    }
}

/// A partial vertex.
#[derive(Clone, Copy, Debug)]
pub struct PartialVertex {
    /// The position of the vertex on the curve, in curve coordinates.
    pub position: Option<i64>,
    /// The curve the vertex is defined on.
    pub curve: MaybePartial<Curve>,
    /// The surface form of the vertex.
    pub surface_form: MaybePartial<SurfaceVertex>,
}

impl PartialVertex {
    /// The merge of two partial vertices, field by field.
    pub open spec fn merged(self, other: Self) -> Self {
        PartialVertex {
            position: spec_merge_options(self.position, other.position),
            curve: spec_merge_maybe_curve(self.curve, other.curve),
            surface_form: spec_merge_maybe_surface_vertex(self.surface_form, other.surface_form),
        }
    }

    /// The surface position this vertex must have, inferred by walking its
    /// curve position along the curve's path.  `None` when position or path
    /// is unknown, or the path is a circle.
    pub open spec fn expected_surface_pos(self) -> Option<Point2> {
        match (self.position, resolved_path(self.curve)) {
            (Some(t), Some(SurfacePath::Line(l))) => Some(spec_line2_at(l, t as int)),
            _ => None,
        }
    }

    /// The partial surface form with the missing fields inferred from the
    /// curve: the position from the curve's path, the surface from the
    /// curve's surface.
    pub open spec fn filled_surface_form(self, psv: PartialSurfaceVertex) -> PartialSurfaceVertex {
        PartialSurfaceVertex {
            position: spec_merge_options(psv.position, self.expected_surface_pos()),
            surface: spec_merge_options(psv.surface, resolved_surface(self.curve)),
            global_form: psv.global_form,
        }
    }

    /// Access the position.
    pub fn position(&self) -> (r: Option<i64>)
        ensures
            r == self.position,
    {
        self.position
    }

    /// Access the curve.
    pub fn curve(&self) -> (r: MaybePartial<Curve>)
        ensures
            r == self.curve,
    {
        self.curve
    }

    /// Access the surface form.
    pub fn surface_form(&self) -> (r: MaybePartial<SurfaceVertex>)
        ensures
            r == self.surface_form,
    {
        self.surface_form
    }

    /// Provide the position, if one is given.
    pub fn with_position(self, position: Option<i64>) -> (r: Self)
        ensures
            position matches Some(p) ==> r == (PartialVertex { position: Some(p), ..self }),
            position is None ==> r == self,
    {
        match position {
            Some(p) => PartialVertex { position: Some(p), ..self },
            None => self,
        }
    }

    /// Provide the curve, if one is given.
    pub fn with_curve(self, curve: Option<MaybePartial<Curve>>) -> (r: Self)
        ensures
            curve matches Some(c) ==> r == (PartialVertex { curve: c, ..self }),
            curve is None ==> r == self,
    {
        match curve {
            Some(c) => PartialVertex { curve: c, ..self },
            None => self,
        }
    }

    /// Provide the surface form, if one is given.
    pub fn with_surface_form(self, surface_form: Option<MaybePartial<SurfaceVertex>>) -> (r: Self)
        ensures
            surface_form matches Some(s) ==> r == (PartialVertex { surface_form: s, ..self }),
            surface_form is None ==> r == self,
    {
        match surface_form {
            Some(s) => PartialVertex { surface_form: s, ..self },
            None => self,
        }
    }
}

impl Default for PartialVertex {
    /// An empty partial vertex.
    fn default() -> (r: Self)
        ensures
            r == (PartialVertex {
                position: None::<i64>,
                curve: MaybePartial::Partial(
                    PartialCurve {
                        path: None,
                        surface: None,
                        global_form: MaybePartial::Partial(PartialGlobalCurve {  }),
                    },
                ),
                surface_form: MaybePartial::Partial(
                    PartialSurfaceVertex {
                        position: None,
                        surface: None,
                        global_form: MaybePartial::Partial(PartialGlobalVertex { position: None }),
                    },
                ),
            }),
    {
        PartialVertex {
            position: None,
            curve: MaybePartial::Partial(
                PartialCurve {
                    path: None,
                    surface: None,
                    global_form: MaybePartial::Partial(PartialGlobalCurve {  }),
                },
            ),
            surface_form: MaybePartial::Partial(
                PartialSurfaceVertex {
                    position: None,
                    surface: None,
                    global_form: MaybePartial::Partial(PartialGlobalVertex { position: None }),
                },
            ),
        }
    }
}

} // verus!

verus! {

impl PartialVertex {
    /// Validation half of the build: whether this partial vertex can build,
    /// without touching the store.
    pub(crate) fn check(&self) -> (r: Result<(), ValidationError>)
        requires
            self.build_req(),
        ensures
            r is Ok <==> self.build_ok(),
            r matches Err(e) ==> e == self.build_err(),
    {
        if self.position.is_none() {
            return Err(ValidationError::MissingPosition);
        }
        let position = match self.position {
            Some(t) => t,
            None => {
                proof {
                    assert(false);
                }
                return Err(ValidationError::MissingPosition);
            },
        };
        match check_curve(&self.curve) {
            Ok(_) => {},
            Err(e) => {
                return Err(e);
            },
        }
        let expected: Option<Point2> = match curve_path_of(&self.curve) {
            Some(path) => position_on_path(&path, position),
            None => None,
        };
        match &self.surface_form {
            MaybePartial::Full(sv) => {
                match expected {
                    Some(e) => {
                        if !(sv.get().position == e) {
                            return Err(ValidationError::Mismatch);
                        }
                    },
                    None => {},
                }
                Ok(())
            },
            MaybePartial::Partial(psv) => {
                match (psv.position, expected) {
                    (Some(p0), Some(e)) => {
                        if !(p0 == e) {
                            return Err(ValidationError::Mismatch);
                        }
                    },
                    _ => {},
                }
                let filled = PartialSurfaceVertex {
                    position: merge_options(psv.position, expected),
                    surface: merge_options(psv.surface, curve_surface_of(&self.curve)),
                    global_form: psv.global_form,
                };
                filled.check()
            },
        }
    }
}

impl PartialSurfaceVertex {
    /// Validation half of the build: whether this partial surface vertex can
    /// build, without touching the store.
    pub(crate) fn check(&self) -> (r: Result<(), ValidationError>)
        requires
            self.build_req(),
        ensures
            r is Ok <==> self.build_ok(),
            r matches Err(e) ==> e == self.build_err(),
    {
        let position = match self.position {
            Some(p) => p,
            None => {
                return Err(ValidationError::MissingPosition);
            },
        };
        let surface = match self.surface {
            Some(s) => s,
            None => {
                return Err(ValidationError::MissingSurface);
            },
        };
        let expected: Option<Point3> = match surface.get().u() {
            crate::math::GlobalPath::Line(_) => Some(
                surface.get().point_from_surface_coords(position),
            ),
            crate::math::GlobalPath::Circle(_) => None,
        };
        match &self.global_form {
            MaybePartial::Full(g) => {
                match expected {
                    Some(e) => {
                        if !(g.get().position == e) {
                            return Err(ValidationError::Mismatch);
                        }
                    },
                    None => {},
                }
                Ok(())
            },
            MaybePartial::Partial(pgv) => {
                match (pgv.position, expected) {
                    (Some(gp), Some(e)) => {
                        if !(gp == e) {
                            return Err(ValidationError::Mismatch);
                        }
                        Ok(())
                    },
                    (Some(_), None) => Ok(()),
                    (None, Some(_)) => Ok(()),
                    (None, None) => Err(ValidationError::NonLinearPath),
                }
            },
        }
    }
}

impl PartialObject for PartialVertex {
    type Full = Vertex;

    open spec fn merge_spec(self, other: Self) -> Self {
        self.merged(other)
    }

    fn merge_with(self, other: Self) -> (r: Self) {
        PartialVertex {
            position: merge_options(self.position, other.position),
            curve: merge_maybe_curve(self.curve, other.curve),
            surface_form: merge_maybe_surface_vertex(self.surface_form, other.surface_form),
        }
    }

    open spec fn build_req(self) -> bool {
        &&& (self.position matches Some(t) ==> in_coord_range(t))
        &&& (resolved_path(self.curve) matches Some(p) ==> surface_path_in_range(p))
        &&& (resolved_surface(self.curve) matches Some(s) ==> surface_in_range(s.value()))
        &&& (self.expected_surface_pos() matches Some(e) ==> point2_in_range(e))
        &&& (self.surface_form matches MaybePartial::Partial(psv) ==> psv.build_req())
    }

    open spec fn build_ids(self) -> nat {
        curve_ids(self.curve) + match self.surface_form {
            MaybePartial::Full(_) => 0,
            MaybePartial::Partial(psv) => self.filled_surface_form(psv).build_ids() + 1,
        }
    }

    open spec fn build_ok(self) -> bool {
        &&& self.position is Some
        &&& curve_ok(self.curve)
        &&& match self.surface_form {
            MaybePartial::Full(sv) => (self.expected_surface_pos() matches Some(e)
                ==> sv.value().position == e),
            MaybePartial::Partial(psv) => {
                &&& (match (psv.position, self.expected_surface_pos()) {
                    (Some(p0), Some(e)) => p0 == e,
                    _ => true,
                })
                &&& self.filled_surface_form(psv).build_ok()
            },
        }
    }

    open spec fn build_err(self) -> ValidationError {
        if self.position is None {
            ValidationError::MissingPosition
        } else if !curve_ok(self.curve) {
            curve_err(self.curve)
        } else {
            match self.surface_form {
                MaybePartial::Full(_) => ValidationError::Mismatch,
                MaybePartial::Partial(psv) => {
                    if (match (psv.position, self.expected_surface_pos()) {
                        (Some(p0), Some(e)) => p0 != e,
                        _ => false,
                    }) {
                        ValidationError::Mismatch
                    } else {
                        self.filled_surface_form(psv).build_err()
                    }
                },
            }
        }
    }

    open spec fn built_value(self, o: Objects) -> Vertex {
        Vertex {
            position: self.position.unwrap(),
            curve: curve_handle(self.curve, o),
            surface_form: match self.surface_form {
                MaybePartial::Full(sv) => sv,
                MaybePartial::Partial(psv) => spec_handle(
                    (o.id_count() + curve_ids(self.curve) + self.filled_surface_form(
                        psv,
                    ).build_ids()) as u64,
                    self.filled_surface_form(psv).built_value(
                        spec_objects((o.id_count() + curve_ids(self.curve)) as u64),
                    ),
                ),
            },
        }
    }

    fn build(self, objects: &mut Objects) -> (r: Result<Vertex, ValidationError>) {
        match self.check() {
            Ok(_) => {},
            Err(e) => {
                return Err(e);
            },
        }
        let position = match self.position {
            Some(t) => t,
            None => {
                proof {
                    assert(false);
                }
                return Err(ValidationError::MissingPosition);
            },
        };
        let expected: Option<Point2> = match curve_path_of(&self.curve) {
            Some(path) => position_on_path(&path, position),
            None => None,
        };
        let surface = curve_surface_of(&self.curve);
        let curve = match self.curve.into_full(objects) {
            Ok(h) => h,
            Err(e) => {
                proof {
                    assert(false);
                }
                return Err(e);
            },
        };
        proof {
            crate::storage::lemma_objects_parts(*objects);
            assert(*objects == spec_objects(
                (old(objects).id_count() + curve_ids(self.curve)) as u64,
            ));
        }
        let surface_form = match self.surface_form {
            MaybePartial::Full(sv) => sv,
            MaybePartial::Partial(psv) => {
                let filled = PartialSurfaceVertex {
                    position: merge_options(psv.position, expected),
                    surface: merge_options(psv.surface, surface),
                    global_form: psv.global_form,
                };
                proof {
                    assert(filled == self.filled_surface_form(psv));
                }
                let sv = match filled.build(objects) {
                    Ok(v) => v,
                    Err(e) => {
                        proof {
                            assert(false);
                        }
                        return Err(e);
                    },
                };
                objects.insert(sv)
            },
        };
        Ok(Vertex { position, curve, surface_form })
    }
}

impl HasPartial for Vertex {
    type Partial = PartialVertex;

    open spec fn to_partial_spec(self) -> PartialVertex {
        PartialVertex {
            position: Some(self.position),
            curve: MaybePartial::Full(self.curve),
            surface_form: MaybePartial::Full(self.surface_form),
        }
    }

    fn to_partial(&self) -> (r: PartialVertex) {
        PartialVertex {
            position: Some(self.position),
            curve: MaybePartial::Full(self.curve),
            surface_form: MaybePartial::Full(self.surface_form),
        }
    }
}

} // verus!

use crate::objects::{GlobalEdge, HalfEdge};

verus! {

/// Whether a maybe-partial global vertex can be resolved to a full one.
pub open spec fn gv_ok(v: MaybePartial<GlobalVertex>) -> bool {
    match v {
        MaybePartial::Full(_) => true,
        MaybePartial::Partial(pgv) => pgv.position is Some,
    }
}

/// How many identities resolving a maybe-partial global vertex consumes.
pub open spec fn gv_ids(v: MaybePartial<GlobalVertex>) -> nat {
    match v {
        MaybePartial::Full(_) => 0,
        MaybePartial::Partial(_) => 1,
    }
}

/// The handle that resolving a maybe-partial global vertex yields.
pub open spec fn gv_handle(v: MaybePartial<GlobalVertex>, o: Objects) -> Handle<GlobalVertex> {
    match v {
        MaybePartial::Full(h) => h,
        MaybePartial::Partial(pgv) => spec_handle(
            o.id_count(),
            GlobalVertex { position: pgv.position.unwrap() },
        ),
    }
}

/// How many identities resolving a maybe-partial global curve consumes.
pub open spec fn gc_ids(c: MaybePartial<GlobalCurve>) -> nat {
    match c {
        MaybePartial::Full(_) => 0,
        MaybePartial::Partial(_) => 1,
    }
}

/// The handle that resolving a maybe-partial global curve yields.
pub open spec fn gc_handle(c: MaybePartial<GlobalCurve>, o: Objects) -> Handle<GlobalCurve> {
    match c {
        MaybePartial::Full(h) => h,
        MaybePartial::Partial(_) => spec_handle(o.id_count(), GlobalCurve {  }),
    }
}

/// A partial global edge.
#[derive(Clone, Copy, Debug)]
pub struct PartialGlobalEdge {
    /// The global curve the edge runs along.
    pub curve: MaybePartial<GlobalCurve>,
    /// The end vertices of the edge.
    pub vertices: Option<[MaybePartial<GlobalVertex>; 2]>,
}

impl PartialGlobalEdge {
    /// The merge of two partial global edges, field by field.
    pub open spec fn merged(self, other: Self) -> Self {
        PartialGlobalEdge {
            curve: spec_merge_maybe_global_curve(self.curve, other.curve),
            vertices: spec_merge_options(self.vertices, other.vertices),
        }
    }

    /// Access the curve.
    pub fn curve(&self) -> (r: MaybePartial<GlobalCurve>)
        ensures
            r == self.curve,
    {
        self.curve
    }

    /// Access the vertices.
    pub fn vertices(&self) -> (r: Option<[MaybePartial<GlobalVertex>; 2]>)
        ensures
            r == self.vertices,
    {
        self.vertices
    }

    /// Provide the curve, if one is given.
    pub fn with_curve(self, curve: Option<MaybePartial<GlobalCurve>>) -> (r: Self)
        ensures
            curve matches Some(c) ==> r == (PartialGlobalEdge { curve: c, ..self }),
            curve is None ==> r == self,
    {
        match curve {
            Some(c) => PartialGlobalEdge { curve: c, ..self },
            None => self,
        }
    }

    /// Provide the vertices, if they are given.
    pub fn with_vertices(self, vertices: Option<[MaybePartial<GlobalVertex>; 2]>) -> (r: Self)
        ensures
            vertices matches Some(v) ==> r == (PartialGlobalEdge { vertices: Some(v), ..self }),
            vertices is None ==> r == self,
    {
        match vertices {
            Some(v) => PartialGlobalEdge { vertices: Some(v), ..self },
            None => self,
        }
    }
}

impl Default for PartialGlobalEdge {
    /// An empty partial global edge.
    fn default() -> (r: Self)
        ensures
            r == (PartialGlobalEdge {
                curve: MaybePartial::Partial(PartialGlobalCurve {  }),
                vertices: None::<[MaybePartial<GlobalVertex>; 2]>,
            }),
    {
        PartialGlobalEdge {
            curve: MaybePartial::Partial(PartialGlobalCurve {  }),
            vertices: None,
        }
    }
}

impl PartialObject for PartialGlobalEdge {
    type Full = GlobalEdge;

    open spec fn merge_spec(self, other: Self) -> Self {
        self.merged(other)
    }

    fn merge_with(self, other: Self) -> (r: Self) {
        PartialGlobalEdge {
            curve: merge_maybe_global_curve(self.curve, other.curve),
            vertices: merge_options(self.vertices, other.vertices),
        }
    }

    open spec fn build_req(self) -> bool {
        true
    }

    open spec fn build_ids(self) -> nat {
        gc_ids(self.curve) + match self.vertices {
            None => 0,
            Some(vs) => gv_ids(vs[0]) + gv_ids(vs[1]),
        }
    }

    open spec fn build_ok(self) -> bool {
        match self.vertices {
            None => false,
            Some(vs) => gv_ok(vs[0]) && gv_ok(vs[1]),
        }
    }

    open spec fn build_err(self) -> ValidationError {
        match self.vertices {
            None => ValidationError::MissingVertices,
            Some(_) => ValidationError::MissingPosition,
        }
    }

    open spec fn built_value(self, o: Objects) -> GlobalEdge {
        let curve = gc_handle(self.curve, o);
        let vs = self.vertices.unwrap();
        let h0 = gv_handle(vs[0], spec_objects((o.id_count() + gc_ids(self.curve)) as u64));
        let h1 = gv_handle(
            vs[1],
            spec_objects((o.id_count() + gc_ids(self.curve) + gv_ids(vs[0])) as u64),
        );
        GlobalEdge {
            curve,
            vertices: if h0.spec_id() <= h1.spec_id() {
                [h0, h1]
            } else {
                [h1, h0]
            },
        }
    }

    fn build(self, objects: &mut Objects) -> (r: Result<GlobalEdge, ValidationError>) {
        let vs = match self.vertices {
            Some(vs) => vs,
            None => {
                return Err(ValidationError::MissingVertices);
            },
        };
        let v0 = vs[0];
        let v1 = vs[1];
        match v0 {
            MaybePartial::Partial(pgv) => {
                if pgv.position.is_none() {
                    return Err(ValidationError::MissingPosition);
                }
            },
            MaybePartial::Full(_) => {},
        }
        match v1 {
            MaybePartial::Partial(pgv) => {
                if pgv.position.is_none() {
                    return Err(ValidationError::MissingPosition);
                }
            },
            MaybePartial::Full(_) => {},
        }
        let curve = match self.curve {
            MaybePartial::Full(h) => h,
            MaybePartial::Partial(_) => objects.insert(GlobalCurve {  }),
        };
        proof {
            crate::storage::lemma_objects_parts(*objects);
        }
        let h0 = match v0 {
            MaybePartial::Full(h) => h,
            MaybePartial::Partial(pgv) => {
                let p = match pgv.position {
                    Some(p) => p,
                    None => {
                        proof {
                            assert(false);
                        }
                        return Err(ValidationError::MissingPosition);
                    },
                };
                objects.insert(GlobalVertex { position: p })
            },
        };
        proof {
            crate::storage::lemma_objects_parts(*objects);
        }
        let h1 = match v1 {
            MaybePartial::Full(h) => h,
            MaybePartial::Partial(pgv) => {
                let p = match pgv.position {
                    Some(p) => p,
                    None => {
                        proof {
                            assert(false);
                        }
                        return Err(ValidationError::MissingPosition);
                    },
                };
                objects.insert(GlobalVertex { position: p })
            },
        };
        let vertices = if h0.id() <= h1.id() {
            [h0, h1]
        } else {
            [h1, h0]
        };
        Ok(GlobalEdge { curve, vertices })
    }
}

impl HasPartial for GlobalEdge {
    type Partial = PartialGlobalEdge;

    open spec fn to_partial_spec(self) -> PartialGlobalEdge {
        PartialGlobalEdge {
            curve: MaybePartial::Full(self.curve),
            vertices: Some(
                [MaybePartial::Full(self.vertices[0]), MaybePartial::Full(self.vertices[1])],
            ),
        }
    }

    fn to_partial(&self) -> (r: PartialGlobalEdge) {
        let vs = self.vertices();
        PartialGlobalEdge {
            curve: MaybePartial::Full(*self.curve()),
            vertices: Some([MaybePartial::Full(vs[0]), MaybePartial::Full(vs[1])]),
        }
    }
}

/// Merge two maybe-partial global edges.
pub open spec fn spec_merge_maybe_global_edge(
    a: MaybePartial<GlobalEdge>,
    b: MaybePartial<GlobalEdge>,
) -> MaybePartial<GlobalEdge> {
    match (a, b) {
        (MaybePartial::Full(x), _) => MaybePartial::Full(x),
        (MaybePartial::Partial(_), MaybePartial::Full(y)) => MaybePartial::Full(y),
        (MaybePartial::Partial(x), MaybePartial::Partial(y)) => MaybePartial::Partial(
            x.merged(y),
        ),
    }
}

fn merge_maybe_global_edge(
    a: MaybePartial<GlobalEdge>,
    b: MaybePartial<GlobalEdge>,
) -> (r: MaybePartial<GlobalEdge>)
    ensures
        r == spec_merge_maybe_global_edge(a, b),
{
    match (a, b) {
        (MaybePartial::Full(x), _) => MaybePartial::Full(x),
        (MaybePartial::Partial(_), MaybePartial::Full(y)) => MaybePartial::Full(y),
        (MaybePartial::Partial(x), MaybePartial::Partial(y)) => MaybePartial::Partial(
            x.merge_with(y),
        ),
    }
}

/// Merge two maybe-partial vertices.
pub open spec fn spec_merge_maybe_vertex(
    a: MaybePartial<Vertex>,
    b: MaybePartial<Vertex>,
) -> MaybePartial<Vertex> {
    match (a, b) {
        (MaybePartial::Full(x), _) => MaybePartial::Full(x),
        (MaybePartial::Partial(_), MaybePartial::Full(y)) => MaybePartial::Full(y),
        (MaybePartial::Partial(x), MaybePartial::Partial(y)) => MaybePartial::Partial(
            x.merged(y),
        ),
    }
}

fn merge_maybe_vertex(a: MaybePartial<Vertex>, b: MaybePartial<Vertex>) -> (r: MaybePartial<
    Vertex,
>)
    ensures
        r == spec_merge_maybe_vertex(a, b),
{
    match (a, b) {
        (MaybePartial::Full(x), _) => MaybePartial::Full(x),
        (MaybePartial::Partial(_), MaybePartial::Full(y)) => MaybePartial::Full(y),
        (MaybePartial::Partial(x), MaybePartial::Partial(y)) => MaybePartial::Partial(
            x.merge_with(y),
        ),
    }
}

} // verus!

verus! {

/// The partial vertex with its curve slot replaced: when a half-edge builds
/// its end vertices, its own curve is authoritative for them.
pub open spec fn pv_wrt(pv: PartialVertex, c: MaybePartial<Curve>) -> PartialVertex {
    PartialVertex { position: pv.position, curve: c, surface_form: pv.surface_form }
}

/// Whether an end vertex of a half-edge can be resolved, with the
/// half-edge's curve substituted for the vertex's own.
pub open spec fn he_v_ok(v: MaybePartial<Vertex>, c: MaybePartial<Curve>) -> bool {
    match v {
        MaybePartial::Full(_) => true,
        MaybePartial::Partial(pv) => pv_wrt(pv, c).build_ok(),
    }
}

/// The error that resolving an end vertex reports when it cannot be
/// resolved.
pub open spec fn he_v_err(v: MaybePartial<Vertex>, c: MaybePartial<Curve>) -> ValidationError {
    match v {
        MaybePartial::Full(_) => ValidationError::Mismatch,
        MaybePartial::Partial(pv) => pv_wrt(pv, c).build_err(),
    }
}

/// How many identities resolving an end vertex consumes.
pub open spec fn he_v_ids(v: MaybePartial<Vertex>) -> nat {
    match v {
        MaybePartial::Full(_) => 0,
        MaybePartial::Partial(pv) => (match pv.surface_form {
            MaybePartial::Full(_) => 0nat,
            MaybePartial::Partial(psv) => (if psv.global_form is Full {
                0nat
            } else {
                1nat
            }) + 1,
        }) + 1,
    }
}

/// The handle that resolving an end vertex yields.
pub open spec fn he_v_handle(v: MaybePartial<Vertex>, ch: Handle<Curve>, o: Objects) -> Handle<
    Vertex,
> {
    match v {
        MaybePartial::Full(h) => h,
        MaybePartial::Partial(pv) => spec_handle(
            (o.id_count() + pv_wrt(pv, MaybePartial::Full(ch)).build_ids()) as u64,
            pv_wrt(pv, MaybePartial::Full(ch)).built_value(o),
        ),
    }
}

/// Whether a partial global edge, once its curve and vertices are inferred
/// from the half-edge, can be resolved.
pub open spec fn he_ge_ok(pge: PartialGlobalEdge) -> bool {
    match pge.vertices {
        None => true,
        Some(vs) => gv_ok(vs[0]) && gv_ok(vs[1]),
    }
}

/// How many identities resolving the global form of a half-edge consumes.
pub open spec fn he_ge_ids(g: MaybePartial<GlobalEdge>) -> nat {
    match g {
        MaybePartial::Full(_) => 0,
        MaybePartial::Partial(pge) => (match pge.vertices {
            None => 0nat,
            Some(vs) => gv_ids(vs[0]) + gv_ids(vs[1]),
        }) + 1,
    }
}

/// The global edge builder with the missing fields inferred from the
/// half-edge: the curve from the half-edge's curve, the vertices from the
/// global forms of the half-edge's end vertices.
pub open spec fn filled_global_edge(
    pge: PartialGlobalEdge,
    ch: Handle<Curve>,
    gv0: Handle<GlobalVertex>,
    gv1: Handle<GlobalVertex>,
) -> PartialGlobalEdge {
    PartialGlobalEdge {
        curve: if pge.curve is Full {
            pge.curve
        } else {
            MaybePartial::Full(ch.value().global_form)
        },
        vertices: match pge.vertices {
            Some(vs) => Some(vs),
            None => Some([MaybePartial::Full(gv0), MaybePartial::Full(gv1)]),
        },
    }
}

/// A partial half-edge.
#[derive(Clone, Copy, Debug)]
pub struct PartialHalfEdge {
    /// The curve the half-edge runs along.
    pub curve: MaybePartial<Curve>,
    /// The end vertices, back first, front second.
    pub vertices: [MaybePartial<Vertex>; 2],
    /// The undirected global edge this half-edge runs along.
    pub global_form: MaybePartial<GlobalEdge>,
}

impl PartialHalfEdge {
    /// The merge of two partial half-edges, field by field.
    pub open spec fn merged(self, other: Self) -> Self {
        PartialHalfEdge {
            curve: spec_merge_maybe_curve(self.curve, other.curve),
            vertices: [
                spec_merge_maybe_vertex(self.vertices[0], other.vertices[0]),
                spec_merge_maybe_vertex(self.vertices[1], other.vertices[1]),
            ],
            global_form: spec_merge_maybe_global_edge(self.global_form, other.global_form),
        }
    }

    /// Access the curve.
    pub fn curve(&self) -> (r: MaybePartial<Curve>)
        ensures
            r == self.curve,
    {
        self.curve
    }

    /// Access the end vertices, back first, front second.
    pub fn vertices(&self) -> (r: [MaybePartial<Vertex>; 2])
        ensures
            r == self.vertices,
    {
        self.vertices
    }

    /// Access the global form.
    pub fn global_form(&self) -> (r: MaybePartial<GlobalEdge>)
        ensures
            r == self.global_form,
    {
        self.global_form
    }

    /// Provide the back vertex, if one is given.
    pub fn with_back_vertex(self, back: Option<MaybePartial<Vertex>>) -> (r: Self)
        ensures
            back matches Some(b) ==> r == (PartialHalfEdge {
                vertices: [b, self.vertices[1]],
                ..self
            }),
            back is None ==> r == self,
    {
        match back {
            Some(b) => PartialHalfEdge { vertices: [b, self.vertices[1]], ..self },
            None => self,
        }
    }

    /// Provide the front vertex, if one is given.
    pub fn with_front_vertex(self, front: Option<MaybePartial<Vertex>>) -> (r: Self)
        ensures
            front matches Some(f) ==> r == (PartialHalfEdge {
                vertices: [self.vertices[0], f],
                ..self
            }),
            front is None ==> r == self,
    {
        match front {
            Some(f) => PartialHalfEdge { vertices: [self.vertices[0], f], ..self },
            None => self,
        }
    }

    /// Provide the curve, if one is given.
    pub fn with_curve(self, curve: Option<MaybePartial<Curve>>) -> (r: Self)
        ensures
            curve matches Some(c) ==> r == (PartialHalfEdge { curve: c, ..self }),
            curve is None ==> r == self,
    {
        match curve {
            Some(c) => PartialHalfEdge { curve: c, ..self },
            None => self,
        }
    }
}

impl Default for PartialHalfEdge {
    /// An empty partial half-edge.
    fn default() -> (r: Self)
        ensures
            r.curve == MaybePartial::<Curve>::Partial(
                PartialCurve {
                    path: None,
                    surface: None,
                    global_form: MaybePartial::Partial(PartialGlobalCurve {  }),
                },
            ),
            r.vertices[0] == spec_empty_vertex(),
            r.vertices[1] == spec_empty_vertex(),
            r.global_form == MaybePartial::<GlobalEdge>::Partial(
                PartialGlobalEdge {
                    curve: MaybePartial::Partial(PartialGlobalCurve {  }),
                    vertices: None,
                },
            ),
    {
        PartialHalfEdge {
            curve: MaybePartial::Partial(
                PartialCurve {
                    path: None,
                    surface: None,
                    global_form: MaybePartial::Partial(PartialGlobalCurve {  }),
                },
            ),
            vertices: [empty_vertex(), empty_vertex()],
            global_form: MaybePartial::Partial(
                PartialGlobalEdge {
                    curve: MaybePartial::Partial(PartialGlobalCurve {  }),
                    vertices: None,
                },
            ),
        }
    }
}

/// The empty maybe-partial vertex, as a spec value.
pub open spec fn spec_empty_vertex() -> MaybePartial<Vertex> {
    MaybePartial::Partial(
        PartialVertex {
            position: None,
            curve: MaybePartial::Partial(
                PartialCurve {
                    path: None,
                    surface: None,
                    global_form: MaybePartial::Partial(PartialGlobalCurve {  }),
                },
            ),
            surface_form: MaybePartial::Partial(
                PartialSurfaceVertex {
                    position: None,
                    surface: None,
                    global_form: MaybePartial::Partial(PartialGlobalVertex { position: None }),
                },
            ),
        },
    )
}

/// The empty maybe-partial vertex.
fn empty_vertex() -> (r: MaybePartial<Vertex>)
    ensures
        r == spec_empty_vertex(),
{
    MaybePartial::Partial(
        PartialVertex {
            position: None,
            curve: MaybePartial::Partial(
                PartialCurve {
                    path: None,
                    surface: None,
                    global_form: MaybePartial::Partial(PartialGlobalCurve {  }),
                },
            ),
            surface_form: MaybePartial::Partial(
                PartialSurfaceVertex {
                    position: None,
                    surface: None,
                    global_form: MaybePartial::Partial(PartialGlobalVertex { position: None }),
                },
            ),
        },
    )
}

} // verus!

verus! {

broadcast use crate::storage::lemma_spec_handle, crate::storage::lemma_spec_objects;

/// The vertex with the given surface pushed into its partial surface form.
pub open spec fn spec_v_with_surface(v: MaybePartial<Vertex>, s: Handle<Surface>) -> MaybePartial<
    Vertex,
> {
    match v {
        MaybePartial::Full(h) => MaybePartial::Full(h),
        MaybePartial::Partial(pv) => MaybePartial::Partial(
            PartialVertex {
                surface_form: match pv.surface_form {
                    MaybePartial::Full(f) => MaybePartial::Full(f),
                    MaybePartial::Partial(psv) => MaybePartial::Partial(
                        PartialSurfaceVertex { surface: Some(s), ..psv },
                    ),
                },
                ..pv
            },
        ),
    }
}

fn v_with_surface(v: MaybePartial<Vertex>, s: Handle<Surface>) -> (r: MaybePartial<Vertex>)
    ensures
        r == spec_v_with_surface(v, s),
{
    match v {
        MaybePartial::Full(h) => MaybePartial::Full(h),
        MaybePartial::Partial(pv) => MaybePartial::Partial(
            PartialVertex {
                surface_form: match pv.surface_form {
                    MaybePartial::Full(f) => MaybePartial::Full(f),
                    MaybePartial::Partial(psv) => MaybePartial::Partial(
                        PartialSurfaceVertex { surface: Some(s), ..psv },
                    ),
                },
                ..pv
            },
        ),
    }
}

/// The half-edge with the given surface pushed into its partial parts.
pub open spec fn spec_he_with_surface(he: PartialHalfEdge, s: Handle<Surface>) -> PartialHalfEdge {
    PartialHalfEdge {
        curve: match he.curve {
            MaybePartial::Full(c) => MaybePartial::Full(c),
            MaybePartial::Partial(pc) => MaybePartial::Partial(
                PartialCurve { surface: Some(s), ..pc },
            ),
        },
        vertices: [
            spec_v_with_surface(he.vertices[0], s),
            spec_v_with_surface(he.vertices[1], s),
        ],
        global_form: he.global_form,
    }
}

impl PartialHalfEdge {
    /// Push the given surface into the curve and the surface forms of the
    /// end vertices, wherever those are still partial.
    pub fn with_surface(self, surface: Option<Handle<Surface>>) -> (r: Self)
        ensures
            surface matches Some(s) ==> r == spec_he_with_surface(self, s),
            surface is None ==> r == self,
    {
        match surface {
            None => self,
            Some(s) => PartialHalfEdge {
                curve: match self.curve {
                    MaybePartial::Full(c) => MaybePartial::Full(c),
                    MaybePartial::Partial(pc) => MaybePartial::Partial(
                        PartialCurve { surface: Some(s), ..pc },
                    ),
                },
                vertices: [
                    v_with_surface(self.vertices[0], s),
                    v_with_surface(self.vertices[1], s),
                ],
                global_form: self.global_form,
            },
        }
    }
}

impl PartialObject for PartialHalfEdge {
    type Full = HalfEdge;

    open spec fn merge_spec(self, other: Self) -> Self {
        self.merged(other)
    }

    fn merge_with(self, other: Self) -> (r: Self) {
        PartialHalfEdge {
            curve: merge_maybe_curve(self.curve, other.curve),
            vertices: [
                merge_maybe_vertex(self.vertices[0], other.vertices[0]),
                merge_maybe_vertex(self.vertices[1], other.vertices[1]),
            ],
            global_form: merge_maybe_global_edge(self.global_form, other.global_form),
        }
    }

    open spec fn build_req(self) -> bool {
        &&& (resolved_path(self.curve) matches Some(p) ==> surface_path_in_range(p))
        &&& (resolved_surface(self.curve) matches Some(s) ==> surface_in_range(s.value()))
        &&& (self.vertices[0] matches MaybePartial::Partial(pv) ==> pv_wrt(
            pv,
            self.curve,
        ).build_req())
        &&& (self.vertices[1] matches MaybePartial::Partial(pv) ==> pv_wrt(
            pv,
            self.curve,
        ).build_req())
    }

    open spec fn build_ids(self) -> nat {
        curve_ids(self.curve) + he_v_ids(self.vertices[0]) + he_v_ids(self.vertices[1])
            + he_ge_ids(self.global_form)
    }

    open spec fn build_ok(self) -> bool {
        &&& curve_ok(self.curve)
        &&& he_v_ok(self.vertices[0], self.curve)
        &&& he_v_ok(self.vertices[1], self.curve)
        &&& (self.global_form matches MaybePartial::Partial(pge) ==> he_ge_ok(pge))
    }

    open spec fn build_err(self) -> ValidationError {
        if !curve_ok(self.curve) {
            curve_err(self.curve)
        } else if !he_v_ok(self.vertices[0], self.curve) {
            he_v_err(self.vertices[0], self.curve)
        } else if !he_v_ok(self.vertices[1], self.curve) {
            he_v_err(self.vertices[1], self.curve)
        } else {
            ValidationError::MissingPosition
        }
    }

    open spec fn built_value(self, o: Objects) -> HalfEdge {
        let ch = curve_handle(self.curve, o);
        let o1 = spec_objects((o.id_count() + curve_ids(self.curve)) as u64);
        let vh0 = he_v_handle(self.vertices[0], ch, o1);
        let o2 = spec_objects(
            (o.id_count() + curve_ids(self.curve) + he_v_ids(self.vertices[0])) as u64,
        );
        let vh1 = he_v_handle(self.vertices[1], ch, o2);
        let o3 = spec_objects(
            (o.id_count() + curve_ids(self.curve) + he_v_ids(self.vertices[0]) + he_v_ids(
                self.vertices[1],
            )) as u64,
        );
        let geh = match self.global_form {
            MaybePartial::Full(g) => g,
            MaybePartial::Partial(pge) => {
                let filled = filled_global_edge(
                    pge,
                    ch,
                    vh0.value().surface_form.value().global_form,
                    vh1.value().surface_form.value().global_form,
                );
                spec_handle(
                    (o3.id_count() + filled.build_ids()) as u64,
                    filled.built_value(o3),
                )
            },
        };
        HalfEdge { curve: ch, vertices: [vh0, vh1], global_form: geh }
    }

    fn build(self, objects: &mut Objects) -> (r: Result<HalfEdge, ValidationError>) {
        match check_curve(&self.curve) {
            Ok(_) => {},
            Err(e) => {
                return Err(e);
            },
        }
        let v0 = self.vertices[0];
        let v1 = self.vertices[1];
        match v0 {
            MaybePartial::Partial(pv) => {
                let pvc = PartialVertex {
                    position: pv.position,
                    curve: self.curve,
                    surface_form: pv.surface_form,
                };
                match pvc.check() {
                    Ok(_) => {},
                    Err(e) => {
                        return Err(e);
                    },
                }
            },
            MaybePartial::Full(_) => {},
        }
        match v1 {
            MaybePartial::Partial(pv) => {
                let pvc = PartialVertex {
                    position: pv.position,
                    curve: self.curve,
                    surface_form: pv.surface_form,
                };
                match pvc.check() {
                    Ok(_) => {},
                    Err(e) => {
                        return Err(e);
                    },
                }
            },
            MaybePartial::Full(_) => {},
        }
        match self.global_form {
            MaybePartial::Partial(pge) => match pge.vertices {
                Some(vs) => {
                    match vs[0] {
                        MaybePartial::Partial(pgv) => {
                            if pgv.position.is_none() {
                                return Err(ValidationError::MissingPosition);
                            }
                        },
                        MaybePartial::Full(_) => {},
                    }
                    match vs[1] {
                        MaybePartial::Partial(pgv) => {
                            if pgv.position.is_none() {
                                return Err(ValidationError::MissingPosition);
                            }
                        },
                        MaybePartial::Full(_) => {},
                    }
                },
                None => {},
            },
            MaybePartial::Full(_) => {},
        }
        let ghost o0 = *old(objects);
        let ch = match self.curve.into_full(objects) {
            Ok(h) => h,
            Err(e) => {
                proof {
                    assert(false);
                }
                return Err(e);
            },
        };
        proof {
            crate::storage::lemma_objects_parts(*objects);
            assert(*objects == spec_objects((o0.id_count() + curve_ids(self.curve)) as u64));
            assert(resolved_path(MaybePartial::Full(ch)) == resolved_path(self.curve));
            assert(resolved_surface(MaybePartial::Full(ch)) == resolved_surface(self.curve));
        }
        let vh0 = match v0 {
            MaybePartial::Full(h) => h,
            MaybePartial::Partial(pv) => {
                let pv2 = PartialVertex {
                    position: pv.position,
                    curve: MaybePartial::Full(ch),
                    surface_form: pv.surface_form,
                };
                proof {
                    assert(pv2.expected_surface_pos() == pv_wrt(
                        pv,
                        self.curve,
                    ).expected_surface_pos());
                    assert(pv2.build_req());
                    assert(pv2.build_ok());
                    assert(pv2.build_ids() + 1 == he_v_ids(v0));
                }
                match MaybePartial::Partial(pv2).into_full(objects) {
                    Ok(h) => h,
                    Err(e) => {
                        proof {
                            assert(false);
                        }
                        return Err(e);
                    },
                }
            },
        };
        proof {
            crate::storage::lemma_objects_parts(*objects);
            assert(*objects == spec_objects(
                (o0.id_count() + curve_ids(self.curve) + he_v_ids(v0)) as u64,
            ));
        }
        let vh1 = match v1 {
            MaybePartial::Full(h) => h,
            MaybePartial::Partial(pv) => {
                let pv2 = PartialVertex {
                    position: pv.position,
                    curve: MaybePartial::Full(ch),
                    surface_form: pv.surface_form,
                };
                proof {
                    assert(pv2.expected_surface_pos() == pv_wrt(
                        pv,
                        self.curve,
                    ).expected_surface_pos());
                    assert(pv2.build_req());
                    assert(pv2.build_ok());
                    assert(pv2.build_ids() + 1 == he_v_ids(v1));
                }
                match MaybePartial::Partial(pv2).into_full(objects) {
                    Ok(h) => h,
                    Err(e) => {
                        proof {
                            assert(false);
                        }
                        return Err(e);
                    },
                }
            },
        };
        proof {
            crate::storage::lemma_objects_parts(*objects);
            assert(*objects == spec_objects(
                (o0.id_count() + curve_ids(self.curve) + he_v_ids(v0) + he_v_ids(v1)) as u64,
            ));
        }
        let global_form = match self.global_form {
            MaybePartial::Full(g) => g,
            MaybePartial::Partial(pge) => {
                let fcurve = match pge.curve {
                    MaybePartial::Full(c) => MaybePartial::Full(c),
                    MaybePartial::Partial(_) => MaybePartial::Full(*ch.get().global_form()),
                };
                let gv0 = *vh0.get().surface_form().get().global_form();
                let gv1 = *vh1.get().surface_form().get().global_form();
                let fvertices = match pge.vertices {
                    Some(vs) => Some(vs),
                    None => Some([MaybePartial::Full(gv0), MaybePartial::Full(gv1)]),
                };
                let filled = PartialGlobalEdge { curve: fcurve, vertices: fvertices };
                proof {
                    assert(filled == filled_global_edge(
                        pge,
                        ch,
                        vh0.value().surface_form.value().global_form,
                        vh1.value().surface_form.value().global_form,
                    ));
                    assert(filled.build_ids() + 1 == he_ge_ids(self.global_form));
                }
                match MaybePartial::Partial(filled).into_full(objects) {
                    Ok(h) => h,
                    Err(e) => {
                        proof {
                            assert(false);
                        }
                        return Err(e);
                    },
                }
            },
        };
        Ok(HalfEdge { curve: ch, vertices: [vh0, vh1], global_form })
    }
}

impl HasPartial for HalfEdge {
    type Partial = PartialHalfEdge;

    open spec fn to_partial_spec(self) -> PartialHalfEdge {
        PartialHalfEdge {
            curve: MaybePartial::Full(self.curve),
            vertices: [
                MaybePartial::Full(self.vertices[0]),
                MaybePartial::Full(self.vertices[1]),
            ],
            global_form: MaybePartial::Full(self.global_form),
        }
    }

    fn to_partial(&self) -> (r: PartialHalfEdge) {
        let vs = self.vertices();
        PartialHalfEdge {
            curve: MaybePartial::Full(*self.curve()),
            vertices: [MaybePartial::Full(vs[0]), MaybePartial::Full(vs[1])],
            global_form: MaybePartial::Full(*self.global_form()),
        }
    }
}

} // verus!

verus! {

impl MaybePartial<Curve> {
    /// Access the path, from whichever variant is present.
    pub fn path(&self) -> (r: Option<SurfacePath>)
        ensures
            r == resolved_path(*self),
    {
        match self {
            MaybePartial::Full(full) => Some(full.get().path()),
            MaybePartial::Partial(partial) => partial.path(),
        }
    }

    /// Access the surface, from whichever variant is present.
    pub fn surface(&self) -> (r: Option<Handle<Surface>>)
        ensures
            r == resolved_surface(*self),
    {
        match self {
            MaybePartial::Full(full) => Some(*full.get().surface()),
            MaybePartial::Partial(partial) => partial.surface(),
        }
    }

    /// Access the global form, from whichever variant is present.
    pub fn global_form(&self) -> (r: Option<MaybePartial<GlobalCurve>>)
        ensures
            *self matches MaybePartial::Full(h) ==> r == Some(
                MaybePartial::<GlobalCurve>::Full(h.value().global_form),
            ),
            *self matches MaybePartial::Partial(p) ==> r == Some(p.global_form),
    {
        match self {
            MaybePartial::Full(full) => Some(MaybePartial::Full(*full.get().global_form())),
            MaybePartial::Partial(partial) => partial.global_form(),
        }
    }
}

impl MaybePartial<GlobalEdge> {
    /// Access the curve, from whichever variant is present.
    pub fn curve(&self) -> (r: MaybePartial<GlobalCurve>)
        ensures
            *self matches MaybePartial::Full(h) ==> r == MaybePartial::<GlobalCurve>::Full(
                h.value().curve,
            ),
            *self matches MaybePartial::Partial(p) ==> r == p.curve,
    {
        match self {
            MaybePartial::Full(full) => MaybePartial::Full(*full.get().curve()),
            MaybePartial::Partial(partial) => partial.curve(),
        }
    }

    /// Access the vertices, in normalized order, from whichever variant is
    /// present.
    pub fn vertices(&self) -> (r: Option<[MaybePartial<GlobalVertex>; 2]>)
        ensures
            *self matches MaybePartial::Full(h) ==> r == Some(
                [
                    MaybePartial::<GlobalVertex>::Full(h.value().vertices[0]),
                    MaybePartial::<GlobalVertex>::Full(h.value().vertices[1]),
                ],
            ),
            *self matches MaybePartial::Partial(p) ==> r == p.vertices,
    {
        match self {
            MaybePartial::Full(full) => {
                let vs = full.get().vertices();
                Some([MaybePartial::Full(vs[0]), MaybePartial::Full(vs[1])])
            },
            MaybePartial::Partial(partial) => partial.vertices(),
        }
    }
}

impl MaybePartial<HalfEdge> {
    /// Access the curve, from whichever variant is present.
    pub fn curve(&self) -> (r: MaybePartial<Curve>)
        ensures
            *self matches MaybePartial::Full(h) ==> r == MaybePartial::<Curve>::Full(
                h.value().curve,
            ),
            *self matches MaybePartial::Partial(p) ==> r == p.curve,
    {
        match self {
            MaybePartial::Full(full) => MaybePartial::Full(*full.get().curve()),
            MaybePartial::Partial(partial) => partial.curve(),
        }
    }

    /// Access the front vertex, from whichever variant is present.
    pub fn front(&self) -> (r: MaybePartial<Vertex>)
        ensures
            *self matches MaybePartial::Full(h) ==> r == MaybePartial::<Vertex>::Full(
                h.value().vertices[1],
            ),
            *self matches MaybePartial::Partial(p) ==> r == p.vertices[1],
    {
        match self {
            MaybePartial::Full(full) => MaybePartial::Full(*full.get().front()),
            MaybePartial::Partial(partial) => {
                let vs = partial.vertices();
                vs[1]
            },
        }
    }

    /// Access the vertices, back first, front second, from whichever variant
    /// is present.
    pub fn vertices(&self) -> (r: [MaybePartial<Vertex>; 2])
        ensures
            *self matches MaybePartial::Full(h) ==> r == [
                MaybePartial::<Vertex>::Full(h.value().vertices[0]),
                MaybePartial::<Vertex>::Full(h.value().vertices[1]),
            ],
            *self matches MaybePartial::Partial(p) ==> r == p.vertices,
    {
        match self {
            MaybePartial::Full(full) => {
                let vs = full.get().vertices();
                [MaybePartial::Full(vs[0]), MaybePartial::Full(vs[1])]
            },
            MaybePartial::Partial(partial) => partial.vertices(),
        }
    }
}

impl MaybePartial<SurfaceVertex> {
    /// Access the position, from whichever variant is present.
    pub fn position(&self) -> (r: Option<Point2>)
        ensures
            *self matches MaybePartial::Full(h) ==> r == Some(h.value().position),
            *self matches MaybePartial::Partial(p) ==> r == p.position,
    {
        match self {
            MaybePartial::Full(full) => Some(full.get().position()),
            MaybePartial::Partial(partial) => partial.position(),
        }
    }

    /// Access the surface, from whichever variant is present.
    pub fn surface(&self) -> (r: Option<Handle<Surface>>)
        ensures
            *self matches MaybePartial::Full(h) ==> r == Some(h.value().surface),
            *self matches MaybePartial::Partial(p) ==> r == p.surface,
    {
        match self {
            MaybePartial::Full(full) => Some(*full.get().surface()),
            MaybePartial::Partial(partial) => partial.surface(),
        }
    }

    /// Access the global form, from whichever variant is present.
    pub fn global_form(&self) -> (r: MaybePartial<GlobalVertex>)
        ensures
            *self matches MaybePartial::Full(h) ==> r == MaybePartial::<GlobalVertex>::Full(
                h.value().global_form,
            ),
            *self matches MaybePartial::Partial(p) ==> r == p.global_form,
    {
        match self {
            MaybePartial::Full(full) => MaybePartial::Full(*full.get().global_form()),
            MaybePartial::Partial(partial) => partial.global_form(),
        }
    }
}

impl MaybePartial<Vertex> {
    /// Access the surface form, from whichever variant is present.
    pub fn surface_form(&self) -> (r: MaybePartial<SurfaceVertex>)
        ensures
            *self matches MaybePartial::Full(h) ==> r == MaybePartial::<SurfaceVertex>::Full(
                h.value().surface_form,
            ),
            *self matches MaybePartial::Partial(p) ==> r == p.surface_form,
    {
        match self {
            MaybePartial::Full(full) => MaybePartial::Full(*full.get().surface_form()),
            MaybePartial::Partial(partial) => partial.surface_form(),
        }
    }
}

} // verus!

verus! {

/// Building a partial global vertex and converting the result back to a
/// partial object returns every field that was set on the original.
pub proof fn lemma_global_vertex_round_trip(p: PartialGlobalVertex, o: Objects)
    requires
        p.build_ok(),
    ensures
        p.built_value(o).to_partial_spec().position == p.position,
{
}

/// Building a partial curve and converting the result back to a partial
/// object returns every field that was set on the original: the path, the
/// surface, and the global form where it was already resolved.
pub proof fn lemma_curve_round_trip(p: PartialCurve, o: Objects)
    requires
        p.build_ok(),
    ensures
        p.built_value(o).to_partial_spec().path == p.path,
        p.built_value(o).to_partial_spec().surface == p.surface,
        p.global_form matches MaybePartial::Full(g) ==> p.built_value(o).to_partial_spec()
            .global_form == MaybePartial::<GlobalCurve>::Full(g),
{
}

/// Building a partial surface vertex and converting the result back to a
/// partial object returns every field that was set on the original.
pub proof fn lemma_surface_vertex_round_trip(p: PartialSurfaceVertex, o: Objects)
    requires
        p.build_ok(),
    ensures
        p.built_value(o).to_partial_spec().position == p.position,
        p.built_value(o).to_partial_spec().surface == p.surface,
        p.global_form matches MaybePartial::Full(g) ==> p.built_value(o).to_partial_spec()
            .global_form == MaybePartial::<GlobalVertex>::Full(g),
{
}

/// Building a partial vertex and converting the result back to a partial
/// object returns every field that was set on the original: the position,
/// and the curve and surface form where they were already resolved.
pub proof fn lemma_vertex_round_trip(p: PartialVertex, o: Objects)
    requires
        p.build_ok(),
    ensures
        p.built_value(o).to_partial_spec().position == p.position,
        p.curve matches MaybePartial::Full(c) ==> p.built_value(o).to_partial_spec().curve
            == MaybePartial::<Curve>::Full(c),
        p.surface_form matches MaybePartial::Full(sv) ==> p.built_value(o).to_partial_spec()
            .surface_form == MaybePartial::<SurfaceVertex>::Full(sv),
{
}

} // verus!

verus! {

/// Building a partial global edge and converting the result back to a
/// partial object returns the fields that were already resolved: the
/// global curve by identity, and a pair of resolved end vertices by
/// identity, in normalized order.
pub proof fn lemma_global_edge_round_trip(p: PartialGlobalEdge, o: Objects)
    requires
        p.build_ok(),
    ensures
        p.curve matches MaybePartial::Full(g) ==> p.built_value(o).to_partial_spec().curve
            == MaybePartial::<GlobalCurve>::Full(g),
        p.vertices matches Some(vs) ==> (vs[0] matches MaybePartial::Full(a) ==> (
        vs[1] matches MaybePartial::Full(b) ==> p.built_value(o).to_partial_spec().vertices
            == Some(
            if a.spec_id() <= b.spec_id() {
                [
                    MaybePartial::<GlobalVertex>::Full(a),
                    MaybePartial::<GlobalVertex>::Full(b),
                ]
            } else {
                [
                    MaybePartial::<GlobalVertex>::Full(b),
                    MaybePartial::<GlobalVertex>::Full(a),
                ]
            },
        ))),
{
}

/// Building a partial half-edge and converting the result back to a
/// partial object returns the fields that were already resolved, by
/// identity: the curve, each end vertex, and the global form.
pub proof fn lemma_half_edge_round_trip(p: PartialHalfEdge, o: Objects)
    requires
        p.build_ok(),
    ensures
        p.curve matches MaybePartial::Full(c) ==> p.built_value(o).to_partial_spec().curve
            == MaybePartial::<Curve>::Full(c),
        p.vertices[0] matches MaybePartial::Full(v) ==> p.built_value(o).to_partial_spec()
            .vertices[0] == MaybePartial::<Vertex>::Full(v),
        p.vertices[1] matches MaybePartial::Full(v) ==> p.built_value(o).to_partial_spec()
            .vertices[1] == MaybePartial::<Vertex>::Full(v),
        p.global_form matches MaybePartial::Full(g) ==> p.built_value(o).to_partial_spec()
            .global_form == MaybePartial::<GlobalEdge>::Full(g),
{
}

} // verus!
