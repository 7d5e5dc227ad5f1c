//! Exact geometric primitives: points, vectors, lines, paths and affine
//! transforms over integer coordinates.
//!
//! Coordinates are `i64` values.  Operations that multiply coordinates state
//! a range precondition ([`in_coord_range`]) so that every intermediate value
//! provably fits in `i64`; the companion spec functions describe the results
//! over unbounded integers.

use vstd::prelude::*;

verus! {

/// Largest coordinate magnitude accepted by the arithmetic operations.
///
/// With all inputs bounded by this value, a product of two coordinates is
/// bounded by `2^60` and any sum of four such terms fits comfortably in `i64`.
pub const COORD_LIMIT: i64 = 0x4000_0000;

/// Whether a coordinate is small enough to take part in products.
pub open spec fn in_coord_range(x: i64) -> bool {
    -COORD_LIMIT <= x <= COORD_LIMIT
}

/// A point in the 2D coordinate system of a surface.
#[derive(Clone, Copy, Debug, PartialEq, Eq, Structural)]
pub struct Point2 {
    pub u: i64,
    pub v: i64,
}

/// A vector in the 2D coordinate system of a surface.
#[derive(Clone, Copy, Debug, PartialEq, Eq, Structural)]
pub struct Vector2 {
    pub u: i64,
    pub v: i64,
}

/// A point in global 3D model coordinates.
#[derive(Clone, Copy, Debug, PartialEq, Eq, Structural)]
pub struct Point3 {
    pub x: i64,
    pub y: i64,
    pub z: i64,
}

/// A vector in global 3D model coordinates.
#[derive(Clone, Copy, Debug, PartialEq, Eq, Structural)]
pub struct Vector3 {
    pub x: i64,
    pub y: i64,
    pub z: i64,
}

/// A line in surface coordinates, given by origin and direction.
#[derive(Clone, Copy, Debug, PartialEq, Eq, Structural)]
pub struct Line2 {
    pub origin: Point2,
    pub direction: Vector2,
}

/// A line in global coordinates, given by origin and direction.
#[derive(Clone, Copy, Debug, PartialEq, Eq, Structural)]
pub struct Line3 {
    pub origin: Point3,
    pub direction: Vector3,
}

/// A circle in surface coordinates.
#[derive(Clone, Copy, Debug, PartialEq, Eq, Structural)]
pub struct Circle2 {
    pub center: Point2,
    pub radius: i64,
}

/// A circle in global coordinates.
#[derive(Clone, Copy, Debug, PartialEq, Eq, Structural)]
pub struct Circle3 {
    pub center: Point3,
    pub radius: i64,
}

/// The path of a curve in the 2D coordinate system of its surface.
#[derive(Clone, Copy, Debug, PartialEq, Eq, Structural)]
pub enum SurfacePath {
    /// A circle around a center point.
    Circle(Circle2),
    /// A line through an origin with a direction.
    Line(Line2),
}

/// The path that defines one axis of a surface, in global coordinates.
#[derive(Clone, Copy, Debug, PartialEq, Eq, Structural)]
pub enum GlobalPath {
    /// A circle around a center point.
    Circle(Circle3),
    /// A line through an origin with a direction.
    Line(Line3),
}

impl SurfacePath {
    /// A circle of the given radius around the origin of the surface.
    pub fn circle_from_radius(radius: i64) -> (r: SurfacePath)
        ensures
            r == SurfacePath::Circle(Circle2 { center: Point2 { u: 0, v: 0 }, radius }),
    {
        SurfacePath::Circle(Circle2 { center: Point2 { u: 0, v: 0 }, radius })
    }

    /// The line through two points, with the direction from the first to the
    /// second.
    pub fn line_from_points(points: [Point2; 2]) -> (r: SurfacePath)
        requires
            i64::MIN <= points[1].u - points[0].u <= i64::MAX,
            i64::MIN <= points[1].v - points[0].v <= i64::MAX,
        ensures
            r == spec_line_from_points(points[0], points[1]),
    {
        let a = points[0];
        let b = points[1];
        SurfacePath::Line(Line2 {
            origin: a,
            direction: Vector2 { u: b.u - a.u, v: b.v - a.v },
        })
    }
}

/// The surface path that `line_from_points` constructs: the line through
/// `a` whose direction is the difference `b - a`.
pub open spec fn spec_line_from_points(a: Point2, b: Point2) -> SurfacePath {
    SurfacePath::Line(Line2 {
        origin: a,
        direction: Vector2 { u: (b.u - a.u) as i64, v: (b.v - a.v) as i64 },
    })
}

impl GlobalPath {
    /// The origin of the path: the line's origin, or the circle's center.
    pub fn origin(&self) -> (r: Point3)
        ensures
            r == self.spec_origin(),
    {
        match self {
            GlobalPath::Circle(c) => c.center,
            GlobalPath::Line(l) => l.origin,
        }
    }

    /// The origin of the path, as a spec value.
    pub open spec fn spec_origin(self) -> Point3 {
        match self {
            GlobalPath::Circle(c) => c.center,
            GlobalPath::Line(l) => l.origin,
        }
    }
}

/// An affine transform of global coordinates: a linear part (row-major
/// 3-by-3 matrix) followed by a translation.
#[derive(Clone, Copy, Debug, PartialEq, Eq, Structural)]
pub struct Transform {
    pub xx: i64,
    pub xy: i64,
    pub xz: i64,
    pub yx: i64,
    pub yy: i64,
    pub yz: i64,
    pub zx: i64,
    pub zy: i64,
    pub zz: i64,
    pub tx: i64,
    pub ty: i64,
    pub tz: i64,
}

/// Whether all entries of a transform are in coordinate range.
pub open spec fn transform_in_range(t: Transform) -> bool {
    &&& in_coord_range(t.xx) && in_coord_range(t.xy) && in_coord_range(t.xz)
    &&& in_coord_range(t.yx) && in_coord_range(t.yy) && in_coord_range(t.yz)
    &&& in_coord_range(t.zx) && in_coord_range(t.zy) && in_coord_range(t.zz)
    &&& in_coord_range(t.tx) && in_coord_range(t.ty) && in_coord_range(t.tz)
}

/// Whether all coordinates of a 2D point are in coordinate range.
pub open spec fn point2_in_range(p: Point2) -> bool {
    in_coord_range(p.u) && in_coord_range(p.v)
}

/// Whether all coordinates of a 2D vector are in coordinate range.
pub open spec fn vector2_in_range(v: Vector2) -> bool {
    in_coord_range(v.u) && in_coord_range(v.v)
}

/// Whether every coordinate of a surface path is in coordinate range.
pub open spec fn surface_path_in_range(p: SurfacePath) -> bool {
    match p {
        SurfacePath::Circle(c) => point2_in_range(c.center) && in_coord_range(c.radius),
        SurfacePath::Line(l) => point2_in_range(l.origin) && vector2_in_range(l.direction),
    }
}

/// The point reached by walking `t` along a 2D line, per coordinate, over
/// unbounded integers.
pub open spec fn spec_line2_at_u(l: Line2, t: int) -> int {
    l.origin.u + l.direction.u * t
}

/// Second coordinate of the point reached by walking `t` along a 2D line.
pub open spec fn spec_line2_at_v(l: Line2, t: int) -> int {
    l.origin.v + l.direction.v * t
}

/// The point reached by walking `t` along a 2D line, as a point value;
/// faithful when both coordinates are in `i64` range.
pub open spec fn spec_line2_at(l: Line2, t: int) -> Point2 {
    Point2 { u: spec_line2_at_u(l, t) as i64, v: spec_line2_at_v(l, t) as i64 }
}

/// Whether all coordinates of a point are in coordinate range.
pub open spec fn point3_in_range(p: Point3) -> bool {
    in_coord_range(p.x) && in_coord_range(p.y) && in_coord_range(p.z)
}

/// Whether all coordinates of a vector are in coordinate range.
pub open spec fn vector3_in_range(v: Vector3) -> bool {
    in_coord_range(v.x) && in_coord_range(v.y) && in_coord_range(v.z)
}

/// The image of the integer triple `(x, y, z)` under the transform, first
/// coordinate.  Defined over unbounded integers.
pub open spec fn apply_x(t: Transform, x: int, y: int, z: int) -> int {
    t.xx * x + t.xy * y + t.xz * z + t.tx
}

/// The image of the integer triple `(x, y, z)` under the transform, second
/// coordinate.
pub open spec fn apply_y(t: Transform, x: int, y: int, z: int) -> int {
    t.yx * x + t.yy * y + t.yz * z + t.ty
}

/// The image of the integer triple `(x, y, z)` under the transform, third
/// coordinate.
pub open spec fn apply_z(t: Transform, x: int, y: int, z: int) -> int {
    t.zx * x + t.zy * y + t.zz * z + t.tz
}

/// The image of a vector under the linear part of the transform (no
/// translation), per coordinate.
pub open spec fn apply_linear_x(t: Transform, x: int, y: int, z: int) -> int {
    t.xx * x + t.xy * y + t.xz * z
}

/// Second coordinate of the linear image.
pub open spec fn apply_linear_y(t: Transform, x: int, y: int, z: int) -> int {
    t.yx * x + t.yy * y + t.yz * z
}

/// Third coordinate of the linear image.
pub open spec fn apply_linear_z(t: Transform, x: int, y: int, z: int) -> int {
    t.zx * x + t.zy * y + t.zz * z
}

/// Bound on the product of two coordinates in range.
pub proof fn lemma_mul_bound(a: i64, b: i64)
    requires
        in_coord_range(a),
        in_coord_range(b),
    ensures
        -(COORD_LIMIT * COORD_LIMIT) <= a * b <= COORD_LIMIT * COORD_LIMIT,
{
    assert(-(COORD_LIMIT * COORD_LIMIT) <= a * b <= COORD_LIMIT * COORD_LIMIT)
        by (nonlinear_arith)
        requires
            -COORD_LIMIT <= a <= COORD_LIMIT,
            -COORD_LIMIT <= b <= COORD_LIMIT,
    ;
}

impl Transform {
    /// The identity transform.
    pub fn identity() -> (r: Transform)
        ensures
            r == spec_identity(),
    {
        Transform {
            xx: 1, xy: 0, xz: 0,
            yx: 0, yy: 1, yz: 0,
            zx: 0, zy: 0, zz: 1,
            tx: 0, ty: 0, tz: 0,
        }
    }

    /// A pure translation.
    pub fn translation(v: Vector3) -> (r: Transform)
        ensures
            r.xx == 1 && r.xy == 0 && r.xz == 0,
            r.yx == 0 && r.yy == 1 && r.yz == 0,
            r.zx == 0 && r.zy == 0 && r.zz == 1,
            r.tx == v.x && r.ty == v.y && r.tz == v.z,
    {
        Transform {
            xx: 1, xy: 0, xz: 0,
            yx: 0, yy: 1, yz: 0,
            zx: 0, zy: 0, zz: 1,
            tx: v.x, ty: v.y, tz: v.z,
        }
    }

    /// The image of a point under the transform.
    pub fn transform_point(&self, p: &Point3) -> (r: Point3)
        requires
            transform_in_range(*self),
            point3_in_range(*p),
        ensures
            r.x == apply_x(*self, p.x as int, p.y as int, p.z as int),
            r.y == apply_y(*self, p.x as int, p.y as int, p.z as int),
            r.z == apply_z(*self, p.x as int, p.y as int, p.z as int),
    {
        proof {
            lemma_mul_bound(self.xx, p.x);
            lemma_mul_bound(self.xy, p.y);
            lemma_mul_bound(self.xz, p.z);
            lemma_mul_bound(self.yx, p.x);
            lemma_mul_bound(self.yy, p.y);
            lemma_mul_bound(self.yz, p.z);
            lemma_mul_bound(self.zx, p.x);
            lemma_mul_bound(self.zy, p.y);
            lemma_mul_bound(self.zz, p.z);
        }
        Point3 {
            x: self.xx * p.x + self.xy * p.y + self.xz * p.z + self.tx,
            y: self.yx * p.x + self.yy * p.y + self.yz * p.z + self.ty,
            z: self.zx * p.x + self.zy * p.y + self.zz * p.z + self.tz,
        }
    }

    /// The image of a vector under the linear part of the transform.
    /// Translation does not act on vectors.
    pub fn transform_vector(&self, v: &Vector3) -> (r: Vector3)
        requires
            transform_in_range(*self),
            vector3_in_range(*v),
        ensures
            r.x == apply_linear_x(*self, v.x as int, v.y as int, v.z as int),
            r.y == apply_linear_y(*self, v.x as int, v.y as int, v.z as int),
            r.z == apply_linear_z(*self, v.x as int, v.y as int, v.z as int),
    {
        proof {
            lemma_mul_bound(self.xx, v.x);
            lemma_mul_bound(self.xy, v.y);
            lemma_mul_bound(self.xz, v.z);
            lemma_mul_bound(self.yx, v.x);
            lemma_mul_bound(self.yy, v.y);
            lemma_mul_bound(self.yz, v.z);
            lemma_mul_bound(self.zx, v.x);
            lemma_mul_bound(self.zy, v.y);
            lemma_mul_bound(self.zz, v.z);
        }
        Vector3 {
            x: self.xx * v.x + self.xy * v.y + self.xz * v.z,
            y: self.yx * v.x + self.yy * v.y + self.yz * v.z,
            z: self.zx * v.x + self.zy * v.y + self.zz * v.z,
        }
    }
}

/// Whether `tc` is the composition of `t2` after `t1`: applying `tc` means
/// applying `t1` first and `t2` second.
pub open spec fn is_composition(tc: Transform, t2: Transform, t1: Transform) -> bool {
    &&& tc.xx == t2.xx * t1.xx + t2.xy * t1.yx + t2.xz * t1.zx
    &&& tc.xy == t2.xx * t1.xy + t2.xy * t1.yy + t2.xz * t1.zy
    &&& tc.xz == t2.xx * t1.xz + t2.xy * t1.yz + t2.xz * t1.zz
    &&& tc.yx == t2.yx * t1.xx + t2.yy * t1.yx + t2.yz * t1.zx
    &&& tc.yy == t2.yx * t1.xy + t2.yy * t1.yy + t2.yz * t1.zy
    &&& tc.yz == t2.yx * t1.xz + t2.yy * t1.yz + t2.yz * t1.zz
    &&& tc.zx == t2.zx * t1.xx + t2.zy * t1.yx + t2.zz * t1.zx
    &&& tc.zy == t2.zx * t1.xy + t2.zy * t1.yy + t2.zz * t1.zy
    &&& tc.zz == t2.zx * t1.xz + t2.zy * t1.yz + t2.zz * t1.zz
    &&& tc.tx == t2.xx * t1.tx + t2.xy * t1.ty + t2.xz * t1.tz + t2.tx
    &&& tc.ty == t2.yx * t1.tx + t2.yy * t1.ty + t2.yz * t1.tz + t2.ty
    &&& tc.tz == t2.zx * t1.tx + t2.zy * t1.ty + t2.zz * t1.tz + t2.tz
}

impl Transform {
    /// The composition of `self` after `other`: the transform that applies
    /// `other` first and `self` second.
    pub fn compose(&self, other: &Transform) -> (r: Transform)
        requires
            transform_in_range(*self),
            transform_in_range(*other),
        ensures
            is_composition(r, *self, *other),
    {
        proof {
            lemma_mul_bound(self.xx, other.xx);
            lemma_mul_bound(self.xy, other.yx);
            lemma_mul_bound(self.xz, other.zx);
            lemma_mul_bound(self.xx, other.xy);
            lemma_mul_bound(self.xy, other.yy);
            lemma_mul_bound(self.xz, other.zy);
            lemma_mul_bound(self.xx, other.xz);
            lemma_mul_bound(self.xy, other.yz);
            lemma_mul_bound(self.xz, other.zz);
            lemma_mul_bound(self.yx, other.xx);
            lemma_mul_bound(self.yy, other.yx);
            lemma_mul_bound(self.yz, other.zx);
            lemma_mul_bound(self.yx, other.xy);
            lemma_mul_bound(self.yy, other.yy);
            lemma_mul_bound(self.yz, other.zy);
            lemma_mul_bound(self.yx, other.xz);
            lemma_mul_bound(self.yy, other.yz);
            lemma_mul_bound(self.yz, other.zz);
            lemma_mul_bound(self.zx, other.xx);
            lemma_mul_bound(self.zy, other.yx);
            lemma_mul_bound(self.zz, other.zx);
            lemma_mul_bound(self.zx, other.xy);
            lemma_mul_bound(self.zy, other.yy);
            lemma_mul_bound(self.zz, other.zy);
            lemma_mul_bound(self.zx, other.xz);
            lemma_mul_bound(self.zy, other.yz);
            lemma_mul_bound(self.zz, other.zz);
            lemma_mul_bound(self.xx, other.tx);
            lemma_mul_bound(self.xy, other.ty);
            lemma_mul_bound(self.xz, other.tz);
            lemma_mul_bound(self.yx, other.tx);
            lemma_mul_bound(self.yy, other.ty);
            lemma_mul_bound(self.yz, other.tz);
            lemma_mul_bound(self.zx, other.tx);
            lemma_mul_bound(self.zy, other.ty);
            lemma_mul_bound(self.zz, other.tz);
        }
        Transform {
            xx: self.xx * other.xx + self.xy * other.yx + self.xz * other.zx,
            xy: self.xx * other.xy + self.xy * other.yy + self.xz * other.zy,
            xz: self.xx * other.xz + self.xy * other.yz + self.xz * other.zz,
            yx: self.yx * other.xx + self.yy * other.yx + self.yz * other.zx,
            yy: self.yx * other.xy + self.yy * other.yy + self.yz * other.zy,
            yz: self.yx * other.xz + self.yy * other.yz + self.yz * other.zz,
            zx: self.zx * other.xx + self.zy * other.yx + self.zz * other.zx,
            zy: self.zx * other.xy + self.zy * other.yy + self.zz * other.zy,
            zz: self.zx * other.xz + self.zy * other.yz + self.zz * other.zz,
            tx: self.xx * other.tx + self.xy * other.ty + self.xz * other.tz + self.tx,
            ty: self.yx * other.tx + self.yy * other.ty + self.yz * other.tz + self.ty,
            tz: self.zx * other.tx + self.zy * other.ty + self.zz * other.tz + self.tz,
        }
    }
}

/// Applying the composition of two transforms to an integer triple is the
/// same as applying the two transforms one after the other.
pub proof fn lemma_transform_composition(
    tc: Transform,
    t2: Transform,
    t1: Transform,
    x: int,
    y: int,
    z: int,
)
    requires
        is_composition(tc, t2, t1),
    ensures
        apply_x(tc, x, y, z) == apply_x(
            t2,
            apply_x(t1, x, y, z),
            apply_y(t1, x, y, z),
            apply_z(t1, x, y, z),
        ),
        apply_y(tc, x, y, z) == apply_y(
            t2,
            apply_x(t1, x, y, z),
            apply_y(t1, x, y, z),
            apply_z(t1, x, y, z),
        ),
        apply_z(tc, x, y, z) == apply_z(
            t2,
            apply_x(t1, x, y, z),
            apply_y(t1, x, y, z),
            apply_z(t1, x, y, z),
        ),
{
    lemma_row_compose(
        t2.xx as int, t2.xy as int, t2.xz as int, t2.tx as int,
        t1.xx as int, t1.xy as int, t1.xz as int, t1.tx as int,
        t1.yx as int, t1.yy as int, t1.yz as int, t1.ty as int,
        t1.zx as int, t1.zy as int, t1.zz as int, t1.tz as int,
        x, y, z,
    );
    lemma_row_compose(
        t2.yx as int, t2.yy as int, t2.yz as int, t2.ty as int,
        t1.xx as int, t1.xy as int, t1.xz as int, t1.tx as int,
        t1.yx as int, t1.yy as int, t1.yz as int, t1.ty as int,
        t1.zx as int, t1.zy as int, t1.zz as int, t1.tz as int,
        x, y, z,
    );
    lemma_row_compose(
        t2.zx as int, t2.zy as int, t2.zz as int, t2.tz as int,
        t1.xx as int, t1.xy as int, t1.xz as int, t1.tx as int,
        t1.yx as int, t1.yy as int, t1.yz as int, t1.ty as int,
        t1.zx as int, t1.zy as int, t1.zz as int, t1.tz as int,
        x, y, z,
    );
}

/// Applying the composition of two transforms to a vector (the linear
/// parts alone, without translation) is the same as applying the two one
/// after the other.
pub proof fn lemma_transform_linear_composition(
    tc: Transform,
    t2: Transform,
    t1: Transform,
    x: int,
    y: int,
    z: int,
)
    requires
        is_composition(tc, t2, t1),
    ensures
        apply_linear_x(tc, x, y, z) == apply_linear_x(
            t2,
            apply_linear_x(t1, x, y, z),
            apply_linear_y(t1, x, y, z),
            apply_linear_z(t1, x, y, z),
        ),
        apply_linear_y(tc, x, y, z) == apply_linear_y(
            t2,
            apply_linear_x(t1, x, y, z),
            apply_linear_y(t1, x, y, z),
            apply_linear_z(t1, x, y, z),
        ),
        apply_linear_z(tc, x, y, z) == apply_linear_z(
            t2,
            apply_linear_x(t1, x, y, z),
            apply_linear_y(t1, x, y, z),
            apply_linear_z(t1, x, y, z),
        ),
{
    lemma_row_compose(
        t2.xx as int, t2.xy as int, t2.xz as int, 0,
        t1.xx as int, t1.xy as int, t1.xz as int, 0,
        t1.yx as int, t1.yy as int, t1.yz as int, 0,
        t1.zx as int, t1.zy as int, t1.zz as int, 0,
        x, y, z,
    );
    lemma_row_compose(
        t2.yx as int, t2.yy as int, t2.yz as int, 0,
        t1.xx as int, t1.xy as int, t1.xz as int, 0,
        t1.yx as int, t1.yy as int, t1.yz as int, 0,
        t1.zx as int, t1.zy as int, t1.zz as int, 0,
        x, y, z,
    );
    lemma_row_compose(
        t2.zx as int, t2.zy as int, t2.zz as int, 0,
        t1.xx as int, t1.xy as int, t1.xz as int, 0,
        t1.yx as int, t1.yy as int, t1.yz as int, 0,
        t1.zx as int, t1.zy as int, t1.zz as int, 0,
        x, y, z,
    );
}

/// One affine row applied to the image of an affine map, distributed over
/// the coordinates.
proof fn lemma_term_expand(a: int, x1: int, y1: int, z1: int, w1: int, x: int, y: int, z: int)
    ensures
        a * (x1 * x + y1 * y + z1 * z + w1) == (a * x1) * x + (a * y1) * y + (a * z1) * z + a
            * w1,
{
    vstd::arithmetic::mul::lemma_mul_is_distributive_add(a, x1 * x + y1 * y + z1 * z, w1);
    vstd::arithmetic::mul::lemma_mul_is_distributive_add(a, x1 * x + y1 * y, z1 * z);
    vstd::arithmetic::mul::lemma_mul_is_distributive_add(a, x1 * x, y1 * y);
    vstd::arithmetic::mul::lemma_mul_is_associative(a, x1, x);
    vstd::arithmetic::mul::lemma_mul_is_associative(a, y1, y);
    vstd::arithmetic::mul::lemma_mul_is_associative(a, z1, z);
}

/// Ring identity behind transform composition: pushing one affine row
/// through a full affine map distributes over the coordinates.
proof fn lemma_row_compose(
    a: int, b: int, c: int, d: int,
    x1: int, y1: int, z1: int, w1: int,
    x2: int, y2: int, z2: int, w2: int,
    x3: int, y3: int, z3: int, w3: int,
    x: int, y: int, z: int,
)
    ensures
        a * (x1 * x + y1 * y + z1 * z + w1) + b * (x2 * x + y2 * y + z2 * z + w2) + c * (x3 * x
            + y3 * y + z3 * z + w3) + d == (a * x1 + b * x2 + c * x3) * x + (a * y1 + b * y2 + c
            * y3) * y + (a * z1 + b * z2 + c * z3) * z + (a * w1 + b * w2 + c * w3 + d),
{
    lemma_term_expand(a, x1, y1, z1, w1, x, y, z);
    lemma_term_expand(b, x2, y2, z2, w2, x, y, z);
    lemma_term_expand(c, x3, y3, z3, w3, x, y, z);
    vstd::arithmetic::mul::lemma_mul_is_distributive_add_other_way(x, a * x1, b * x2);
    vstd::arithmetic::mul::lemma_mul_is_distributive_add_other_way(x, a * x1 + b * x2, c * x3);
    vstd::arithmetic::mul::lemma_mul_is_distributive_add_other_way(y, a * y1, b * y2);
    vstd::arithmetic::mul::lemma_mul_is_distributive_add_other_way(y, a * y1 + b * y2, c * y3);
    vstd::arithmetic::mul::lemma_mul_is_distributive_add_other_way(z, a * z1, b * z2);
    vstd::arithmetic::mul::lemma_mul_is_distributive_add_other_way(z, a * z1 + b * z2, c * z3);
}

/// The identity transform, as a spec value.
pub open spec fn spec_identity() -> Transform {
    Transform {
        xx: 1, xy: 0, xz: 0,
        yx: 0, yy: 1, yz: 0,
        zx: 0, zy: 0, zz: 1,
        tx: 0, ty: 0, tz: 0,
    }
}

} // verus!
