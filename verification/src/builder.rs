//! Fluent builders that fill a partial object's fields from simple
//! geometric inputs.

use vstd::prelude::*;
use crate::math::{Circle2, Line2, Point2, SurfacePath, Vector2};
use crate::partial::objects::PartialCurve;

verus! {

/// Builder methods for [`PartialCurve`].
///
/// Each method consumes the builder and returns it with the path field set;
/// everything else — surface, global form — is left for later merge and
/// build steps to infer.  Builder methods never fail; geometric degeneracy
/// surfaces at validation, not here.
pub trait CurveBuilder: Sized {
    /// The path field of this builder.
    spec fn path_field(self) -> Option<SurfacePath>;

    /// This builder with its path field set to the given path.
    spec fn with_path_set(self, path: SurfacePath) -> Self;

    /// Update the partial curve to represent the u-axis of its surface.
    fn update_as_u_axis(self) -> (r: Self)
        ensures
            r == self.with_path_set(
                SurfacePath::Line(
                    Line2 {
                        origin: Point2 { u: 0, v: 0 },
                        direction: Vector2 { u: 1, v: 0 },
                    },
                ),
            ),
    ;

    /// Update the partial curve to represent the v-axis of its surface.
    fn update_as_v_axis(self) -> (r: Self)
        ensures
            r == self.with_path_set(
                SurfacePath::Line(
                    Line2 {
                        origin: Point2 { u: 0, v: 0 },
                        direction: Vector2 { u: 0, v: 1 },
                    },
                ),
            ),
    ;

    /// Update the partial curve to be a circle of the given radius around
    /// the origin of its surface.
    fn update_as_circle_from_radius(self, radius: i64) -> (r: Self)
        ensures
            r == self.with_path_set(
                SurfacePath::Circle(Circle2 { center: Point2 { u: 0, v: 0 }, radius }),
            ),
    ;

    /// Update the partial curve to be the line through the two given points,
    /// directed from the first towards the second.
    fn update_as_line_from_points(self, points: [Point2; 2]) -> (r: Self)
        requires
            i64::MIN <= points[1].u - points[0].u <= i64::MAX,
            i64::MIN <= points[1].v - points[0].v <= i64::MAX,
        ensures
            r == self.with_path_set(crate::math::spec_line_from_points(points[0], points[1])),
    ;
}

impl CurveBuilder for PartialCurve {
    open spec fn path_field(self) -> Option<SurfacePath> {
        self.path
    }

    open spec fn with_path_set(self, path: SurfacePath) -> Self {
        PartialCurve { path: Some(path), ..self }
    }

    fn update_as_u_axis(self) -> (r: Self) {
        let a = Point2 { u: 0, v: 0 };
        let b = Point2 { u: 1, v: 0 };
        self.update_as_line_from_points([a, b])
    }

    fn update_as_v_axis(self) -> (r: Self) {
        let a = Point2 { u: 0, v: 0 };
        let b = Point2 { u: 0, v: 1 };
        self.update_as_line_from_points([a, b])
    }

    fn update_as_circle_from_radius(self, radius: i64) -> (r: Self) {
        self.with_path(Some(SurfacePath::circle_from_radius(radius)))
    }

    fn update_as_line_from_points(self, points: [Point2; 2]) -> (r: Self) {
        self.with_path(Some(SurfacePath::line_from_points(points)))
    }
}

} // verus!
