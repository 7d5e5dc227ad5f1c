//! Tests for surfaces and their coordinate conversions.

use fj_core::math::{GlobalPath, Line3, Point2, Point3, Vector2, Vector3};
use fj_core::objects::Surface;

#[test]
fn point_from_surface_coords() {
    let swept = Surface::new(
        GlobalPath::Line(Line3 {
            origin: Point3 { x: 1, y: 1, z: 1 },
            direction: Vector3 { x: 0, y: 2, z: 0 },
        }),
        Vector3 { x: 0, y: 0, z: 2 },
    );

    assert_eq!(
        swept.point_from_surface_coords(Point2 { u: 2, v: 4 }),
        Point3 { x: 1, y: 5, z: 9 },
    );
}

#[test]
fn vector_from_surface_coords() {
    let swept = Surface::new(
        GlobalPath::Line(Line3 {
            origin: Point3 { x: 1, y: 0, z: 0 },
            direction: Vector3 { x: 0, y: 2, z: 0 },
        }),
        Vector3 { x: 0, y: 0, z: 2 },
    );

    assert_eq!(
        swept.vector_from_surface_coords(Vector2 { u: 2, v: 4 }),
        Vector3 { x: 0, y: 4, z: 8 },
    );
}

#[test]
fn plane_from_points_gives_axes_and_evaluates() {
    let plane = Surface::plane_from_points([
        Point3 { x: 0, y: 0, z: 0 },
        Point3 { x: 1, y: 0, z: 0 },
        Point3 { x: 0, y: 1, z: 0 },
    ]);

    match plane.u() {
        GlobalPath::Line(l) => {
            assert_eq!(l.origin, Point3 { x: 0, y: 0, z: 0 });
            assert_eq!(l.direction, Vector3 { x: 1, y: 0, z: 0 });
        }
        GlobalPath::Circle(_) => panic!("plane must sweep along a line"),
    }
    assert_eq!(plane.v(), Vector3 { x: 0, y: 1, z: 0 });

    assert_eq!(
        plane.point_from_surface_coords(Point2 { u: 2, v: 4 }),
        Point3 { x: 2, y: 4, z: 0 },
    );
}
