//! Tests for the partial/full object machinery: merging, updating,
//! building, cycles and transforms.

use fj_core::builder::CurveBuilder;
use fj_core::math::{
    Circle3, GlobalPath, Point2, Point3, SurfacePath, Transform, Vector3,
};
use fj_core::objects::{Face, GlobalVertex, Shell, Surface};
use fj_core::partial::cycle::PartialCycle;
use fj_core::partial::objects::{
    PartialCurve, PartialGlobalEdge, PartialGlobalVertex, PartialHalfEdge, PartialSurfaceVertex,
    PartialVertex,
};
use fj_core::partial::{HasPartial, MaybePartial, PartialObject, ValidationError};
use fj_core::storage::Objects;
use fj_core::transform::TransformObject;

fn plane(objects: &mut Objects) -> fj_core::storage::Handle<Surface> {
    objects.insert(Surface::plane_from_points([
        Point3 { x: 0, y: 0, z: 0 },
        Point3 { x: 1, y: 0, z: 0 },
        Point3 { x: 0, y: 1, z: 0 },
    ]))
}

fn vertex_at(t: i64) -> MaybePartial<fj_core::objects::Vertex> {
    let mut v = PartialVertex::default();
    v.position = Some(t);
    MaybePartial::Partial(v)
}

#[test]
fn merging_two_full_objects_with_same_identity_keeps_the_first() {
    let mut objects = Objects::new();
    let gv = objects.insert(GlobalVertex { position: Point3 { x: 1, y: 2, z: 3 } });

    let merged = MaybePartial::<GlobalVertex>::Full(gv).merge_with(MaybePartial::Full(gv));

    assert!(merged.is_full());
    match merged {
        MaybePartial::Full(h) => assert_eq!(h.id(), gv.id()),
        MaybePartial::Partial(_) => panic!("merge of two full objects must be full"),
    }
}

#[test]
fn merging_full_with_partial_keeps_the_full_object() {
    let mut objects = Objects::new();
    let gv = objects.insert(GlobalVertex { position: Point3 { x: 1, y: 2, z: 3 } });

    let partial = MaybePartial::Partial(PartialGlobalVertex {
        position: Some(Point3 { x: 9, y: 9, z: 9 }),
    });
    let merged = partial.merge_with(MaybePartial::Full(gv));

    match merged {
        MaybePartial::Full(h) => assert_eq!(h.id(), gv.id()),
        MaybePartial::Partial(_) => panic!("the full side must win"),
    }
}

#[test]
fn merging_two_partials_keeps_the_first_present_field() {
    let mut objects = Objects::new();
    let surface = plane(&mut objects);

    let a = PartialCurve::default().update_as_u_axis();
    let b = PartialCurve::default().with_surface(Some(surface));
    let merged = a.merge_with(b);

    assert!(merged.path().is_some());
    assert_eq!(merged.surface().map(|s| s.id()), Some(surface.id()));

    let c = PartialCurve::default().update_as_circle_from_radius(5);
    let first_wins = c.merge_with(PartialCurve::default().update_as_u_axis());
    assert_eq!(
        first_wins.path(),
        Some(SurfacePath::circle_from_radius(5)),
    );
}

#[test]
fn update_partial_on_a_full_object_is_a_no_op() {
    let mut objects = Objects::new();
    let gv = objects.insert(GlobalVertex { position: Point3 { x: 1, y: 2, z: 3 } });

    let updated = MaybePartial::<GlobalVertex>::Full(gv).update_partial(|_| {
        PartialGlobalVertex { position: Some(Point3 { x: 9, y: 9, z: 9 }) }
    });

    match updated {
        MaybePartial::Full(h) => {
            assert_eq!(h.id(), gv.id());
            assert_eq!(h.get().position(), Point3 { x: 1, y: 2, z: 3 });
        }
        MaybePartial::Partial(_) => panic!("a full object must stay full"),
    }
}

#[test]
fn update_partial_applies_to_a_partial_object() {
    let updated = MaybePartial::<GlobalVertex>::Partial(PartialGlobalVertex::default())
        .update_partial(|p| p.with_position(Some(Point3 { x: 4, y: 5, z: 6 })));

    match updated {
        MaybePartial::Partial(p) => {
            assert_eq!(p.position(), Some(Point3 { x: 4, y: 5, z: 6 }))
        }
        MaybePartial::Full(_) => panic!("a partial object must stay partial"),
    }
}

#[test]
fn into_full_on_a_full_object_returns_it_unchanged() {
    let mut objects = Objects::new();
    let gv = objects.insert(GlobalVertex { position: Point3 { x: 1, y: 2, z: 3 } });
    let before = objects.count();

    let h = MaybePartial::Full(gv).into_full(&mut objects).unwrap();

    assert_eq!(h.id(), gv.id());
    assert_eq!(objects.count(), before);
}

#[test]
fn circle_builder_yields_a_circle_curve() {
    let mut objects = Objects::new();
    let surface = plane(&mut objects);

    let partial = PartialCurve::default()
        .update_as_circle_from_radius(5)
        .with_surface(Some(surface));
    let curve = partial.build(&mut objects).unwrap();

    match curve.path() {
        SurfacePath::Circle(c) => {
            assert_eq!(c.center, Point2 { u: 0, v: 0 });
            assert_eq!(c.radius, 5);
        }
        SurfacePath::Line(_) => panic!("the curve must be a circle"),
    }
    assert_eq!(curve.surface().id(), surface.id());
}

#[test]
fn building_and_downgrading_round_trips_the_set_fields() {
    let mut objects = Objects::new();
    let surface = plane(&mut objects);

    let partial = PartialCurve::default()
        .update_as_circle_from_radius(5)
        .with_surface(Some(surface));
    let h = MaybePartial::<fj_core::objects::Curve>::Partial(partial).into_full(&mut objects).unwrap();
    let back = h.get().to_partial();

    assert_eq!(back.path(), Some(SurfacePath::circle_from_radius(5)));
    assert_eq!(back.surface().map(|s| s.id()), Some(surface.id()));
}

#[test]
fn missing_fields_are_reported_as_validation_errors() {
    let mut objects = Objects::new();
    let surface = plane(&mut objects);

    assert_eq!(
        PartialCurve::default()
            .with_surface(Some(surface))
            .build(&mut objects)
            .unwrap_err(),
        ValidationError::MissingPath,
    );
    assert_eq!(
        PartialCurve::default()
            .update_as_u_axis()
            .build(&mut objects)
            .unwrap_err(),
        ValidationError::MissingSurface,
    );
    assert_eq!(
        PartialGlobalVertex::default().build(&mut objects).unwrap_err(),
        ValidationError::MissingPosition,
    );
    assert_eq!(
        PartialGlobalEdge::default().build(&mut objects).unwrap_err(),
        ValidationError::MissingVertices,
    );
}

#[test]
fn surface_vertex_infers_its_global_position() {
    let mut objects = Objects::new();
    let surface = plane(&mut objects);

    let partial = PartialSurfaceVertex::default()
        .with_position(Some(Point2 { u: 2, v: 4 }))
        .with_surface(Some(surface));
    let sv = partial.build(&mut objects).unwrap();

    assert_eq!(sv.global_form().get().position(), Point3 { x: 2, y: 4, z: 0 });
}

#[test]
fn surface_vertex_with_conflicting_global_position_is_rejected() {
    let mut objects = Objects::new();
    let surface = plane(&mut objects);
    let wrong = objects.insert(GlobalVertex { position: Point3 { x: 9, y: 9, z: 9 } });

    let partial = PartialSurfaceVertex::default()
        .with_position(Some(Point2 { u: 2, v: 4 }))
        .with_surface(Some(surface))
        .with_global_form(Some(MaybePartial::Full(wrong)));

    assert_eq!(
        partial.build(&mut objects).unwrap_err(),
        ValidationError::Mismatch,
    );
}

#[test]
fn circular_sweep_cannot_infer_a_global_position() {
    let mut objects = Objects::new();
    let surface = objects.insert(Surface::new(
        GlobalPath::Circle(Circle3 { center: Point3 { x: 0, y: 0, z: 0 }, radius: 5 }),
        Vector3 { x: 0, y: 0, z: 1 },
    ));

    let partial = PartialSurfaceVertex::default()
        .with_position(Some(Point2 { u: 1, v: 1 }))
        .with_surface(Some(surface));

    assert_eq!(
        partial.build(&mut objects).unwrap_err(),
        ValidationError::NonLinearPath,
    );
}

#[test]
fn cycle_build_links_consecutive_half_edges() {
    let mut objects = Objects::new();
    let surface = plane(&mut objects);

    let curve = MaybePartial::Partial(
        PartialCurve::default().update_as_u_axis().with_surface(Some(surface)),
    );
    let mut e0 = PartialHalfEdge::default();
    e0.curve = curve;
    e0.vertices = [vertex_at(0), vertex_at(1)];
    // The front vertex of the last half-edge seeds the loop's linkage, so
    // its surface form carries an explicit position.
    let mut closing_front = PartialVertex::default();
    closing_front.position = Some(0);
    closing_front.surface_form = MaybePartial::Partial(
        PartialSurfaceVertex::default().with_position(Some(Point2 { u: 0, v: 0 })),
    );
    let mut e1 = PartialHalfEdge::default();
    e1.curve = curve;
    e1.vertices = [vertex_at(1), MaybePartial::Partial(closing_front)];

    let cycle = PartialCycle::default()
        .with_half_edges(vec![MaybePartial::Partial(e0), MaybePartial::Partial(e1)]);
    let handle = cycle.build(&mut objects).unwrap();

    let edges = handle.get().half_edges();
    assert_eq!(edges.len(), 2);
    let front0 = edges[0].get().front().get().surface_form().id();
    let back1 = edges[1].get().back().get().surface_form().id();
    assert_eq!(front0, back1);
    let front1 = edges[1].get().front().get().surface_form().id();
    let back0 = edges[0].get().back().get().surface_form().id();
    assert_eq!(front1, back0);
}

#[test]
fn cycle_build_rejects_an_unclosed_cycle() {
    let mut objects = Objects::new();
    let surface = plane(&mut objects);

    let curve = MaybePartial::Partial(
        PartialCurve::default().update_as_u_axis().with_surface(Some(surface)),
    );
    let mut e0 = PartialHalfEdge::default();
    e0.curve = curve;
    e0.vertices = [vertex_at(0), vertex_at(1)];

    // The second half-edge ends at a surface vertex that is deliberately
    // somewhere else entirely, so the loop cannot close.
    let mut inconsistent_front = PartialVertex::default();
    inconsistent_front.position = Some(0);
    inconsistent_front.surface_form = MaybePartial::Partial(
        PartialSurfaceVertex::default().with_position(Some(Point2 { u: 9, v: 9 })),
    );
    let mut e1 = PartialHalfEdge::default();
    e1.curve = curve;
    e1.vertices = [vertex_at(1), MaybePartial::Partial(inconsistent_front)];

    let cycle = PartialCycle::default()
        .with_half_edges(vec![MaybePartial::Partial(e0), MaybePartial::Partial(e1)]);

    let before = objects.count();
    assert_eq!(
        cycle.build(&mut objects).unwrap_err(),
        ValidationError::Mismatch,
    );
    // The failed attempt left the store untouched: no object was inserted.
    assert_eq!(objects.count(), before);
}

#[test]
fn cycle_merge_keeps_the_side_that_carries_half_edges() {
    let mut e0 = PartialHalfEdge::default();
    e0.vertices = [vertex_at(0), vertex_at(1)];
    let with_edges = PartialCycle::default()
        .with_half_edges(vec![MaybePartial::Partial(e0)]);

    let merged = with_edges.merge_with(PartialCycle::default());
    assert_eq!(merged.half_edges().len(), 1);

    let mut e1 = PartialHalfEdge::default();
    e1.vertices = [vertex_at(2), vertex_at(3)];
    let other = PartialCycle::default()
        .with_half_edges(vec![MaybePartial::Partial(e1)]);
    let merged2 = PartialCycle::default().merge_with(other);
    assert_eq!(merged2.half_edges().len(), 1);
}

#[test]
fn transform_composition_agrees_with_sequential_transforms() {
    let t1 = Transform::translation(Vector3 { x: 1, y: 2, z: 3 });
    let t2 = Transform::translation(Vector3 { x: 10, y: 0, z: 0 });
    let tc = t2.compose(&t1);

    let p = Point3 { x: 5, y: 6, z: 7 };
    assert_eq!(
        t2.transform_point(&t1.transform_point(&p)),
        tc.transform_point(&p),
    );
    assert_eq!(tc.transform_point(&p), Point3 { x: 16, y: 8, z: 10 });
}

#[test]
fn transforming_a_vertex_keeps_its_local_positions() {
    let mut objects = Objects::new();
    let t = Transform::translation(Vector3 { x: 100, y: 0, z: 0 });

    let mut pv = PartialVertex::default();
    pv.position = Some(7);
    let transformed = pv.transform(&t, &mut objects).unwrap();
    assert_eq!(transformed.position(), Some(7));

    let psv = PartialSurfaceVertex::default().with_position(Some(Point2 { u: 3, v: 4 }));
    let transformed_sv = psv.transform(&t, &mut objects).unwrap();
    assert_eq!(transformed_sv.position(), Some(Point2 { u: 3, v: 4 }));
}

#[test]
fn transforming_a_global_vertex_moves_its_position() {
    let mut objects = Objects::new();
    let t = Transform::translation(Vector3 { x: 10, y: 20, z: 30 });

    let pgv = PartialGlobalVertex::default().with_position(Some(Point3 { x: 1, y: 2, z: 3 }));
    let transformed = pgv.transform(&t, &mut objects).unwrap();

    assert_eq!(transformed.position(), Some(Point3 { x: 11, y: 22, z: 33 }));
}

#[test]
fn shell_deduplicates_faces_by_identity() {
    let mut objects = Objects::new();
    let surface = plane(&mut objects);
    let face = objects.insert(Face { surface });
    let other = objects.insert(Face { surface });

    let shell = Shell::new(vec![face, face, other]);
    assert_eq!(shell.faces().len(), 2);
    assert!(shell.find_face(&face).is_some());

    let built = Shell::builder().with_face(face).with_face(face).build();
    assert_eq!(built.faces().len(), 1);

    let unknown = objects.insert(Face { surface });
    assert!(built.find_face(&unknown).is_none());
}

#[test]
fn mesh_deduplicates_shared_vertices() {
    let normal = fj_core::math::Vector3 { x: 0, y: 0, z: 1 };
    let a = fj_core::mesh::Vertex { position: Point3 { x: 0, y: 0, z: 0 }, normal };
    let b = fj_core::mesh::Vertex { position: Point3 { x: 1, y: 0, z: 0 }, normal };
    let c = fj_core::mesh::Vertex { position: Point3 { x: 0, y: 1, z: 0 }, normal };
    let d = fj_core::mesh::Vertex { position: Point3 { x: 1, y: 1, z: 0 }, normal };

    let mut mesh = fj_core::mesh::Mesh::new();
    mesh.triangle(a, b, c);
    mesh.triangle(b, d, c);

    assert_eq!(mesh.vertices().len(), 4);
    assert_eq!(mesh.indices().len(), 6);
    for index in mesh.indices() {
        let vertex = mesh.vertices()[index.value() as usize];
        assert_eq!(vertex.normal, normal);
    }
    assert_eq!(mesh.indices()[1].value(), mesh.indices()[3].value());
    assert_eq!(mesh.indices()[2].value(), mesh.indices()[5].value());
}

#[test]
fn transforming_a_surface_vertex_twice_equals_the_composition_geometrically() {
    let t1 = Transform::translation(Vector3 { x: 1, y: 2, z: 3 });
    let t2 = Transform::translation(Vector3 { x: 10, y: 0, z: 0 });
    let tc = t2.compose(&t1);

    let mut objects_a = Objects::new();
    let surface = plane(&mut objects_a);
    let psv = PartialSurfaceVertex::default()
        .with_position(Some(Point2 { u: 3, v: 4 }))
        .with_surface(Some(surface))
        .with_global_form(Some(MaybePartial::Partial(
            PartialGlobalVertex::default().with_position(Some(Point3 { x: 3, y: 4, z: 0 })),
        )));

    let twice = psv
        .transform(&t1, &mut objects_a)
        .unwrap()
        .transform(&t2, &mut objects_a)
        .unwrap();
    let mut objects_b = Objects::new();
    let once = psv.transform(&tc, &mut objects_b).unwrap();

    // The geometric fields agree exactly; only handle identities may
    // differ between the two routes.
    assert_eq!(twice.position(), once.position());
    let sa = twice.surface().unwrap();
    let sb = once.surface().unwrap();
    assert_eq!(sa.get().u(), sb.get().u());
    assert_eq!(sa.get().v(), sb.get().v());
    match (twice.global_form(), once.global_form()) {
        (MaybePartial::Partial(ga), MaybePartial::Partial(gb)) => {
            assert_eq!(ga.position(), gb.position());
            assert_eq!(ga.position(), Some(Point3 { x: 14, y: 6, z: 3 }));
        }
        _ => panic!("both global forms must still be partial"),
    }
}
