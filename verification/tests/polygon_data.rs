//! Tests for the polygon edge-set bookkeeping.

use fj_core::polygon::{Pnt2, PolygonData, Seg2, Vertices};

#[test]
fn insert_edge_should_update_vertices() {
    let mut data = PolygonData::new();

    let a = Pnt2::new(0, 0);
    let b = Pnt2::new(1, 0);

    assert_eq!(data.contains_vertex(&a), false);
    assert_eq!(data.contains_vertex(&b), false);

    data.insert_edge(Seg2::new(a, b));

    assert_eq!(data.contains_vertex(&a), true);
    assert_eq!(data.contains_vertex(&b), true);
}

#[test]
fn insert_edge_should_update_edge_counts() {
    let mut data = PolygonData::new();

    let a = Pnt2::new(0, 0);
    let b = Pnt2::new(1, 0);

    data.insert_edge(Seg2::new(a, b));

    assert_eq!(data.outgoing_edges(&a).unwrap(), 1);
    assert_eq!(data.outgoing_edges(&b).unwrap(), 0);
    assert_eq!(data.incoming_edges(&a).unwrap(), 0);
    assert_eq!(data.incoming_edges(&b).unwrap(), 1);

    data.insert_edge(Seg2::new(b, a));

    assert_eq!(data.outgoing_edges(&a).unwrap(), 1);
    assert_eq!(data.outgoing_edges(&b).unwrap(), 1);
    assert_eq!(data.incoming_edges(&a).unwrap(), 1);
    assert_eq!(data.incoming_edges(&b).unwrap(), 1);
}

#[test]
fn retain_edges_should_update_vertices() {
    let mut data = PolygonData::new();

    let a = Pnt2::new(0, 0);
    let b = Pnt2::new(1, 0);
    let c = Pnt2::new(0, 1);

    let ab = Seg2::new(a, b);
    let bc = Seg2::new(b, c);

    data.insert_edge(ab);
    data.insert_edge(bc);

    data.retain_edges(|&edge| edge == ab);

    assert_eq!(data.contains_vertex(&a), true);
    assert_eq!(data.contains_vertex(&b), true);
    assert_eq!(data.contains_vertex(&c), false);
}

#[test]
fn retain_edges_should_update_edge_counts() {
    let mut data = PolygonData::new();

    let a = Pnt2::new(0, 0);
    let b = Pnt2::new(1, 0);

    let ab = Seg2::new(a, b);
    let ba = Seg2::new(b, a);

    data.insert_edge(ab);
    data.insert_edge(ba);

    // Keep a -> b
    data.retain_edges(|&edge| edge == ab);

    assert_eq!(data.outgoing_edges(&a).unwrap(), 1);
    assert_eq!(data.outgoing_edges(&b).unwrap(), 0);
    assert_eq!(data.incoming_edges(&a).unwrap(), 0);
    assert_eq!(data.incoming_edges(&b).unwrap(), 1);

    // Remove the last remaining edge
    data.retain_edges(|_| false);

    assert_eq!(data.outgoing_edges(&a), None);
    assert_eq!(data.outgoing_edges(&b), None);
    assert_eq!(data.incoming_edges(&a), None);
    assert_eq!(data.incoming_edges(&b), None);
}

#[test]
fn vertices_count_up_and_down() {
    let mut vertices = Vertices::new();
    let a = Pnt2::new(3, 4);

    vertices.up(a);
    vertices.up(a);

    assert_eq!(vertices.down(a), false);
    assert_eq!(vertices.down(a), true);
}

#[test]
fn duplicate_edges_are_inserted_once() {
    let mut data = PolygonData::new();

    let a = Pnt2::new(0, 0);
    let b = Pnt2::new(1, 0);
    let ab = Seg2::new(a, b);

    data.insert_edge(ab);
    data.insert_edge(ab);

    assert_eq!(data.edges().len(), 1);
    assert_eq!(data.outgoing_edges(&a).unwrap(), 1);
}

#[test]
fn retain_edges_keeps_the_surviving_order() {
    let mut data = PolygonData::new();

    let a = Pnt2::new(0, 0);
    let b = Pnt2::new(1, 0);
    let c = Pnt2::new(0, 1);

    let ab = Seg2::new(a, b);
    let bc = Seg2::new(b, c);
    let ca = Seg2::new(c, a);

    data.insert_edge(ab);
    data.insert_edge(bc);
    data.insert_edge(ca);

    data.retain_edges(|&edge| edge != bc);

    assert_eq!(data.edges().as_slice(), &[ab, ca]);
}
