use geo_bevy::geometry::{
    Coord, Geometry, GeometryCollection, Line, LineString, MultiPoint, Polygon, Rect,
};
use geo_bevy::mesh::{Mesh, PrimitiveTopology};
use geo_bevy::polygon::{EarcutrInput, PolygonMesh, PolygonMeshBuilder, Triangulation};
use geo_bevy::{
    geometry_collection_to_mesh, geometry_to_mesh, line_string_to_mesh, line_to_mesh,
    point_to_mesh, polygon_to_mesh, rect_to_mesh, Error, GeometryMesh,
};

fn c(x: f64, y: f64) -> Coord {
    Coord { x: (x as f32).to_bits(), y: (y as f32).to_bits() }
}

fn run_earcut(input: &EarcutrInput) -> Option<Triangulation> {
    let flat: Vec<f64> = input.vertices.iter().map(|b| f32::from_bits(*b) as f64).collect();
    match earcutr::earcut(&flat, &input.interior_indices, 2) {
        Ok(triangle_indices) => Some(Triangulation {
            vertices: input.vertices.clone(),
            triangle_indices,
        }),
        Err(_) => None,
    }
}

fn polygon_outcome(polygon: &Polygon) -> Option<Triangulation> {
    run_earcut(&PolygonMeshBuilder::polygon_to_earcutr_input(polygon))
}

fn positions_of(mesh: &Mesh) -> Vec<(f32, f32)> {
    mesh.positions.iter().map(|v| (f32::from_bits(v.x), f32::from_bits(v.y))).collect()
}

fn assert_indices_valid(mesh: &Mesh) {
    for i in &mesh.indices {
        assert!((*i as usize) < mesh.positions.len());
    }
}

#[test]
fn round_trip_preserves_order() {
    let input = vec![c(3.5, -1.0), c(0.0, 2.25), c(-7.0, 8.5), c(1.0, 1.0)];
    let mesh = line_string_to_mesh(&LineString(input.clone())).unwrap();
    assert_eq!(mesh.positions.len(), input.len());
    for (k, coord) in input.iter().enumerate() {
        assert_eq!(mesh.positions[k].x, coord.x);
        assert_eq!(mesh.positions[k].y, coord.y);
        assert_eq!(mesh.positions[k].z, 0);
    }
}

#[test]
fn round_trip_keeps_closed_ring_order() {
    let input = vec![c(0.0, 0.0), c(1.0, 0.0), c(1.0, 1.0), c(0.0, 0.0)];
    let mesh = line_string_to_mesh(&LineString(input.clone())).unwrap();
    let got = positions_of(&mesh);
    assert_eq!(got, vec![(0.0, 0.0), (1.0, 0.0), (1.0, 1.0), (0.0, 0.0)]);
}

#[test]
fn indices_are_valid_in_every_finalized_mesh() {
    let polygon = Polygon {
        exterior: LineString(vec![c(0.0, 0.0), c(1.0, 0.0), c(1.0, 1.0), c(0.0, 1.0)]),
        interiors: vec![LineString(vec![
            c(0.25, 0.25),
            c(0.75, 0.25),
            c(0.75, 0.75),
            c(0.25, 0.75),
        ])],
    };
    let outcome = polygon_outcome(&polygon);
    let PolygonMesh { mesh, exterior_mesh, interior_meshes } =
        polygon_to_mesh(&polygon, outcome).unwrap();
    assert_indices_valid(&mesh);
    assert_indices_valid(&exterior_mesh);
    for m in &interior_meshes {
        assert_indices_valid(m);
    }
    let line = line_to_mesh(&Line { start: c(0.0, 0.0), end: c(2.0, 3.0) }).unwrap();
    assert_indices_valid(&line);
}

#[test]
fn hole_offsets_are_vertex_counts_and_strictly_increasing() {
    let square = |ox: f64, oy: f64, s: f64| {
        LineString(vec![
            c(ox, oy),
            c(ox + s, oy),
            c(ox + s, oy + s),
            c(ox, oy + s),
            c(ox, oy),
        ])
    };
    let polygon = Polygon {
        exterior: square(0.0, 0.0, 10.0),
        interiors: vec![square(1.0, 1.0, 2.0), square(5.0, 5.0, 2.0)],
    };
    let input = PolygonMeshBuilder::polygon_to_earcutr_input(&polygon);
    assert_eq!(input.interior_indices.len(), 2);
    assert_eq!(input.interior_indices, vec![5, 10]);
    assert!(input.interior_indices[0] < input.interior_indices[1]);
    assert_eq!(input.vertices.len(), 30);
}

#[test]
fn empty_multi_point_yields_no_output() {
    let g = Geometry::MultiPoint(MultiPoint(vec![]));
    let out = geometry_to_mesh(&g, vec![]).unwrap();
    assert_eq!(out.len(), 0);
}

#[test]
fn empty_geometry_collection_yields_empty_sequence() {
    let gc = GeometryCollection(vec![]);
    let out = geometry_collection_to_mesh(&gc, vec![]).unwrap();
    assert_eq!(out.len(), 0);
}

#[test]
fn degenerate_polyline_contributes_vertices_but_no_indices() {
    let mesh = line_string_to_mesh(&LineString(vec![c(4.0, 5.0)])).unwrap();
    assert_eq!(mesh.positions.len(), 1);
    assert_eq!(mesh.indices.len(), 0);
}

#[test]
fn unit_square_with_centered_hole() {
    let exterior = vec![c(0.0, 0.0), c(1.0, 0.0), c(1.0, 1.0), c(0.0, 1.0)];
    let interior = vec![c(0.25, 0.25), c(0.75, 0.25), c(0.75, 0.75), c(0.25, 0.75)];
    let polygon = Polygon {
        exterior: LineString(exterior.clone()),
        interiors: vec![LineString(interior.clone())],
    };
    let outcome = polygon_outcome(&polygon);
    let PolygonMesh { mesh, exterior_mesh, interior_meshes } =
        polygon_to_mesh(&polygon, outcome).unwrap();

    assert_eq!(mesh.positions.len(), 8);
    assert!(mesh.indices.len() / 3 >= 8);
    assert_eq!(mesh.indices.len() % 3, 0);

    let expected_exterior: Vec<(f32, f32)> =
        exterior.iter().map(|p| (f32::from_bits(p.x), f32::from_bits(p.y))).collect();
    assert_eq!(positions_of(&exterior_mesh), expected_exterior);

    assert_eq!(interior_meshes.len(), 1);
    let expected_interior: Vec<(f32, f32)> =
        interior.iter().map(|p| (f32::from_bits(p.x), f32::from_bits(p.y))).collect();
    assert_eq!(positions_of(&interior_meshes[0]), expected_interior);
}

#[test]
fn single_line_gives_two_vertices_and_one_index_pair() {
    let mesh = line_to_mesh(&Line { start: c(0.0, 0.0), end: c(1.0, 0.0) }).unwrap();
    assert_eq!(mesh.positions.len(), 2);
    assert_eq!(mesh.indices, vec![0, 1]);
    assert_eq!(mesh.topology, PrimitiveTopology::LineList);
}

#[test]
fn rect_converts_like_the_equivalent_polygon() {
    let rect = Rect { min: c(0.0, 0.0), max: c(1.0, 1.0) };
    let equivalent = rect.to_polygon();

    let rect_mesh = rect_to_mesh(&rect, polygon_outcome(&rect.to_polygon())).unwrap();
    let poly_mesh = polygon_to_mesh(&equivalent, polygon_outcome(&equivalent)).unwrap();

    assert_eq!(rect_mesh.mesh.positions, poly_mesh.mesh.positions);
    assert_eq!(rect_mesh.mesh.indices, poly_mesh.mesh.indices);
    assert_eq!(rect_mesh.exterior_mesh.positions, poly_mesh.exterior_mesh.positions);
    assert_eq!(rect_mesh.exterior_mesh.indices, poly_mesh.exterior_mesh.indices);
    assert_eq!(rect_mesh.interior_meshes.len(), 0);
    assert_eq!(poly_mesh.interior_meshes.len(), 0);
}

#[test]
fn degenerate_ring_is_rejected() {
    let polygon = Polygon {
        exterior: LineString(vec![c(0.0, 0.0), c(1.0, 0.0), c(1.0, 1.0)]),
        interiors: vec![],
    };
    match polygon_to_mesh(&polygon, None) {
        Err(Error::DegenerateRing) => {},
        _ => panic!("expected a short ring to be rejected"),
    }
}

#[test]
fn triangulator_failure_is_reported() {
    let polygon = Polygon {
        exterior: LineString(vec![c(0.0, 0.0), c(1.0, 0.0), c(1.0, 1.0), c(0.0, 1.0)]),
        interiors: vec![],
    };
    match polygon_to_mesh(&polygon, None) {
        Err(Error::Triangulation) => {},
        _ => panic!("expected the triangulator's failure to be reported"),
    }
}

#[test]
fn malformed_triangulation_is_rejected() {
    let polygon = Polygon {
        exterior: LineString(vec![c(0.0, 0.0), c(1.0, 0.0), c(1.0, 1.0), c(0.0, 1.0)]),
        interiors: vec![],
    };
    let odd = Triangulation { vertices: vec![0, 0, 0], triangle_indices: vec![] };
    match polygon_to_mesh(&polygon, Some(odd)) {
        Err(Error::Triangulation) => {},
        _ => panic!("expected an odd scalar buffer to be rejected"),
    }
    let out_of_range = Triangulation { vertices: vec![0, 0, 0, 0], triangle_indices: vec![0, 1, 2] };
    match polygon_to_mesh(&polygon, Some(out_of_range)) {
        Err(Error::Triangulation) => {},
        _ => panic!("expected an out-of-range index to be rejected"),
    }
}

#[test]
fn empty_line_string_is_empty_geometry() {
    match line_string_to_mesh(&LineString(vec![])) {
        Err(Error::EmptyGeometry) => {},
        _ => panic!("expected an empty polyline to be an error at this entry point"),
    }
}

#[test]
fn point_to_mesh_returns_the_point() {
    let ps = point_to_mesh(c(2.5, -3.0));
    assert_eq!(ps.len(), 1);
    assert_eq!(f32::from_bits(ps[0].x), 2.5);
    assert_eq!(f32::from_bits(ps[0].y), -3.0);
}

#[test]
fn mixed_collection_assembles_in_fixed_order() {
    let polygon = Polygon {
        exterior: LineString(vec![c(0.0, 0.0), c(1.0, 0.0), c(1.0, 1.0), c(0.0, 1.0)]),
        interiors: vec![],
    };
    let outcome = polygon_outcome(&polygon);
    let gc = GeometryCollection(vec![
        Geometry::Polygon(polygon),
        Geometry::Point(c(9.0, 9.0)),
        Geometry::Line(Line { start: c(0.0, 0.0), end: c(1.0, 0.0) }),
    ]);
    let out = geometry_collection_to_mesh(&gc, vec![outcome]).unwrap();
    assert_eq!(out.len(), 3);
    match &out[0] {
        GeometryMesh::Point(ps) => assert_eq!(ps.len(), 1),
        _ => panic!("expected the point output first"),
    }
    match &out[1] {
        GeometryMesh::LineString(m) => assert_eq!(m.positions.len(), 2),
        _ => panic!("expected the line-string output second"),
    }
    match &out[2] {
        GeometryMesh::Polygon(pm) => {
            assert_eq!(pm.exterior_mesh.positions.len(), 4);
            assert!(pm.mesh.indices.len() >= 3);
        },
        _ => panic!("expected the polygon output last"),
    }
}

#[test]
fn meshes_carry_neutral_attributes() {
    let mesh = line_to_mesh(&Line { start: c(0.0, 0.0), end: c(1.0, 2.0) }).unwrap();
    assert_eq!(mesh.normals.len(), mesh.positions.len());
    assert_eq!(mesh.uvs.len(), mesh.positions.len());
    for n in &mesh.normals {
        assert_eq!((n.x, n.y, n.z), (0, 0, 0));
    }
    for uv in &mesh.uvs {
        assert_eq!((uv.u, uv.v), (0, 0));
    }
}
