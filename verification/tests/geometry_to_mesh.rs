use geo_bevy::geometry::{Coord, Line, LineString, MultiLineString, MultiPolygon, Polygon, Rect, Triangle};
use geo_bevy::mesh::Mesh;
use geo_bevy::polygon::{EarcutrInput, PolygonMesh, PolygonMeshBuilder, Triangulation};
use geo_bevy::{line_to_mesh, line_string_to_mesh, multi_line_string_to_mesh, multi_polygon_to_mesh, polygon_to_mesh, rect_to_mesh, triangle_to_mesh};

const P_0: [f64; 2] = [0., 0.];
const P_1: [f64; 2] = [1., 0.];
const P_2: [f64; 2] = [1., 1.];
const P_3: [f64; 2] = [0., 1.];

const I_0: [f64; 2] = [0.25, 0.25];
const I_1: [f64; 2] = [0.75, 0.25];
const I_2: [f64; 2] = [0.75, 0.75];
const I_3: [f64; 2] = [0.25, 0.75];

fn coord(p: [f64; 2]) -> Coord {
    Coord { x: (p[0] as f32).to_bits(), y: (p[1] as f32).to_bits() }
}

fn ring(points: &[[f64; 2]]) -> LineString {
    // A closed ring: the supplied points followed by a repeat of the first.
    let mut cs: Vec<Coord> = points.iter().copied().map(coord).collect();
    cs.push(coord(points[0]));
    LineString(cs)
}

fn line_string(points: &[[f64; 2]]) -> LineString {
    LineString(points.iter().copied().map(coord).collect())
}

fn run_earcut(input: &EarcutrInput) -> Option<Triangulation> {
    let flat: Vec<f64> = input.vertices.iter().map(|b| f32::from_bits(*b) as f64).collect();
    match earcutr::earcut(&flat, &input.interior_indices, 2) {
        Ok(triangle_indices) => Some(Triangulation {
            vertices: input.vertices.clone(),
            triangle_indices,
        }),
        Err(_) => None,
    }
}

fn polygon_outcome(polygon: &Polygon) -> Option<Triangulation> {
    run_earcut(&PolygonMeshBuilder::polygon_to_earcutr_input(polygon))
}

fn mesh_to_indices(mesh: &Mesh) -> Vec<[f64; 2]> {
    let mut indices = mesh
        .positions
        .iter()
        .map(|v| [f32::from_bits(v.x) as f64, f32::from_bits(v.y) as f64])
        .collect::<Vec<[f64; 2]>>();

    if indices.first().unwrap() == indices.last().unwrap() && indices.len() > 1 {
        indices.pop();
    }
    indices
}

#[test]
pub fn builds_mesh_from_line() {
    let line = Line { start: coord(P_0), end: coord(P_1) };
    let mesh = line_to_mesh(&line).expect("Vertices.");
    assert_eq!([P_0, P_1].as_slice(), mesh_to_indices(&mesh));
}

#[test]
pub fn builds_mesh_from_line_string() {
    let indices = vec![P_0, P_1, P_2];
    let mesh = line_string_to_mesh(&line_string(&indices)).expect("Vertices.");
    assert_eq!(indices, mesh_to_indices(&mesh));
}

#[test]
pub fn builds_mesh_from_multi_line_string() {
    let indices = vec![P_0, P_1, P_2];
    let meshes = multi_line_string_to_mesh(&MultiLineString(vec![line_string(&indices)]));
    assert_eq!(indices, mesh_to_indices(meshes.unwrap().first().unwrap()));
}

#[test]
pub fn builds_mesh_from_polygon() {
    let exterior_ring = vec![P_0, P_1, P_2, P_3];
    let interior_ring = vec![I_0, I_1, I_2, I_3];

    let polygon = Polygon {
        exterior: ring(&exterior_ring),
        interiors: vec![ring(&interior_ring)],
    };
    let outcome = polygon_outcome(&polygon);
    let PolygonMesh { mesh, exterior_mesh, interior_meshes } =
        polygon_to_mesh(&polygon, outcome).expect("Vertices");

    assert_eq!(exterior_ring, mesh_to_indices(&mesh)[0..4]);
    assert_eq!(exterior_ring, mesh_to_indices(&exterior_mesh));
    assert_eq!(interior_ring, mesh_to_indices(&interior_meshes[0]));
}

#[test]
pub fn builds_mesh_from_multi_polygon() {
    let exterior_ring = vec![P_0, P_1, P_2, P_3];

    let polygon = Polygon { exterior: ring(&exterior_ring), interiors: vec![] };
    let outcomes = vec![polygon_outcome(&polygon)];
    let polygon_meshes = multi_polygon_to_mesh(&MultiPolygon(vec![polygon]), outcomes);

    assert_eq!(
        exterior_ring,
        mesh_to_indices(&polygon_meshes.unwrap().first().unwrap().exterior_mesh)
    );
}

#[test]
pub fn builds_mesh_from_rect() {
    let rect = Rect { min: coord(P_0), max: coord(P_2) };
    let outcome = polygon_outcome(&rect.to_polygon());
    let PolygonMesh { mesh, .. } = rect_to_mesh(&rect, outcome).expect("Vertices");
    assert_eq!([P_0, P_3, P_2, P_1].as_slice(), mesh_to_indices(&mesh))
}

#[test]
pub fn builds_mesh_from_triangle() {
    let indices = [P_0, P_1, P_3];
    let triangle = Triangle(coord(indices[0]), coord(indices[1]), coord(indices[2]));
    let outcome = polygon_outcome(&triangle.to_polygon());
    let PolygonMesh { mesh, .. } = triangle_to_mesh(&triangle, outcome).expect("Vertices");
    assert_eq!(indices.as_slice(), mesh_to_indices(&mesh))
}
