//! Converts 2-D vector geometry (points, polylines, polygons with holes, and
//! their multi/collection variants) into renderer-ready mesh buffers: flat
//! vertex arrays plus topology indices and neutral per-vertex attributes.
//!
//! The crate is a geometry-to-mesh compiler, not a renderer. Coordinates
//! arrive as the bit patterns of single-precision values (see
//! [`geometry::Coord`]); the ear-cutting triangulation itself is an external
//! collaborator whose outcome is handed in per prepared input (see
//! [`polygon::Triangulation`]).

use vstd::prelude::*;

pub mod build_mesh;
pub mod geometry;
pub mod line_string;
pub mod mesh;
pub mod point;
pub mod polygon;

use build_mesh::{
    ctx_state, dispatch_seq, dispatch_step, empty_ctx_state, empty_lsb_state,
    lemma_dispatch_singleton, lsb_add, lsb_state, poly_prim, populate_geometry_mesh_builders,
    primitives_of, primitives_of_seq, BuildBevyMeshesContext, CtxState, LsbState, Prim,
};
use geometry::{
    Coord, Geometry, GeometryCollection, Line, LineString, MultiLineString, MultiPolygon, Polygon,
    Rect, Triangle,
};
use geometry::{spec_rect_ring, spec_triangle_ring};
use line_string::{fits_index_range, pair_index_count, vertex_of, LineStringMeshBuilder};
use mesh::{Mesh, PrimitiveTopology};
use point::{sprite_of, PointMeshBuilder};
pub use point::SpritePosition;
use polygon::{interior_rings, merged, MergeState, PolygonMeshBuilder, Triangulation};
pub use polygon::PolygonMesh;

verus! {

/// The error taxonomy of the whole pipeline.
#[derive(Clone, Copy, PartialEq, Eq, Structural, Debug)]
pub enum Error {
    /// A coordinate component cannot be represented in the vertex buffer's
    /// single-precision type. Reported by callers that convert caller-side
    /// numeric types into [`geometry::Coord`] values.
    NumericConversion,
    /// An accumulated vertex count would require an index beyond the 32-bit
    /// representable range.
    IndexOverflow,
    /// A ring supplied to the polygon assembler has fewer than 4 coordinates.
    DegenerateRing,
    /// The external triangulator rejected its input or handed back an
    /// unusable result.
    Triangulation,
    /// A finalize step that was expected to produce output found nothing
    /// accumulated.
    EmptyGeometry,
}

/// One finished output, tagged by the geometry kind that produced it.
pub enum GeometryMesh {
    Point(Vec<SpritePosition>),
    LineString(Mesh),
    Polygon(PolygonMesh),
}

/// A finished line-list mesh carrying exactly one polyline accumulator's
/// buffers.
pub open spec fn is_line_mesh(m: Mesh, b: LsbState) -> bool {
    &&& m.topology == PrimitiveTopology::LineList
    &&& m.wf()
    &&& m.positions@ == b.vertices
    &&& m.indices@ == b.indices
}

/// Why assembling a context state against the given triangulation outcomes
/// fails, if it does: the triangulator's own failure first, then a border
/// accumulator that was expected to hold vertices but holds none.
pub open spec fn assemble_failure(st: CtxState, outcomes: Seq<Option<Triangulation>>) -> Option<
    Error,
> {
    if st.inputs.len() == 0 {
        None
    } else {
        match merged(outcomes) {
            Err(e) => Some(e),
            Ok(_) => if st.exterior.vertices.len() == 0 || (exists|k: int|
                0 <= k < st.interiors.len() && st.interiors[k].vertices.len() == 0) {
                Some(Error::EmptyGeometry)
            } else {
                None
            },
        }
    }
}

/// A finished polygon output for a context state: the fill mesh carries the
/// merged triangulation outcomes, and each border mesh carries its
/// accumulator's buffers.
pub open spec fn is_polygon_output(
    pm: PolygonMesh,
    st: CtxState,
    outcomes: Seq<Option<Triangulation>>,
) -> bool {
    &&& merged(outcomes) matches Ok(ms) && pm.mesh.positions@ == ms.positions
        && pm.mesh.indices@ == ms.indices
    &&& pm.mesh.topology == PrimitiveTopology::TriangleList
    &&& pm.mesh.wf()
    &&& st.exterior.vertices.len() > 0
    &&& is_line_mesh(pm.exterior_mesh, st.exterior)
    &&& pm.interior_meshes@.len() == st.interiors.len()
    &&& forall|k: int|
        0 <= k < st.interiors.len() ==> is_line_mesh(pm.interior_meshes@[k], st.interiors[k])
            && st.interiors[k].vertices.len() > 0
}

/// The assembled output run of a context state: one output per non-empty
/// accumulator, in the fixed order point, line string, polygon.
pub open spec fn is_assembled_output(
    v: Seq<GeometryMesh>,
    st: CtxState,
    outcomes: Seq<Option<Triangulation>>,
) -> bool {
    let has_pt: int = if st.points.len() > 0 {
        1
    } else {
        0
    };
    let has_ls: int = if st.line_strings.vertices.len() > 0 {
        1
    } else {
        0
    };
    let has_poly: int = if st.inputs.len() > 0 {
        1
    } else {
        0
    };
    &&& v.len() == has_pt + has_ls + has_poly
    &&& st.points.len() > 0 ==> (v[0] matches GeometryMesh::Point(ps) && ps@ == st.points)
    &&& st.line_strings.vertices.len() > 0 ==> (v[has_pt] matches GeometryMesh::LineString(m)
        && is_line_mesh(m, st.line_strings))
    &&& st.inputs.len() > 0 ==> (v[has_pt + has_ls] matches GeometryMesh::Polygon(pm)
        && is_polygon_output(pm, st, outcomes))
}

/// Finalizes the three accumulators of a populated context: every non-empty
/// accumulator becomes one output, in the fixed order point, line string,
/// polygon; the polygon accumulator is finalized against the triangulator's
/// outcomes, one per prepared input.
pub fn build_meshes(ctx: BuildBevyMeshesContext, outcomes: Vec<Option<Triangulation>>) -> (r:
    Result<Vec<GeometryMesh>, Error>)
    requires
        ctx.wf(),
        outcomes@.len() == ctx.polygon_mesh_builder.earcut_inputs@.len(),
    ensures
        match r {
            Ok(v) => assemble_failure(ctx_state(ctx), outcomes@) is None && is_assembled_output(
                v@,
                ctx_state(ctx),
                outcomes@,
            ),
            Err(e) => assemble_failure(ctx_state(ctx), outcomes@) == Some(e),
        },
{
    let ghost st = ctx_state(ctx);
    let BuildBevyMeshesContext {
        point_mesh_builder,
        line_string_mesh_builder,
        polygon_mesh_builder,
    } = ctx;
    let ghost pb = polygon_mesh_builder;
    match polygon_mesh_builder.build(outcomes) {
        Err(e) => {
            proof {
                assert(st.inputs.len() == pb.earcut_inputs@.len());
                if merged(outcomes@) is Ok {
                    if pb.exterior.vertices@.len() > 0 {
                        let k = choose|k: int|
                            0 <= k < pb.interiors@.len() && pb.interiors@[k].vertices@.len() == 0;
                        assert(st.interiors[k].vertices.len() == 0);
                    }
                }
            }
            Err(e)
        },
        Ok(opt_pm) => {
            let mut v: Vec<GeometryMesh> = Vec::new();
            match point_mesh_builder.build() {
                Some(ps) => {
                    v.push(GeometryMesh::Point(ps));
                },
                None => {},
            }
            match line_string_mesh_builder.build() {
                Some(m) => {
                    v.push(GeometryMesh::LineString(m));
                },
                None => {},
            }
            match opt_pm {
                Some(pm) => {
                    proof {
                        assert forall|k: int| 0 <= k < st.interiors.len() implies is_line_mesh(
                            pm.interior_meshes@[k],
                            st.interiors[k],
                        ) && st.interiors[k].vertices.len() > 0 by {
                            assert(st.interiors[k] == build_mesh::lsb_state(pb.interiors@[k]));
                        }
                        assert(is_polygon_output(pm, st, outcomes@));
                    }
                    v.push(GeometryMesh::Polygon(pm));
                },
                None => {},
            }
            Ok(v)
        },
    }
}

/// Round-trip ordering law at the mesh level: a line mesh built from one
/// polyline holds exactly the input coordinates' vertices, in input order,
/// and its index pairs connect exactly the consecutive vertices of that
/// polyline.
pub proof fn lemma_line_mesh_round_trip(m: Mesh, cs: Seq<Coord>)
    requires
        fits_index_range(0, cs.len() as int),
        is_line_mesh(m, lsb_add(empty_lsb_state(), cs)),
    ensures
        m.positions@.len() == cs.len(),
        forall|i: int| 0 <= i < cs.len() ==> m.positions@[i] == vertex_of(cs[i]),
        m.indices@.len() == pair_index_count(cs.len() as int),
        forall|j: int| 0 <= j < m.indices@.len() ==> m.indices@[j] as int == (j + 1) / 2,
{
    assert forall|j: int| 0 <= j < m.indices@.len() implies m.indices@[j] as int == (j + 1)
        / 2 by {
        assert(0 <= (j + 1) / 2 <= u32::MAX as int);
    }
}

/// Converts a single point: the output positions hold exactly that point.
/// This is the one entry point that cannot fail.
pub fn point_to_mesh(point: Coord) -> (r: Vec<SpritePosition>)
    ensures
        r@ == seq![sprite_of(point)],
{
    let mut builder = PointMeshBuilder::new();
    builder.add_coord(point);
    proof {
        assert(builder.points@ =~= seq![sprite_of(point)]);
    }
    match builder.build() {
        Some(ps) => ps,
        None => {
            proof {
                assert(false);
            }
            Vec::new()
        },
    }
}

/// Why converting one polyline fails, if it does: an index leaving the
/// 32-bit range first, then an empty coordinate run — this entry point
/// promises exactly one output, so an empty run is an error here.
pub open spec fn line_string_failure(n: int) -> Option<Error> {
    if !fits_index_range(0, n) {
        Some(Error::IndexOverflow)
    } else if n == 0 {
        Some(Error::EmptyGeometry)
    } else {
        None
    }
}

/// Converts a single polyline into a line-list mesh.
pub fn line_string_to_mesh(line_string: &LineString) -> (r: Result<Mesh, Error>)
    ensures
        match r {
            Ok(m) => line_string_failure(line_string.0@.len() as int) is None && is_line_mesh(
                m,
                lsb_add(empty_lsb_state(), line_string.0@),
            ),
            Err(e) => line_string_failure(line_string.0@.len() as int) == Some(e),
        },
{
    let mut builder = LineStringMeshBuilder::new();
    match builder.add_line_string(&line_string.0) {
        Ok(()) => {},
        Err(e) => {
            return Err(e);
        },
    }
    proof {
        assert(builder.vertices@ =~= lsb_add(empty_lsb_state(), line_string.0@).vertices);
        assert(builder.indices@ =~= lsb_add(empty_lsb_state(), line_string.0@).indices);
    }
    match builder.build() {
        None => Err(Error::EmptyGeometry),
        Some(m) => Ok(m),
    }
}

/// Converts a single segment: a 2-point polyline; never fails.
pub fn line_to_mesh(line: &Line) -> (r: Result<Mesh, Error>)
    ensures
        r matches Ok(m) && is_line_mesh(m, lsb_add(empty_lsb_state(), seq![line.start, line.end])),
{
    let mut cs: Vec<Coord> = Vec::new();
    cs.push(line.start);
    cs.push(line.end);
    let line_string = LineString(cs);
    proof {
        assert(line_string.0@ =~= seq![line.start, line.end]);
    }
    line_string_to_mesh(&line_string)
}

/// Why converting a polyline run fails, if it does: the first member that
/// fails decides, members after it are not processed.
pub open spec fn first_line_string_failure(members: Seq<LineString>) -> Option<Error>
    decreases members.len(),
{
    if members.len() == 0 {
        None
    } else {
        match line_string_failure(members[0].0@.len() as int) {
            Some(e) => Some(e),
            None => first_line_string_failure(members.drop_first()),
        }
    }
}

/// Converts every member polyline into its own line-list mesh, in input
/// order, failing fast: an empty member is an error at this entry point.
#[verifier::loop_isolation(false)]
pub fn multi_line_string_to_mesh(multi_line_string: &MultiLineString) -> (r: Result<
    Vec<Mesh>,
    Error,
>)
    ensures
        match r {
            Ok(v) => {
                &&& first_line_string_failure(multi_line_string.0@) is None
                &&& v@.len() == multi_line_string.0@.len()
                &&& forall|k: int|
                    0 <= k < v@.len() ==> is_line_mesh(
                        v@[k],
                        lsb_add(empty_lsb_state(), multi_line_string.0@[k].0@),
                    )
            },
            Err(e) => first_line_string_failure(multi_line_string.0@) == Some(e),
        },
{
    let ghost members = multi_line_string.0@;
    let mut v: Vec<Mesh> = Vec::new();
    proof {
        assert(members.skip(0) =~= members);
    }
    let mut k: usize = 0;
    while k < multi_line_string.0.len()
        invariant
            k <= members.len(),
            v@.len() == k,
            first_line_string_failure(members) == first_line_string_failure(
                members.skip(k as int),
            ),
            forall|j: int|
                0 <= j < k ==> is_line_mesh(v@[j], lsb_add(empty_lsb_state(), members[j].0@)),
        decreases members.len() - k,
    {
        proof {
            assert(members.skip(k as int)[0] == members[k as int]);
            assert(members.skip(k as int).drop_first() =~= members.skip(k + 1));
        }
        match line_string_to_mesh(&multi_line_string.0[k]) {
            Ok(m) => {
                v.push(m);
            },
            Err(e) => {
                return Err(e);
            },
        }
        k = k + 1;
    }
    proof {
        assert(members.skip(members.len() as int) =~= Seq::<LineString>::empty());
    }
    Ok(v)
}

/// Why converting one polygon fails, if it does: a degenerate ring first,
/// then an index leaving the 32-bit range, then the triangulator's own
/// failure.
pub open spec fn polygon_failure(p: Polygon, outcome: Option<Triangulation>) -> Option<Error> {
    let (st, err) = dispatch_step(empty_ctx_state(), poly_prim(p));
    match err {
        Some(e) => Some(e),
        None => match merged(seq![outcome]) {
            Err(e) => Some(e),
            Ok(_) => None,
        },
    }
}

/// Converts a single polygon against the triangulator's outcome for its
/// prepared input (see [`PolygonMeshBuilder::polygon_to_earcutr_input`]).
pub fn polygon_to_mesh(polygon: &Polygon, outcome: Option<Triangulation>) -> (r: Result<
    PolygonMesh,
    Error,
>)
    ensures
        match r {
            Ok(pm) => polygon_failure(*polygon, outcome) is None && is_polygon_output(
                pm,
                dispatch_step(empty_ctx_state(), poly_prim(*polygon)).0,
                seq![outcome],
            ),
            Err(e) => polygon_failure(*polygon, outcome) == Some(e),
        },
{
    let ghost st0 = empty_ctx_state();
    let ghost prim = poly_prim(*polygon);
    let mut ctx = BuildBevyMeshesContext::default();
    proof {
        lemma_dispatch_singleton(st0, prim);
    }
    match polygon.populate_mesh_builders(&mut ctx) {
        Err(e) => {
            return Err(e);
        },
        Ok(()) => {},
    }
    let ghost st = dispatch_step(st0, prim).0;
    let ghost ext = polygon.exterior.0@;
    let ghost holes = interior_rings(*polygon);
    proof {
        assert(ctx_state(ctx) == st);
        assert(st.inputs.len() == 1);
        assert(ctx.polygon_mesh_builder.earcut_inputs@.len() == 1);
    }
    let mut outcomes: Vec<Option<Triangulation>> = Vec::new();
    outcomes.push(outcome);
    proof {
        assert(outcomes@ =~= seq![outcome]);
    }
    let BuildBevyMeshesContext { point_mesh_builder: _, line_string_mesh_builder: _, polygon_mesh_builder } =
        ctx;
    let ghost pb = polygon_mesh_builder;
    proof {
        assert(st.exterior == lsb_state(pb.exterior));
        assert(st.exterior.vertices.len() == ext.len());
        assert forall|j: int| 0 <= j < pb.interiors@.len() implies lsb_state(pb.interiors@[j])
            == st.interiors[j] && st.interiors[j].vertices.len() >= 4 by {
            assert(st.interiors[j] == lsb_add(empty_lsb_state(), holes[j]));
        }
    }
    match polygon_mesh_builder.build(outcomes) {
        Ok(Some(pm)) => {
            proof {
                assert(is_polygon_output(pm, st, seq![outcome]));
            }
            Ok(pm)
        },
        Ok(None) => {
            proof {
                assert(false);
            }
            Err(Error::EmptyGeometry)
        },
        Err(e) => {
            proof {
                if merged(seq![outcome]) is Ok {
                    assert(pb.exterior.vertices@.len() >= 4);
                    if exists|j: int|
                        0 <= j < pb.interiors@.len() && pb.interiors@[j].vertices@.len() == 0 {
                        let j = choose|j: int|
                            0 <= j < pb.interiors@.len() && pb.interiors@[j].vertices@.len() == 0;
                        assert(st.interiors[j].vertices.len() >= 4);
                        assert(false);
                    }
                    assert(false);
                }
            }
            Err(e)
        },
    }
}

/// Why converting a polygon run fails, if it does: the first member that
/// fails decides, members after it are not processed.
pub open spec fn first_polygon_failure(
    ps: Seq<Polygon>,
    os: Seq<Option<Triangulation>>,
) -> Option<Error>
    decreases ps.len(),
{
    if ps.len() == 0 {
        None
    } else {
        match polygon_failure(ps[0], os[0]) {
            Some(e) => Some(e),
            None => first_polygon_failure(ps.drop_first(), os.drop_first()),
        }
    }
}

/// Converts every member polygon into its own polygon output, in input
/// order, failing fast; `outcomes` holds the triangulator's outcome for each
/// member, in the same order.
#[verifier::loop_isolation(false)]
pub fn multi_polygon_to_mesh(
    multi_polygon: &MultiPolygon,
    outcomes: Vec<Option<Triangulation>>,
) -> (r: Result<Vec<PolygonMesh>, Error>)
    requires
        outcomes@.len() == multi_polygon.0@.len(),
    ensures
        match r {
            Ok(v) => {
                &&& first_polygon_failure(multi_polygon.0@, outcomes@) is None
                &&& v@.len() == multi_polygon.0@.len()
                &&& forall|k: int|
                    0 <= k < v@.len() ==> is_polygon_output(
                        v@[k],
                        dispatch_step(empty_ctx_state(), poly_prim(multi_polygon.0@[k])).0,
                        seq![outcomes@[k]],
                    )
            },
            Err(e) => first_polygon_failure(multi_polygon.0@, outcomes@) == Some(e),
        },
{
    let ghost ps = multi_polygon.0@;
    let ghost os = outcomes@;
    let mut remaining = outcomes;
    let mut v: Vec<PolygonMesh> = Vec::new();
    proof {
        assert(ps.skip(0) =~= ps);
        assert(os.skip(0) =~= os);
    }
    let mut k: usize = 0;
    while k < multi_polygon.0.len()
        invariant
            k <= ps.len(),
            v@.len() == k,
            remaining@ == os.skip(k as int),
            first_polygon_failure(ps, os) == first_polygon_failure(
                ps.skip(k as int),
                os.skip(k as int),
            ),
            forall|j: int|
                0 <= j < k ==> is_polygon_output(
                    v@[j],
                    dispatch_step(empty_ctx_state(), poly_prim(ps[j])).0,
                    seq![os[j]],
                ),
        decreases ps.len() - k,
    {
        proof {
            assert(ps.skip(k as int)[0] == ps[k as int]);
            assert(os.skip(k as int)[0] == os[k as int]);
            assert(ps.skip(k as int).drop_first() =~= ps.skip(k + 1));
            assert(os.skip(k as int).drop_first() =~= os.skip(k + 1));
        }
        let outcome = remaining.remove(0);
        proof {
            assert(remaining@ =~= os.skip(k + 1));
        }
        match polygon_to_mesh(&multi_polygon.0[k], outcome) {
            Ok(pm) => {
                v.push(pm);
            },
            Err(e) => {
                return Err(e);
            },
        }
        k = k + 1;
    }
    proof {
        assert(ps.skip(ps.len() as int) =~= Seq::<Polygon>::empty());
    }
    Ok(v)
}

/// Converts a rectangle as its canonical closed polygon: the four corners
/// walked from `min` plus the closing repeat, no holes.
pub fn rect_to_mesh(rect: &Rect, outcome: Option<Triangulation>) -> (r: Result<PolygonMesh, Error>)
    ensures
        ({
            let prim = (Prim::Poly { exterior: spec_rect_ring(*rect), interiors: Seq::empty() });
            match r {
                Ok(pm) => merged(seq![outcome]) is Ok && is_polygon_output(
                    pm,
                    dispatch_step(empty_ctx_state(), prim).0,
                    seq![outcome],
                ),
                Err(e) => merged(seq![outcome]) == Err::<MergeState, Error>(e),
            }
        }),
{
    let polygon = rect.to_polygon();
    proof {
        assert(interior_rings(polygon) =~= Seq::<Seq<Coord>>::empty());
        assert(poly_prim(polygon) == (Prim::Poly {
            exterior: spec_rect_ring(*rect),
            interiors: Seq::empty(),
        }));
    }
    polygon_to_mesh(&polygon, outcome)
}

/// Converts a triangle as its canonical closed polygon: its three corners
/// plus the closing repeat, no holes.
pub fn triangle_to_mesh(triangle: &Triangle, outcome: Option<Triangulation>) -> (r: Result<
    PolygonMesh,
    Error,
>)
    ensures
        ({
            let prim = (Prim::Poly {
                exterior: spec_triangle_ring(*triangle),
                interiors: Seq::empty(),
            });
            match r {
                Ok(pm) => merged(seq![outcome]) is Ok && is_polygon_output(
                    pm,
                    dispatch_step(empty_ctx_state(), prim).0,
                    seq![outcome],
                ),
                Err(e) => merged(seq![outcome]) == Err::<MergeState, Error>(e),
            }
        }),
{
    let polygon = triangle.to_polygon();
    proof {
        assert(interior_rings(polygon) =~= Seq::<Seq<Coord>>::empty());
        assert(poly_prim(polygon) == (Prim::Poly {
            exterior: spec_triangle_ring(*triangle),
            interiors: Seq::empty(),
        }));
    }
    polygon_to_mesh(&polygon, outcome)
}

/// Converts an arbitrary geometry value: populates a fresh context by
/// dispatch and assembles every non-empty accumulator into one output, in
/// the fixed order point, line string, polygon. `outcomes` holds the
/// triangulator's outcome for each prepared polygon input, in the order the
/// dispatch prepared them.
pub fn geometry_to_mesh(geometry: &Geometry, outcomes: Vec<Option<Triangulation>>) -> (r: Result<
    Vec<GeometryMesh>,
    Error,
>)
    requires
        outcomes@.len() == dispatch_seq(
            empty_ctx_state(),
            primitives_of(*geometry),
        ).0.inputs.len(),
    ensures
        ({
            let (st, err) = dispatch_seq(empty_ctx_state(), primitives_of(*geometry));
            match r {
                Ok(v) => err is None && assemble_failure(st, outcomes@) is None
                    && is_assembled_output(v@, st, outcomes@),
                Err(e) => err == Some(e) || (err is None && assemble_failure(st, outcomes@)
                    == Some(e)),
            }
        }),
{
    let mut ctx = BuildBevyMeshesContext::default();
    match populate_geometry_mesh_builders(geometry, &mut ctx) {
        Err(e) => {
            return Err(e);
        },
        Ok(()) => {},
    }
    proof {
        assert(ctx_state(ctx).inputs.len() == ctx.polygon_mesh_builder.earcut_inputs@.len());
    }
    build_meshes(ctx, outcomes)
}

/// Converts a geometry collection: every member geometry, in input order,
/// failing fast, then one output per non-empty accumulator. An empty
/// collection yields an empty output run, not an error.
pub fn geometry_collection_to_mesh(
    collection: &GeometryCollection,
    outcomes: Vec<Option<Triangulation>>,
) -> (r: Result<Vec<GeometryMesh>, Error>)
    requires
        outcomes@.len() == dispatch_seq(
            empty_ctx_state(),
            primitives_of_seq(collection.0@),
        ).0.inputs.len(),
    ensures
        ({
            let (st, err) = dispatch_seq(empty_ctx_state(), primitives_of_seq(collection.0@));
            match r {
                Ok(v) => err is None && assemble_failure(st, outcomes@) is None
                    && is_assembled_output(v@, st, outcomes@),
                Err(e) => err == Some(e) || (err is None && assemble_failure(st, outcomes@)
                    == Some(e)),
            }
        }),
{
    let mut ctx = BuildBevyMeshesContext::default();
    match collection.populate_mesh_builders(&mut ctx) {
        Err(e) => {
            return Err(e);
        },
        Ok(()) => {},
    }
    proof {
        assert(ctx_state(ctx).inputs.len() == ctx.polygon_mesh_builder.earcut_inputs@.len());
    }
    build_meshes(ctx, outcomes)
}

} // verus!
