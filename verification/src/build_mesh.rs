//! The geometry-variant dispatcher: walks an arbitrarily nested geometry
//! value and routes each primitive — point, polyline or polygon — to the
//! matching accumulator in a shared build context.
//!
//! The dispatch is specified as a fold: [`primitives_of`] lists the
//! primitives a geometry contributes in traversal order, and
//! [`dispatch_seq`] folds them over a model of the context state, stopping at
//! the first failure. Every populate function is proved to leave the context
//! exactly where that fold says.

use vstd::prelude::*;

use crate::geometry::{
    Coord, Geometry, GeometryCollection, Line, LineString, MultiLineString, MultiPoint,
    MultiPolygon, Polygon, Rect, Triangle,
};
use crate::geometry::{spec_rect_ring, spec_triangle_ring};
use crate::line_string::{
    fits_index_range, pair_indices, vertices_of, LineStringMeshBuilder,
};
use crate::mesh::Vertex;
use crate::point::{sprite_of, PointMeshBuilder, SpritePosition};
use crate::polygon::{flat_rings, hole_offset, interior_rings, PolygonMeshBuilder};
use crate::Error;

verus! {

/// The shared build context: one accumulator per output kind, created fresh
/// per top-level conversion and owned exclusively by it.
pub struct BuildBevyMeshesContext {
    pub point_mesh_builder: PointMeshBuilder,
    pub line_string_mesh_builder: LineStringMeshBuilder,
    pub polygon_mesh_builder: PolygonMeshBuilder,
}

impl BuildBevyMeshesContext {
    pub open spec fn wf(self) -> bool {
        &&& self.line_string_mesh_builder.wf()
        &&& self.polygon_mesh_builder.wf()
    }
}

impl Default for BuildBevyMeshesContext {
    fn default() -> (r: Self)
        ensures
            ctx_state(r) == empty_ctx_state(),
            r.polygon_mesh_builder.earcut_inputs@.len() == 0,
            r.wf(),
    {
        let r = BuildBevyMeshesContext {
            point_mesh_builder: PointMeshBuilder::new(),
            line_string_mesh_builder: LineStringMeshBuilder::new(),
            polygon_mesh_builder: PolygonMeshBuilder::new(),
        };
        proof {
            assert(ctx_state(r).points =~= empty_ctx_state().points);
            assert(ctx_state(r).inputs =~= empty_ctx_state().inputs);
            assert(ctx_state(r).interiors =~= empty_ctx_state().interiors);
            assert(ctx_state(r).line_strings.vertices =~= empty_ctx_state().line_strings.vertices);
            assert(ctx_state(r).line_strings.indices =~= empty_ctx_state().line_strings.indices);
            assert(ctx_state(r).exterior.vertices =~= empty_ctx_state().exterior.vertices);
            assert(ctx_state(r).exterior.indices =~= empty_ctx_state().exterior.indices);
        }
        r
    }
}

/// The model of one polyline accumulator: its vertex and index buffers.
#[verifier::ext_equal]
pub ghost struct LsbState {
    pub vertices: Seq<Vertex>,
    pub indices: Seq<u32>,
}

/// The model of one prepared triangulator input.
#[verifier::ext_equal]
pub ghost struct InputState {
    pub vertices: Seq<u32>,
    pub interior_indices: Seq<usize>,
}

/// The model of the whole build context.
#[verifier::ext_equal]
pub ghost struct CtxState {
    pub points: Seq<SpritePosition>,
    pub line_strings: LsbState,
    pub inputs: Seq<InputState>,
    pub exterior: LsbState,
    pub interiors: Seq<LsbState>,
}

pub open spec fn lsb_state(b: LineStringMeshBuilder) -> LsbState {
    LsbState { vertices: b.vertices@, indices: b.indices@ }
}

pub open spec fn input_state(inp: crate::polygon::EarcutrInput) -> InputState {
    InputState { vertices: inp.vertices@, interior_indices: inp.interior_indices@ }
}

pub open spec fn ctx_state(ctx: BuildBevyMeshesContext) -> CtxState {
    CtxState {
        points: ctx.point_mesh_builder.points@,
        line_strings: lsb_state(ctx.line_string_mesh_builder),
        inputs: Seq::new(
            ctx.polygon_mesh_builder.earcut_inputs@.len(),
            |i: int| input_state(ctx.polygon_mesh_builder.earcut_inputs@[i]),
        ),
        exterior: lsb_state(ctx.polygon_mesh_builder.exterior),
        interiors: Seq::new(
            ctx.polygon_mesh_builder.interiors@.len(),
            |i: int| lsb_state(ctx.polygon_mesh_builder.interiors@[i]),
        ),
    }
}

pub open spec fn empty_lsb_state() -> LsbState {
    LsbState { vertices: Seq::empty(), indices: Seq::empty() }
}

pub open spec fn empty_ctx_state() -> CtxState {
    CtxState {
        points: Seq::empty(),
        line_strings: empty_lsb_state(),
        inputs: Seq::empty(),
        exterior: empty_lsb_state(),
        interiors: Seq::empty(),
    }
}

/// One primitive the traversal hands to an accumulator.
pub ghost enum Prim {
    Pt(Coord),
    Ls(Seq<Coord>),
    Poly { exterior: Seq<Coord>, interiors: Seq<Seq<Coord>> },
}

/// The polygon primitive a polygon value contributes.
pub open spec fn poly_prim(p: Polygon) -> Prim {
    Prim::Poly { exterior: p.exterior.0@, interiors: interior_rings(p) }
}

/// The primitives a geometry contributes, in traversal order: composite
/// variants recurse structurally, member order preserved.
pub open spec fn primitives_of(g: Geometry) -> Seq<Prim>
    decreases g,
{
    match g {
        Geometry::Point(c) => seq![Prim::Pt(c)],
        Geometry::Line(l) => seq![Prim::Ls(seq![l.start, l.end])],
        Geometry::LineString(ls) => seq![Prim::Ls(ls.0@)],
        Geometry::Polygon(p) => seq![poly_prim(p)],
        Geometry::MultiPoint(mp) => Seq::new(mp.0@.len(), |i: int| Prim::Pt(mp.0@[i])),
        Geometry::MultiLineString(mls) => Seq::new(
            mls.0@.len(),
            |i: int| Prim::Ls(mls.0@[i].0@),
        ),
        Geometry::MultiPolygon(mp) => Seq::new(mp.0@.len(), |i: int| poly_prim(mp.0@[i])),
        Geometry::GeometryCollection(gc) => primitives_of_seq(gc.0@),
        Geometry::Triangle(t) => seq![
            Prim::Poly { exterior: spec_triangle_ring(t), interiors: Seq::empty() },
        ],
        Geometry::Rect(r) => seq![
            Prim::Poly { exterior: spec_rect_ring(r), interiors: Seq::empty() },
        ],
    }
}

/// The primitives a run of geometries contributes, concatenated in order.
pub open spec fn primitives_of_seq(gs: Seq<Geometry>) -> Seq<Prim>
    decreases gs,
{
    if gs.len() == 0 {
        Seq::empty()
    } else {
        primitives_of(gs[0]) + primitives_of_seq(gs.drop_first())
    }
}

/// A polyline accumulator model after one polyline is appended.
pub open spec fn lsb_add(st: LsbState, cs: Seq<Coord>) -> LsbState {
    LsbState {
        vertices: st.vertices + vertices_of(cs),
        indices: st.indices + pair_indices(st.vertices.len() as int, cs.len() as int),
    }
}

/// Every ring of a polygon primitive has at least 4 coordinates.
pub open spec fn prim_rings_valid(exterior: Seq<Coord>, interiors: Seq<Seq<Coord>>) -> bool {
    &&& exterior.len() >= 4
    &&& forall|k: int| 0 <= k < interiors.len() ==> interiors[k].len() >= 4
}

/// Every border accumulator a polygon primitive touches stays inside the
/// 32-bit index range.
pub open spec fn prim_rings_fit(st: CtxState, exterior: Seq<Coord>, interiors: Seq<Seq<Coord>>) -> bool {
    &&& fits_index_range(st.exterior.vertices.len() as int, exterior.len() as int)
    &&& forall|k: int| 0 <= k < interiors.len() ==> fits_index_range(0, interiors[k].len() as int)
}

/// The prepared triangulator input of one polygon primitive.
pub open spec fn input_state_of(exterior: Seq<Coord>, interiors: Seq<Seq<Coord>>) -> InputState {
    InputState {
        vertices: flat_rings(exterior, interiors),
        interior_indices: Seq::new(
            interiors.len(),
            |k: int| hole_offset(exterior.len() as int, interiors, k) as usize,
        ),
    }
}

/// Routes one primitive to its accumulator: a point append never fails, a
/// polyline append fails on index overflow, and a polygon is first checked
/// for degenerate rings and then for index overflow. A failing step leaves
/// the state unchanged.
pub open spec fn dispatch_step(st: CtxState, p: Prim) -> (CtxState, Option<Error>) {
    match p {
        Prim::Pt(c) => (CtxState { points: st.points.push(sprite_of(c)), ..st }, None),
        Prim::Ls(cs) => if fits_index_range(
            st.line_strings.vertices.len() as int,
            cs.len() as int,
        ) {
            (CtxState { line_strings: lsb_add(st.line_strings, cs), ..st }, None)
        } else {
            (st, Some(Error::IndexOverflow))
        },
        Prim::Poly { exterior, interiors } => if !prim_rings_valid(exterior, interiors) {
            (st, Some(Error::DegenerateRing))
        } else if !prim_rings_fit(st, exterior, interiors) {
            (st, Some(Error::IndexOverflow))
        } else {
            (
                CtxState {
                    inputs: st.inputs.push(input_state_of(exterior, interiors)),
                    exterior: lsb_add(st.exterior, exterior),
                    interiors: st.interiors + Seq::new(
                        interiors.len(),
                        |k: int| lsb_add(empty_lsb_state(), interiors[k]),
                    ),
                    ..st
                },
                None,
            )
        },
    }
}

/// Folds a primitive run over the context state, stopping at the first
/// failing step: the fail-fast dispatch policy.
pub open spec fn dispatch_seq(st: CtxState, prims: Seq<Prim>) -> (CtxState, Option<Error>)
    decreases prims.len(),
{
    if prims.len() == 0 {
        (st, None)
    } else {
        let (st1, err) = dispatch_step(st, prims[0]);
        if err is Some {
            (st1, err)
        } else {
            dispatch_seq(st1, prims.drop_first())
        }
    }
}

/// A single primitive folds to its single step.
pub proof fn lemma_dispatch_singleton(st: CtxState, p: Prim)
    ensures
        dispatch_seq(st, seq![p]) == dispatch_step(st, p),
{
    assert(seq![p][0] == p);
    assert(seq![p].drop_first() =~= Seq::<Prim>::empty());
    let (st1, err) = dispatch_step(st, p);
    if err is None {
        assert(dispatch_seq(st, seq![p]) == dispatch_seq(st1, seq![p].drop_first()));
        assert(dispatch_seq(st1, Seq::<Prim>::empty()) == (st1, None::<Error>));
        assert((st1, err) == (st1, None::<Error>));
    }
}

/// Folding a concatenation folds the first run, then — unless it failed —
/// the second from where the first left off.
pub proof fn lemma_dispatch_seq_append(st: CtxState, a: Seq<Prim>, b: Seq<Prim>)
    ensures
        ({
            let (st1, err) = dispatch_seq(st, a);
            dispatch_seq(st, a + b) == if err is Some {
                (st1, err)
            } else {
                dispatch_seq(st1, b)
            }
        }),
    decreases a.len(),
{
    if a.len() == 0 {
        assert(a + b =~= b);
    } else {
        assert((a + b)[0] == a[0]);
        assert((a + b).drop_first() =~= a.drop_first() + b);
        let (st1, err) = dispatch_step(st, a[0]);
        if err is None {
            lemma_dispatch_seq_append(st1, a.drop_first(), b);
        }
    }
}

/// Empty-input idempotence law: a composite geometry with no members
/// contributes no primitives, so dispatching it leaves every accumulator
/// exactly as it was and reports no error.
pub proof fn lemma_empty_geometry_idempotent(st: CtxState, g: Geometry)
    requires
        match g {
            Geometry::MultiPoint(mp) => mp.0@.len() == 0,
            Geometry::MultiLineString(mls) => mls.0@.len() == 0,
            Geometry::MultiPolygon(mp) => mp.0@.len() == 0,
            Geometry::GeometryCollection(gc) => gc.0@.len() == 0,
            _ => false,
        },
    ensures
        dispatch_seq(st, primitives_of(g)) == (st, None::<Error>),
{
    assert(primitives_of(g) =~= Seq::<Prim>::empty());
}

/// Rectangle-as-polygon law: a rectangle contributes exactly the primitives
/// of its canonical closed polygon, so both dispatch to the same outputs.
pub proof fn lemma_rect_equals_polygon(r: Rect, p: Polygon)
    requires
        p.exterior.0@ == spec_rect_ring(r),
        p.interiors@.len() == 0,
    ensures
        primitives_of(Geometry::Rect(r)) == primitives_of(Geometry::Polygon(p)),
{
    assert(interior_rings(p) =~= Seq::<Seq<Coord>>::empty());
    assert(primitives_of(Geometry::Rect(r)) =~= primitives_of(Geometry::Polygon(p)));
}

/// What every populate function promises: the context lands exactly where
/// the dispatch fold of the geometry's primitives says, and the result
/// reports the fold's outcome.
pub open spec fn populate_result(
    pre: CtxState,
    prims: Seq<Prim>,
    post: CtxState,
    r: Result<(), Error>,
) -> bool {
    let (st, err) = dispatch_seq(pre, prims);
    &&& post == st
    &&& match r {
        Ok(_) => err is None,
        Err(e) => err == Some(e),
    }
}

impl Coord {
    /// A point: appended to the point accumulator; never fails.
    pub fn populate_mesh_builders(&self, ctx: &mut BuildBevyMeshesContext) -> (r: Result<
        (),
        Error,
    >)
        ensures
            populate_result(
                ctx_state(*old(ctx)),
                seq![Prim::Pt(*self)],
                ctx_state(*final(ctx)),
                r,
            ),
            old(ctx).wf() ==> final(ctx).wf(),
            r is Ok,
    {
        let ghost pre = ctx_state(*old(ctx));
        ctx.point_mesh_builder.add_coord(*self);
        proof {
            lemma_dispatch_singleton(pre, Prim::Pt(*self));
            assert(ctx_state(*ctx) =~= (CtxState { points: pre.points.push(sprite_of(*self)), ..pre }));
        }
        Ok(())
    }
}

impl LineString {
    /// A polyline: appended to the shared line-list accumulator.
    pub fn populate_mesh_builders(&self, ctx: &mut BuildBevyMeshesContext) -> (r: Result<
        (),
        Error,
    >)
        ensures
            populate_result(
                ctx_state(*old(ctx)),
                seq![Prim::Ls(self.0@)],
                ctx_state(*final(ctx)),
                r,
            ),
            old(ctx).wf() ==> final(ctx).wf(),
    {
        let ghost pre = ctx_state(*old(ctx));
        proof {
            lemma_dispatch_singleton(pre, Prim::Ls(self.0@));
        }
        match ctx.line_string_mesh_builder.add_line_string(&self.0) {
            Ok(()) => {
                proof {
                    assert(ctx_state(*ctx) =~= (CtxState {
                        line_strings: lsb_add(pre.line_strings, self.0@),
                        ..pre
                    }));
                }
                Ok(())
            },
            Err(e) => {
                proof {
                    assert(ctx_state(*ctx) =~= pre);
                }
                Err(e)
            },
        }
    }
}

impl Line {
    /// A segment: a 2-point polyline.
    pub fn populate_mesh_builders(&self, ctx: &mut BuildBevyMeshesContext) -> (r: Result<
        (),
        Error,
    >)
        ensures
            populate_result(
                ctx_state(*old(ctx)),
                seq![Prim::Ls(seq![self.start, self.end])],
                ctx_state(*final(ctx)),
                r,
            ),
            old(ctx).wf() ==> final(ctx).wf(),
    {
        let mut cs: Vec<Coord> = Vec::new();
        cs.push(self.start);
        cs.push(self.end);
        let line_string = LineString(cs);
        proof {
            assert(line_string.0@ =~= seq![self.start, self.end]);
        }
        line_string.populate_mesh_builders(ctx)
    }
}

impl Polygon {
    /// A polygon: handed in whole to the polygon assembler.
    pub fn populate_mesh_builders(&self, ctx: &mut BuildBevyMeshesContext) -> (r: Result<
        (),
        Error,
    >)
        ensures
            populate_result(
                ctx_state(*old(ctx)),
                seq![poly_prim(*self)],
                ctx_state(*final(ctx)),
                r,
            ),
            old(ctx).wf() ==> final(ctx).wf(),
    {
        let ghost pre = ctx_state(*old(ctx));
        let ghost ext = self.exterior.0@;
        let ghost holes = interior_rings(*self);
        proof {
            lemma_dispatch_singleton(pre, poly_prim(*self));
            assert(holes.len() == self.interiors@.len());
            if crate::polygon::rings_valid(*self) {
                assert forall|k: int| 0 <= k < holes.len() implies holes[k].len() >= 4 by {
                    assert(holes[k] == self.interiors@[k].0@);
                }
                assert(prim_rings_valid(ext, holes));
            }
            if prim_rings_valid(ext, holes) {
                assert forall|k: int|
                    0 <= k < self.interiors@.len() implies self.interiors@[k].0@.len() >= 4 by {
                    assert(holes[k] == self.interiors@[k].0@);
                }
                assert(crate::polygon::rings_valid(*self));
            }
            if old(ctx).polygon_mesh_builder.can_add(*self) {
                assert forall|k: int|
                    0 <= k < holes.len() implies fits_index_range(0, holes[k].len() as int) by {
                    assert(holes[k] == self.interiors@[k].0@);
                    assert(crate::polygon::ring_fits(self.interiors@[k].0@.len() as int));
                }
                assert(prim_rings_fit(pre, ext, holes));
            }
            if prim_rings_valid(ext, holes) && prim_rings_fit(pre, ext, holes) {
                assert forall|k: int|
                    0 <= k < self.interiors@.len() implies crate::polygon::ring_fits(
                    self.interiors@[k].0@.len() as int,
                ) by {
                    assert(holes[k] == self.interiors@[k].0@);
                }
                assert(old(ctx).polygon_mesh_builder.can_add(*self));
            }
        }
        match ctx.polygon_mesh_builder.add_polygon(self) {
            Ok(()) => {
                proof {
                    let post = ctx_state(*ctx);
                    let stepped = (CtxState {
                        inputs: pre.inputs.push(input_state_of(ext, holes)),
                        exterior: lsb_add(pre.exterior, ext),
                        interiors: pre.interiors + Seq::new(
                            holes.len(),
                            |k: int| lsb_add(empty_lsb_state(), holes[k]),
                        ),
                        ..pre
                    });
                    let pb = ctx.polygon_mesh_builder;
                    let old_pb = old(ctx).polygon_mesh_builder;
                    assert forall|i: int| 0 <= i < old_pb.earcut_inputs@.len()
                        implies pb.earcut_inputs@[i] == old_pb.earcut_inputs@[i] by {
                        assert(pb.earcut_inputs@.drop_last()[i] == pb.earcut_inputs@[i]);
                    }
                    assert(input_state(pb.earcut_inputs@.last()).interior_indices
                        =~= input_state_of(ext, holes).interior_indices);
                    assert(post.inputs =~= stepped.inputs);
                    assert(post.exterior =~= stepped.exterior);
                    assert forall|k: int| 0 <= k < holes.len() implies lsb_state(
                        pb.interiors@[old_pb.interiors@.len() + k],
                    ) == lsb_add(empty_lsb_state(), holes[k]) by {
                        assert(Seq::<Vertex>::empty() + vertices_of(holes[k]) =~= vertices_of(
                            holes[k],
                        ));
                        assert(Seq::<u32>::empty() + pair_indices(0, holes[k].len() as int)
                            =~= pair_indices(0, holes[k].len() as int));
                        assert(lsb_state(pb.interiors@[old_pb.interiors@.len() + k])
                            =~= lsb_add(empty_lsb_state(), holes[k]));
                    }
                    assert(post.interiors =~= stepped.interiors);
                    assert(post =~= stepped);
                }
                Ok(())
            },
            Err(e) => {
                proof {
                    assert(ctx_state(*ctx) =~= pre);
                }
                Err(e)
            },
        }
    }
}

impl Triangle {
    /// A triangle: routed as its canonical closed polygon.
    pub fn populate_mesh_builders(&self, ctx: &mut BuildBevyMeshesContext) -> (r: Result<
        (),
        Error,
    >)
        ensures
            populate_result(
                ctx_state(*old(ctx)),
                seq![(Prim::Poly { exterior: spec_triangle_ring(*self), interiors: Seq::empty() })],
                ctx_state(*final(ctx)),
                r,
            ),
            old(ctx).wf() ==> final(ctx).wf(),
    {
        let polygon = self.to_polygon();
        proof {
            assert(interior_rings(polygon) =~= Seq::<Seq<Coord>>::empty());
            assert(poly_prim(polygon) == (Prim::Poly {
                exterior: spec_triangle_ring(*self),
                interiors: Seq::empty(),
            }));
        }
        polygon.populate_mesh_builders(ctx)
    }
}

impl Rect {
    /// A rectangle: routed as its canonical closed polygon.
    pub fn populate_mesh_builders(&self, ctx: &mut BuildBevyMeshesContext) -> (r: Result<
        (),
        Error,
    >)
        ensures
            populate_result(
                ctx_state(*old(ctx)),
                seq![(Prim::Poly { exterior: spec_rect_ring(*self), interiors: Seq::empty() })],
                ctx_state(*final(ctx)),
                r,
            ),
            old(ctx).wf() ==> final(ctx).wf(),
    {
        let polygon = self.to_polygon();
        proof {
            assert(interior_rings(polygon) =~= Seq::<Seq<Coord>>::empty());
            assert(poly_prim(polygon) == (Prim::Poly {
                exterior: spec_rect_ring(*self),
                interiors: Seq::empty(),
            }));
        }
        polygon.populate_mesh_builders(ctx)
    }
}

impl MultiPoint {
    /// Every member point, in input order; never fails.
    #[verifier::loop_isolation(false)]
    pub fn populate_mesh_builders(&self, ctx: &mut BuildBevyMeshesContext) -> (r: Result<
        (),
        Error,
    >)
        ensures
            populate_result(
                ctx_state(*old(ctx)),
                Seq::new(self.0@.len(), |i: int| Prim::Pt(self.0@[i])),
                ctx_state(*final(ctx)),
                r,
            ),
            old(ctx).wf() ==> final(ctx).wf(),
    {
        let ghost pre = ctx_state(*old(ctx));
        let ghost prims = Seq::new(self.0@.len(), |i: int| Prim::Pt(self.0@[i]));
        proof {
            assert(prims.skip(0) =~= prims);
        }
        let mut k: usize = 0;
        while k < self.0.len()
            invariant
                k <= self.0@.len(),
                dispatch_seq(pre, prims) == dispatch_seq(ctx_state(*ctx), prims.skip(k as int)),
                old(ctx).wf() ==> ctx.wf(),
            decreases self.0@.len() - k,
        {
            let ghost cur = ctx_state(*ctx);
            proof {
                assert(prims.skip(k as int)[0] == prims[k as int]);
                assert(prims.skip(k as int).drop_first() =~= prims.skip(k + 1));
            }
            let res = self.0[k].populate_mesh_builders(ctx);
            proof {
                lemma_dispatch_singleton(cur, prims[k as int]);
            }
            k = k + 1;
        }
        proof {
            assert(prims.skip(self.0@.len() as int) =~= Seq::<Prim>::empty());
        }
        Ok(())
    }
}

impl MultiLineString {
    /// Every member polyline, in input order, failing fast.
    #[verifier::loop_isolation(false)]
    pub fn populate_mesh_builders(&self, ctx: &mut BuildBevyMeshesContext) -> (r: Result<
        (),
        Error,
    >)
        ensures
            populate_result(
                ctx_state(*old(ctx)),
                Seq::new(self.0@.len(), |i: int| Prim::Ls(self.0@[i].0@)),
                ctx_state(*final(ctx)),
                r,
            ),
            old(ctx).wf() ==> final(ctx).wf(),
    {
        let ghost pre = ctx_state(*old(ctx));
        let ghost prims = Seq::new(self.0@.len(), |i: int| Prim::Ls(self.0@[i].0@));
        proof {
            assert(prims.skip(0) =~= prims);
        }
        let mut k: usize = 0;
        while k < self.0.len()
            invariant
                k <= self.0@.len(),
                dispatch_seq(pre, prims) == dispatch_seq(ctx_state(*ctx), prims.skip(k as int)),
                old(ctx).wf() ==> ctx.wf(),
            decreases self.0@.len() - k,
        {
            let ghost cur = ctx_state(*ctx);
            proof {
                assert(prims.skip(k as int)[0] == prims[k as int]);
                assert(prims.skip(k as int).drop_first() =~= prims.skip(k + 1));
            }
            let res = self.0[k].populate_mesh_builders(ctx);
            proof {
                lemma_dispatch_singleton(cur, prims[k as int]);
            }
            match res {
                Ok(()) => {},
                Err(e) => {
                    return Err(e);
                },
            }
            k = k + 1;
        }
        proof {
            assert(prims.skip(self.0@.len() as int) =~= Seq::<Prim>::empty());
        }
        Ok(())
    }
}

impl MultiPolygon {
    /// Every member polygon, in input order, failing fast.
    #[verifier::loop_isolation(false)]
    pub fn populate_mesh_builders(&self, ctx: &mut BuildBevyMeshesContext) -> (r: Result<
        (),
        Error,
    >)
        ensures
            populate_result(
                ctx_state(*old(ctx)),
                Seq::new(self.0@.len(), |i: int| poly_prim(self.0@[i])),
                ctx_state(*final(ctx)),
                r,
            ),
            old(ctx).wf() ==> final(ctx).wf(),
    {
        let ghost pre = ctx_state(*old(ctx));
        let ghost prims = Seq::new(self.0@.len(), |i: int| poly_prim(self.0@[i]));
        proof {
            assert(prims.skip(0) =~= prims);
        }
        let mut k: usize = 0;
        while k < self.0.len()
            invariant
                k <= self.0@.len(),
                dispatch_seq(pre, prims) == dispatch_seq(ctx_state(*ctx), prims.skip(k as int)),
                old(ctx).wf() ==> ctx.wf(),
            decreases self.0@.len() - k,
        {
            let ghost cur = ctx_state(*ctx);
            proof {
                assert(prims.skip(k as int)[0] == prims[k as int]);
                assert(prims.skip(k as int).drop_first() =~= prims.skip(k + 1));
            }
            let res = self.0[k].populate_mesh_builders(ctx);
            proof {
                lemma_dispatch_singleton(cur, prims[k as int]);
            }
            match res {
                Ok(()) => {},
                Err(e) => {
                    return Err(e);
                },
            }
            k = k + 1;
        }
        proof {
            assert(prims.skip(self.0@.len() as int) =~= Seq::<Prim>::empty());
        }
        Ok(())
    }
}

impl GeometryCollection {
    /// Every member geometry, in input order, recursing structurally and
    /// failing fast.
    #[verifier::loop_isolation(false)]
    pub fn populate_mesh_builders(&self, ctx: &mut BuildBevyMeshesContext) -> (r: Result<
        (),
        Error,
    >)
        ensures
            populate_result(
                ctx_state(*old(ctx)),
                primitives_of_seq(self.0@),
                ctx_state(*final(ctx)),
                r,
            ),
            old(ctx).wf() ==> final(ctx).wf(),
        decreases *self,
    {
        let ghost pre = ctx_state(*old(ctx));
        let ghost prims = primitives_of_seq(self.0@);
        proof {
            assert(self.0@.skip(0) =~= self.0@);
        }
        let mut k: usize = 0;
        while k < self.0.len()
            invariant
                k <= self.0@.len(),
                dispatch_seq(pre, prims) == dispatch_seq(
                    ctx_state(*ctx),
                    primitives_of_seq(self.0@.skip(k as int)),
                ),
                old(ctx).wf() ==> ctx.wf(),
            decreases self.0@.len() - k,
        {
            let ghost cur = ctx_state(*ctx);
            proof {
                assert(self.0@.skip(k as int)[0] == self.0@[k as int]);
                assert(self.0@.skip(k as int).drop_first() =~= self.0@.skip(k + 1));
                assert(decreases_to!(*self => self.0));
                assert(decreases_to!(self.0 => self.0@));
                assert(decreases_to!(self.0@ => self.0@[k as int]));
                assert(decreases_to!(*self => self.0@[k as int]));
            }
            let res = self.0[k].populate_mesh_builders(ctx);
            proof {
                lemma_dispatch_seq_append(
                    cur,
                    primitives_of(self.0@[k as int]),
                    primitives_of_seq(self.0@.skip(k + 1)),
                );
            }
            match res {
                Ok(()) => {},
                Err(e) => {
                    return Err(e);
                },
            }
            k = k + 1;
        }
        proof {
            assert(self.0@.skip(self.0@.len() as int) =~= Seq::<Geometry>::empty());
        }
        Ok(())
    }
}

impl Geometry {
    /// Dispatches one geometry value, whatever its variant, to the matching
    /// accumulators, recursing through composite variants and failing fast.
    pub fn populate_mesh_builders(&self, ctx: &mut BuildBevyMeshesContext) -> (r: Result<
        (),
        Error,
    >)
        ensures
            populate_result(
                ctx_state(*old(ctx)),
                primitives_of(*self),
                ctx_state(*final(ctx)),
                r,
            ),
            old(ctx).wf() ==> final(ctx).wf(),
        decreases *self,
    {
        match self {
            Geometry::Point(g) => g.populate_mesh_builders(ctx),
            Geometry::Line(g) => g.populate_mesh_builders(ctx),
            Geometry::LineString(g) => g.populate_mesh_builders(ctx),
            Geometry::Polygon(g) => g.populate_mesh_builders(ctx),
            Geometry::MultiPoint(g) => g.populate_mesh_builders(ctx),
            Geometry::MultiLineString(g) => g.populate_mesh_builders(ctx),
            Geometry::MultiPolygon(g) => g.populate_mesh_builders(ctx),
            Geometry::GeometryCollection(g) => g.populate_mesh_builders(ctx),
            Geometry::Triangle(g) => g.populate_mesh_builders(ctx),
            Geometry::Rect(g) => g.populate_mesh_builders(ctx),
        }
    }
}

/// Populates the shared context from one geometry value: the crate's
/// dispatch entry point.
pub fn populate_geometry_mesh_builders(
    geometry: &Geometry,
    ctx: &mut BuildBevyMeshesContext,
) -> (r: Result<(), Error>)
    ensures
        populate_result(
            ctx_state(*old(ctx)),
            primitives_of(*geometry),
            ctx_state(*final(ctx)),
            r,
        ),
        old(ctx).wf() ==> final(ctx).wf(),
{
    geometry.populate_mesh_builders(ctx)
}

} // verus!
