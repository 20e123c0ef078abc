//! The polygon contour assembler: flattens a polygon-with-holes into the
//! contour format the external triangulator expects, builds border meshes for
//! the exterior and every hole, and merges the triangulator's outcomes into
//! one triangle-list mesh.

use vstd::prelude::*;

use crate::Error;
use crate::geometry::{Coord, LineString, Polygon};
use crate::line_string::{pair_indices, vertices_of, LineStringMeshBuilder};
use crate::mesh::{Mesh, PrimitiveTopology, Vertex};

verus! {

/// A coordinate run flattened to scalar components, x,y interleaved.
pub open spec fn flat_coords_of(cs: Seq<Coord>) -> Seq<u32> {
    Seq::new(2 * cs.len(), |j: int| if j % 2 == 0 { cs[j / 2].x } else { cs[j / 2].y })
}

/// The interior rings of a polygon as plain coordinate runs.
pub open spec fn interior_rings(p: Polygon) -> Seq<Seq<Coord>> {
    Seq::new(p.interiors@.len(), |i: int| p.interiors@[i].0@)
}

/// The whole flattened contour buffer: the exterior ring first, then every
/// hole ring, in order.
pub open spec fn flat_rings(ext: Seq<Coord>, holes: Seq<Seq<Coord>>) -> Seq<u32>
    decreases holes.len(),
{
    if holes.len() == 0 {
        flat_coords_of(ext)
    } else {
        flat_rings(ext, holes.drop_last()) + flat_coords_of(holes.last())
    }
}

/// The running coordinate count (in vertex units) at which hole `k` begins:
/// the exterior ring's length plus the lengths of the holes before `k`.
pub open spec fn hole_offset(ext_len: int, holes: Seq<Seq<Coord>>, k: int) -> int
    decreases k,
{
    if k <= 0 {
        ext_len
    } else {
        hole_offset(ext_len, holes, k - 1) + holes[k - 1].len()
    }
}

/// One prepared triangulator input: the flattened contour buffer and the
/// hole start offsets, in vertex units.
#[derive(Clone, PartialEq, Eq, Debug)]
pub struct EarcutrInput {
    pub vertices: Vec<u32>,
    pub interior_indices: Vec<usize>,
}

/// What the prepared input of a polygon looks like.
pub open spec fn is_earcutr_input_of(inp: EarcutrInput, p: Polygon) -> bool {
    &&& inp.vertices@ == flat_rings(p.exterior.0@, interior_rings(p))
    &&& inp.interior_indices@.len() == p.interiors@.len()
    &&& forall|k: int|
        0 <= k < inp.interior_indices@.len() ==> inp.interior_indices@[k] as int == hole_offset(
            p.exterior.0@.len() as int,
            interior_rings(p),
            k,
        )
}

/// Every ring of the polygon has at least 4 coordinates (3 distinct points
/// plus the closing repeat of a closed ring).
pub open spec fn rings_valid(p: Polygon) -> bool {
    &&& p.exterior.0@.len() >= 4
    &&& forall|k: int| 0 <= k < p.interiors@.len() ==> p.interiors@[k].0@.len() >= 4
}

/// The flattened buffer is exactly twice as long as the coordinate count the
/// next hole offset reports.
proof fn lemma_flat_rings_len(ext: Seq<Coord>, holes: Seq<Seq<Coord>>)
    ensures
        flat_rings(ext, holes).len() == 2 * hole_offset(
            ext.len() as int,
            holes,
            holes.len() as int,
        ),
    decreases holes.len(),
{
    if holes.len() == 0 {
    } else {
        lemma_flat_rings_len(ext, holes.drop_last());
        assert(hole_offset(ext.len() as int, holes.drop_last(), holes.len() - 1) == hole_offset(
            ext.len() as int,
            holes,
            holes.len() - 1,
        )) by {
            lemma_hole_offset_prefix(ext.len() as int, holes.drop_last(), holes, holes.len() - 1);
        }
    }
}

/// A hole offset only depends on the holes before it.
proof fn lemma_hole_offset_prefix(ext_len: int, a: Seq<Seq<Coord>>, b: Seq<Seq<Coord>>, k: int)
    requires
        k <= a.len(),
        k <= b.len(),
        forall|i: int| 0 <= i < k ==> a[i] == b[i],
    ensures
        hole_offset(ext_len, a, k) == hole_offset(ext_len, b, k),
    decreases k,
{
    if k > 0 {
        lemma_hole_offset_prefix(ext_len, a, b, k - 1);
    }
}

/// Hole offsets grow by at least one vertex unit per non-empty hole ring
/// passed over.
proof fn lemma_hole_offset_mono(ext_len: int, rings: Seq<Seq<Coord>>, a: int, b: int)
    requires
        0 <= a <= b <= rings.len(),
        forall|k: int| 0 <= k < rings.len() ==> rings[k].len() >= 1,
    ensures
        hole_offset(ext_len, rings, a) + (b - a) <= hole_offset(ext_len, rings, b),
    decreases b - a,
{
    if a < b {
        lemma_hole_offset_mono(ext_len, rings, a, b - 1);
    }
}

/// Hole offset law: for a polygon with `n` non-degenerate holes, the
/// prepared triangulator input carries exactly `n` hole start offsets, and
/// they are strictly increasing.
pub proof fn lemma_hole_offsets_strictly_increasing(p: Polygon, inp: EarcutrInput)
    requires
        rings_valid(p),
        is_earcutr_input_of(inp, p),
    ensures
        inp.interior_indices@.len() == p.interiors@.len(),
        forall|a: int, b: int|
            0 <= a < b < inp.interior_indices@.len() ==> (inp.interior_indices@[a] as int) < (
            inp.interior_indices@[b] as int),
{
    let rings = interior_rings(p);
    assert forall|a: int, b: int|
        0 <= a < b < inp.interior_indices@.len() implies (inp.interior_indices@[a] as int) < (
    inp.interior_indices@[b] as int) by {
        assert forall|k: int| 0 <= k < rings.len() implies rings[k].len() >= 1 by {
            assert(rings[k] == p.interiors@[k].0@);
        }
        lemma_hole_offset_mono(p.exterior.0@.len() as int, rings, a, b);
    }
}

/// Appends a ring's coordinates to the shared flat buffer, x,y interleaved.
fn flat_line_string_coords_2(line_string: &LineString, vertices: &mut Vec<u32>)
    ensures
        final(vertices)@ == old(vertices)@ + flat_coords_of(line_string.0@),
{
    let n = line_string.0.len();
    let mut i: usize = 0;
    while i < n
        invariant
            i <= n,
            n == line_string.0@.len(),
            vertices@ == old(vertices)@ + flat_coords_of(line_string.0@.take(i as int)),
        decreases n - i,
    {
        let c = line_string.0[i];
        vertices.push(c.x);
        vertices.push(c.y);
        proof {
            assert(flat_coords_of(line_string.0@.take(i + 1)) =~= flat_coords_of(
                line_string.0@.take(i as int),
            ) + seq![c.x, c.y]);
        }
        i = i + 1;
    }
    proof {
        assert(line_string.0@.take(n as int) =~= line_string.0@);
    }
}

/// Whether one ring, fed to a fresh border accumulator, stays inside the
/// 32-bit index range.
pub open spec fn ring_fits(n: int) -> bool {
    crate::line_string::fits_index_range(0, n)
}

/// A border accumulator holding exactly one ring, added to it when fresh.
pub open spec fn is_fresh_ring_builder(b: LineStringMeshBuilder, cs: Seq<Coord>) -> bool {
    &&& b.vertices@ == vertices_of(cs)
    &&& b.indices@ == pair_indices(0, cs.len() as int)
}

/// Accumulates polygons: one prepared triangulator input per polygon, one
/// shared border accumulator for all exterior rings, and one fresh border
/// accumulator per interior ring.
pub struct PolygonMeshBuilder {
    pub earcut_inputs: Vec<EarcutrInput>,
    pub exterior: LineStringMeshBuilder,
    pub interiors: Vec<LineStringMeshBuilder>,
}

impl PolygonMeshBuilder {
    pub open spec fn wf(self) -> bool {
        &&& self.exterior.wf()
        &&& forall|k: int| 0 <= k < self.interiors@.len() ==> self.interiors@[k].wf()
    }

    /// Whether a polygon can be taken in whole: its rings are non-degenerate
    /// and every border accumulator involved stays inside the 32-bit index
    /// range.
    pub open spec fn can_add(self, p: Polygon) -> bool {
        &&& rings_valid(p)
        &&& self.exterior.can_append(p.exterior.0@.len() as int)
        &&& forall|k: int|
            0 <= k < p.interiors@.len() ==> ring_fits(p.interiors@[k].0@.len() as int)
    }

    pub fn new() -> (r: Self)
        ensures
            r.earcut_inputs@.len() == 0,
            r.exterior.vertices@.len() == 0,
            r.exterior.indices@.len() == 0,
            r.interiors@.len() == 0,
            r.wf(),
    {
        PolygonMeshBuilder {
            earcut_inputs: Vec::new(),
            exterior: LineStringMeshBuilder::new(),
            interiors: Vec::new(),
        }
    }

    /// Flattens a polygon into the contour format the external triangulator
    /// expects: the exterior ring's scalars first, then each hole ring's,
    /// with each hole's start offset (in vertex units) recorded before its
    /// coordinates are appended.
    #[verifier::loop_isolation(false)]
    pub fn polygon_to_earcutr_input(polygon: &Polygon) -> (r: EarcutrInput)
        ensures
            is_earcutr_input_of(r, *polygon),
    {
        let ghost ext = polygon.exterior.0@;
        let ghost rings = interior_rings(*polygon);
        let mut vertices: Vec<u32> = Vec::new();
        let mut interior_indices: Vec<usize> = Vec::new();
        flat_line_string_coords_2(&polygon.exterior, &mut vertices);
        proof {
            assert(vertices@ =~= flat_rings(ext, rings.take(0)));
        }
        let mut k: usize = 0;
        while k < polygon.interiors.len()
            invariant
                k <= polygon.interiors@.len(),
                vertices@ == flat_rings(ext, rings.take(k as int)),
                interior_indices@.len() == k,
                forall|j: int|
                    0 <= j < k ==> interior_indices@[j] as int == hole_offset(
                        ext.len() as int,
                        rings,
                        j,
                    ),
            decreases polygon.interiors@.len() - k,
        {
            proof {
                lemma_flat_rings_len(ext, rings.take(k as int));
                lemma_hole_offset_prefix(ext.len() as int, rings.take(k as int), rings, k as int);
            }
            interior_indices.push(vertices.len() / 2);
            flat_line_string_coords_2(&polygon.interiors[k], &mut vertices);
            proof {
                assert(rings.take(k + 1).drop_last() =~= rings.take(k as int));
                assert(rings.take(k + 1).last() == polygon.interiors@[k as int].0@);
            }
            k = k + 1;
        }
        proof {
            assert(rings.take(polygon.interiors@.len() as int) =~= rings);
        }
        EarcutrInput { vertices, interior_indices }
    }

    /// Takes one polygon in whole: checks its rings, prepares its
    /// triangulator input, extends the shared exterior border accumulator,
    /// and opens a fresh border accumulator per hole. Fails without changing
    /// anything on a degenerate ring or when an index would leave the 32-bit
    /// range.
    #[verifier::loop_isolation(false)]
    pub fn add_polygon(&mut self, polygon: &Polygon) -> (r: Result<(), Error>)
        ensures
            r is Ok <==> old(self).can_add(*polygon),
            !rings_valid(*polygon) ==> r == Err::<(), Error>(Error::DegenerateRing),
            rings_valid(*polygon) && !old(self).can_add(*polygon) ==> r == Err::<(), Error>(
                Error::IndexOverflow,
            ),
            r is Err ==> *final(self) == *old(self),
            r is Ok ==> {
                &&& final(self).earcut_inputs@.len() == old(self).earcut_inputs@.len() + 1
                &&& final(self).earcut_inputs@.drop_last() == old(self).earcut_inputs@
                &&& is_earcutr_input_of(final(self).earcut_inputs@.last(), *polygon)
                &&& final(self).exterior.vertices@ == old(self).exterior.vertices@ + vertices_of(
                    polygon.exterior.0@,
                )
                &&& final(self).exterior.indices@ == old(self).exterior.indices@ + pair_indices(
                    old(self).exterior.vertices@.len() as int,
                    polygon.exterior.0@.len() as int,
                )
                &&& final(self).interiors@.len() == old(self).interiors@.len()
                    + polygon.interiors@.len()
                &&& forall|k: int|
                    0 <= k < old(self).interiors@.len() ==> final(self).interiors@[k] == old(
                        self,
                    ).interiors@[k]
                &&& forall|k: int|
                    0 <= k < polygon.interiors@.len() ==> is_fresh_ring_builder(
                        final(self).interiors@[old(self).interiors@.len() + k],
                        polygon.interiors@[k].0@,
                    )
            },
            old(self).wf() ==> final(self).wf(),
    {
        if polygon.exterior.0.len() < 4 {
            return Err(Error::DegenerateRing);
        }
        let mut k: usize = 0;
        while k < polygon.interiors.len()
            invariant
                k <= polygon.interiors@.len(),
                forall|j: int| 0 <= j < k ==> polygon.interiors@[j].0@.len() >= 4,
            decreases polygon.interiors@.len() - k,
        {
            if polygon.interiors[k].0.len() < 4 {
                return Err(Error::DegenerateRing);
            }
            k = k + 1;
        }
        let mut new_interiors: Vec<LineStringMeshBuilder> = Vec::new();
        let mut k: usize = 0;
        while k < polygon.interiors.len()
            invariant
                k <= polygon.interiors@.len(),
                new_interiors@.len() == k,
                forall|j: int|
                    0 <= j < k ==> is_fresh_ring_builder(
                        new_interiors@[j],
                        polygon.interiors@[j].0@,
                    ),
                forall|j: int| 0 <= j < k ==> new_interiors@[j].wf(),
                forall|j: int| 0 <= j < k ==> ring_fits(polygon.interiors@[j].0@.len() as int),
            decreases polygon.interiors@.len() - k,
        {
            let mut builder = LineStringMeshBuilder::new();
            match builder.add_line_string(&polygon.interiors[k].0) {
                Ok(()) => {
                    proof {
                        assert(builder.vertices@ =~= vertices_of(polygon.interiors@[k as int].0@));
                    }
                    new_interiors.push(builder);
                }
                Err(e) => {
                    return Err(e);
                },
            }
            k = k + 1;
        }
        match self.exterior.add_line_string(&polygon.exterior.0) {
            Ok(()) => {}
            Err(e) => {
                return Err(e);
            },
        }
        let input = Self::polygon_to_earcutr_input(polygon);
        self.earcut_inputs.push(input);
        self.interiors.append(&mut new_interiors);
        proof {
            assert(self.earcut_inputs@.drop_last() =~= old(self).earcut_inputs@);
        }
        Ok(())
    }
}

/// One outcome of the external triangulator: the vertex scalars it hands
/// back (x,y interleaved, as single-precision bit patterns) and the triangle
/// index triples into them.
#[derive(Clone, PartialEq, Eq, Debug)]
pub struct Triangulation {
    pub vertices: Vec<u32>,
    pub triangle_indices: Vec<usize>,
}

/// A finished polygon output: the triangulated fill mesh, the exterior
/// border mesh, and one border mesh per hole.
pub struct PolygonMesh {
    pub mesh: Mesh,
    pub exterior_mesh: Mesh,
    pub interior_meshes: Vec<Mesh>,
}

/// How many vertices a triangulation outcome carries.
pub open spec fn tri_vertex_count(t: Triangulation) -> int {
    (t.vertices@.len() / 2) as int
}

/// A usable triangulation outcome: whole vertices, whole triangles, and
/// every index addressing a vertex it carries.
pub open spec fn tri_shape_ok(t: Triangulation) -> bool {
    &&& t.vertices@.len() as int % 2 == 0
    &&& t.triangle_indices@.len() as int % 3 == 0
    &&& forall|j: int|
        0 <= j < t.triangle_indices@.len() ==> (t.triangle_indices@[j] as int) < tri_vertex_count(
            t,
        )
}

/// The vertex run a triangulation outcome contributes to the fill mesh.
pub open spec fn tri_positions(t: Triangulation) -> Seq<Vertex> {
    Seq::new(
        tri_vertex_count(t) as nat,
        |i: int| Vertex { x: t.vertices@[2 * i], y: t.vertices@[2 * i + 1], z: 0 },
    )
}

/// One outcome's triangle indices, rebased onto the shared vertex buffer.
pub open spec fn shifted_indices(t: Triangulation, base: int) -> Seq<u32> {
    Seq::new(t.triangle_indices@.len(), |j: int| ((base + t.triangle_indices@[j] as int) as u32))
}

/// The shared fill-mesh buffers while triangulation outcomes are merged.
pub ghost struct MergeState {
    pub positions: Seq<Vertex>,
    pub indices: Seq<u32>,
}

pub open spec fn empty_merge_state() -> MergeState {
    MergeState { positions: Seq::empty(), indices: Seq::empty() }
}

/// Merges one triangulation outcome onto the shared buffers: a missing or
/// malformed outcome is the triangulator's failure; a vertex count that
/// leaves the 32-bit index range is an overflow.
pub open spec fn merge_step(st: MergeState, oc: Option<Triangulation>) -> Result<
    MergeState,
    Error,
> {
    match oc {
        None => Err(Error::Triangulation),
        Some(t) => if !tri_shape_ok(t) {
            Err(Error::Triangulation)
        } else if st.positions.len() + tri_vertex_count(t) > u32::MAX as int + 1 {
            Err(Error::IndexOverflow)
        } else {
            Ok(
                MergeState {
                    positions: st.positions + tri_positions(t),
                    indices: st.indices + shifted_indices(t, st.positions.len() as int),
                },
            )
        },
    }
}

/// Merges triangulation outcomes in order, stopping at the first failure.
pub open spec fn merge_from(st: MergeState, outcomes: Seq<Option<Triangulation>>) -> Result<
    MergeState,
    Error,
>
    decreases outcomes.len(),
{
    if outcomes.len() == 0 {
        Ok(st)
    } else {
        match merge_step(st, outcomes[0]) {
            Err(e) => Err(e),
            Ok(st2) => merge_from(st2, outcomes.drop_first()),
        }
    }
}

/// What merging a whole outcome run onto empty buffers yields.
pub open spec fn merged(outcomes: Seq<Option<Triangulation>>) -> Result<MergeState, Error> {
    merge_from(empty_merge_state(), outcomes)
}

impl PolygonMeshBuilder {
    /// Finalizes the assembler against the triangulator's outcomes, one per
    /// prepared input: merges the fill triangles into one triangle-list mesh
    /// (rebasing each outcome's indices onto the shared vertex buffer) and
    /// finalizes the exterior and hole border meshes. No output when no
    /// polygon was added; the triangulator's failure, an index leaving the
    /// 32-bit range, and an empty border accumulator are each reported.
    #[verifier::loop_isolation(false)]
    pub fn build(self, outcomes: Vec<Option<Triangulation>>) -> (r: Result<
        Option<PolygonMesh>,
        Error,
    >)
        requires
            self.wf(),
            outcomes@.len() == self.earcut_inputs@.len(),
        ensures
            match r {
                Ok(opt_pm) => match opt_pm {
                    None => self.earcut_inputs@.len() == 0,
                    Some(pm) => {
                        &&& self.earcut_inputs@.len() > 0
                        &&& merged(outcomes@) matches Ok(st) && pm.mesh.positions@ == st.positions
                            && pm.mesh.indices@ == st.indices
                        &&& pm.mesh.topology == PrimitiveTopology::TriangleList
                        &&& pm.mesh.wf()
                        &&& self.exterior.vertices@.len() > 0
                        &&& pm.exterior_mesh.topology == PrimitiveTopology::LineList
                        &&& pm.exterior_mesh.wf()
                        &&& pm.exterior_mesh.positions@ == self.exterior.vertices@
                        &&& pm.exterior_mesh.indices@ == self.exterior.indices@
                        &&& pm.interior_meshes@.len() == self.interiors@.len()
                        &&& forall|k: int|
                            0 <= k < self.interiors@.len() ==> {
                                &&& pm.interior_meshes@[k].topology
                                    == PrimitiveTopology::LineList
                                &&& pm.interior_meshes@[k].wf()
                                &&& pm.interior_meshes@[k].positions@
                                    == self.interiors@[k].vertices@
                                &&& pm.interior_meshes@[k].indices@
                                    == self.interiors@[k].indices@
                                &&& self.interiors@[k].vertices@.len() > 0
                            }
                    },
                },
                Err(e) => {
                    &&& self.earcut_inputs@.len() > 0
                    &&& (merged(outcomes@) matches Err(e0) ==> e == e0)
                    &&& (merged(outcomes@) is Ok ==> e == Error::EmptyGeometry && (
                    self.exterior.vertices@.len() == 0 || exists|k: int|
                        0 <= k < self.interiors@.len() && self.interiors@[k].vertices@.len()
                            == 0))
                },
            },
    {
        let PolygonMeshBuilder { earcut_inputs, exterior, interiors } = self;
        if earcut_inputs.len() == 0 {
            return Ok(None);
        }
        let ghost all_interiors = interiors@;
        let n = outcomes.len();
        let mut positions: Vec<Vertex> = Vec::new();
        let mut indices: Vec<u32> = Vec::new();
        proof {
            assert(positions@ =~= Seq::<Vertex>::empty());
            assert(indices@ =~= Seq::<u32>::empty());
            assert(outcomes@.skip(0) =~= outcomes@);
        }
        let mut k: usize = 0;
        while k < n
            invariant
                k <= n,
                merged(outcomes@) == merge_from(
                    MergeState { positions: positions@, indices: indices@ },
                    outcomes@.skip(k as int),
                ),
                positions@.len() <= u32::MAX as int + 1,
                indices@.len() as int % 3 == 0,
                forall|i: int| 0 <= i < indices@.len() ==> (indices@[i] as int) < positions@.len(),
            decreases n - k,
        {
            let ghost st_before = MergeState { positions: positions@, indices: indices@ };
            proof {
                assert(outcomes@.skip(k as int)[0] == outcomes@[k as int]);
                assert(outcomes@.skip(k as int).drop_first() =~= outcomes@.skip(k + 1));
            }
            match &outcomes[k] {
                None => {
                    return Err(Error::Triangulation);
                },
                Some(t) => {
                    if t.vertices.len() % 2 != 0 {
                        return Err(Error::Triangulation);
                    }
                    if t.triangle_indices.len() % 3 != 0 {
                        return Err(Error::Triangulation);
                    }
                    let count = t.vertices.len() / 2;
                    let mut j: usize = 0;
                    while j < t.triangle_indices.len()
                        invariant
                            j <= t.triangle_indices@.len(),
                            forall|i: int|
                                0 <= i < j ==> (t.triangle_indices@[i] as int) < count as int,
                        decreases t.triangle_indices@.len() - j,
                    {
                        if t.triangle_indices[j] >= count {
                            return Err(Error::Triangulation);
                        }
                        j = j + 1;
                    }
                    if positions.len() as u64 + count as u64 > u32::MAX as u64 + 1 {
                        return Err(Error::IndexOverflow);
                    }
                    let base = positions.len();
                    let mut j: usize = 0;
                    while j < count
                        invariant
                            j <= count,
                            positions@ == st_before.positions + tri_positions(*t).take(j as int),
                        decreases count - j,
                    {
                        positions.push(
                            Vertex { x: t.vertices[2 * j], y: t.vertices[2 * j + 1], z: 0 },
                        );
                        proof {
                            assert(tri_positions(*t).take(j + 1) =~= tri_positions(*t).take(
                                j as int,
                            ).push(tri_positions(*t)[j as int]));
                        }
                        j = j + 1;
                    }
                    proof {
                        assert(positions@ =~= st_before.positions + tri_positions(*t));
                    }
                    let mut j: usize = 0;
                    while j < t.triangle_indices.len()
                        invariant
                            j <= t.triangle_indices@.len(),
                            indices@ == st_before.indices + shifted_indices(
                                *t,
                                base as int,
                            ).take(j as int),
                        decreases t.triangle_indices@.len() - j,
                    {
                        let idx = t.triangle_indices[j];
                        indices.push((base + idx) as u32);
                        proof {
                            assert(shifted_indices(*t, base as int).take(j + 1) =~= shifted_indices(
                                *t,
                                base as int,
                            ).take(j as int).push(shifted_indices(*t, base as int)[j as int]));
                        }
                        j = j + 1;
                    }
                    proof {
                        assert(indices@ =~= st_before.indices + shifted_indices(*t, base as int));
                    }
                },
            }
            k = k + 1;
        }
        proof {
            assert(outcomes@.skip(n as int) =~= Seq::<Option<Triangulation>>::empty());
        }
        let mesh = Mesh::assemble(PrimitiveTopology::TriangleList, positions, indices);
        let exterior_mesh = match exterior.build() {
            None => {
                return Err(Error::EmptyGeometry);
            },
            Some(m) => m,
        };
        let mut interior_meshes: Vec<Mesh> = Vec::new();
        let mut remaining = interiors;
        while remaining.len() > 0
            invariant
                interior_meshes@.len() + remaining@.len() == all_interiors.len(),
                remaining@ == all_interiors.skip(interior_meshes@.len() as int),
                forall|i: int|
                    0 <= i < interior_meshes@.len() ==> {
                        &&& interior_meshes@[i].topology == PrimitiveTopology::LineList
                        &&& interior_meshes@[i].wf()
                        &&& interior_meshes@[i].positions@ == all_interiors[i].vertices@
                        &&& interior_meshes@[i].indices@ == all_interiors[i].indices@
                        &&& all_interiors[i].vertices@.len() > 0
                    },
            decreases remaining@.len(),
        {
            let ghost done = interior_meshes@.len() as int;
            proof {
                assert(all_interiors.skip(done)[0] == all_interiors[done]);
            }
            let builder = remaining.remove(0);
            proof {
                assert(remaining@ =~= all_interiors.skip(done + 1));
            }
            match builder.build() {
                None => {
                    return Err(Error::EmptyGeometry);
                },
                Some(m) => {
                    interior_meshes.push(m);
                },
            }
        }
        Ok(Some(PolygonMesh { mesh, exterior_mesh, interior_meshes }))
    }
}

impl Default for PolygonMeshBuilder {
    fn default() -> (r: Self)
        ensures
            r.earcut_inputs@.len() == 0,
            r.exterior.vertices@.len() == 0,
            r.exterior.indices@.len() == 0,
            r.interiors@.len() == 0,
            r.wf(),
    {
        PolygonMeshBuilder::new()
    }
}

} // verus!
