//! The polyline accumulator: builds one shared line-list buffer from many
//! independently added polylines.

use vstd::prelude::*;

use crate::Error;
use crate::geometry::Coord;
use crate::mesh::{Mesh, PrimitiveTopology, Vertex};

verus! {

/// The vertex a coordinate becomes: its two components and a zero third
/// component.
pub open spec fn vertex_of(c: Coord) -> Vertex {
    Vertex { x: c.x, y: c.y, z: 0 }
}

/// The vertex run a coordinate run becomes, order preserved.
pub open spec fn vertices_of(cs: Seq<Coord>) -> Seq<Vertex> {
    Seq::new(cs.len(), |i: int| vertex_of(cs[i]))
}

/// How many indices a polyline of `n` coordinates contributes: one pair per
/// adjacent coordinate pair, none for a degenerate polyline.
pub open spec fn pair_index_count(n: int) -> int {
    if n < 2 {
        0
    } else {
        2 * (n - 1)
    }
}

/// The index pairs of one polyline whose first vertex sits at `base`:
/// `(base, base+1), (base+1, base+2), ...` flattened. Entry `j` is
/// `base + (j+1)/2`.
pub open spec fn pair_indices(base: int, n: int) -> Seq<u32> {
    Seq::new(pair_index_count(n) as nat, |j: int| ((base + (j + 1) / 2) as u32))
}

/// Whether a polyline of `n` coordinates whose first vertex would sit at
/// `base` keeps every index it contributes inside the 32-bit range. A
/// polyline of fewer than 2 coordinates contributes no indices and always
/// fits.
pub open spec fn fits_index_range(base: int, n: int) -> bool {
    n < 2 || base + n - 1 <= u32::MAX as int
}

/// Builds a line-list buffer: one vertex per input coordinate, one index pair
/// per consecutive coordinate pair of one polyline. Pairs never connect one
/// polyline to the next.
pub struct LineStringMeshBuilder {
    pub vertices: Vec<Vertex>,
    pub indices: Vec<u32>,
}

impl LineStringMeshBuilder {
    /// The index buffer holds whole pairs and every index addresses an
    /// existing vertex.
    pub open spec fn wf(self) -> bool {
        &&& self.indices@.len() % 2 == 0
        &&& forall|i: int|
            0 <= i < self.indices@.len() ==> (self.indices@[i] as int) < self.vertices@.len()
    }

    /// Whether a polyline of `n` coordinates still fits the 32-bit index
    /// range on top of the vertices already accumulated.
    pub open spec fn can_append(self, n: int) -> bool {
        fits_index_range(self.vertices@.len() as int, n)
    }

    pub fn new() -> (r: Self)
        ensures
            r.vertices@.len() == 0,
            r.indices@.len() == 0,
            r.wf(),
    {
        LineStringMeshBuilder { vertices: Vec::new(), indices: Vec::new() }
    }

    /// Appends one polyline: one vertex per coordinate, then one index pair
    /// per adjacent coordinate pair of this polyline only. Fails without
    /// changing anything when an index would leave the 32-bit range; a
    /// polyline of fewer than 2 coordinates contributes vertices but no
    /// indices.
    pub fn add_line_string(&mut self, coords: &Vec<Coord>) -> (r: Result<(), Error>)
        ensures
            r is Ok <==> old(self).can_append(coords@.len() as int),
            r is Ok ==> final(self).vertices@ == old(self).vertices@ + vertices_of(coords@),
            r is Ok ==> final(self).indices@ == old(self).indices@ + pair_indices(
                old(self).vertices@.len() as int,
                coords@.len() as int,
            ),
            r is Err ==> *final(self) == *old(self) && r == Err::<(), Error>(Error::IndexOverflow),
            old(self).wf() ==> final(self).wf(),
    {
        let base = self.vertices.len();
        let n = coords.len();
        if n >= 2 {
            let fits = match base.checked_add(n - 1) {
                Some(last) => last <= u32::MAX as usize,
                None => false,
            };
            if !fits {
                return Err(Error::IndexOverflow);
            }
        }
        let mut i: usize = 0;
        while i < n
            invariant
                i <= n,
                n == coords@.len(),
                base == old(self).vertices@.len(),
                n >= 2 ==> base + n - 1 <= u32::MAX as int,
                self.vertices@ == old(self).vertices@ + vertices_of(coords@.take(i as int)),
                self.indices@ == old(self).indices@ + pair_indices(base as int, i as int),
            decreases n - i,
        {
            let c = coords[i];
            self.vertices.push(Vertex { x: c.x, y: c.y, z: 0 });
            proof {
                assert(coords@.take(i + 1).drop_last() =~= coords@.take(i as int));
                assert(vertices_of(coords@.take(i + 1)) =~= vertices_of(coords@.take(i as int)).push(
                    vertex_of(coords@[i as int]),
                ));
            }
            if i > 0 {
                self.indices.push((base + i - 1) as u32);
                self.indices.push((base + i) as u32);
                proof {
                    assert(pair_indices(base as int, i + 1) =~= pair_indices(base as int, i as int)
                        + seq![((base + i - 1) as u32), ((base + i) as u32)]);
                }
            } else {
                proof {
                    assert(pair_indices(base as int, i + 1) =~= pair_indices(
                        base as int,
                        i as int,
                    ));
                }
            }
            i = i + 1;
        }
        proof {
            assert(coords@.take(n as int) =~= coords@);
        }
        Ok(())
    }

    /// Finalizes the accumulated buffer: no output when nothing was added,
    /// otherwise a line-topology mesh carrying the vertices and index pairs
    /// plus the synthesized neutral attributes.
    pub fn build(self) -> (r: Option<Mesh>)
        requires
            self.wf(),
        ensures
            r is None <==> self.vertices@.len() == 0,
            r matches Some(m) ==> {
                &&& m.wf()
                &&& m.topology == PrimitiveTopology::LineList
                &&& m.positions@ == self.vertices@
                &&& m.indices@ == self.indices@
            },
    {
        if self.vertices.len() == 0 {
            None
        } else {
            Some(Mesh::assemble(PrimitiveTopology::LineList, self.vertices, self.indices))
        }
    }
}

/// Round-trip ordering law: the vertex run a polyline append contributes
/// preserves the input coordinates' count and order — the vertex at offset
/// `i` past the previously accumulated run is exactly the vertex of input
/// coordinate `i`, with its two components unchanged.
pub proof fn lemma_round_trip_ordering(b: LineStringMeshBuilder, cs: Seq<Coord>)
    ensures
        (b.vertices@ + vertices_of(cs)).len() == b.vertices@.len() + cs.len(),
        forall|i: int|
            0 <= i < cs.len() ==> (b.vertices@ + vertices_of(cs))[b.vertices@.len() + i]
                == vertex_of(cs[i]),
{
}

/// Overflow boundary law: a polyline whose last contributed vertex index
/// would land exactly on the 32-bit maximum still fits; one past it does
/// not, and the append is then refused.
pub proof fn lemma_overflow_boundary(b: LineStringMeshBuilder, n: int)
    requires
        n >= 2,
    ensures
        b.vertices@.len() + n - 1 == u32::MAX as int ==> b.can_append(n),
        b.vertices@.len() + n - 1 == u32::MAX as int + 1 ==> !b.can_append(n),
{
}

impl Default for LineStringMeshBuilder {
    fn default() -> (r: Self)
        ensures
            r.vertices@.len() == 0,
            r.indices@.len() == 0,
            r.wf(),
    {
        LineStringMeshBuilder::new()
    }
}

} // verus!
