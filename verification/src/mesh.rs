//! The target mesh model: flat vertex buffers plus topology and the neutral
//! per-vertex attributes the renderer-side container expects.
//!
//! Every scalar that ultimately feeds a vertex buffer is carried as the bit
//! pattern of a single-precision value, so the buffers here are exactly the
//! words a renderer would upload.

use vstd::prelude::*;

verus! {

/// One vertex position: the bit patterns of the three single-precision
/// components `[x, y, z]`. The third component is always `0.0`, whose bit
/// pattern is `0`.
#[derive(Clone, Copy, PartialEq, Eq, Structural, Debug)]
pub struct Vertex {
    pub x: u32,
    pub y: u32,
    pub z: u32,
}

/// One texture coordinate: the bit patterns of the two single-precision
/// components `[u, v]`.
#[derive(Clone, Copy, PartialEq, Eq, Structural, Debug)]
pub struct Uv {
    pub u: u32,
    pub v: u32,
}

/// How the index buffer is to be read.
#[derive(Clone, Copy, PartialEq, Eq, Structural, Debug)]
pub enum PrimitiveTopology {
    PointList,
    LineList,
    TriangleList,
}

/// A finished mesh: positions, topology indices, and the placeholder normal
/// and texture attributes that complete the required attribute set.
pub struct Mesh {
    pub topology: PrimitiveTopology,
    pub positions: Vec<Vertex>,
    pub indices: Vec<u32>,
    pub normals: Vec<Vertex>,
    pub uvs: Vec<Uv>,
}

pub open spec fn zero_vertex() -> Vertex {
    Vertex { x: 0, y: 0, z: 0 }
}

pub open spec fn zero_uv() -> Uv {
    Uv { u: 0, v: 0 }
}

/// How many indices one primitive of the given topology consumes.
pub open spec fn index_arity(topology: PrimitiveTopology) -> int {
    match topology {
        PrimitiveTopology::PointList => 1,
        PrimitiveTopology::LineList => 2,
        PrimitiveTopology::TriangleList => 3,
    }
}

impl Mesh {
    /// Every index addresses a vertex that exists, the index count matches the
    /// topology, and the synthesized attributes cover every vertex.
    pub open spec fn wf(self) -> bool {
        &&& forall|i: int|
            0 <= i < self.indices@.len() ==> (self.indices@[i] as int) < self.positions@.len()
        &&& self.indices@.len() as int % index_arity(self.topology) == 0
        &&& self.normals@.len() == self.positions@.len()
        &&& self.uvs@.len() == self.positions@.len()
        &&& forall|i: int| 0 <= i < self.normals@.len() ==> self.normals@[i] == zero_vertex()
        &&& forall|i: int| 0 <= i < self.uvs@.len() ==> self.uvs@[i] == zero_uv()
    }

    /// Wraps finished position and index buffers into a mesh, synthesizing the
    /// zero normal and texture attributes.
    pub fn assemble(topology: PrimitiveTopology, positions: Vec<Vertex>, indices: Vec<u32>) -> (m:
        Mesh)
        requires
            forall|i: int|
                0 <= i < indices@.len() ==> (indices@[i] as int) < positions@.len(),
            indices@.len() as int % index_arity(topology) == 0,
        ensures
            m.wf(),
            m.topology == topology,
            m.positions@ == positions@,
            m.indices@ == indices@,
    {
        let n = positions.len();
        let mut normals: Vec<Vertex> = Vec::new();
        let mut uvs: Vec<Uv> = Vec::new();
        let mut i: usize = 0;
        while i < n
            invariant
                i <= n,
                normals@.len() == i,
                uvs@.len() == i,
                forall|j: int| 0 <= j < i ==> normals@[j] == zero_vertex(),
                forall|j: int| 0 <= j < i ==> uvs@[j] == zero_uv(),
            decreases n - i,
        {
            normals.push(Vertex { x: 0, y: 0, z: 0 });
            uvs.push(Uv { u: 0, v: 0 });
            i = i + 1;
        }
        Mesh { topology, positions, indices, normals, uvs }
    }
}

/// Index validity law: in a well-formed mesh every index value addresses a
/// vertex that exists.
pub proof fn lemma_index_validity(m: Mesh)
    requires
        m.wf(),
    ensures
        forall|i: int|
            0 <= i < m.indices@.len() ==> (m.indices@[i] as int) < m.positions@.len(),
{
}

} // verus!
