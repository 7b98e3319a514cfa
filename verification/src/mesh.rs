//! Geometry data: a vertex and a mesh of triangles.

use vstd::prelude::*;

verus! {

/// A single vertex: a 3D position whose coordinates are carried as
/// IEEE-754 single-precision bit patterns.
#[derive(Clone, Copy, Debug)]
pub struct Vertex {
    /// Bit patterns of the x, y and z coordinates.
    pub xyz_bits: [u32; 3],
}

/// A triangle mesh: an ordered vertex list and a triangle index list.
pub struct Mesh {
    /// Indices into `vertices`, three per triangle.
    pub indices: Vec<u32>,
    /// The vertex list the indices address.
    pub vertices: Vec<Vertex>,
}

impl Mesh {
    /// A mesh is well formed when its index list describes whole
    /// triangles and every index addresses an existing vertex.
    pub open spec fn wf(&self) -> bool {
        &&& self.indices@.len() % 3 == 0
        &&& forall|k: int|
            0 <= k < self.indices@.len() ==> (self.indices@[k] as int) < self.vertices@.len()
    }

    /// Number of vertices in the mesh.
    pub fn vertex_count(&self) -> (n: usize)
        ensures
            n == self.vertices@.len(),
    {
        self.vertices.len()
    }

    /// Number of indices in the mesh.
    pub fn index_count(&self) -> (n: usize)
        ensures
            n == self.indices@.len(),
    {
        self.indices.len()
    }
}

} // verus!
