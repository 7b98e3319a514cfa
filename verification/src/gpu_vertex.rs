//! The vertex layout the GPU backend stores in its vertex buffer.

use vstd::prelude::*;

use crate::mesh::Vertex;

verus! {

/// Size in bytes of one [`GpuVertex`]: four 32-bit components.
pub const GPU_VERTEX_BYTES: u64 = 16;

/// A vertex in the layout of the GPU vertex buffer: the three position
/// coordinates padded to four 32-bit components, each an IEEE-754
/// single-precision bit pattern. The fourth component is always the bit
/// pattern of zero.
#[derive(Clone, Copy, Debug)]
pub struct GpuVertex {
    /// Bit patterns of the four components.
    pub position_bits: [u32; 4],
}

/// The GPU-layout image of a mesh vertex: its coordinates followed by a
/// zero pad component.
pub open spec fn gpu_vertex_of(v: Vertex) -> Seq<u32> {
    seq![v.xyz_bits@[0], v.xyz_bits@[1], v.xyz_bits@[2], 0u32]
}

impl GpuVertex {
    /// Builds the GPU-layout vertex for the given coordinate bit patterns.
    pub fn new(xyz_bits: [u32; 3]) -> (g: GpuVertex)
        ensures
            g.position_bits@ == gpu_vertex_of(Vertex { xyz_bits }),
    {
        let g = GpuVertex { position_bits: [xyz_bits[0], xyz_bits[1], xyz_bits[2], 0u32] };
        proof {
            assert(g.position_bits@ =~= gpu_vertex_of(Vertex { xyz_bits }));
        }
        g
    }

    /// Converts a mesh vertex into the GPU layout.
    pub fn from_vertex(v: &Vertex) -> (g: GpuVertex)
        ensures
            g.position_bits@ == gpu_vertex_of(*v),
    {
        GpuVertex::new(v.xyz_bits)
    }
}

} // verus!
