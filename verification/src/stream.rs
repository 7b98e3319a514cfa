//! The verified core of the GPU streaming backend.
//!
//! [`StreamRenderer`] owns the backend's streaming state: the two
//! high-water marks of the fixed-capacity vertex and index buffers, the
//! surface dimensions and the current camera pose. It decides, per the
//! renderer contract, what the GPU driver must write and draw; the
//! driver owns the actual device, queue, surface and pipeline and
//! carries the returned commands out verbatim.

use vstd::prelude::*;

use crate::camera::Camera;
use crate::gpu_vertex::gpu_vertex_of;
use crate::gpu_vertex::GpuVertex;
use crate::gpu_vertex::GPU_VERTEX_BYTES;
use crate::mesh::Mesh;
use crate::renderer::draw_range;
use crate::renderer::DrawRange;
use crate::renderer::FramePlan;
use crate::renderer::MeshWrite;
use crate::renderer::RenderError;
use crate::renderer::Renderer;

verus! {

/// Fixed capacity of the vertex buffer, in vertices.
pub const MAX_VERTICES: usize = 100;

/// Fixed capacity of the index buffer, in indices.
pub const MAX_INDICES: usize = 100;

/// Bit pattern of the initial yaw angle (one radian).
pub const INITIAL_YAW_BITS: u32 = 0x3F80_0000;

/// The streaming state of the GPU backend.
///
/// The buffers are allocated once, sized for [`MAX_VERTICES`] and
/// [`MAX_INDICES`]; both high-water marks advance monotonically and are
/// never reset during the renderer's lifetime. The ghost fields mirror
/// what the driver has written into the GPU buffers so far.
pub struct StreamRenderer {
    width: u32,
    height: u32,
    vertex_mark: usize,
    index_mark: usize,
    camera: Camera,
    buf_vertices: Ghost<Seq<GpuVertex>>,
    buf_indices: Ghost<Seq<u32>>,
}

impl StreamRenderer {
    /// Size in bytes of the vertex buffer the driver must allocate.
    pub fn vertex_buffer_size_bytes() -> (n: u64)
        ensures
            n == MAX_VERTICES as u64 * GPU_VERTEX_BYTES,
    {
        (MAX_VERTICES as u64) * GPU_VERTEX_BYTES
    }

    /// Size in bytes of the index buffer the driver must allocate: four
    /// bytes per 32-bit index.
    pub fn index_buffer_size_bytes() -> (n: u64)
        ensures
            n == MAX_INDICES as u64 * 4,
    {
        (MAX_INDICES as u64) * 4
    }

    /// Vertex high-water mark: vertices streamed in so far.
    pub fn num_vertices(&self) -> (n: usize)
        ensures
            n == self.vertex_count(),
    {
        self.vertex_mark
    }

    /// Index high-water mark: indices streamed in so far.
    pub fn num_indices(&self) -> (n: usize)
        ensures
            n == self.index_count(),
    {
        self.index_mark
    }

    /// Width of the configured surface, in pixels.
    pub fn width(&self) -> (w: u32)
        ensures
            w == self.surface_width(),
    {
        self.width
    }

    /// Height of the configured surface, in pixels.
    pub fn height(&self) -> (h: u32)
        ensures
            h == self.surface_height(),
    {
        self.height
    }

    /// The pose the camera uniform was last rebuilt from.
    pub fn current_camera(&self) -> (c: Camera)
        ensures
            c == self.camera(),
    {
        self.camera
    }
}

/// Picks the surface format: the first format the surface offers that
/// is sRGB, or the first offered format when none is. The argument
/// holds, for each offered format in order, whether it is sRGB.
pub fn select_format_index(is_srgb: &Vec<bool>) -> (i: usize)
    requires
        is_srgb@.len() > 0,
    ensures
        i < is_srgb@.len(),
        forall|k: int| 0 <= k < i ==> !is_srgb@[k],
        is_srgb@[i as int] || i == 0,
        (exists|k: int| 0 <= k < is_srgb@.len() && is_srgb@[k]) ==> is_srgb@[i as int],
{
    let n = is_srgb.len();
    let mut i: usize = 0;
    while i < n
        invariant
            n == is_srgb@.len(),
            i <= n,
            forall|k: int| 0 <= k < i ==> !is_srgb@[k],
        decreases n - i,
    {
        if is_srgb[i] {
            return i;
        }
        i = i + 1;
    }
    0
}

impl Renderer for StreamRenderer {
    /// The marks never pass the capacities, the surface is never zero
    /// sized, the ghost buffer images match the marks, and every index
    /// written so far addresses a vertex written so far.
    closed spec fn wf(&self) -> bool {
        &&& self.vertex_mark <= MAX_VERTICES
        &&& self.index_mark <= MAX_INDICES
        &&& self.width > 0
        &&& self.height > 0
        &&& self.buf_vertices@.len() == self.vertex_mark
        &&& self.buf_indices@.len() == self.index_mark
        &&& forall|k: int|
            0 <= k < self.buf_indices@.len() ==> (self.buf_indices@[k] as int) < self.vertex_mark
    }

    closed spec fn vertex_count(&self) -> int {
        self.vertex_mark as int
    }

    closed spec fn index_count(&self) -> int {
        self.index_mark as int
    }

    open spec fn max_vertices(&self) -> int {
        MAX_VERTICES as int
    }

    open spec fn max_indices(&self) -> int {
        MAX_INDICES as int
    }

    closed spec fn surface_width(&self) -> u32 {
        self.width
    }

    closed spec fn surface_height(&self) -> u32 {
        self.height
    }

    closed spec fn camera(&self) -> Camera {
        self.camera
    }

    closed spec fn buffered_vertices(&self) -> Seq<GpuVertex> {
        self.buf_vertices@
    }

    closed spec fn buffered_indices(&self) -> Seq<u32> {
        self.buf_indices@
    }

    /// The origin, looking horizontally, one radian of yaw from the
    /// positive x axis.
    open spec fn initial_camera() -> Camera {
        Camera { x_bits: 0, y_bits: 0, z_bits: 0, pitch_bits: 0, yaw_bits: INITIAL_YAW_BITS }
    }

    fn new(width: u32, height: u32) -> (r: Self) {
        StreamRenderer {
            width,
            height,
            vertex_mark: 0,
            index_mark: 0,
            camera: Camera {
                x_bits: 0,
                y_bits: 0,
                z_bits: 0,
                pitch_bits: 0,
                yaw_bits: INITIAL_YAW_BITS,
            },
            buf_vertices: Ghost(Seq::empty()),
            buf_indices: Ghost(Seq::empty()),
        }
    }

    fn render(&mut self, camera: Camera) -> (plan: FramePlan) {
        self.camera = camera;
        let draw: Option<DrawRange> = if self.index_mark > 0 && self.vertex_mark > 0 {
            Some(DrawRange { start: 0, end: self.index_mark as u32 })
        } else {
            None
        };
        FramePlan { camera, aspect_num: self.width, aspect_den: self.height, draw }
    }

    fn resize(&mut self, width: u32, height: u32, _scale_factor_bits: u64) {
        self.width = width;
        self.height = height;
    }

    fn load_mesh(&mut self, mesh: Mesh) -> (r: Result<MeshWrite, RenderError>) {
        let nv = mesh.vertices.len();
        let ni = mesh.indices.len();
        if nv > MAX_VERTICES - self.vertex_mark {
            return Err(RenderError::VertexCapacity);
        }
        if ni > MAX_INDICES - self.index_mark {
            return Err(RenderError::IndexCapacity);
        }
        let mut gpu_vertices: Vec<GpuVertex> = Vec::new();
        let mut i: usize = 0;
        while i < nv
            invariant
                nv == mesh.vertices@.len(),
                i <= nv,
                gpu_vertices@.len() == i,
                forall|k: int|
                    0 <= k < i ==> gpu_vertices@[k].position_bits@ == gpu_vertex_of(
                        mesh.vertices@[k],
                    ),
            decreases nv - i,
        {
            let g = GpuVertex::from_vertex(&mesh.vertices[i]);
            gpu_vertices.push(g);
            i = i + 1;
        }
        let base: u32 = self.vertex_mark as u32;
        let mut adjusted: Vec<u32> = Vec::new();
        let mut j: usize = 0;
        while j < ni
            invariant
                self == old(self),
                mesh.wf(),
                ni == mesh.indices@.len(),
                nv == mesh.vertices@.len(),
                nv + self.vertex_mark <= MAX_VERTICES,
                base == self.vertex_mark as u32,
                self.vertex_mark <= MAX_VERTICES,
                j <= ni,
                adjusted@.len() == j,
                forall|k: int| 0 <= k < j ==> adjusted@[k] == mesh.indices@[k] + base,
            decreases ni - j,
        {
            let idx = mesh.indices[j];
            adjusted.push(idx + base);
            j = j + 1;
        }
        let vertex_offset_bytes: u64 = (self.vertex_mark as u64) * GPU_VERTEX_BYTES;
        let index_offset_bytes: u64 = (self.index_mark as u64) * 4;
        proof {
            self.buf_vertices@ = self.buf_vertices@ + gpu_vertices@;
            self.buf_indices@ = self.buf_indices@ + adjusted@;
        }
        self.vertex_mark = self.vertex_mark + nv;
        self.index_mark = self.index_mark + ni;
        assert forall|k: int| 0 <= k < self.buf_indices@.len() implies (
        self.buf_indices@[k] as int) < self.vertex_mark by {
            if k >= old(self).buf_indices@.len() {
                let k2 = k - old(self).buf_indices@.len();
                assert(self.buf_indices@[k] == adjusted@[k2]);
            }
        }
        Ok(
            MeshWrite {
                vertex_offset_bytes,
                vertices: gpu_vertices,
                index_offset_bytes,
                indices: adjusted,
            },
        )
    }
}

} // verus!
