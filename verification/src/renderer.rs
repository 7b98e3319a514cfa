//! The renderer contract: the operations any backend must provide and
//! their guarantees.
//!
//! A backend of this design is split in two: a verified core that owns
//! the streaming state (high-water marks, surface dimensions, current
//! camera pose) and decides what the GPU must do, and an unverified
//! driver that owns the GPU objects and carries the decisions out. The
//! core's decisions are returned as plain command values: a
//! [`MeshWrite`] describes two buffer writes, a [`FramePlan`] describes
//! one frame's uniform rewrite and draw call.

use vstd::prelude::*;

use crate::camera::Camera;
use crate::gpu_vertex::gpu_vertex_of;
use crate::gpu_vertex::GpuVertex;
use crate::mesh::Mesh;

verus! {

/// Why a `load_mesh` call was rejected. Either condition is fatal to
/// the application: the buffers are fixed-capacity by design and are
/// never grown or compacted.
#[derive(Clone, Copy, Debug, PartialEq, Eq, Structural)]
pub enum RenderError {
    /// The mesh's vertices do not fit into the remaining vertex buffer
    /// capacity.
    VertexCapacity,
    /// The mesh's indices do not fit into the remaining index buffer
    /// capacity.
    IndexCapacity,
}

/// A contiguous range of indices to draw as a triangle list.
#[derive(Clone, Copy, Debug, PartialEq, Eq, Structural)]
pub struct DrawRange {
    /// First index drawn.
    pub start: u32,
    /// One past the last index drawn.
    pub end: u32,
}

/// What one frame must do: rewrite the camera uniform from the pose and
/// the surface's aspect ratio, then draw the given index range, if any.
#[derive(Clone, Copy, Debug)]
pub struct FramePlan {
    /// The pose the camera uniform is rebuilt from before the draw.
    pub camera: Camera,
    /// Numerator of the aspect ratio: the surface width in pixels.
    pub aspect_num: u32,
    /// Denominator of the aspect ratio: the surface height in pixels.
    pub aspect_den: u32,
    /// The index range to draw, or `None` when nothing is loaded yet.
    pub draw: Option<DrawRange>,
}

/// The two buffer writes that stream one mesh into the backend's
/// persistent buffers: the converted vertices and the offset-adjusted
/// indices, each with the byte offset it is written at.
#[derive(Debug)]
pub struct MeshWrite {
    /// Byte offset into the vertex buffer where `vertices` is written.
    pub vertex_offset_bytes: u64,
    /// The mesh's vertices, converted to the GPU vertex layout.
    pub vertices: Vec<GpuVertex>,
    /// Byte offset into the index buffer where `indices` is written.
    pub index_offset_bytes: u64,
    /// The mesh's indices, each offset by the vertex high-water mark at
    /// write time.
    pub indices: Vec<u32>,
}

/// The draw call a frame issues, as a function of how much geometry has
/// been streamed in so far: every index written so far is drawn, and a
/// frame with no geometry draws nothing.
pub open spec fn draw_range(vertex_count: int, index_count: int) -> Option<DrawRange> {
    if vertex_count > 0 && index_count > 0 {
        Some(DrawRange { start: 0u32, end: index_count as u32 })
    } else {
        None
    }
}

/// Law: a freshly spawned triangle is visible on the next frame. Once
/// at least one vertex and the triangle's three indices are streamed
/// in, the frame's draw call starts at index zero and covers at least
/// three indices.
pub proof fn lemma_spawn_then_draw(vertex_count: int, index_count: int)
    requires
        1 <= vertex_count,
        3 <= index_count <= u32::MAX,
    ensures
        draw_range(vertex_count, index_count) matches Some(d) && d.start == 0 && d.end >= 3,
{
}

/// The operations any rendering backend must provide.
///
/// The abstract state of a backend is: two high-water marks (how many
/// vertices and indices have been streamed in), the streamed buffer
/// contents themselves, the fixed buffer capacities, the surface
/// dimensions, and the camera pose the uniform was last rebuilt from.
pub trait Renderer: Sized {
    /// The backend's internal invariant.
    spec fn wf(&self) -> bool;

    /// Vertex high-water mark: vertices streamed in so far.
    spec fn vertex_count(&self) -> int;

    /// Index high-water mark: indices streamed in so far.
    spec fn index_count(&self) -> int;

    /// Fixed capacity of the vertex buffer, in vertices.
    spec fn max_vertices(&self) -> int;

    /// Fixed capacity of the index buffer, in indices.
    spec fn max_indices(&self) -> int;

    /// Width of the configured surface, in pixels.
    spec fn surface_width(&self) -> u32;

    /// Height of the configured surface, in pixels.
    spec fn surface_height(&self) -> u32;

    /// The pose the camera uniform was last rebuilt from.
    spec fn camera(&self) -> Camera;

    /// Contents of the vertex buffer: every vertex streamed in, in order.
    spec fn buffered_vertices(&self) -> Seq<GpuVertex>;

    /// Contents of the index buffer: every adjusted index streamed in,
    /// in order.
    spec fn buffered_indices(&self) -> Seq<u32>;

    /// The pose the camera uniform is first built from at construction.
    spec fn initial_camera() -> Camera;

    /// Constructs a backend with empty buffers over a surface of the
    /// given nonzero initial size.
    fn new(width: u32, height: u32) -> (r: Self)
        requires
            0 < width,
            0 < height,
        ensures
            r.wf(),
            r.vertex_count() == 0,
            r.index_count() == 0,
            r.buffered_vertices() =~= Seq::<GpuVertex>::empty(),
            r.buffered_indices() =~= Seq::<u32>::empty(),
            r.surface_width() == width,
            r.surface_height() == height,
            r.camera() == Self::initial_camera(),
    ;

    /// Plans one frame: records the pose the camera uniform must be
    /// rebuilt from and decides the draw call. Everything streamed in so
    /// far is drawn; a frame before any geometry arrived only clears.
    fn render(&mut self, camera: Camera) -> (plan: FramePlan)
        requires
            old(self).wf(),
        ensures
            final(self).wf(),
            final(self).camera() == camera,
            final(self).vertex_count() == old(self).vertex_count(),
            final(self).index_count() == old(self).index_count(),
            final(self).buffered_vertices() == old(self).buffered_vertices(),
            final(self).buffered_indices() == old(self).buffered_indices(),
            final(self).max_vertices() == old(self).max_vertices(),
            final(self).max_indices() == old(self).max_indices(),
            final(self).surface_width() == old(self).surface_width(),
            final(self).surface_height() == old(self).surface_height(),
            plan.camera == camera,
            plan.aspect_num == old(self).surface_width(),
            plan.aspect_den == old(self).surface_height(),
            plan.draw == draw_range(old(self).vertex_count(), old(self).index_count()),
    ;

    /// Reconfigures the surface to the given nonzero size before the
    /// next frame. The scale factor is carried through for backends
    /// that need it; the streamed geometry and the camera are untouched.
    fn resize(&mut self, width: u32, height: u32, scale_factor_bits: u64)
        requires
            old(self).wf(),
            0 < width,
            0 < height,
        ensures
            final(self).wf(),
            final(self).surface_width() == width,
            final(self).surface_height() == height,
            final(self).vertex_count() == old(self).vertex_count(),
            final(self).index_count() == old(self).index_count(),
            final(self).buffered_vertices() == old(self).buffered_vertices(),
            final(self).buffered_indices() == old(self).buffered_indices(),
            final(self).max_vertices() == old(self).max_vertices(),
            final(self).max_indices() == old(self).max_indices(),
            final(self).camera() == old(self).camera(),
    ;

    /// Streams one mesh into the persistent buffers.
    ///
    /// On success the mesh's vertices are appended in GPU layout, its
    /// indices are appended after being offset by the vertex high-water
    /// mark at write time (so successive meshes address disjoint vertex
    /// ranges), both high-water marks advance by the incoming counts,
    /// and the returned [`MeshWrite`] holds exactly the appended data
    /// with the byte offsets it belongs at. A mesh that does not fit in
    /// either buffer is rejected whole: the error names the buffer that
    /// would overflow (the vertex buffer is checked first) and no state
    /// changes.
    fn load_mesh(&mut self, mesh: Mesh) -> (r: Result<MeshWrite, RenderError>)
        requires
            old(self).wf(),
            mesh.wf(),
        ensures
            final(self).wf(),
            r is Ok <==> {
                &&& old(self).vertex_count() + mesh.vertices@.len() <= old(self).max_vertices()
                &&& old(self).index_count() + mesh.indices@.len() <= old(self).max_indices()
            },
            r is Err ==> *final(self) == *old(self),
            r == Result::<MeshWrite, RenderError>::Err(RenderError::VertexCapacity)
                <==> old(self).vertex_count() + mesh.vertices@.len() > old(self).max_vertices(),
            r matches Ok(w) ==> {
                &&& final(self).vertex_count() == old(self).vertex_count()
                    + mesh.vertices@.len()
                &&& final(self).index_count() == old(self).index_count() + mesh.indices@.len()
                &&& final(self).max_vertices() == old(self).max_vertices()
                &&& final(self).max_indices() == old(self).max_indices()
                &&& final(self).surface_width() == old(self).surface_width()
                &&& final(self).surface_height() == old(self).surface_height()
                &&& final(self).camera() == old(self).camera()
                &&& w.vertices@.len() == mesh.vertices@.len()
                &&& forall|k: int|
                    0 <= k < mesh.vertices@.len() ==> w.vertices@[k].position_bits@
                        == gpu_vertex_of(mesh.vertices@[k])
                &&& w.indices@.len() == mesh.indices@.len()
                &&& forall|k: int|
                    0 <= k < mesh.indices@.len()
                        ==> w.indices@[k] == mesh.indices@[k] + old(self).vertex_count()
                &&& w.vertex_offset_bytes == old(self).vertex_count() * 16
                &&& w.index_offset_bytes == old(self).index_count() * 4
                &&& final(self).buffered_vertices() == old(self).buffered_vertices()
                    + w.vertices@
                &&& final(self).buffered_indices() == old(self).buffered_indices() + w.indices@
            },
            forall|k: int|
                0 <= k < final(self).buffered_indices().len()
                    ==> (final(self).buffered_indices()[k] as int) < final(self).vertex_count(),
    ;
}

} // verus!
