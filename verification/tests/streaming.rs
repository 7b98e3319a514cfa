//! Tests of the buffer-streaming protocol of the GPU backend core.

use render_sandbox::stream::select_format_index;
use render_sandbox::stream::INITIAL_YAW_BITS;
use render_sandbox::GpuVertex;
use render_sandbox::Mesh;
use render_sandbox::RenderError;
use render_sandbox::Renderer;
use render_sandbox::StreamRenderer;
use render_sandbox::Vertex;

fn triangle(a: [u32; 3], b: [u32; 3], c: [u32; 3]) -> Mesh {
    Mesh {
        indices: vec![0, 1, 2],
        vertices: vec![
            Vertex { xyz_bits: a },
            Vertex { xyz_bits: b },
            Vertex { xyz_bits: c },
        ],
    }
}

#[test]
fn mesh_counts_its_elements() {
    let m = triangle([1, 2, 3], [4, 5, 6], [7, 8, 9]);
    assert_eq!(m.vertex_count(), 3);
    assert_eq!(m.index_count(), 3);
}

#[test]
fn fresh_renderer_is_empty() {
    let r = StreamRenderer::new(800, 600);
    assert_eq!(r.num_vertices(), 0);
    assert_eq!(r.num_indices(), 0);
    assert_eq!(r.width(), 800);
    assert_eq!(r.height(), 600);
    let cam = r.current_camera();
    assert_eq!(cam.x_bits, 0);
    assert_eq!(cam.y_bits, 0);
    assert_eq!(cam.z_bits, 0);
    assert_eq!(cam.pitch_bits, 0);
    assert_eq!(cam.yaw_bits, INITIAL_YAW_BITS);
    assert_eq!(INITIAL_YAW_BITS, 1.0f32.to_bits());
}

#[test]
fn load_mesh_advances_marks_and_adjusts_indices() {
    let mut r = StreamRenderer::new(800, 600);
    let w1 = r.load_mesh(triangle([1, 2, 3], [4, 5, 6], [7, 8, 9])).unwrap();
    assert_eq!(r.num_vertices(), 3);
    assert_eq!(r.num_indices(), 3);
    assert_eq!(w1.vertex_offset_bytes, 0);
    assert_eq!(w1.index_offset_bytes, 0);
    assert_eq!(w1.indices, vec![0, 1, 2]);
    assert_eq!(w1.vertices.len(), 3);
    assert_eq!(w1.vertices[0].position_bits, [1, 2, 3, 0]);
    assert_eq!(w1.vertices[1].position_bits, [4, 5, 6, 0]);
    assert_eq!(w1.vertices[2].position_bits, [7, 8, 9, 0]);

    let mut second = triangle([10, 11, 12], [13, 14, 15], [16, 17, 18]);
    second.indices = vec![2, 0, 1];
    let w2 = r.load_mesh(second).unwrap();
    assert_eq!(r.num_vertices(), 6);
    assert_eq!(r.num_indices(), 6);
    // Each index is offset by the vertex high-water mark at write time.
    assert_eq!(w2.indices, vec![5, 3, 4]);
    // Byte offsets: three vertices of 16 bytes, three indices of 4 bytes.
    assert_eq!(w2.vertex_offset_bytes, 48);
    assert_eq!(w2.index_offset_bytes, 12);
}

#[test]
fn vertex_capacity_error_leaves_marks_unchanged() {
    let mut r = StreamRenderer::new(800, 600);
    // One mesh of 99 vertices and 99 indices fills both buffers to 99.
    let vertices: Vec<Vertex> = (0..99).map(|i| Vertex { xyz_bits: [i, i, i] }).collect();
    let indices: Vec<u32> = (0..99).collect();
    r.load_mesh(Mesh { indices, vertices }).unwrap();
    assert_eq!(r.num_vertices(), 99);
    assert_eq!(r.num_indices(), 99);
    // One more triangle does not fit: the vertex buffer overflows first.
    let err = r.load_mesh(triangle([1, 1, 1], [2, 2, 2], [3, 3, 3])).unwrap_err();
    assert_eq!(err, RenderError::VertexCapacity);
    assert_eq!(r.num_vertices(), 99);
    assert_eq!(r.num_indices(), 99);
}

#[test]
fn index_capacity_error_leaves_marks_unchanged() {
    let mut r = StreamRenderer::new(800, 600);
    // Three vertices, but 99 indices: only the index buffer runs low.
    let vertices: Vec<Vertex> = (0..3).map(|i| Vertex { xyz_bits: [i, i, i] }).collect();
    let indices: Vec<u32> = (0..99).map(|i| i % 3).collect();
    r.load_mesh(Mesh { indices, vertices }).unwrap();
    assert_eq!(r.num_vertices(), 3);
    assert_eq!(r.num_indices(), 99);
    let err = r.load_mesh(triangle([1, 1, 1], [2, 2, 2], [3, 3, 3])).unwrap_err();
    assert_eq!(err, RenderError::IndexCapacity);
    assert_eq!(r.num_vertices(), 3);
    assert_eq!(r.num_indices(), 99);
}

#[test]
fn render_plans_draw_only_after_geometry_arrived() {
    let mut r = StreamRenderer::new(640, 480);
    let cam = render_sandbox::Camera {
        x_bits: 9,
        y_bits: 8,
        z_bits: 7,
        pitch_bits: 6,
        yaw_bits: 5,
    };
    let plan = r.render(cam);
    assert!(plan.draw.is_none());
    assert_eq!(plan.aspect_num, 640);
    assert_eq!(plan.aspect_den, 480);
    assert_eq!(plan.camera, cam);
    assert_eq!(r.current_camera(), cam);

    r.load_mesh(triangle([1, 2, 3], [4, 5, 6], [7, 8, 9])).unwrap();
    let plan = r.render(cam);
    let d = plan.draw.unwrap();
    assert_eq!(d.start, 0);
    assert_eq!(d.end, 3);
}

#[test]
fn resize_reconfigures_surface_and_keeps_geometry() {
    let mut r = StreamRenderer::new(800, 600);
    r.load_mesh(triangle([1, 2, 3], [4, 5, 6], [7, 8, 9])).unwrap();
    let cam = r.current_camera();
    r.resize(1024, 768, 2.0f64.to_bits());
    assert_eq!(r.width(), 1024);
    assert_eq!(r.height(), 768);
    assert_eq!(r.num_vertices(), 3);
    assert_eq!(r.num_indices(), 3);
    assert_eq!(r.current_camera(), cam);
}

#[test]
fn gpu_vertex_pads_with_zero() {
    let g = GpuVertex::new([11, 22, 33]);
    assert_eq!(g.position_bits, [11, 22, 33, 0]);
    assert_eq!(g.position_bits[3], 0.0f32.to_bits());
    let g = GpuVertex::from_vertex(&Vertex { xyz_bits: [5, 6, 7] });
    assert_eq!(g.position_bits, [5, 6, 7, 0]);
}

#[test]
fn buffer_sizes_match_capacities() {
    // 100 vertices of 16 bytes, 100 indices of 4 bytes.
    assert_eq!(StreamRenderer::vertex_buffer_size_bytes(), 1600);
    assert_eq!(StreamRenderer::index_buffer_size_bytes(), 400);
}

#[test]
fn format_selection_prefers_first_srgb() {
    assert_eq!(select_format_index(&vec![false, true, true]), 1);
    assert_eq!(select_format_index(&vec![true, false]), 0);
}

#[test]
fn format_selection_falls_back_to_first() {
    assert_eq!(select_format_index(&vec![false, false, false]), 0);
    assert_eq!(select_format_index(&vec![false]), 0);
}
