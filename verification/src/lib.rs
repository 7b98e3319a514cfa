//! A minimal real-time rendering sandbox library.
//!
//! The library owns the backend-agnostic core of a windowed rendering
//! application: the normalized event vocabulary, the application state
//! machine that animates a camera and injects geometry, the renderer
//! contract, and the fixed-capacity buffer-streaming protocol of the
//! GPU backend. Platform windowing, GPU submission and floating-point
//! curve evaluation live outside the library; float-valued payloads
//! (coordinates, angles, scale factors) travel through it as IEEE-754
//! bit patterns, which the logic moves but never interprets.

use vstd::prelude::*;

pub mod camera;
pub mod gpu_vertex;
pub mod has_window_and_display_handle;
pub mod mesh;
pub mod renderer;
pub mod stream;
pub mod windowing;

pub use camera::Camera;
pub use gpu_vertex::GpuVertex;
pub use has_window_and_display_handle::HasWindowAndDisplayHandle;
pub use mesh::Mesh;
pub use mesh::Vertex;
pub use renderer::DrawRange;
pub use renderer::FramePlan;
pub use renderer::MeshWrite;
pub use renderer::RenderError;
pub use renderer::Renderer;
pub use stream::StreamRenderer;
pub use windowing::Event;
pub use windowing::Key;
pub use windowing::MouseButton;

use crate::renderer::draw_range;

verus! {

/// Length of one animation window, in nanoseconds: the camera runs its
/// curve once over this duration, and the average frame rate is
/// reported once per window.
pub const ANIMATION_DURATION_NANOS: u64 = 5_000_000_000;

/// What the event-loop driver must do after the state machine has
/// handled an event. The state machine never performs outside work
/// itself: it decides, and the driver samples the animation curve,
/// draws random coordinates, prints, and talks to the GPU.
#[derive(Clone, Copy, Debug)]
pub enum Action {
    /// Nothing: the event was dropped.
    Idle,
    /// Print the average frame rate over the finished window: the given
    /// frame count divided by the window length. No frame is drawn on
    /// this tick.
    Report { frames: u64 },
    /// Sample the animation curve at `elapsed_nanos` normalized by the
    /// window length, then hand the sampled pose to `render_frame`.
    RequestFrame { elapsed_nanos: u64 },
    /// Draw three random corner positions in [-1, 1] per axis, then
    /// hand them to `spawn_mesh`.
    RequestSpawn,
    /// Reconfigure the drawable surface to the given size, already
    /// applied to the renderer's state.
    Reconfigure { width: u32, height: u32 },
}

/// Whether a render tick at `now_nanos` falls past the animation window
/// that started at `window_start_nanos`: such a tick reports the
/// average frame rate and starts the next window instead of drawing.
pub open spec fn reports(window_start_nanos: u64, now_nanos: u64) -> bool {
    now_nanos - window_start_nanos > ANIMATION_DURATION_NANOS
}

/// The events the state machine acts on; every other event is dropped.
pub open spec fn is_acted_on(event: Event) -> bool {
    ||| event is Render
    ||| event is Resize
    ||| event matches Event::KeyboardInput { key: Key::Space, pressed: true }
}

/// The application state machine: simulation time, a frame counter and
/// the owned renderer.
///
/// On each render tick it either reports the average frame rate (once
/// per animation window) or asks for a frame at the current curve
/// position; on the spawn key it asks for a random triangle; resize
/// events go through to the renderer verbatim.
pub struct Application<R> {
    init_time_nanos: u64,
    frames: u64,
    renderer: R,
}

impl<R: Renderer> Application<R> {
    /// The state machine is well formed when its renderer is.
    pub open spec fn wf(&self) -> bool {
        self.renderer().wf()
    }

    /// Frames drawn in the current animation window.
    pub closed spec fn frame_count(&self) -> u64 {
        self.frames
    }

    /// When the current animation window started: construction time or
    /// the last reporting tick.
    pub closed spec fn window_start(&self) -> u64 {
        self.init_time_nanos
    }

    /// The owned renderer.
    pub closed spec fn renderer(&self) -> R {
        self.renderer
    }

    /// Constructs the state machine and its renderer over a surface of
    /// the given nonzero initial size; `now_nanos` starts the first
    /// animation window.
    pub fn new(width: u32, height: u32, now_nanos: u64) -> (app: Self)
        requires
            0 < width,
            0 < height,
        ensures
            app.wf(),
            app.frame_count() == 0,
            app.window_start() == now_nanos,
            app.renderer().vertex_count() == 0,
            app.renderer().index_count() == 0,
            app.renderer().surface_width() == width,
            app.renderer().surface_height() == height,
            app.renderer().camera() == R::initial_camera(),
    {
        Application { init_time_nanos: now_nanos, frames: 0, renderer: R::new(width, height) }
    }

    /// Frames drawn in the current animation window.
    pub fn num_frames(&self) -> (n: u64)
        ensures
            n == self.frame_count(),
    {
        self.frames
    }

    /// When the current animation window started, in nanoseconds.
    pub fn window_start_nanos(&self) -> (t: u64)
        ensures
            t == self.window_start(),
    {
        self.init_time_nanos
    }

    /// The owned renderer.
    pub fn renderer_ref(&self) -> (r: &R)
        ensures
            *r == self.renderer(),
    {
        &self.renderer
    }

    /// Handles one normalized event at the given instant of a monotonic
    /// clock (the same clock that gave `window_start`).
    ///
    /// A render tick past the animation window reports the finished
    /// window's frame count, resets the counter to zero and starts the
    /// next window at this instant, drawing nothing; any other render
    /// tick counts one frame and asks the driver for it. A resize goes
    /// through to the renderer. A press of the spawn key asks the
    /// driver for a random triangle. Everything else is dropped.
    pub fn handle_event(&mut self, event: Event, now_nanos: u64) -> (a: Action)
        requires
            old(self).wf(),
            event.wf(),
            old(self).window_start() <= now_nanos,
            old(self).frame_count() < u64::MAX,
        ensures
            final(self).wf(),
            event is Render && reports(old(self).window_start(), now_nanos) ==> {
                &&& a == (Action::Report { frames: old(self).frame_count() })
                &&& final(self).frame_count() == 0
                &&& final(self).window_start() == now_nanos
                &&& final(self).renderer() == old(self).renderer()
            },
            event is Render && !reports(old(self).window_start(), now_nanos) ==> {
                &&& a == (Action::RequestFrame {
                    elapsed_nanos: (now_nanos - old(self).window_start()) as u64,
                })
                &&& final(self).frame_count() == old(self).frame_count() + 1
                &&& final(self).window_start() == old(self).window_start()
                &&& final(self).renderer() == old(self).renderer()
            },
            event matches Event::Resize { width, height, scale_factor_bits } ==> {
                &&& a == (Action::Reconfigure { width, height })
                &&& final(self).renderer().surface_width() == width
                &&& final(self).renderer().surface_height() == height
                &&& final(self).renderer().vertex_count() == old(self).renderer().vertex_count()
                &&& final(self).renderer().index_count() == old(self).renderer().index_count()
                &&& final(self).renderer().buffered_vertices() == old(
                    self,
                ).renderer().buffered_vertices()
                &&& final(self).renderer().buffered_indices() == old(
                    self,
                ).renderer().buffered_indices()
                &&& final(self).renderer().camera() == old(self).renderer().camera()
                &&& final(self).frame_count() == old(self).frame_count()
                &&& final(self).window_start() == old(self).window_start()
            },
            event matches Event::KeyboardInput { key: Key::Space, pressed: true } ==> a
                == Action::RequestSpawn && *final(self) == *old(self),
            !is_acted_on(event) ==> a == Action::Idle && *final(self) == *old(self),
    {
        match event {
            Event::Render => {
                let elapsed: u64 = now_nanos - self.init_time_nanos;
                if elapsed > ANIMATION_DURATION_NANOS {
                    let frames = self.frames;
                    self.init_time_nanos = now_nanos;
                    self.frames = 0;
                    Action::Report { frames }
                } else {
                    self.frames = self.frames + 1;
                    Action::RequestFrame { elapsed_nanos: elapsed }
                }
            },
            Event::Resize { width, height, scale_factor_bits } => {
                self.renderer.resize(width, height, scale_factor_bits);
                Action::Reconfigure { width, height }
            },
            Event::KeyboardInput { key: Key::Space, pressed: true } => Action::RequestSpawn,
            _ => Action::Idle,
        }
    }

    /// Draws one frame with the given camera pose, sampled by the
    /// driver for the instant a [`Action::RequestFrame`] named: the
    /// renderer records the pose and plans the frame.
    pub fn render_frame(&mut self, camera: Camera) -> (plan: FramePlan)
        requires
            old(self).wf(),
        ensures
            final(self).wf(),
            final(self).frame_count() == old(self).frame_count(),
            final(self).window_start() == old(self).window_start(),
            final(self).renderer().camera() == camera,
            final(self).renderer().vertex_count() == old(self).renderer().vertex_count(),
            final(self).renderer().index_count() == old(self).renderer().index_count(),
            final(self).renderer().buffered_vertices() == old(
                self,
            ).renderer().buffered_vertices(),
            final(self).renderer().buffered_indices() == old(self).renderer().buffered_indices(),
            final(self).renderer().surface_width() == old(self).renderer().surface_width(),
            final(self).renderer().surface_height() == old(self).renderer().surface_height(),
            plan.camera == camera,
            plan.aspect_num == old(self).renderer().surface_width(),
            plan.aspect_den == old(self).renderer().surface_height(),
            plan.draw == draw_range(
                old(self).renderer().vertex_count(),
                old(self).renderer().index_count(),
            ),
    {
        self.renderer.render(camera)
    }

    /// Loads the triangle a [`Action::RequestSpawn`] asked for: three
    /// corners with driver-supplied random coordinates and the single
    /// triangle index list 0, 1, 2.
    pub fn spawn_mesh(&mut self, v0: Vertex, v1: Vertex, v2: Vertex) -> (r: Result<
        MeshWrite,
        RenderError,
    >)
        requires
            old(self).wf(),
        ensures
            final(self).wf(),
            final(self).frame_count() == old(self).frame_count(),
            final(self).window_start() == old(self).window_start(),
            r is Ok <==> {
                &&& old(self).renderer().vertex_count() + 3 <= old(self).renderer().max_vertices()
                &&& old(self).renderer().index_count() + 3 <= old(self).renderer().max_indices()
            },
            r is Err ==> final(self).renderer() == old(self).renderer(),
            final(self).renderer().surface_width() == old(self).renderer().surface_width(),
            final(self).renderer().surface_height() == old(self).renderer().surface_height(),
            final(self).renderer().camera() == old(self).renderer().camera(),
            final(self).renderer().max_vertices() == old(self).renderer().max_vertices(),
            final(self).renderer().max_indices() == old(self).renderer().max_indices(),
            r matches Ok(w) ==> {
                &&& final(self).renderer().vertex_count() == old(self).renderer().vertex_count()
                    + 3
                &&& final(self).renderer().index_count() == old(self).renderer().index_count() + 3
                &&& w.vertices@.len() == 3
                &&& w.vertices@[0].position_bits@ == gpu_vertex::gpu_vertex_of(v0)
                &&& w.vertices@[1].position_bits@ == gpu_vertex::gpu_vertex_of(v1)
                &&& w.vertices@[2].position_bits@ == gpu_vertex::gpu_vertex_of(v2)
                &&& w.indices@.len() == 3
                &&& w.indices@[0] as int == old(self).renderer().vertex_count()
                &&& w.indices@[1] as int == old(self).renderer().vertex_count() + 1
                &&& w.indices@[2] as int == old(self).renderer().vertex_count() + 2
                &&& w.vertex_offset_bytes == old(self).renderer().vertex_count() * 16
                &&& w.index_offset_bytes == old(self).renderer().index_count() * 4
            },
    {
        let mut vertices: Vec<Vertex> = Vec::new();
        vertices.push(v0);
        vertices.push(v1);
        vertices.push(v2);
        let mut indices: Vec<u32> = Vec::new();
        indices.push(0);
        indices.push(1);
        indices.push(2);
        let mesh = Mesh { indices, vertices };
        assert(mesh.wf()) by {
            assert(forall|k: int| 0 <= k < 3 ==> mesh.indices@[k] < 3) by {
                assert(mesh.indices@[0] == 0u32);
                assert(mesh.indices@[1] == 1u32);
                assert(mesh.indices@[2] == 2u32);
            }
        }
        let r = self.renderer.load_mesh(mesh);
        proof {
            if r is Ok {
                let w = r->Ok_0;
                assert(w.vertices@[0].position_bits@ == gpu_vertex::gpu_vertex_of(
                    mesh.vertices@[0],
                ));
                assert(w.vertices@[1].position_bits@ == gpu_vertex::gpu_vertex_of(
                    mesh.vertices@[1],
                ));
                assert(w.vertices@[2].position_bits@ == gpu_vertex::gpu_vertex_of(
                    mesh.vertices@[2],
                ));
                assert(w.indices@[0] == mesh.indices@[0] + old(self).renderer().vertex_count());
                assert(w.indices@[1] == mesh.indices@[1] + old(self).renderer().vertex_count());
                assert(w.indices@[2] == mesh.indices@[2] + old(self).renderer().vertex_count());
            }
        }
        r
    }
}

/// Law: the animation window reports at most once. A render tick that
/// reports starts the next window at its own instant, so no later tick
/// within one window length of the report can report again.
pub proof fn lemma_one_report_per_window(window_start: u64, now1: u64, now2: u64)
    requires
        window_start <= now1 <= now2,
        reports(window_start, now1),
        now2 - now1 <= ANIMATION_DURATION_NANOS,
    ensures
        !reports(now1, now2),
{
}

} // verus!
