//! A minimal forward-rendering engine core.
//!
//! The crate models everything a small 2-D renderer decides on its own:
//! surface configuration and resizing, vertex and index data with their
//! byte images, bind-group and pipeline descriptors, the draw commands a
//! shape records into a render pass, and the per-tick event-loop state
//! machine.  The windowing library and the GPU driver are collaborators
//! outside this crate; they receive the descriptors, byte images and
//! recorded commands built here and hand back input events and surface
//! acquisition outcomes as plain values.

pub mod rendering;
pub mod shape;
pub mod window;

use vstd::prelude::*;

use crate::rendering::bind_group::BindGroupBuilder;
use crate::rendering::bind_group::BindGroupEntry;
use crate::rendering::bind_group::BindGroupLayoutEntry;
use crate::rendering::bind_group::BindingResource;
use crate::rendering::bind_group::BindingType;
use crate::rendering::bind_group::GroupEntry;
use crate::rendering::bind_group::LayoutEntry;
use crate::rendering::bind_group::ShaderStages;
use crate::rendering::bind_group::covers;
use crate::rendering::bind_group::resource_matches;
use crate::rendering::bind_group::slot_bound;
use crate::rendering::canvas::Canvas;
use crate::rendering::canvas::SurfaceConfiguration;
use crate::rendering::render_pass::Color;
use crate::rendering::render_pass::LoadOp;
use crate::rendering::render_pass::RenderCommand;
use crate::rendering::render_pass::RenderPass;
use crate::rendering::render_pass::RenderPassDescriptor;
use crate::rendering::shader::Shader;
use crate::shape::shape_drawer::Polygon;
use crate::shape::shape_drawer::Rectangle;
use crate::shape::shape_drawer::Shape;
use crate::shape::shape_drawer::ShapeDrawer;
use crate::shape::shape_drawer::Triangle;
use crate::shape::shape_drawer::Vertex;
use crate::window::PhysicalSize;
use crate::window::WindowEvent;
use crate::window::is_exit_event;

verus! {

/// The phases of one frame tick, from waiting for a redraw trigger to the
/// presented image, plus the terminal phase the loop enters on a close
/// request, an escape key press, or an out-of-memory report.
#[derive(Clone, Copy, PartialEq, Eq, Debug)]
pub enum LoopPhase {
    Idle,
    FrameAcquired,
    RecordingPass,
    Submitted,
    Presented,
    Terminated,
}

/// What the driver reports when acquiring the next presentable image
/// fails.
#[derive(Clone, Copy, PartialEq, Eq, Debug)]
pub enum SurfaceError {
    Lost,
    Outdated,
    OutOfMemory,
    Timeout,
}

/// What the loop driver must do after the engine handled an event or a
/// render outcome: carry on, reconfigure the surface from the engine's
/// configuration, log a warning and skip the tick, or stop the loop.
#[derive(Clone, Copy, PartialEq, Eq, Debug)]
pub enum LoopDirective {
    Continue,
    Reconfigure,
    Warn,
    Exit,
}

/// A fully recorded frame: the closed render pass whose commands are
/// submitted to the presentation queue.
#[derive(PartialEq, Eq, Debug)]
pub struct Frame {
    pub pass: RenderPass,
}

/// The background color every frame clears to, as IEEE-754 double bit
/// patterns of (0.1, 0.2, 0.3, 1.0).
pub open spec fn spec_background_color() -> Color {
    Color {
        r_bits: 0x3fb999999999999a,
        g_bits: 0x3fc999999999999a,
        b_bits: 0x3fd3333333333333,
        a_bits: 0x3ff0000000000000,
    }
}

/// What every frame's render pass is opened with: one color attachment
/// cleared to the fixed background color and stored, and no depth
/// attachment, as no pipeline of this engine enables depth testing.
pub open spec fn frame_descriptor_ok(d: RenderPassDescriptor) -> bool {
    &&& d.label matches Some(l) && l@ == "Render Pass"@
    &&& d.color_load == LoadOp::Clear(spec_background_color())
    &&& d.color_store == true
    &&& d.depth is None
}

/// The declared layout of the one texture binding group: a 2-D texture
/// at slot 0 and its sampler at slot 1, both visible to the fragment
/// stage.
pub open spec fn diffuse_layout_entries() -> Seq<BindGroupLayoutEntry> {
    seq![
        BindGroupLayoutEntry {
            binding: 0u32,
            visibility: ShaderStages::Fragment,
            ty: BindingType::Texture,
            count: None,
        },
        BindGroupLayoutEntry {
            binding: 1u32,
            visibility: ShaderStages::Fragment,
            ty: BindingType::Sampler,
            count: None,
        },
    ]
}

/// The pentagon's vertex records (positions and colors, as IEEE-754
/// single bit patterns).
pub open spec fn pentagon_vertex_data() -> Seq<Vertex> {
    seq![
        Vertex {
            position: (0xbdb1d0d5u32, 0x3efc1c5cu32, 0u32),
            color_or_coord: (0x3f800000u32, 0u32, 0u32),
        },
        Vertex {
            position: (0xbefd8236u32, 0x3d8e835au32, 0u32),
            color_or_coord: (0u32, 0x3f800000u32, 0u32),
        },
        Vertex {
            position: (0xbe607229u32, 0xbee6175fu32, 0u32),
            color_or_coord: (0x3f800000u32, 0x3f800000u32, 0u32),
        },
        Vertex {
            position: (0x3eb826aau32, 0xbeb1d51fu32, 0u32),
            color_or_coord: (0u32, 0u32, 0x3f800000u32),
        },
        Vertex {
            position: (0x3ee208d8u32, 0x3e705e9cu32, 0u32),
            color_or_coord: (0x3f800000u32, 0u32, 0x3f800000u32),
        },
    ]
}

/// The index list that triangulates the pentagon.
pub open spec fn pentagon_index_data() -> Seq<u16> {
    seq![0u16, 1u16, 4u16, 1u16, 2u16, 4u16, 2u16, 3u16, 4u16]
}

/// The textured rectangle's vertex records.
pub open spec fn rectangle_vertex_data() -> Seq<Vertex> {
    seq![
        Vertex { position: (0xbf800000u32, 0x3f800000u32, 0u32), color_or_coord: (0u32, 0u32, 0u32) },
        Vertex {
            position: (0u32, 0x3f800000u32, 0u32),
            color_or_coord: (0x3f800000u32, 0u32, 0u32),
        },
        Vertex {
            position: (0u32, 0x80000000u32, 0u32),
            color_or_coord: (0x3f800000u32, 0x3f800000u32, 0u32),
        },
        Vertex {
            position: (0xbf800000u32, 0u32, 0u32),
            color_or_coord: (0u32, 0x3f800000u32, 0u32),
        },
    ]
}

/// The plain triangle's vertex records.
pub open spec fn triangle_vertex_data() -> Seq<Vertex> {
    seq![
        Vertex {
            position: (0x3f000000u32, 0u32, 0u32),
            color_or_coord: (0x3f800000u32, 0u32, 0u32),
        },
        Vertex {
            position: (0u32, 0xbf800000u32, 0u32),
            color_or_coord: (0x3f800000u32, 0u32, 0u32),
        },
        Vertex {
            position: (0x3f800000u32, 0xbf800000u32, 0u32),
            color_or_coord: (0x3f800000u32, 0u32, 0u32),
        },
    ]
}

/// The pentagon's vertices as a vector.
pub fn pentagon_vertices() -> (r: Vec<Vertex>)
    ensures
        r@ == pentagon_vertex_data(),
{
    let mut v: Vec<Vertex> = Vec::new();
    v.push(
        Vertex {
            position: (0xbdb1d0d5, 0x3efc1c5c, 0),
            color_or_coord: (0x3f800000, 0, 0),
        },
    );
    v.push(
        Vertex {
            position: (0xbefd8236, 0x3d8e835a, 0),
            color_or_coord: (0, 0x3f800000, 0),
        },
    );
    v.push(
        Vertex {
            position: (0xbe607229, 0xbee6175f, 0),
            color_or_coord: (0x3f800000, 0x3f800000, 0),
        },
    );
    v.push(
        Vertex {
            position: (0x3eb826aa, 0xbeb1d51f, 0),
            color_or_coord: (0, 0, 0x3f800000),
        },
    );
    v.push(
        Vertex {
            position: (0x3ee208d8, 0x3e705e9c, 0),
            color_or_coord: (0x3f800000, 0, 0x3f800000),
        },
    );
    proof {
        assert(v@ =~= pentagon_vertex_data());
    }
    v
}

/// The pentagon's index list as a vector.
pub fn pentagon_indices() -> (r: Vec<u16>)
    ensures
        r@ == pentagon_index_data(),
{
    let mut v: Vec<u16> = Vec::new();
    v.push(0);
    v.push(1);
    v.push(4);
    v.push(1);
    v.push(2);
    v.push(4);
    v.push(2);
    v.push(3);
    v.push(4);
    proof {
        assert(v@ =~= pentagon_index_data());
    }
    v
}

/// The rectangle's vertices as a vector.
pub fn rectangle_vertices() -> (r: Vec<Vertex>)
    ensures
        r@ == rectangle_vertex_data(),
{
    let mut v: Vec<Vertex> = Vec::new();
    v.push(Vertex { position: (0xbf800000, 0x3f800000, 0), color_or_coord: (0, 0, 0) });
    v.push(Vertex { position: (0, 0x3f800000, 0), color_or_coord: (0x3f800000, 0, 0) });
    v.push(
        Vertex {
            position: (0, 0x80000000, 0),
            color_or_coord: (0x3f800000, 0x3f800000, 0),
        },
    );
    v.push(Vertex { position: (0xbf800000, 0, 0), color_or_coord: (0, 0x3f800000, 0) });
    proof {
        assert(v@ =~= rectangle_vertex_data());
    }
    v
}

/// The triangle's vertices as a vector.
pub fn triangle_vertices() -> (r: Vec<Vertex>)
    ensures
        r@ == triangle_vertex_data(),
{
    let mut v: Vec<Vertex> = Vec::new();
    v.push(Vertex { position: (0x3f000000, 0, 0), color_or_coord: (0x3f800000, 0, 0) });
    v.push(Vertex { position: (0, 0xbf800000, 0), color_or_coord: (0x3f800000, 0, 0) });
    v.push(
        Vertex { position: (0x3f800000, 0xbf800000, 0), color_or_coord: (0x3f800000, 0, 0) },
    );
    proof {
        assert(v@ =~= triangle_vertex_data());
    }
    v
}

/// The engine: the surface context, the three drawables it renders every
/// frame, and the phase its frame loop is in.
pub struct Engine {
    pub canvas: Canvas,
    pub polygon: Polygon,
    pub rectangle: Rectangle,
    pub triangle: Triangle,
    pub phase: LoopPhase,
}

/// The canvas after a resize request: reconfigured to the new size when
/// both dimensions are nonzero, untouched otherwise (the driver forbids
/// zero-sized surfaces, so such a request issues no reconfiguration).
pub open spec fn spec_resize(c: Canvas, new_size: PhysicalSize) -> Canvas {
    if new_size.width > 0 && new_size.height > 0 {
        Canvas {
            config: SurfaceConfiguration {
                width: new_size.width,
                height: new_size.height,
                format: c.config.format,
            },
            size: new_size,
        }
    } else {
        c
    }
}

/// One resize request applied to the whole engine, with the directive the
/// loop driver gets back.
pub open spec fn spec_resize_step(e: Engine, new_size: PhysicalSize) -> (Engine, LoopDirective) {
    if new_size.width > 0 && new_size.height > 0 {
        (Engine { canvas: spec_resize(e.canvas, new_size), ..e }, LoopDirective::Reconfigure)
    } else {
        (e, LoopDirective::Continue)
    }
}

/// One window event handled between ticks: an exit event terminates the
/// loop before any frame is acquired; a resize updates the surface
/// configuration; everything else is ignored.
pub open spec fn spec_handle_event(e: Engine, ev: WindowEvent) -> (Engine, LoopDirective) {
    if is_exit_event(ev) {
        (Engine { phase: LoopPhase::Terminated, ..e }, LoopDirective::Exit)
    } else {
        match ev {
            WindowEvent::Resized(s) => spec_resize_step(e, s),
            WindowEvent::ScaleFactorChanged(s) => spec_resize_step(e, s),
            _ => (e, LoopDirective::Continue),
        }
    }
}

/// One render outcome handled after a tick: a lost or outdated surface is
/// reconfigured at the last known size and the loop carries on; out of
/// memory terminates the loop; a timeout only warns.
pub open spec fn spec_handle_render_error(e: Engine, error: SurfaceError) -> (
    Engine,
    LoopDirective,
) {
    match error {
        SurfaceError::Lost => spec_resize_step(e, e.canvas.size),
        SurfaceError::Outdated => spec_resize_step(e, e.canvas.size),
        SurfaceError::OutOfMemory => (
            Engine { phase: LoopPhase::Terminated, ..e },
            LoopDirective::Exit,
        ),
        SurfaceError::Timeout => (e, LoopDirective::Warn),
    }
}

/// The commands one frame records: every registered drawable, in the
/// fixed registration order.
pub open spec fn frame_commands(e: Engine) -> Seq<RenderCommand> {
    e.polygon.draw_commands() + e.rectangle.draw_commands() + e.triangle.draw_commands()
}

/// A frame may be acquired only from the idle phase.
pub open spec fn acquire_allowed(e: Engine) -> bool {
    e.phase is Idle
}

impl Engine {
    /// The surface is well formed and every drawable holds what its
    /// constructor established.
    pub open spec fn wf(self) -> bool {
        &&& self.canvas.wf()
        &&& self.polygon.wf()
        &&& self.rectangle.wf()
        &&& self.triangle.wf()
    }

    /// Builds the three drawables: the pentagon and the triangle from
    /// the color shader, and the rectangle from the texture shader with
    /// the diffuse texture bound at slot 0 (texture) and slot 1
    /// (sampler).  The texture view and sampler are driver-side objects
    /// the platform hands in by handle.
    pub fn new(
        canvas: Canvas,
        color_shader: &Shader,
        texture_shader: &Shader,
        diffuse_view: u64,
        diffuse_sampler: u64,
    ) -> (r: Engine)
        requires
            canvas.wf(),
        ensures
            r.wf(),
            r.phase is Idle,
            r.canvas == canvas,
            acquire_allowed(r),
            r.polygon.vertices@ == pentagon_vertex_data(),
            r.polygon.indices@ == pentagon_index_data(),
            r.polygon.num_indices == 9,
            r.polygon.texture is None,
            r.rectangle.vertices@ == rectangle_vertex_data(),
            r.rectangle.texture matches Some(t) && t.0.entries@ == diffuse_layout_entries()
                && t.1.entries@.len() == 2 && covers(t.0.entries@, t.1.entries@),
            r.triangle.vertices@ == triangle_vertex_data(),
            r.triangle.texture is None,
            r.polygon.pipeline.fixed_policy(canvas.config.format),
            r.rectangle.pipeline.fixed_policy(canvas.config.format),
            r.triangle.pipeline.fixed_policy(canvas.config.format),
            r.polygon.pipeline.vertex.module == color_shader.path,
            r.rectangle.pipeline.vertex.module == texture_shader.path,
            r.triangle.pipeline.vertex.module == color_shader.path,
    {
        let mut layout_entries: Vec<BindGroupLayoutEntry> = Vec::new();
        layout_entries.push(LayoutEntry::new(0, ShaderStages::Fragment, BindingType::Texture));
        layout_entries.push(LayoutEntry::new(1, ShaderStages::Fragment, BindingType::Sampler));

        let mut group_entries: Vec<BindGroupEntry> = Vec::new();
        group_entries.push(
            GroupEntry::new_binding_resource(0, BindingResource::TextureView(diffuse_view)),
        );
        group_entries.push(
            GroupEntry::new_binding_resource(1, BindingResource::Sampler(diffuse_sampler)),
        );

        proof {
            assert(layout_entries@ =~= diffuse_layout_entries());
            assert(group_entries@[0].binding == 0 && resource_matches(
                BindingType::Texture,
                group_entries@[0].resource,
            ));
            assert(slot_bound(group_entries@, 0u32, BindingType::Texture));
            assert(group_entries@[1].binding == 1 && resource_matches(
                BindingType::Sampler,
                group_entries@[1].resource,
            ));
            assert(slot_bound(group_entries@, 1u32, BindingType::Sampler));
            assert(covers(layout_entries@, group_entries@));
        }

        let (dbgl, diffuse_bind_group) = BindGroupBuilder::new(
            &canvas,
            layout_entries,
            group_entries,
            None,
            true,
        );
        let dbg = diffuse_bind_group.unwrap();

        let polygon = Polygon::new(
            color_shader,
            pentagon_vertices(),
            pentagon_indices(),
            None,
            &canvas,
        );
        let rectangle = Rectangle::new(
            texture_shader,
            rectangle_vertices(),
            Some((dbgl, dbg)),
            &canvas,
        );
        let triangle = Triangle::new(color_shader, triangle_vertices(), None, &canvas);

        Engine { canvas, polygon, rectangle, triangle, phase: LoopPhase::Idle }
    }

    /// Applies a resize request: with both dimensions nonzero the
    /// surface configuration and the remembered size are updated and the
    /// surface must be reconfigured (the result is `true`); with a zero
    /// dimension nothing changes and no reconfiguration is issued.
    pub fn resize(&mut self, new_size: PhysicalSize) -> (reconfigure: bool)
        ensures
            final(self).canvas == spec_resize(old(self).canvas, new_size),
            final(self).polygon == old(self).polygon,
            final(self).rectangle == old(self).rectangle,
            final(self).triangle == old(self).triangle,
            final(self).phase == old(self).phase,
            reconfigure == (new_size.width > 0 && new_size.height > 0),
            old(self).wf() ==> final(self).wf(),
    {
        if new_size.width > 0 && new_size.height > 0 {
            self.canvas.size = new_size;
            self.canvas.config.width = new_size.width;
            self.canvas.config.height = new_size.height;
            true
        } else {
            false
        }
    }

    /// Lets the engine consume an input event before the loop reacts to
    /// it.  This engine consumes none.
    pub fn input(&mut self, event: &WindowEvent) -> (consumed: bool)
        ensures
            *final(self) == *old(self),
            consumed == false,
    {
        let _ = event;
        false
    }

    /// Per-tick state update before recording.  This engine mutates no
    /// per-frame state.
    pub fn update(&mut self)
        ensures
            *final(self) == *old(self),
    {
    }

    /// Handles one window event between ticks, exactly as
    /// `spec_handle_event` says: exit events terminate the loop, resizes
    /// update the surface configuration, everything else is ignored.
    pub fn handle_window_event(&mut self, event: &WindowEvent) -> (directive: LoopDirective)
        ensures
            *final(self) == spec_handle_event(*old(self), *event).0,
            directive == spec_handle_event(*old(self), *event).1,
    {
        let consumed = self.input(event);
        if consumed {
            return LoopDirective::Continue;
        }
        match event {
            WindowEvent::CloseRequested => {
                self.phase = LoopPhase::Terminated;
                LoopDirective::Exit
            },
            WindowEvent::KeyboardInput { state, key } => {
                match (state, key) {
                    (
                        crate::window::ElementState::Pressed,
                        Some(crate::window::VirtualKey::Escape),
                    ) => {
                        self.phase = LoopPhase::Terminated;
                        LoopDirective::Exit
                    },
                    _ => LoopDirective::Continue,
                }
            },
            WindowEvent::Resized(s) => {
                if self.resize(*s) {
                    LoopDirective::Reconfigure
                } else {
                    LoopDirective::Continue
                }
            },
            WindowEvent::ScaleFactorChanged(s) => {
                if self.resize(*s) {
                    LoopDirective::Reconfigure
                } else {
                    LoopDirective::Continue
                }
            },
            WindowEvent::Other => LoopDirective::Continue,
        }
    }

    /// Handles what a tick's render reported, exactly as
    /// `spec_handle_render_error` says: lost or outdated surfaces are
    /// reconfigured at the last known size and the loop carries on, out
    /// of memory terminates the loop, a timeout only warns.
    pub fn handle_render_error(&mut self, error: SurfaceError) -> (directive: LoopDirective)
        ensures
            *final(self) == spec_handle_render_error(*old(self), error).0,
            directive == spec_handle_render_error(*old(self), error).1,
    {
        match error {
            SurfaceError::Lost | SurfaceError::Outdated => {
                let size = self.canvas.size;
                if self.resize(size) {
                    LoopDirective::Reconfigure
                } else {
                    LoopDirective::Continue
                }
            },
            SurfaceError::OutOfMemory => {
                self.phase = LoopPhase::Terminated;
                LoopDirective::Exit
            },
            SurfaceError::Timeout => LoopDirective::Warn,
        }
    }

    /// Takes the driver's answer to acquiring the next presentable
    /// image.  On success the tick proceeds; on failure the engine stays
    /// idle and the error is handed back to the loop.
    pub fn acquire_frame(&mut self, acquired: Result<(), SurfaceError>) -> (r: Result<
        (),
        SurfaceError,
    >)
        requires
            acquire_allowed(*old(self)),
        ensures
            r == acquired,
            acquired is Ok ==> *final(self) == (Engine {
                phase: LoopPhase::FrameAcquired,
                ..*old(self)
            }),
            acquired is Err ==> *final(self) == *old(self),
    {
        if acquired.is_ok() {
            self.phase = LoopPhase::FrameAcquired;
        }
        acquired
    }

    /// Opens the command-recording scope and the frame's single render
    /// pass: one color attachment cleared to the fixed background color,
    /// and no depth attachment.
    pub fn begin_render_pass(&mut self) -> (rp: RenderPass)
        requires
            old(self).phase is FrameAcquired,
        ensures
            *final(self) == (Engine { phase: LoopPhase::RecordingPass, ..*old(self) }),
            rp.commands@ == Seq::<RenderCommand>::empty(),
            frame_descriptor_ok(rp.descriptor),
    {
        self.phase = LoopPhase::RecordingPass;
        RenderPass::begin(
            RenderPassDescriptor {
                label: Some("Render Pass"),
                color_load: LoadOp::Clear(
                    Color {
                        r_bits: 0x3fb999999999999a,
                        g_bits: 0x3fc999999999999a,
                        b_bits: 0x3fd3333333333333,
                        a_bits: 0x3ff0000000000000,
                    },
                ),
                color_store: true,
                depth: None,
            },
        )
    }

    /// Records every drawable into the open pass in registration order,
    /// closes the pass and submits it.
    pub fn record_and_submit(&mut self, render_pass: RenderPass) -> (f: Frame)
        requires
            old(self).phase is RecordingPass,
            old(self).wf(),
        ensures
            *final(self) == (Engine { phase: LoopPhase::Submitted, ..*old(self) }),
            f.pass.descriptor == render_pass.descriptor,
            f.pass.commands@ == render_pass.commands@ + frame_commands(*old(self)),
    {
        let mut drawer = ShapeDrawer::new(render_pass);
        drawer.draw_shape(&self.polygon);
        drawer.draw_shape(&self.rectangle);
        drawer.draw_shape(&self.triangle);
        let pass = drawer.finish();
        self.phase = LoopPhase::Submitted;
        proof {
            assert(pass.commands@ =~= render_pass.commands@ + frame_commands(*old(self)));
        }
        Frame { pass }
    }

    /// Presents the acquired image.
    pub fn present_frame(&mut self)
        requires
            old(self).phase is Submitted,
        ensures
            *final(self) == (Engine { phase: LoopPhase::Presented, ..*old(self) }),
    {
        self.phase = LoopPhase::Presented;
    }

    /// Returns control to idle, awaiting the next redraw trigger.
    pub fn finish_tick(&mut self)
        requires
            old(self).phase is Presented,
        ensures
            *final(self) == (Engine { phase: LoopPhase::Idle, ..*old(self) }),
    {
        self.phase = LoopPhase::Idle;
    }

    /// One full tick after the driver's acquisition answer: on success,
    /// exactly one render pass is recorded with every drawable in
    /// registration order, submitted and presented, and the engine is
    /// idle again; on failure the error is handed back untouched for
    /// `handle_render_error`.
    pub fn render(&mut self, acquired: Result<(), SurfaceError>) -> (r: Result<
        Frame,
        SurfaceError,
    >)
        requires
            acquire_allowed(*old(self)),
            old(self).wf(),
        ensures
            *final(self) == *old(self),
            acquired matches Err(e) ==> (r matches Err(e2) && e2 == e),
            acquired is Ok ==> (r matches Ok(f) && frame_descriptor_ok(f.pass.descriptor)
                && f.pass.commands@ == frame_commands(*old(self))),
    {
        match self.acquire_frame(acquired) {
            Err(e) => Err(e),
            Ok(()) => {
                let rp = self.begin_render_pass();
                let frame = self.record_and_submit(rp);
                self.present_frame();
                self.finish_tick();
                proof {
                    assert(frame.pass.commands@ =~= frame_commands(*old(self)));
                }
                Ok(frame)
            },
        }
    }
}

/// With a zero dimension a resize request leaves the surface
/// configuration untouched: no reconfiguration is issued.
pub proof fn lemma_resize_zero_keeps_configuration(c: Canvas, new_size: PhysicalSize)
    requires
        new_size.width == 0 || new_size.height == 0,
    ensures
        spec_resize(c, new_size) == c,
{
}

/// With both dimensions nonzero a resize request reconfigures the
/// surface to exactly the requested size, keeping the format; the
/// resized canvas is well formed again.
pub proof fn lemma_resize_sets_requested_size(c: Canvas, new_size: PhysicalSize)
    requires
        new_size.width > 0,
        new_size.height > 0,
    ensures
        spec_resize(c, new_size).size == new_size,
        spec_resize(c, new_size).config.width == new_size.width,
        spec_resize(c, new_size).config.height == new_size.height,
        spec_resize(c, new_size).config.format == c.config.format,
        spec_resize(c, new_size).wf(),
{
}

/// An exit event (close request or escape key press) moves the loop to
/// the terminated phase at once, so no further frame can be acquired.
pub proof fn lemma_exit_event_terminates(e: Engine, ev: WindowEvent)
    requires
        is_exit_event(ev),
    ensures
        spec_handle_event(e, ev).0.phase is Terminated,
        !acquire_allowed(spec_handle_event(e, ev).0),
        spec_handle_event(e, ev).1 is Exit,
{
}

/// A lost or outdated surface reconfigures the canvas at its last known
/// size — which, the canvas being well formed, changes nothing — and the
/// loop carries on unterminated, free to retry the tick.
pub proof fn lemma_lost_surface_reconfigures(e: Engine, error: SurfaceError)
    requires
        e.wf(),
        error is Lost || error is Outdated,
    ensures
        spec_handle_render_error(e, error).0 == e,
        spec_handle_render_error(e, error).1 is Reconfigure,
        acquire_allowed(e) ==> acquire_allowed(spec_handle_render_error(e, error).0),
{
}

} // verus!
