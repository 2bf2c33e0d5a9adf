//! Pipeline assembly.  Every pipeline in this engine bakes in one fixed
//! policy: triangle-list topology, counter-clockwise front face, back-face
//! culling, fill polygon mode, a single sample, alpha-replace blending
//! into a target of the surface's format, and depth testing either fully
//! enabled or fully disabled.

use vstd::prelude::*;

use crate::rendering::bind_group::BindGroupLayout;
use crate::rendering::canvas::Canvas;
use crate::rendering::canvas::TextureFormat;
use crate::rendering::shader::FragmentEntry;
use crate::rendering::shader::VertexState;

verus! {

/// How vertices are assembled into primitives.
#[derive(Clone, Copy, PartialEq, Eq, Debug)]
pub enum PrimitiveTopology {
    PointList,
    LineList,
    TriangleList,
}

/// Which winding order counts as front-facing.
#[derive(Clone, Copy, PartialEq, Eq, Debug)]
pub enum FrontFace {
    Ccw,
    Cw,
}

/// A face of a primitive, for culling.
#[derive(Clone, Copy, PartialEq, Eq, Debug)]
pub enum Face {
    Front,
    Back,
}

/// How primitives are rasterized.
#[derive(Clone, Copy, PartialEq, Eq, Debug)]
pub enum PolygonMode {
    Fill,
    Line,
    Point,
}

/// The fixed-function primitive state of a pipeline.
#[derive(Clone, Copy, PartialEq, Eq, Debug)]
pub struct PrimitiveState {
    pub topology: PrimitiveTopology,
    pub front_face: FrontFace,
    pub cull_mode: Option<Face>,
    pub polygon_mode: PolygonMode,
    pub unclipped_depth: bool,
    pub conservative: bool,
}

/// The depth comparison a depth test uses.
#[derive(Clone, Copy, PartialEq, Eq, Debug)]
pub enum CompareFunction {
    Less,
    LessEqual,
    Always,
}

/// The depth part of a pipeline, when depth testing is enabled.
#[derive(Clone, Copy, PartialEq, Eq, Debug)]
pub struct DepthStencilState {
    pub depth_write_enabled: bool,
    pub depth_compare: CompareFunction,
}

/// How a fragment's color is combined with the target.
#[derive(Clone, Copy, PartialEq, Eq, Debug)]
pub enum BlendState {
    Replace,
    AlphaBlending,
}

/// Which color channels a draw may write.
#[derive(Clone, Copy, PartialEq, Eq, Debug)]
pub struct ColorWrites {
    pub r: bool,
    pub g: bool,
    pub b: bool,
    pub a: bool,
}

/// All four channels writable.
pub open spec fn spec_color_writes_all() -> ColorWrites {
    ColorWrites { r: true, g: true, b: true, a: true }
}

/// The single color target of a pipeline.
#[derive(Clone, Copy, PartialEq, Eq, Debug)]
pub struct ColorTargetState {
    pub format: TextureFormat,
    pub blend: Option<BlendState>,
    pub write_mask: ColorWrites,
}

/// The multisampling state of a pipeline.
#[derive(Clone, Copy, PartialEq, Eq, Debug)]
pub struct MultisampleState {
    pub count: u32,
    pub mask: u64,
    pub alpha_to_coverage_enabled: bool,
}

/// The primitive state every pipeline of this engine is built with.
pub open spec fn fixed_primitive_state() -> PrimitiveState {
    PrimitiveState {
        topology: PrimitiveTopology::TriangleList,
        front_face: FrontFace::Ccw,
        cull_mode: Some(Face::Back),
        polygon_mode: PolygonMode::Fill,
        unclipped_depth: false,
        conservative: false,
    }
}

/// The multisample state every pipeline of this engine is built with:
/// a single sample, all sample-mask bits set, no alpha-to-coverage.
pub open spec fn fixed_multisample_state() -> MultisampleState {
    MultisampleState { count: 1, mask: 0xffff_ffff_ffff_ffff, alpha_to_coverage_enabled: false }
}

/// Depth testing is never partially configured: either absent, or a
/// write-enabled test comparing with `Less`.
pub open spec fn depth_policy_ok(d: Option<DepthStencilState>) -> bool {
    d matches Some(s) ==> s == (DepthStencilState {
        depth_write_enabled: true,
        depth_compare: CompareFunction::Less,
    })
}

/// The fragment stage combined with its single color target.
#[derive(Clone, Copy, PartialEq, Eq, Debug)]
pub struct FragmentState {
    pub shader_mod: &'static str,
    pub entry_point: &'static str,
    pub target: ColorTargetState,
}

/// An immutable GPU pipeline: the full fixed-function and programmable
/// state one draw style uses, and the bind-group layouts it was built
/// against.
#[derive(PartialEq, Eq, Debug)]
pub struct RenderPipeline {
    pub layouts: Vec<BindGroupLayout>,
    pub vertex: VertexState,
    pub fragment: FragmentState,
    pub primitive: PrimitiveState,
    pub depth_stencil: Option<DepthStencilState>,
    pub multisample: MultisampleState,
    pub label: Option<&'static str>,
}

impl RenderPipeline {
    /// The fixed policy every pipeline of this engine carries.
    pub open spec fn fixed_policy(self, surface_format: TextureFormat) -> bool {
        &&& self.primitive == fixed_primitive_state()
        &&& self.multisample == fixed_multisample_state()
        &&& depth_policy_ok(self.depth_stencil)
        &&& self.fragment.target == (ColorTargetState {
            format: surface_format,
            blend: Some(BlendState::Replace),
            write_mask: spec_color_writes_all(),
        })
    }
}

/// Builds pipelines under the engine's fixed policy.
pub struct Pipeline {}

impl Pipeline {
    /// Combines the given bind-group layouts, vertex stage and fragment
    /// entry into a pipeline carrying the fixed policy, targeting the
    /// surface's format, with depth testing disabled.
    pub fn new(
        canvas: &Canvas,
        group_layouts: Vec<BindGroupLayout>,
        label: Option<&'static str>,
        vertex: VertexState,
        fragment: FragmentEntry,
    ) -> (r: RenderPipeline)
        ensures
            r.layouts@ == group_layouts@,
            r.vertex == vertex,
            r.fragment.shader_mod == fragment.shader_mod,
            r.fragment.entry_point == fragment.entry_point,
            r.depth_stencil is None,
            r.label == label,
            r.fixed_policy(canvas.config.format),
    {
        RenderPipeline {
            layouts: group_layouts,
            vertex,
            fragment: FragmentState {
                shader_mod: fragment.shader_mod,
                entry_point: fragment.entry_point,
                target: ColorTargetState {
                    format: canvas.config.format,
                    blend: Some(BlendState::Replace),
                    write_mask: ColorWrites { r: true, g: true, b: true, a: true },
                },
            },
            primitive: PrimitiveState {
                topology: PrimitiveTopology::TriangleList,
                front_face: FrontFace::Ccw,
                cull_mode: Some(Face::Back),
                polygon_mode: PolygonMode::Fill,
                unclipped_depth: false,
                conservative: false,
            },
            depth_stencil: None,
            multisample: MultisampleState {
                count: 1,
                mask: 0xffff_ffff_ffff_ffff,
                alpha_to_coverage_enabled: false,
            },
            label,
        }
    }
}

} // verus!
