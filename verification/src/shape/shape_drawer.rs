//! Drawable shapes.  Each variant pairs a pipeline with its vertex and
//! index buffers and an optional texture binding, and records one fixed
//! sequence of commands into an open render pass: bind its pipeline, bind
//! its optional texture binding at slot 0, bind its vertex buffer at slot
//! 0, bind its index buffer, and issue one indexed draw over its full
//! index range for a single instance.

use vstd::prelude::*;

use crate::rendering::bind_group::BindGroup;
use crate::rendering::bind_group::BindGroupLayout;
use crate::rendering::buffer::Buffer;
use crate::rendering::buffer::BufferBuilder;
use crate::rendering::buffer::BufferUsages;
use crate::rendering::buffer::encode_indices;
use crate::rendering::buffer::index_bytes;
use crate::rendering::buffer::spec_index_usage;
use crate::rendering::buffer::spec_vertex_usage;
use crate::rendering::buffer::u32_le_bytes;
use crate::rendering::buffer::push_u32_le;
use crate::rendering::canvas::Canvas;
use crate::rendering::pipeline::Pipeline;
use crate::rendering::pipeline::RenderPipeline;
use crate::rendering::render_pass::IndexFormat;
use crate::rendering::render_pass::RenderCommand;
use crate::rendering::render_pass::RenderPass;
use crate::rendering::shader::FragmentEntry;
use crate::rendering::shader::Shader;
use crate::rendering::shader::VertexAttribute;
use crate::rendering::shader::VertexBufferLayout;
use crate::rendering::shader::VertexEntry;
use crate::rendering::shader::VertexFormat;
use crate::rendering::shader::VertexStepMode;

verus! {

/// One vertex record: a position and a color or texture coordinate, three
/// 32-bit channels each.  Channels hold the bit patterns of IEEE-754
/// single floats, so the verified core stores no floating point; the
/// byte image below is what the GPU reads either way.
#[derive(Clone, Copy, PartialEq, Eq, Debug)]
pub struct Vertex {
    pub position: (u32, u32, u32),
    pub color_or_coord: (u32, u32, u32),
}

/// The 24 little-endian bytes of one vertex record.
pub open spec fn vertex_bytes(v: Vertex) -> Seq<u8> {
    u32_le_bytes(v.position.0) + u32_le_bytes(v.position.1) + u32_le_bytes(v.position.2)
        + u32_le_bytes(v.color_or_coord.0) + u32_le_bytes(v.color_or_coord.1) + u32_le_bytes(
        v.color_or_coord.2,
    )
}

/// The byte image of a vertex list: each record's 24 bytes in turn.
pub open spec fn vertex_seq_bytes(vs: Seq<Vertex>) -> Seq<u8>
    decreases vs.len(),
{
    if vs.len() == 0 {
        Seq::empty()
    } else {
        vertex_seq_bytes(vs.drop_last()) + vertex_bytes(vs.last())
    }
}

/// Encodes a vertex list into the byte image its GPU buffer holds.
pub fn encode_vertices(vertices: &Vec<Vertex>) -> (r: Vec<u8>)
    ensures
        r@ == vertex_seq_bytes(vertices@),
{
    let mut out: Vec<u8> = Vec::new();
    let mut i: usize = 0;
    while i < vertices.len()
        invariant
            i <= vertices.len(),
            out@ == vertex_seq_bytes(vertices@.take(i as int)),
        decreases vertices.len() - i,
    {
        let ghost before = out@;
        let v = vertices[i];
        push_u32_le(&mut out, v.position.0);
        push_u32_le(&mut out, v.position.1);
        push_u32_le(&mut out, v.position.2);
        push_u32_le(&mut out, v.color_or_coord.0);
        push_u32_le(&mut out, v.color_or_coord.1);
        push_u32_le(&mut out, v.color_or_coord.2);
        proof {
            let t = vertices@.take(i as int + 1);
            assert(t.drop_last() =~= vertices@.take(i as int));
            assert(t.last() == vertices@[i as int]);
            assert(out@ =~= before + vertex_bytes(vertices@[i as int]));
        }
        i = i + 1;
    }
    proof {
        assert(vertices@.take(vertices@.len() as int) =~= vertices@);
    }
    out
}

/// The vertex buffer layout of `Vertex`: a 24-byte stride per vertex,
/// the position at offset 0 feeding shader location 0, and the color or
/// texture coordinate at offset 12 feeding shader location 1, three
/// single floats each.
pub open spec fn spec_vertex_desc() -> (Seq<VertexAttribute>, u64, VertexStepMode) {
    (
        seq![
            VertexAttribute { offset: 0, shader_location: 0, format: VertexFormat::Float32x3 },
            VertexAttribute { offset: 12, shader_location: 1, format: VertexFormat::Float32x3 },
        ],
        24,
        VertexStepMode::Vertex,
    )
}

impl Vertex {
    /// How a buffer of `Vertex` records feeds the vertex stage.
    pub fn desc() -> (r: VertexBufferLayout)
        ensures
            r.attributes@ == spec_vertex_desc().0,
            r.array_stride == spec_vertex_desc().1,
            r.step_mode == spec_vertex_desc().2,
    {
        let mut attributes: Vec<VertexAttribute> = Vec::new();
        attributes.push(
            VertexAttribute { offset: 0, shader_location: 0, format: VertexFormat::Float32x3 },
        );
        attributes.push(
            VertexAttribute { offset: 12, shader_location: 1, format: VertexFormat::Float32x3 },
        );
        proof {
            assert(attributes@ =~= spec_vertex_desc().0);
        }
        VertexBufferLayout { array_stride: 24, step_mode: VertexStepMode::Vertex, attributes }
    }
}

/// The commands every shape records: its pipeline, its optional texture
/// binding at slot 0, its vertex buffer at slot 0, its index buffer, and
/// one indexed draw of `index_count` indices for one instance.
pub open spec fn standard_draw_commands(
    pipeline_label: Option<&'static str>,
    has_texture: bool,
    index_count: u32,
) -> Seq<RenderCommand> {
    seq![RenderCommand::SetPipeline { label: pipeline_label }] + (if has_texture {
        seq![RenderCommand::SetBindGroup { slot: 0 }]
    } else {
        Seq::empty()
    }) + seq![
        RenderCommand::SetVertexBuffer { slot: 0 },
        RenderCommand::SetIndexBuffer { format: IndexFormat::Uint16 },
        RenderCommand::DrawIndexed {
            start_index: 0,
            end_index: index_count,
            base_vertex: 0,
            start_instance: 0,
            end_instance: 1,
        },
    ]
}

/// The capability of recording draw commands into an active render pass.
/// The caller guarantees the pass outlives the recording call.
pub trait Shape {
    /// What the shape's constructor establishes and drawing relies on.
    spec fn wf(&self) -> bool;

    /// The commands one recording appends.
    spec fn draw_commands(&self) -> Seq<RenderCommand>;

    /// Records this shape's commands, in order, at the end of the pass.
    fn draw(&self, render_pass: &mut RenderPass)
        requires
            self.wf(),
        ensures
            final(render_pass).descriptor == old(render_pass).descriptor,
            final(render_pass).commands@ == old(render_pass).commands@ + self.draw_commands(),
    ;
}

/// Records shapes into the render pass it owns, in the order given.
pub struct ShapeDrawer {
    pub render_pass: RenderPass,
}

impl ShapeDrawer {
    pub fn new(render_pass: RenderPass) -> (r: Self)
        ensures
            r.render_pass == render_pass,
    {
        Self { render_pass }
    }

    /// Asks one shape to record itself.
    pub fn draw_shape<S: Shape>(&mut self, shape: &S)
        requires
            shape.wf(),
        ensures
            final(self).render_pass.descriptor == old(self).render_pass.descriptor,
            final(self).render_pass.commands@ == old(self).render_pass.commands@
                + shape.draw_commands(),
    {
        shape.draw(&mut self.render_pass);
    }

    /// Closes the recording scope and hands the pass back.
    pub fn finish(self) -> (r: RenderPass)
        ensures
            r == self.render_pass,
    {
        self.render_pass
    }
}

/// A caller-supplied vertex list with an optional index list, before it
/// is turned into a drawable.
pub struct ShapeData {
    pub vertices: Vec<Vertex>,
    pub indices: Option<Vec<u16>>,
}

impl ShapeData {
    pub fn new(vertices: Vec<Vertex>, indices: Option<Vec<u16>>) -> (r: Self)
        ensures
            r.vertices == vertices,
            r.indices == indices,
    {
        Self { vertices, indices }
    }
}

/// What every drawable establishes at construction: buffers built from
/// its own data under the right usage, a pipeline whose bind-group
/// layouts are exactly the optional texture's layout, and an index list
/// short enough to draw.
pub open spec fn drawable_wf(
    vertices: Seq<Vertex>,
    indices: Seq<u16>,
    vertex_buffer: Buffer,
    index_buffer: Buffer,
    pipeline: RenderPipeline,
    texture: Option<(BindGroupLayout, BindGroup)>,
) -> bool {
    &&& vertex_buffer.contents@ == vertex_seq_bytes(vertices)
    &&& vertex_buffer.usage == spec_vertex_usage()
    &&& index_buffer.contents@ == index_bytes(indices)
    &&& index_buffer.usage == spec_index_usage()
    &&& indices.len() <= u32::MAX
    &&& (texture matches Some(t) ==> pipeline.layouts@.len() == 1 && pipeline.layouts@[0].entries@
        == t.0.entries@)
    &&& (texture is None ==> pipeline.layouts@.len() == 0)
}

/// The one vertex buffer layout every shape pipeline reads.
fn vertex_descs() -> (r: Vec<VertexBufferLayout>)
    ensures
        r@.len() == 1,
        r@[0].attributes@ == spec_vertex_desc().0,
        r@[0].array_stride == spec_vertex_desc().1,
        r@[0].step_mode == spec_vertex_desc().2,
{
    let mut descs: Vec<VertexBufferLayout> = Vec::new();
    descs.push(Vertex::desc());
    descs
}

/// The bind-group layouts a shape pipeline is built against: the
/// texture's layout when there is one, none otherwise.
fn texture_layouts(texture: &Option<(BindGroupLayout, BindGroup)>) -> (r: Vec<BindGroupLayout>)
    ensures
        texture matches Some(t) ==> r@.len() == 1 && r@[0].entries@ == t.0.entries@,
        texture is None ==> r@.len() == 0,
{
    match texture {
        Some(t) => {
            let mut l: Vec<BindGroupLayout> = Vec::new();
            l.push(t.0.clone());
            l
        },
        None => Vec::new(),
    }
}

/// A rectangle: four caller-supplied vertices drawn as two triangles
/// through the fixed index list `[0, 2, 1, 0, 3, 2]`, with an optional
/// texture binding.
pub struct Rectangle {
    pub vertices: Vec<Vertex>,
    pub indices: Vec<u16>,
    pub vertex_buffer: Buffer,
    pub index_buffer: Buffer,
    pub pipeline: RenderPipeline,
    pub texture: Option<(BindGroupLayout, BindGroup)>,
}

/// The fixed index list of every rectangle.
pub open spec fn rectangle_index_data() -> Seq<u16> {
    seq![0u16, 2u16, 1u16, 0u16, 3u16, 2u16]
}

impl Rectangle {
    /// Builds the buffers and pipeline for four vertices.  The index
    /// list is fixed regardless of vertex content.
    pub fn new(
        shader: &Shader,
        vertices: Vec<Vertex>,
        texture: Option<(BindGroupLayout, BindGroup)>,
        canvas: &Canvas,
    ) -> (r: Self)
        requires
            vertices@.len() == 4,
        ensures
            r.wf(),
            r.vertices@ == vertices@,
            r.indices@ == rectangle_index_data(),
            r.texture == texture,
            r.pipeline.fixed_policy(canvas.config.format),
            r.pipeline.depth_stencil is None,
            r.pipeline.vertex.module == shader.path,
            r.pipeline.vertex.entry_point@ == "vs_main"@,
            r.pipeline.fragment.shader_mod == shader.path,
            r.pipeline.fragment.entry_point@ == "fs_main"@,
    {
        let vertex_image = encode_vertices(&vertices);
        let vertex = BufferBuilder::new(vertex_image, BufferUsages::vertex(), Some("Vertex"));

        let mut index_data: Vec<u16> = Vec::new();
        index_data.push(0);
        index_data.push(2);
        index_data.push(1);
        index_data.push(0);
        index_data.push(3);
        index_data.push(2);
        proof {
            assert(index_data@ =~= rectangle_index_data());
        }
        let index_image = encode_indices(&index_data);
        let index = BufferBuilder::new(index_image, BufferUsages::index(), Some("Index"));

        let layouts = texture_layouts(&texture);

        let pipeline = Pipeline::new(
            canvas,
            layouts,
            Some("Pipeline Rectangle"),
            VertexEntry::new(shader, "vs_main", vertex_descs()),
            FragmentEntry::new(shader, "fs_main"),
        );

        Self {
            vertices,
            indices: index_data,
            vertex_buffer: vertex,
            index_buffer: index,
            pipeline,
            texture,
        }
    }
}

impl Shape for Rectangle {
    open spec fn wf(&self) -> bool {
        &&& self.vertices@.len() == 4
        &&& self.indices@ == rectangle_index_data()
        &&& drawable_wf(
            self.vertices@,
            self.indices@,
            self.vertex_buffer,
            self.index_buffer,
            self.pipeline,
            self.texture,
        )
    }

    open spec fn draw_commands(&self) -> Seq<RenderCommand> {
        standard_draw_commands(self.pipeline.label, self.texture is Some, 6)
    }

    fn draw(&self, render_pass: &mut RenderPass)
        ensures
            final(render_pass).descriptor == old(render_pass).descriptor,
            final(render_pass).commands@ == old(render_pass).commands@ + self.draw_commands(),
    {
        let ghost orig = render_pass.commands@;
        render_pass.set_pipeline(&self.pipeline);

        if let Some(t) = &self.texture {
            render_pass.set_bind_group(0, &t.1);
        }

        render_pass.set_vertex_buffer(0, &self.vertex_buffer);
        render_pass.set_index_buffer(&self.index_buffer, IndexFormat::Uint16);
        render_pass.draw_indexed(0, 6, 0, 0, 1);
        proof {
            assert(render_pass.commands@ =~= orig + self.draw_commands());
        }
    }
}

/// A triangle: three caller-supplied vertices drawn through the fixed
/// index list `[0, 1, 2]`, with an optional texture binding.
pub struct Triangle {
    pub vertices: Vec<Vertex>,
    pub indices: Vec<u16>,
    pub vertex_buffer: Buffer,
    pub index_buffer: Buffer,
    pub pipeline: RenderPipeline,
    pub texture: Option<(BindGroupLayout, BindGroup)>,
}

/// The fixed index list of every triangle.
pub open spec fn triangle_index_data() -> Seq<u16> {
    seq![0u16, 1u16, 2u16]
}

impl Triangle {
    /// Builds the buffers and pipeline for three vertices.  The index
    /// list is fixed regardless of vertex content.
    pub fn new(
        shader: &Shader,
        vertices: Vec<Vertex>,
        texture: Option<(BindGroupLayout, BindGroup)>,
        canvas: &Canvas,
    ) -> (r: Self)
        requires
            vertices@.len() == 3,
        ensures
            r.wf(),
            r.vertices@ == vertices@,
            r.indices@ == triangle_index_data(),
            r.texture == texture,
            r.pipeline.fixed_policy(canvas.config.format),
            r.pipeline.depth_stencil is None,
            r.pipeline.vertex.module == shader.path,
            r.pipeline.vertex.entry_point@ == "vs_main"@,
            r.pipeline.fragment.shader_mod == shader.path,
            r.pipeline.fragment.entry_point@ == "fs_main"@,
    {
        let vertex_image = encode_vertices(&vertices);
        let vertex = BufferBuilder::new(vertex_image, BufferUsages::vertex(), Some("Vertex"));

        let mut index_data: Vec<u16> = Vec::new();
        index_data.push(0);
        index_data.push(1);
        index_data.push(2);
        proof {
            assert(index_data@ =~= triangle_index_data());
        }
        let index_image = encode_indices(&index_data);
        let index = BufferBuilder::new(index_image, BufferUsages::index(), Some("Index"));

        let layouts = texture_layouts(&texture);

        let pipeline = Pipeline::new(
            canvas,
            layouts,
            Some("Pipeline Triangle"),
            VertexEntry::new(shader, "vs_main", vertex_descs()),
            FragmentEntry::new(shader, "fs_main"),
        );

        Self {
            vertices,
            indices: index_data,
            vertex_buffer: vertex,
            index_buffer: index,
            pipeline,
            texture,
        }
    }
}

impl Shape for Triangle {
    open spec fn wf(&self) -> bool {
        &&& self.vertices@.len() == 3
        &&& self.indices@ == triangle_index_data()
        &&& drawable_wf(
            self.vertices@,
            self.indices@,
            self.vertex_buffer,
            self.index_buffer,
            self.pipeline,
            self.texture,
        )
    }

    open spec fn draw_commands(&self) -> Seq<RenderCommand> {
        standard_draw_commands(self.pipeline.label, self.texture is Some, 3)
    }

    fn draw(&self, render_pass: &mut RenderPass)
        ensures
            final(render_pass).descriptor == old(render_pass).descriptor,
            final(render_pass).commands@ == old(render_pass).commands@ + self.draw_commands(),
    {
        let ghost orig = render_pass.commands@;
        render_pass.set_pipeline(&self.pipeline);

        if let Some(t) = &self.texture {
            render_pass.set_bind_group(0, &t.1);
        }

        render_pass.set_vertex_buffer(0, &self.vertex_buffer);
        render_pass.set_index_buffer(&self.index_buffer, IndexFormat::Uint16);
        render_pass.draw_indexed(0, 3, 0, 0, 1);
        proof {
            assert(render_pass.commands@ =~= orig + self.draw_commands());
        }
    }
}

/// An arbitrary polygon: caller-supplied vertex and index lists, the
/// index list a whole number of triangles, with an optional texture
/// binding.
pub struct Polygon {
    pub vertices: Vec<Vertex>,
    pub indices: Vec<u16>,
    pub vertex_buffer: Buffer,
    pub index_buffer: Buffer,
    pub pipeline: RenderPipeline,
    pub num_indices: u32,
    pub texture: Option<(BindGroupLayout, BindGroup)>,
}

impl Polygon {
    /// Builds the buffers and pipeline for the given vertex and index
    /// lists.  Under triangle-list topology the index list's length must
    /// be a multiple of three.
    pub fn new(
        shader: &Shader,
        vertices: Vec<Vertex>,
        indices: Vec<u16>,
        texture: Option<(BindGroupLayout, BindGroup)>,
        canvas: &Canvas,
    ) -> (r: Self)
        requires
            indices@.len() % 3 == 0,
            indices@.len() <= u32::MAX,
        ensures
            r.wf(),
            r.vertices@ == vertices@,
            r.indices@ == indices@,
            r.num_indices == indices@.len(),
            r.texture == texture,
            r.pipeline.fixed_policy(canvas.config.format),
            r.pipeline.depth_stencil is None,
            r.pipeline.vertex.module == shader.path,
            r.pipeline.vertex.entry_point@ == "vs_main"@,
            r.pipeline.fragment.shader_mod == shader.path,
            r.pipeline.fragment.entry_point@ == "fs_main"@,
    {
        let vertex_image = encode_vertices(&vertices);
        let vertex = BufferBuilder::new(vertex_image, BufferUsages::vertex(), Some("Vertex"));

        let num_indices = indices.len() as u32;
        let index_image = encode_indices(&indices);
        let index = BufferBuilder::new(index_image, BufferUsages::index(), Some("Index"));

        let layouts = texture_layouts(&texture);

        let pipeline = Pipeline::new(
            canvas,
            layouts,
            Some("Pipeline Polygon"),
            VertexEntry::new(shader, "vs_main", vertex_descs()),
            FragmentEntry::new(shader, "fs_main"),
        );

        Self {
            vertices,
            indices,
            vertex_buffer: vertex,
            index_buffer: index,
            pipeline,
            num_indices,
            texture,
        }
    }
}

impl Shape for Polygon {
    open spec fn wf(&self) -> bool {
        &&& self.indices@.len() % 3 == 0
        &&& self.num_indices == self.indices@.len()
        &&& drawable_wf(
            self.vertices@,
            self.indices@,
            self.vertex_buffer,
            self.index_buffer,
            self.pipeline,
            self.texture,
        )
    }

    open spec fn draw_commands(&self) -> Seq<RenderCommand> {
        standard_draw_commands(self.pipeline.label, self.texture is Some, self.num_indices)
    }

    fn draw(&self, render_pass: &mut RenderPass)
        ensures
            final(render_pass).descriptor == old(render_pass).descriptor,
            final(render_pass).commands@ == old(render_pass).commands@ + self.draw_commands(),
    {
        let ghost orig = render_pass.commands@;
        render_pass.set_pipeline(&self.pipeline);

        if let Some(t) = &self.texture {
            render_pass.set_bind_group(0, &t.1);
        }

        render_pass.set_vertex_buffer(0, &self.vertex_buffer);
        render_pass.set_index_buffer(&self.index_buffer, IndexFormat::Uint16);
        render_pass.draw_indexed(0, self.num_indices, 0, 0, 1);
        proof {
            assert(render_pass.commands@ =~= orig + self.draw_commands());
        }
    }
}


/// The number of bind-group-set commands in a recorded sequence.
pub open spec fn count_bind_group_sets(s: Seq<RenderCommand>) -> nat
    decreases s.len(),
{
    if s.len() == 0 {
        0
    } else {
        count_bind_group_sets(s.drop_last()) + (if s.last() is SetBindGroup {
            1nat
        } else {
            0nat
        })
    }
}

/// Appending one command adds one to the bind-group-set count exactly
/// when that command is a bind-group set.
pub proof fn lemma_count_bind_group_sets_push(s: Seq<RenderCommand>, c: RenderCommand)
    ensures
        count_bind_group_sets(s.push(c)) == count_bind_group_sets(s) + (if c is SetBindGroup {
            1nat
        } else {
            0nat
        }),
{
    assert(s.push(c).drop_last() =~= s);
    assert(s.push(c).last() == c);
}

/// A shape's recording ends in its one indexed draw over the full index
/// range for a single instance, and no earlier command is a draw.
pub proof fn lemma_standard_draw_single_draw(
    label: Option<&'static str>,
    has_texture: bool,
    index_count: u32,
)
    ensures
        standard_draw_commands(label, has_texture, index_count).len() == if has_texture {
            5int
        } else {
            4int
        },
        standard_draw_commands(label, has_texture, index_count).last()
            == (RenderCommand::DrawIndexed {
            start_index: 0,
            end_index: index_count,
            base_vertex: 0,
            start_instance: 0,
            end_instance: 1,
        }),
        forall|i: int|
            0 <= i < standard_draw_commands(label, has_texture, index_count).len() - 1 ==> !(
            standard_draw_commands(label, has_texture, index_count)[i] is DrawIndexed),
{
    let s = standard_draw_commands(label, has_texture, index_count);
    let set_pipeline = RenderCommand::SetPipeline { label };
    let bind = RenderCommand::SetBindGroup { slot: 0 };
    let set_vb = RenderCommand::SetVertexBuffer { slot: 0 };
    let set_ib = RenderCommand::SetIndexBuffer { format: IndexFormat::Uint16 };
    let draw = RenderCommand::DrawIndexed {
        start_index: 0,
        end_index: index_count,
        base_vertex: 0,
        start_instance: 0,
        end_instance: 1,
    };
    if has_texture {
        assert(s =~= seq![set_pipeline, bind, set_vb, set_ib, draw]);
    } else {
        assert(s =~= seq![set_pipeline, set_vb, set_ib, draw]);
    }
}

/// A shape records exactly one bind-group-set call, at slot 0, when it
/// has a texture binding, and none otherwise.
pub proof fn lemma_texture_binding_count(
    label: Option<&'static str>,
    has_texture: bool,
    index_count: u32,
)
    ensures
        count_bind_group_sets(standard_draw_commands(label, has_texture, index_count))
            == if has_texture {
            1nat
        } else {
            0nat
        },
        has_texture ==> standard_draw_commands(label, has_texture, index_count)[1]
            == (RenderCommand::SetBindGroup { slot: 0 }),
{
    let s = standard_draw_commands(label, has_texture, index_count);
    let set_pipeline = RenderCommand::SetPipeline { label };
    let bind = RenderCommand::SetBindGroup { slot: 0 };
    let set_vb = RenderCommand::SetVertexBuffer { slot: 0 };
    let set_ib = RenderCommand::SetIndexBuffer { format: IndexFormat::Uint16 };
    let draw = RenderCommand::DrawIndexed {
        start_index: 0,
        end_index: index_count,
        base_vertex: 0,
        start_instance: 0,
        end_instance: 1,
    };
    let s0 = Seq::<RenderCommand>::empty();
    if has_texture {
        let s1 = s0.push(set_pipeline);
        let s2 = s1.push(bind);
        let s3 = s2.push(set_vb);
        let s4 = s3.push(set_ib);
        let s5 = s4.push(draw);
        assert(s =~= s5);
        lemma_count_bind_group_sets_push(s0, set_pipeline);
        lemma_count_bind_group_sets_push(s1, bind);
        lemma_count_bind_group_sets_push(s2, set_vb);
        lemma_count_bind_group_sets_push(s3, set_ib);
        lemma_count_bind_group_sets_push(s4, draw);
    } else {
        let s1 = s0.push(set_pipeline);
        let s2 = s1.push(set_vb);
        let s3 = s2.push(set_ib);
        let s4 = s3.push(draw);
        assert(s =~= s4);
        lemma_count_bind_group_sets_push(s0, set_pipeline);
        lemma_count_bind_group_sets_push(s1, set_vb);
        lemma_count_bind_group_sets_push(s2, set_ib);
        lemma_count_bind_group_sets_push(s3, draw);
    }
}

/// A rectangle built from four vertices draws exactly six indices, the
/// fixed list `[0, 2, 1, 0, 3, 2]`, regardless of vertex content, in one
/// draw call; it records one bind-group-set call when textured and none
/// otherwise.
pub proof fn lemma_rectangle_draw(r: Rectangle)
    requires
        r.wf(),
    ensures
        r.draw_commands().last() == (RenderCommand::DrawIndexed {
            start_index: 0,
            end_index: 6,
            base_vertex: 0,
            start_instance: 0,
            end_instance: 1,
        }),
        forall|i: int|
            0 <= i < r.draw_commands().len() - 1 ==> !(r.draw_commands()[i] is DrawIndexed),
        r.indices@ == rectangle_index_data(),
        r.indices@.len() == 6,
        r.index_buffer.contents@ == index_bytes(rectangle_index_data()),
        count_bind_group_sets(r.draw_commands()) == if r.texture is Some {
            1nat
        } else {
            0nat
        },
{
    lemma_standard_draw_single_draw(r.pipeline.label, r.texture is Some, 6);
    lemma_texture_binding_count(r.pipeline.label, r.texture is Some, 6);
}

/// A triangle draws exactly three indices, the fixed list `[0, 1, 2]`,
/// regardless of vertex content, in one draw call; it records one
/// bind-group-set call when textured and none otherwise.
pub proof fn lemma_triangle_draw(t: Triangle)
    requires
        t.wf(),
    ensures
        t.draw_commands().last() == (RenderCommand::DrawIndexed {
            start_index: 0,
            end_index: 3,
            base_vertex: 0,
            start_instance: 0,
            end_instance: 1,
        }),
        forall|i: int|
            0 <= i < t.draw_commands().len() - 1 ==> !(t.draw_commands()[i] is DrawIndexed),
        t.indices@ == triangle_index_data(),
        t.indices@.len() == 3,
        t.index_buffer.contents@ == index_bytes(triangle_index_data()),
        count_bind_group_sets(t.draw_commands()) == if t.texture is Some {
            1nat
        } else {
            0nat
        },
{
    lemma_standard_draw_single_draw(t.pipeline.label, t.texture is Some, 3);
    lemma_texture_binding_count(t.pipeline.label, t.texture is Some, 3);
}

/// A polygon built from V vertices and I indices draws exactly its I
/// indices, I a multiple of three, in one draw call; it records one
/// bind-group-set call when textured and none otherwise.
pub proof fn lemma_polygon_draw(p: Polygon)
    requires
        p.wf(),
    ensures
        p.draw_commands().last() == (RenderCommand::DrawIndexed {
            start_index: 0,
            end_index: p.num_indices,
            base_vertex: 0,
            start_instance: 0,
            end_instance: 1,
        }),
        forall|i: int|
            0 <= i < p.draw_commands().len() - 1 ==> !(p.draw_commands()[i] is DrawIndexed),
        p.num_indices == p.indices@.len(),
        p.indices@.len() % 3 == 0,
        p.index_buffer.contents@ == index_bytes(p.indices@),
        count_bind_group_sets(p.draw_commands()) == if p.texture is Some {
            1nat
        } else {
            0nat
        },
{
    lemma_standard_draw_single_draw(p.pipeline.label, p.texture is Some, p.num_indices);
    lemma_texture_binding_count(p.pipeline.label, p.texture is Some, p.num_indices);
}

} // verus!
