use hermit_engine::rendering::bind_group::BindGroupBuilder;
use hermit_engine::rendering::bind_group::BindingResource;
use hermit_engine::rendering::bind_group::BindingType;
use hermit_engine::rendering::bind_group::GroupEntry;
use hermit_engine::rendering::bind_group::LayoutEntry;
use hermit_engine::rendering::bind_group::ShaderStages;
use hermit_engine::rendering::canvas::Canvas;
use hermit_engine::rendering::canvas::TextureFormat;
use hermit_engine::rendering::render_pass::Color;
use hermit_engine::rendering::render_pass::IndexFormat;
use hermit_engine::rendering::render_pass::LoadOp;
use hermit_engine::rendering::render_pass::RenderCommand;
use hermit_engine::rendering::render_pass::RenderPass;
use hermit_engine::rendering::render_pass::RenderPassDescriptor;
use hermit_engine::rendering::shader::Shader;
use hermit_engine::rendering::shader::VertexFormat;
use hermit_engine::rendering::shader::VertexStepMode;
use hermit_engine::shape::shape_drawer::Polygon;
use hermit_engine::shape::shape_drawer::Rectangle;
use hermit_engine::shape::shape_drawer::Shape;
use hermit_engine::shape::shape_drawer::ShapeData;
use hermit_engine::shape::shape_drawer::ShapeDrawer;
use hermit_engine::shape::shape_drawer::Triangle;
use hermit_engine::shape::shape_drawer::Vertex;
use hermit_engine::shape::shape_drawer::encode_vertices;
use hermit_engine::window::PhysicalSize;

fn test_canvas() -> Canvas {
    Canvas::new(PhysicalSize::new(800, 800), TextureFormat::Bgra8UnormSrgb)
}

fn test_shader() -> Shader {
    Shader::new("shaders/color.wgsl", "// wgsl".to_string())
}

fn vert(x: f32, y: f32, r: f32, g: f32, b: f32) -> Vertex {
    Vertex {
        position: (x.to_bits(), y.to_bits(), 0.0f32.to_bits()),
        color_or_coord: (r.to_bits(), g.to_bits(), b.to_bits()),
    }
}

fn quad() -> Vec<Vertex> {
    vec![
        vert(-1.0, 1.0, 0.0, 0.0, 0.0),
        vert(0.0, 1.0, 1.0, 0.0, 0.0),
        vert(0.0, -0.0, 1.0, 1.0, 0.0),
        vert(-1.0, 0.0, 0.0, 1.0, 0.0),
    ]
}

fn empty_pass() -> RenderPass {
    RenderPass::begin(RenderPassDescriptor {
        label: Some("Render Pass"),
        color_load: LoadOp::Clear(Color {
            r_bits: 0.1f64.to_bits(),
            g_bits: 0.2f64.to_bits(),
            b_bits: 0.3f64.to_bits(),
            a_bits: 1.0f64.to_bits(),
        }),
        color_store: true,
        depth: None,
    })
}

fn texture_binding() -> (
    hermit_engine::rendering::bind_group::BindGroupLayout,
    hermit_engine::rendering::bind_group::BindGroup,
) {
    let canvas = test_canvas();
    let layout_entries = vec![
        LayoutEntry::new(0, ShaderStages::Fragment, BindingType::Texture),
        LayoutEntry::new(1, ShaderStages::Fragment, BindingType::Sampler),
    ];
    let group_entries = vec![
        GroupEntry::new_binding_resource(0, BindingResource::TextureView(7)),
        GroupEntry::new_binding_resource(1, BindingResource::Sampler(8)),
    ];
    let (layout, group) = BindGroupBuilder::new(&canvas, layout_entries, group_entries, None, true);
    (layout, group.expect("materialized bind group"))
}

#[test]
fn rectangle_has_fixed_index_list() {
    let canvas = test_canvas();
    let shader = test_shader();
    let rectangle = Rectangle::new(&shader, quad(), None, &canvas);
    assert_eq!(rectangle.indices, vec![0, 2, 1, 0, 3, 2]);
    // Little-endian byte image of the fixed index list.
    assert_eq!(
        rectangle.index_buffer.contents,
        vec![0, 0, 2, 0, 1, 0, 0, 0, 3, 0, 2, 0]
    );
    assert!(rectangle.index_buffer.usage.index);
    assert!(rectangle.vertex_buffer.usage.vertex);
}

#[test]
fn rectangle_draw_requests_six_indices() {
    let canvas = test_canvas();
    let shader = test_shader();
    let rectangle = Rectangle::new(&shader, quad(), None, &canvas);
    let mut pass = empty_pass();
    rectangle.draw(&mut pass);
    assert_eq!(
        pass.commands.last(),
        Some(&RenderCommand::DrawIndexed {
            start_index: 0,
            end_index: 6,
            base_vertex: 0,
            start_instance: 0,
            end_instance: 1,
        })
    );
}

#[test]
fn rectangle_draw_ignores_vertex_content() {
    let canvas = test_canvas();
    let shader = test_shader();
    let other_quad = vec![
        vert(0.25, 0.5, 0.9, 0.1, 0.4),
        vert(0.75, 0.5, 0.2, 0.8, 0.1),
        vert(0.75, -0.5, 0.3, 0.3, 0.3),
        vert(0.25, -0.5, 0.6, 0.6, 0.0),
    ];
    let a = Rectangle::new(&shader, quad(), None, &canvas);
    let b = Rectangle::new(&shader, other_quad, None, &canvas);
    assert_eq!(a.indices, b.indices);
    let mut pass_a = empty_pass();
    let mut pass_b = empty_pass();
    a.draw(&mut pass_a);
    b.draw(&mut pass_b);
    assert_eq!(pass_a.commands, pass_b.commands);
}

#[test]
fn triangle_draw_requests_three_indices() {
    let canvas = test_canvas();
    let shader = test_shader();
    let vertices = vec![
        vert(0.5, 0.0, 1.0, 0.0, 0.0),
        vert(0.0, -1.0, 1.0, 0.0, 0.0),
        vert(1.0, -1.0, 1.0, 0.0, 0.0),
    ];
    let triangle = Triangle::new(&shader, vertices, None, &canvas);
    assert_eq!(triangle.indices, vec![0, 1, 2]);
    let mut pass = empty_pass();
    triangle.draw(&mut pass);
    assert_eq!(
        pass.commands.last(),
        Some(&RenderCommand::DrawIndexed {
            start_index: 0,
            end_index: 3,
            base_vertex: 0,
            start_instance: 0,
            end_instance: 1,
        })
    );
    let draws = pass
        .commands
        .iter()
        .filter(|c| matches!(c, RenderCommand::DrawIndexed { .. }))
        .count();
    assert_eq!(draws, 1);
}

#[test]
fn polygon_with_five_vertices_and_nine_indices() {
    // Five vertices, nine indices: one draw call with index count 9 and
    // instance count 1 must be recorded.
    let canvas = test_canvas();
    let shader = test_shader();
    let vertices = vec![
        vert(-0.0868241, 0.49240386, 1.0, 0.0, 0.0),
        vert(-0.49513406, 0.06958647, 0.0, 1.0, 0.0),
        vert(-0.21918549, -0.44939706, 1.0, 1.0, 0.0),
        vert(0.35966998, -0.3473291, 0.0, 0.0, 1.0),
        vert(0.44147372, 0.2347359, 1.0, 0.0, 1.0),
    ];
    let indices: Vec<u16> = vec![0, 1, 4, 1, 2, 4, 2, 3, 4];
    let polygon = Polygon::new(&shader, vertices, indices.clone(), None, &canvas);
    assert_eq!(polygon.num_indices, 9);
    assert_eq!(polygon.indices, indices);
    assert_eq!(indices.len() % 3, 0);

    let mut pass = empty_pass();
    polygon.draw(&mut pass);
    let draws: Vec<&RenderCommand> = pass
        .commands
        .iter()
        .filter(|c| matches!(c, RenderCommand::DrawIndexed { .. }))
        .collect();
    assert_eq!(draws.len(), 1);
    assert_eq!(
        draws[0],
        &RenderCommand::DrawIndexed {
            start_index: 0,
            end_index: 9,
            base_vertex: 0,
            start_instance: 0,
            end_instance: 1,
        }
    );
}

#[test]
fn drawable_without_texture_sets_no_bind_group() {
    let canvas = test_canvas();
    let shader = test_shader();
    let rectangle = Rectangle::new(&shader, quad(), None, &canvas);
    let mut pass = empty_pass();
    rectangle.draw(&mut pass);
    let binds = pass
        .commands
        .iter()
        .filter(|c| matches!(c, RenderCommand::SetBindGroup { .. }))
        .count();
    assert_eq!(binds, 0);
}

#[test]
fn drawable_with_texture_sets_one_bind_group() {
    let canvas = test_canvas();
    let shader = test_shader();
    let (layout, group) = texture_binding();
    let rectangle = Rectangle::new(&shader, quad(), Some((layout, group)), &canvas);
    let mut pass = empty_pass();
    rectangle.draw(&mut pass);
    let binds: Vec<&RenderCommand> = pass
        .commands
        .iter()
        .filter(|c| matches!(c, RenderCommand::SetBindGroup { .. }))
        .collect();
    assert_eq!(binds.len(), 1);
    assert_eq!(binds[0], &RenderCommand::SetBindGroup { slot: 0 });
}

#[test]
fn draw_binds_pipeline_then_buffers_then_draws() {
    let canvas = test_canvas();
    let shader = test_shader();
    let rectangle = Rectangle::new(&shader, quad(), None, &canvas);
    let mut pass = empty_pass();
    rectangle.draw(&mut pass);
    assert_eq!(
        pass.commands,
        vec![
            RenderCommand::SetPipeline { label: Some("Pipeline Rectangle") },
            RenderCommand::SetVertexBuffer { slot: 0 },
            RenderCommand::SetIndexBuffer { format: IndexFormat::Uint16 },
            RenderCommand::DrawIndexed {
                start_index: 0,
                end_index: 6,
                base_vertex: 0,
                start_instance: 0,
                end_instance: 1,
            },
        ]
    );
}

#[test]
fn shape_drawer_records_in_registration_order() {
    let canvas = test_canvas();
    let shader = test_shader();
    let triangle = Triangle::new(
        &shader,
        vec![
            vert(0.5, 0.0, 1.0, 0.0, 0.0),
            vert(0.0, -1.0, 1.0, 0.0, 0.0),
            vert(1.0, -1.0, 1.0, 0.0, 0.0),
        ],
        None,
        &canvas,
    );
    let rectangle = Rectangle::new(&shader, quad(), None, &canvas);

    let mut drawer = ShapeDrawer::new(empty_pass());
    drawer.draw_shape(&triangle);
    drawer.draw_shape(&rectangle);
    let pass = drawer.finish();

    let mut expected = empty_pass();
    triangle.draw(&mut expected);
    rectangle.draw(&mut expected);
    assert_eq!(pass.commands, expected.commands);
}

#[test]
fn vertex_desc_describes_two_float3_attributes() {
    let desc = Vertex::desc();
    assert_eq!(desc.array_stride, 24);
    assert_eq!(desc.step_mode, VertexStepMode::Vertex);
    assert_eq!(desc.attributes.len(), 2);
    assert_eq!(desc.attributes[0].offset, 0);
    assert_eq!(desc.attributes[0].shader_location, 0);
    assert_eq!(desc.attributes[0].format, VertexFormat::Float32x3);
    assert_eq!(desc.attributes[1].offset, 12);
    assert_eq!(desc.attributes[1].shader_location, 1);
    assert_eq!(desc.attributes[1].format, VertexFormat::Float32x3);
}

#[test]
fn vertex_encoding_is_little_endian() {
    let v = Vertex {
        position: (0x04030201, 0x08070605, 0x0c0b0a09),
        color_or_coord: (0x100f0e0d, 0x14131211, 0x18171615),
    };
    let bytes = encode_vertices(&vec![v]);
    let expected: Vec<u8> = (1..=24).collect();
    assert_eq!(bytes, expected);
}

#[test]
fn vertex_encoding_matches_float_bits() {
    // 1.0f32 is 0x3f800000: the encoded record ends each channel with its
    // exponent bytes, little-endian.
    let v = vert(1.0, 0.0, 0.0, 0.0, 0.0);
    let bytes = encode_vertices(&vec![v]);
    assert_eq!(bytes.len(), 24);
    assert_eq!(&bytes[0..4], &[0x00, 0x00, 0x80, 0x3f]);
    assert_eq!(&bytes[4..8], &[0x00, 0x00, 0x00, 0x00]);
}

#[test]
fn shape_data_keeps_its_lists() {
    let vertices = quad();
    let data = ShapeData::new(vertices, Some(vec![0, 1, 2]));
    assert_eq!(data.vertices.len(), 4);
    assert_eq!(data.indices, Some(vec![0, 1, 2]));
    let no_indices = ShapeData::new(quad(), None);
    assert_eq!(no_indices.indices, None);
}
