use hermit_engine::rendering::bind_group::BindGroupBuilder;
use hermit_engine::rendering::bind_group::BindingResource;
use hermit_engine::rendering::bind_group::BindingType;
use hermit_engine::rendering::bind_group::GroupEntry;
use hermit_engine::rendering::bind_group::LayoutEntry;
use hermit_engine::rendering::bind_group::ShaderStages;
use hermit_engine::rendering::buffer::BufferBuilder;
use hermit_engine::rendering::buffer::BufferUsages;
use hermit_engine::rendering::buffer::encode_indices;
use hermit_engine::rendering::canvas::Canvas;
use hermit_engine::rendering::canvas::TextureFormat;
use hermit_engine::rendering::pipeline::BlendState;
use hermit_engine::rendering::pipeline::Face;
use hermit_engine::rendering::pipeline::FrontFace;
use hermit_engine::rendering::pipeline::Pipeline;
use hermit_engine::rendering::pipeline::PolygonMode;
use hermit_engine::rendering::pipeline::PrimitiveTopology;
use hermit_engine::rendering::shader::FragmentEntry;
use hermit_engine::rendering::shader::Shader;
use hermit_engine::rendering::shader::VertexEntry;
use hermit_engine::shape::shape_drawer::Vertex;
use hermit_engine::window::PhysicalSize;
use hermit_engine::window::WindowData;

fn test_canvas() -> Canvas {
    Canvas::new(PhysicalSize::new(800, 600), TextureFormat::Rgba8UnormSrgb)
}

#[test]
fn canvas_is_configured_to_window_size_and_format() {
    let canvas = test_canvas();
    assert_eq!(canvas.size, PhysicalSize::new(800, 600));
    assert_eq!(canvas.config.width, 800);
    assert_eq!(canvas.config.height, 600);
    assert_eq!(canvas.config.format, TextureFormat::Rgba8UnormSrgb);
}

#[test]
fn buffer_keeps_contents_usage_and_label() {
    let buffer = BufferBuilder::new(vec![1, 2, 3], BufferUsages::vertex(), Some("Vertex"));
    assert_eq!(buffer.contents, vec![1, 2, 3]);
    assert!(buffer.usage.vertex);
    assert!(!buffer.usage.index);
    assert!(!buffer.usage.uniform);
    assert!(!buffer.usage.copy_dst);
    assert_eq!(buffer.label, Some("Vertex"));
}

#[test]
fn uniform_updatable_usage_includes_update_target() {
    let usage = BufferUsages::uniform_updatable();
    assert!(usage.uniform);
    assert!(usage.copy_dst);
    assert!(!usage.vertex);
    assert!(!usage.index);
    let index = BufferUsages::index();
    assert!(index.index && !index.copy_dst);
}

#[test]
fn indices_encode_little_endian() {
    assert_eq!(encode_indices(&vec![0x1234]), vec![0x34, 0x12]);
    assert_eq!(encode_indices(&vec![]), Vec::<u8>::new());
    assert_eq!(encode_indices(&vec![1, 2]), vec![1, 0, 2, 0]);
}

#[test]
fn layout_entry_declares_slot_visibility_and_kind() {
    let entry = LayoutEntry::new(3, ShaderStages::Vertex, BindingType::Buffer);
    assert_eq!(entry.binding, 3);
    assert_eq!(entry.visibility, ShaderStages::Vertex);
    assert_eq!(entry.ty, BindingType::Buffer);
    assert_eq!(entry.count, None);
}

#[test]
fn group_entry_binds_a_whole_buffer() {
    let buffer = BufferBuilder::new(vec![0; 64], BufferUsages::uniform_updatable(), None);
    let entry = GroupEntry::new(0, &buffer);
    assert_eq!(entry.binding, 0);
    assert_eq!(entry.resource, BindingResource::Buffer { size: 64 });
}

#[test]
fn layout_may_be_declared_without_materializing() {
    let canvas = test_canvas();
    let layout_entries = vec![LayoutEntry::new(0, ShaderStages::Vertex, BindingType::Buffer)];
    let (layout, group) = BindGroupBuilder::new(&canvas, layout_entries, vec![], None, false);
    assert_eq!(layout.entries.len(), 1);
    assert!(group.is_none());
}

#[test]
fn materialized_group_carries_its_layout_and_entries() {
    let canvas = test_canvas();
    let layout_entries = vec![
        LayoutEntry::new(0, ShaderStages::Fragment, BindingType::Texture),
        LayoutEntry::new(1, ShaderStages::Fragment, BindingType::Sampler),
    ];
    let group_entries = vec![
        GroupEntry::new_binding_resource(0, BindingResource::TextureView(11)),
        GroupEntry::new_binding_resource(1, BindingResource::Sampler(12)),
    ];
    let (layout, group) =
        BindGroupBuilder::new(&canvas, layout_entries, group_entries, Some("Texture"), true);
    let group = group.expect("materialized bind group");
    assert_eq!(group.layout.entries, layout.entries);
    assert_eq!(group.entries.len(), 2);
    assert_eq!(group.entries[0].resource, BindingResource::TextureView(11));
    assert_eq!(group.entries[1].resource, BindingResource::Sampler(12));
    assert_eq!(group.label, Some("Texture"));
}

#[test]
fn pipeline_bakes_in_the_fixed_policy() {
    let canvas = test_canvas();
    let shader = Shader::new("shaders/color.wgsl", "// wgsl".to_string());
    let vertex = VertexEntry::new(&shader, "vs_main", vec![Vertex::desc()]);
    let fragment = FragmentEntry::new(&shader, "fs_main");
    let pipeline = Pipeline::new(&canvas, vec![], Some("Render Pipeline"), vertex, fragment);

    assert_eq!(pipeline.primitive.topology, PrimitiveTopology::TriangleList);
    assert_eq!(pipeline.primitive.front_face, FrontFace::Ccw);
    assert_eq!(pipeline.primitive.cull_mode, Some(Face::Back));
    assert_eq!(pipeline.primitive.polygon_mode, PolygonMode::Fill);
    assert!(!pipeline.primitive.unclipped_depth);
    assert!(!pipeline.primitive.conservative);

    assert_eq!(pipeline.multisample.count, 1);
    assert_eq!(pipeline.multisample.mask, u64::MAX);
    assert!(!pipeline.multisample.alpha_to_coverage_enabled);

    assert!(pipeline.depth_stencil.is_none());
    assert_eq!(pipeline.fragment.target.format, TextureFormat::Rgba8UnormSrgb);
    assert_eq!(pipeline.fragment.target.blend, Some(BlendState::Replace));
    assert!(pipeline.fragment.target.write_mask.r);
    assert!(pipeline.fragment.target.write_mask.a);

    assert_eq!(pipeline.vertex.module, "shaders/color.wgsl");
    assert_eq!(pipeline.vertex.entry_point, "vs_main");
    assert_eq!(pipeline.fragment.shader_mod, "shaders/color.wgsl");
    assert_eq!(pipeline.fragment.entry_point, "fs_main");
    assert_eq!(pipeline.label, Some("Render Pipeline"));
    assert!(pipeline.layouts.is_empty());
}

#[test]
fn pipeline_is_built_against_the_given_layouts() {
    let canvas = test_canvas();
    let shader = Shader::new("shaders/texture.wgsl", "// wgsl".to_string());
    let layout_entries = vec![LayoutEntry::new(0, ShaderStages::Fragment, BindingType::Texture)];
    let (layout, _) = BindGroupBuilder::new(&canvas, layout_entries, vec![], None, false);
    let entries = layout.entries.clone();
    let pipeline = Pipeline::new(
        &canvas,
        vec![layout],
        None,
        VertexEntry::new(&shader, "vs_main", vec![Vertex::desc()]),
        FragmentEntry::new(&shader, "fs_main"),
    );
    assert_eq!(pipeline.layouts.len(), 1);
    assert_eq!(pipeline.layouts[0].entries, entries);
}

#[test]
fn shader_keeps_path_and_source() {
    let shader = Shader::new("shaders/color.wgsl", "fn vs_main() {}".to_string());
    assert_eq!(shader.path, "shaders/color.wgsl");
    assert_eq!(shader.source, "fn vs_main() {}");
}

#[test]
fn vertex_entry_names_module_and_buffers() {
    let shader = Shader::new("shaders/color.wgsl", "// wgsl".to_string());
    let vertex = VertexEntry::new(&shader, "vs_main", vec![Vertex::desc()]);
    assert_eq!(vertex.module, "shaders/color.wgsl");
    assert_eq!(vertex.entry_point, "vs_main");
    assert_eq!(vertex.buffers.len(), 1);
}

#[test]
fn window_data_keeps_its_fields() {
    let data = WindowData::new(true, "HERMIT ENGINE".to_string(), PhysicalSize::new(800, 800));
    assert!(data.resizeable);
    assert_eq!(data.title, "HERMIT ENGINE");
    assert_eq!(data.size, PhysicalSize::new(800, 800));
}
