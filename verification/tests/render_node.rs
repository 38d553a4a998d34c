use smol_renderer::pipeline::{
    BlendDescriptor, BlendFactor, BlendOperation, ColorStateDescriptor, ColorWrite, CullMode,
    DepthStencilStateDescriptor, FrontFace, IndexFormat, PrimitiveTopology,
    RasterizationStateDescriptor, RenderPipelineDescriptor, StencilOperation,
    StencilStateFaceDescriptor,
};
use smol_renderer::render_node::RenderCommand;
use smol_renderer::textures::CompareFunction;
use smol_renderer::vertex_buffer::{VertexBufferData, VertexBufferDescriptor};
use smol_renderer::{RenderError, RenderNode, RenderNodeBuilder};
use std::any::TypeId;

type Builder = RenderNodeBuilder<&'static str, &'static str, u32>;

const COLOR: wgpu::TextureFormat = wgpu::TextureFormat::Bgra8UnormSrgb;
const DEPTH: wgpu::TextureFormat = wgpu::TextureFormat::Depth32Float;

struct Position;

impl VertexBufferData for Position {
    fn get_descriptor() -> VertexBufferDescriptor {
        VertexBufferDescriptor {
            stride: 12,
            step_mode: wgpu::VertexStepMode::Vertex,
            attributes: vec![wgpu::VertexAttribute {
                format: wgpu::VertexFormat::Float32x3,
                offset: 0,
                shader_location: 0,
            }],
        }
    }
}

struct InstanceColor;

impl VertexBufferData for InstanceColor {
    fn get_descriptor() -> VertexBufferDescriptor {
        VertexBufferDescriptor {
            stride: 16,
            step_mode: wgpu::VertexStepMode::Instance,
            attributes: vec![wgpu::VertexAttribute {
                format: wgpu::VertexFormat::Float32x4,
                offset: 0,
                shader_location: 1,
            }],
        }
    }
}

fn replace() -> BlendDescriptor {
    BlendDescriptor {
        src_factor: BlendFactor::One,
        dst_factor: BlendFactor::Zero,
        operation: BlendOperation::Add,
    }
}

fn ignore() -> StencilStateFaceDescriptor {
    StencilStateFaceDescriptor {
        compare: CompareFunction::Always,
        fail_op: StencilOperation::Keep,
        depth_fail_op: StencilOperation::Keep,
        pass_op: StencilOperation::Keep,
    }
}

fn expected_pipeline(
    vertex_buffers: Vec<VertexBufferDescriptor>,
    bind_group_layouts: usize,
    has_fragment_stage: bool,
) -> RenderPipelineDescriptor {
    RenderPipelineDescriptor {
        bind_group_layouts,
        has_fragment_stage,
        rasterization_state: Some(RasterizationStateDescriptor {
            front_face: FrontFace::Ccw,
            cull_mode: CullMode::Neither,
            depth_bias: 0,
            depth_bias_slope_scale: 0,
            depth_bias_clamp: 0,
        }),
        primitive_topology: PrimitiveTopology::TriangleList,
        color_states: vec![ColorStateDescriptor {
            format: COLOR,
            alpha_blend: replace(),
            color_blend: replace(),
            write_mask: ColorWrite { red: true, green: true, blue: true, alpha: true },
        }],
        depth_stencil_state: Some(DepthStencilStateDescriptor {
            format: DEPTH,
            depth_write_enabled: true,
            depth_compare: CompareFunction::Less,
            stencil_front: ignore(),
            stencil_back: ignore(),
            stencil_read_mask: 0,
            stencil_write_mask: 0,
        }),
        index_format: IndexFormat::Uint32,
        vertex_buffers,
        sample_count: 1,
        sample_mask: 0xffff_ffff,
        alpha_to_coverage_enabled: false,
    }
}

#[test]
fn build_without_vertex_shader_is_rejected() {
    let builder: Builder = RenderNode::builder();
    let result = builder.set_fragment_shader("frag").add_uniform_bind_group(1).build(COLOR, DEPTH);
    assert!(matches!(result, Err(RenderError::MissingVertexShader)));
}

#[test]
fn build_of_empty_builder_is_rejected() {
    let builder: Builder = RenderNode::builder();
    assert!(matches!(builder.build(COLOR, DEPTH), Err(RenderError::MissingVertexShader)));
}

#[test]
fn default_builder_is_empty() {
    let builder = Builder::default();
    assert_eq!(builder.construct_pipeline(COLOR, DEPTH), expected_pipeline(vec![], 0, false));
    assert!(matches!(builder.build(COLOR, DEPTH), Err(RenderError::MissingVertexShader)));
}

#[test]
fn build_with_vertex_shader_alone_succeeds() {
    let builder: Builder = RenderNode::builder();
    let node = builder.set_vertex_shader("vert").build(COLOR, DEPTH).unwrap();
    assert_eq!(*node.vertex_shader(), "vert");
    assert_eq!(*node.fragment_shader(), None);
    assert!(node.uniform_bind_groups().is_empty());
    assert!(node.vertex_buffers().descriptors().is_empty());
    assert_eq!(*node.pipeline(), expected_pipeline(vec![], 0, false));
}

#[test]
fn build_keeps_what_the_builder_held() {
    let builder: Builder = RenderNode::builder();
    let node = builder
        .add_vertex_buffer::<Position>()
        .add_uniform_bind_group(10)
        .set_vertex_shader("vert")
        .add_vertex_buffer::<InstanceColor>()
        .set_fragment_shader("frag")
        .add_uniform_bind_group(20)
        .add_uniform_bind_group(30)
        .build(COLOR, DEPTH)
        .unwrap();
    assert_eq!(*node.vertex_shader(), "vert");
    assert_eq!(*node.fragment_shader(), Some("frag"));
    assert_eq!(*node.uniform_bind_groups(), vec![10, 20, 30]);
    assert_eq!(
        node.vertex_buffers().descriptors(),
        vec![Position::get_descriptor(), InstanceColor::get_descriptor()]
    );
    assert_eq!(
        node.vertex_buffers().tags(),
        vec![TypeId::of::<Position>(), TypeId::of::<InstanceColor>()]
    );
    assert_eq!(
        *node.pipeline(),
        expected_pipeline(
            vec![Position::get_descriptor(), InstanceColor::get_descriptor()],
            3,
            true
        )
    );
}

#[test]
fn later_shader_replaces_earlier_one() {
    let builder: Builder = RenderNode::builder();
    let node = builder
        .set_vertex_shader("first")
        .set_vertex_shader("second")
        .set_fragment_shader("a")
        .set_fragment_shader("b")
        .build(COLOR, DEPTH)
        .unwrap();
    assert_eq!(*node.vertex_shader(), "second");
    assert_eq!(*node.fragment_shader(), Some("b"));
}

#[test]
fn with_vertex_buffer_appends_tag_and_layout() {
    let layout = VertexBufferDescriptor {
        stride: 8,
        step_mode: wgpu::VertexStepMode::Vertex,
        attributes: vec![],
    };
    let builder: Builder = RenderNode::builder();
    let node = builder
        .add_vertex_buffer::<Position>()
        .with_vertex_buffer(TypeId::of::<u64>(), layout.clone())
        .set_vertex_shader("vert")
        .build(COLOR, DEPTH)
        .unwrap();
    assert_eq!(
        node.vertex_buffers().tags(),
        vec![TypeId::of::<Position>(), TypeId::of::<u64>()]
    );
    assert_eq!(node.vertex_buffers().descriptors(), vec![Position::get_descriptor(), layout]);
}

#[test]
fn more_vertex_buffers_than_the_stack_limit_keep_their_order() {
    let mut builder: Builder = RenderNode::builder();
    let mut expected = Vec::new();
    for stride in 0..7u64 {
        let layout = VertexBufferDescriptor {
            stride,
            step_mode: wgpu::VertexStepMode::Vertex,
            attributes: vec![],
        };
        expected.push(layout.clone());
        builder = builder.with_vertex_buffer(TypeId::of::<u8>(), layout);
    }
    let pipeline = builder.construct_pipeline(COLOR, DEPTH);
    assert_eq!(pipeline.vertex_buffers, expected);
}

#[test]
fn construct_pipeline_follows_the_builder() {
    let builder: Builder = RenderNode::builder();
    let builder = builder.add_uniform_bind_group(1).add_vertex_buffer::<Position>();
    assert_eq!(
        builder.construct_pipeline(COLOR, DEPTH),
        expected_pipeline(vec![Position::get_descriptor()], 1, false)
    );
    let builder = builder.set_fragment_shader("frag").add_uniform_bind_group(2);
    assert_eq!(
        builder.construct_pipeline(COLOR, DEPTH),
        expected_pipeline(vec![Position::get_descriptor()], 2, true)
    );
}

#[test]
fn pipeline_takes_the_formats_it_is_given() {
    let builder: Builder = RenderNode::builder();
    let pipeline = builder
        .construct_pipeline(wgpu::TextureFormat::Rgba8Unorm, wgpu::TextureFormat::Depth24Plus);
    assert_eq!(pipeline.color_states.len(), 1);
    assert_eq!(pipeline.color_states[0].format, wgpu::TextureFormat::Rgba8Unorm);
    assert_eq!(pipeline.depth_stencil_state.unwrap().format, wgpu::TextureFormat::Depth24Plus);
}

#[test]
fn run_sets_the_pipeline_then_binds_every_group_in_order() {
    let builder: Builder = RenderNode::builder();
    let node = builder
        .set_vertex_shader("vert")
        .add_uniform_bind_group(5)
        .add_uniform_bind_group(6)
        .add_uniform_bind_group(7)
        .build(COLOR, DEPTH)
        .unwrap();
    assert_eq!(
        node.run(),
        vec![
            RenderCommand::SetPipeline,
            RenderCommand::SetBindGroup { index: 0, group: 0 },
            RenderCommand::SetBindGroup { index: 1, group: 1 },
            RenderCommand::SetBindGroup { index: 2, group: 2 },
        ]
    );
}

#[test]
fn run_without_bind_groups_only_sets_the_pipeline() {
    let builder: Builder = RenderNode::builder();
    let node = builder.set_vertex_shader("vert").build(COLOR, DEPTH).unwrap();
    assert_eq!(node.run(), vec![RenderCommand::SetPipeline]);
}

#[test]
fn update_picks_the_group_at_the_index() {
    let builder: Builder = RenderNode::builder();
    let node = builder
        .set_vertex_shader("vert")
        .add_uniform_bind_group(5)
        .add_uniform_bind_group(6)
        .build(COLOR, DEPTH)
        .unwrap();
    assert_eq!(*node.update(0), 5);
    assert_eq!(*node.update(1), 6);
}

#[test]
fn clone_of_a_vertex_buffer_descriptor_is_equal() {
    let layout = InstanceColor::get_descriptor();
    assert_eq!(layout.clone(), layout);
}
