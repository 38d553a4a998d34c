//! The fixed-function state of a render pipeline, as plain values.

use crate::textures::CompareFunction;
use crate::vertex_buffer::{VertexBufferDescriptor, VertexBufferDescriptorView};
use vstd::prelude::*;

verus! {

#[verifier::external_type_specification]
#[verifier::external_body]
pub struct ExTextureFormat(wgpu::TextureFormat);

/// The winding order of a front-facing triangle.
#[derive(Clone, Copy, Debug, PartialEq, Eq)]
pub enum FrontFace {
    Ccw,
    Cw,
}

/// The faces that are not drawn.
#[derive(Clone, Copy, Debug, PartialEq, Eq)]
pub enum CullMode {
    Neither,
    Front,
    Back,
}

/// How triangles become fragments. The slope scale and the clamp of the depth
/// bias are whole numbers.
#[derive(Clone, Copy, Debug, PartialEq, Eq)]
pub struct RasterizationStateDescriptor {
    pub front_face: FrontFace,
    pub cull_mode: CullMode,
    pub depth_bias: i32,
    pub depth_bias_slope_scale: i32,
    pub depth_bias_clamp: i32,
}

/// How vertices are put together into primitives.
#[derive(Clone, Copy, Debug, PartialEq, Eq)]
pub enum PrimitiveTopology {
    PointList,
    LineList,
    LineStrip,
    TriangleList,
    TriangleStrip,
}

/// A factor of the blend equation.
#[derive(Clone, Copy, Debug, PartialEq, Eq)]
pub enum BlendFactor {
    Zero,
    One,
    SrcColor,
    OneMinusSrcColor,
    SrcAlpha,
    OneMinusSrcAlpha,
    DstColor,
    OneMinusDstColor,
    DstAlpha,
    OneMinusDstAlpha,
}

/// The operation of the blend equation.
#[derive(Clone, Copy, Debug, PartialEq, Eq)]
pub enum BlendOperation {
    Add,
    Subtract,
    ReverseSubtract,
    Min,
    Max,
}

/// How a new colour is combined with the one already in the target.
#[derive(Clone, Copy, Debug, PartialEq, Eq)]
pub struct BlendDescriptor {
    pub src_factor: BlendFactor,
    pub dst_factor: BlendFactor,
    pub operation: BlendOperation,
}

impl BlendDescriptor {
    /// The blend that overwrites the target with the new colour.
    pub open spec fn replace() -> BlendDescriptor {
        BlendDescriptor {
            src_factor: BlendFactor::One,
            dst_factor: BlendFactor::Zero,
            operation: BlendOperation::Add,
        }
    }
}

/// The colour channels that are written.
#[derive(Clone, Copy, Debug, PartialEq, Eq)]
pub struct ColorWrite {
    pub red: bool,
    pub green: bool,
    pub blue: bool,
    pub alpha: bool,
}

impl ColorWrite {
    /// Every channel.
    pub open spec fn all() -> ColorWrite {
        ColorWrite { red: true, green: true, blue: true, alpha: true }
    }
}

/// One colour target of a pipeline.
#[derive(Clone, Copy, Debug, PartialEq, Eq)]
pub struct ColorStateDescriptor {
    pub format: wgpu::TextureFormat,
    pub alpha_blend: BlendDescriptor,
    pub color_blend: BlendDescriptor,
    pub write_mask: ColorWrite,
}

/// What happens to a stencil value.
#[derive(Clone, Copy, Debug, PartialEq, Eq)]
pub enum StencilOperation {
    Keep,
    Zero,
    Replace,
    Invert,
    IncrementClamp,
    DecrementClamp,
    IncrementWrap,
    DecrementWrap,
}

/// The stencil test of one side of a primitive.
#[derive(Clone, Copy, Debug, PartialEq, Eq)]
pub struct StencilStateFaceDescriptor {
    pub compare: CompareFunction,
    pub fail_op: StencilOperation,
    pub depth_fail_op: StencilOperation,
    pub pass_op: StencilOperation,
}

impl StencilStateFaceDescriptor {
    /// The stencil test that always passes and changes nothing.
    pub open spec fn ignore() -> StencilStateFaceDescriptor {
        StencilStateFaceDescriptor {
            compare: CompareFunction::Always,
            fail_op: StencilOperation::Keep,
            depth_fail_op: StencilOperation::Keep,
            pass_op: StencilOperation::Keep,
        }
    }
}

/// The depth and stencil tests of a pipeline.
#[derive(Clone, Copy, Debug, PartialEq, Eq)]
pub struct DepthStencilStateDescriptor {
    pub format: wgpu::TextureFormat,
    pub depth_write_enabled: bool,
    pub depth_compare: CompareFunction,
    pub stencil_front: StencilStateFaceDescriptor,
    pub stencil_back: StencilStateFaceDescriptor,
    pub stencil_read_mask: u32,
    pub stencil_write_mask: u32,
}

/// The width of an index.
#[derive(Clone, Copy, Debug, PartialEq, Eq)]
pub enum IndexFormat {
    Uint16,
    Uint32,
}

/// A render pipeline, described so that a device can create it.
///
/// The layout of the pipeline is made of the layouts of the first
/// `bind_group_layouts` uniform bind groups of the node, in their order. The
/// vertex stage is the node's vertex shader; there is a fragment stage where
/// `has_fragment_stage` holds, and it is the node's fragment shader.
#[derive(Debug, PartialEq, Eq)]
pub struct RenderPipelineDescriptor {
    pub bind_group_layouts: usize,
    pub has_fragment_stage: bool,
    pub rasterization_state: Option<RasterizationStateDescriptor>,
    pub primitive_topology: PrimitiveTopology,
    pub color_states: Vec<ColorStateDescriptor>,
    pub depth_stencil_state: Option<DepthStencilStateDescriptor>,
    pub index_format: IndexFormat,
    pub vertex_buffers: Vec<VertexBufferDescriptor>,
    pub sample_count: u32,
    pub sample_mask: u32,
    pub alpha_to_coverage_enabled: bool,
}

/// A `RenderPipelineDescriptor` as a mathematical value.
pub struct RenderPipelineDescriptorView {
    pub bind_group_layouts: nat,
    pub has_fragment_stage: bool,
    pub rasterization_state: Option<RasterizationStateDescriptor>,
    pub primitive_topology: PrimitiveTopology,
    pub color_states: Seq<ColorStateDescriptor>,
    pub depth_stencil_state: Option<DepthStencilStateDescriptor>,
    pub index_format: IndexFormat,
    pub vertex_buffers: Seq<VertexBufferDescriptorView>,
    pub sample_count: u32,
    pub sample_mask: u32,
    pub alpha_to_coverage_enabled: bool,
}

impl View for RenderPipelineDescriptor {
    type V = RenderPipelineDescriptorView;

    open spec fn view(&self) -> RenderPipelineDescriptorView {
        RenderPipelineDescriptorView {
            bind_group_layouts: self.bind_group_layouts as nat,
            has_fragment_stage: self.has_fragment_stage,
            rasterization_state: self.rasterization_state,
            primitive_topology: self.primitive_topology,
            color_states: self.color_states@,
            depth_stencil_state: self.depth_stencil_state,
            index_format: self.index_format,
            vertex_buffers: self.vertex_buffers@.map_values(|d: VertexBufferDescriptor| d@),
            sample_count: self.sample_count,
            sample_mask: self.sample_mask,
            alpha_to_coverage_enabled: self.alpha_to_coverage_enabled,
        }
    }
}

/// The pipeline of a render node with the given vertex buffers, number of
/// uniform bind groups and colour and depth formats: counter-clockwise
/// triangles that are never culled, one colour target that is overwritten in
/// every channel, a depth test that keeps the nearer fragment, stencil tests
/// that do nothing, 32-bit indices, and one sample of which every bit counts.
pub open spec fn render_pipeline(
    vertex_buffers: Seq<VertexBufferDescriptorView>,
    bind_groups: nat,
    has_fragment_stage: bool,
    color_format: wgpu::TextureFormat,
    depth_format: wgpu::TextureFormat,
) -> RenderPipelineDescriptorView {
    RenderPipelineDescriptorView {
        bind_group_layouts: bind_groups,
        has_fragment_stage,
        rasterization_state: Some(
            RasterizationStateDescriptor {
                front_face: FrontFace::Ccw,
                cull_mode: CullMode::Neither,
                depth_bias: 0,
                depth_bias_slope_scale: 0,
                depth_bias_clamp: 0,
            },
        ),
        primitive_topology: PrimitiveTopology::TriangleList,
        color_states: seq![
            ColorStateDescriptor {
                format: color_format,
                alpha_blend: BlendDescriptor::replace(),
                color_blend: BlendDescriptor::replace(),
                write_mask: ColorWrite::all(),
            },
        ],
        depth_stencil_state: Some(
            DepthStencilStateDescriptor {
                format: depth_format,
                depth_write_enabled: true,
                depth_compare: CompareFunction::Less,
                stencil_front: StencilStateFaceDescriptor::ignore(),
                stencil_back: StencilStateFaceDescriptor::ignore(),
                stencil_read_mask: 0,
                stencil_write_mask: 0,
            },
        ),
        index_format: IndexFormat::Uint32,
        vertex_buffers,
        sample_count: 1,
        sample_mask: 0xffff_ffff,
        alpha_to_coverage_enabled: false,
    }
}

} // verus!
