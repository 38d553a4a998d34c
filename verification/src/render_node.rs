//! Render nodes: a pipeline with the shaders, vertex buffers and uniform bind
//! groups it draws with.
//!
//! The shaders and bind groups live on a device and are nothing the node looks
//! into, so the node is generic over them: `S` is the vertex shader, `F` the
//! fragment shader and `U` a uniform bind group.

use crate::pipeline::{
    render_pipeline, BlendDescriptor, BlendFactor, BlendOperation, ColorStateDescriptor,
    ColorWrite, CullMode, DepthStencilStateDescriptor, FrontFace, IndexFormat, PrimitiveTopology,
    RasterizationStateDescriptor, RenderPipelineDescriptor, RenderPipelineDescriptorView,
    StencilOperation, StencilStateFaceDescriptor,
};
use crate::render_error::RenderError;
use crate::textures::CompareFunction;
use crate::vertex_buffer::{
    layouts_of, type_tag, VertexBufferData, VertexBufferDescriptor, VertexBufferDescriptorView,
    VertexBufferList,
};
use std::any::TypeId;
use vstd::prelude::*;

verus! {

/// Collects what a render node is made of.
pub struct RenderNodeBuilder<S, F, U> {
    vertex_buffers: VertexBufferList,
    uniform_bind_groups: Vec<U>,
    vertex_shader: Option<S>,
    fragment_shader: Option<F>,
}

/// A `RenderNodeBuilder` as a mathematical value.
pub struct RenderNodeBuilderView<S, F, U> {
    pub vertex_buffers: Seq<(TypeId, VertexBufferDescriptorView)>,
    pub uniform_bind_groups: Seq<U>,
    pub vertex_shader: Option<S>,
    pub fragment_shader: Option<F>,
}

impl<S, F, U> View for RenderNodeBuilder<S, F, U> {
    type V = RenderNodeBuilderView<S, F, U>;

    closed spec fn view(&self) -> RenderNodeBuilderView<S, F, U> {
        RenderNodeBuilderView {
            vertex_buffers: self.vertex_buffers@,
            uniform_bind_groups: self.uniform_bind_groups@,
            vertex_shader: self.vertex_shader,
            fragment_shader: self.fragment_shader,
        }
    }
}

impl<S, F, U> RenderNodeBuilderView<S, F, U> {
    /// The builder that holds nothing.
    pub open spec fn empty() -> Self {
        RenderNodeBuilderView {
            vertex_buffers: Seq::empty(),
            uniform_bind_groups: Seq::empty(),
            vertex_shader: None,
            fragment_shader: None,
        }
    }

    /// The pipeline that a node built from this builder gets.
    pub open spec fn pipeline(
        self,
        color_format: wgpu::TextureFormat,
        depth_format: wgpu::TextureFormat,
    ) -> RenderPipelineDescriptorView {
        render_pipeline(
            layouts_of(self.vertex_buffers),
            self.uniform_bind_groups.len(),
            self.fragment_shader is Some,
            color_format,
            depth_format,
        )
    }
}

/// A pipeline together with what it draws with.
pub struct RenderNode<S, F, U> {
    vertex_buffers: VertexBufferList,
    uniform_bind_groups: Vec<U>,
    vertex_shader: S,
    fragment_shader: Option<F>,
    pipeline: RenderPipelineDescriptor,
}

/// A `RenderNode` as a mathematical value.
pub struct RenderNodeView<S, F, U> {
    pub vertex_buffers: Seq<(TypeId, VertexBufferDescriptorView)>,
    pub uniform_bind_groups: Seq<U>,
    pub vertex_shader: S,
    pub fragment_shader: Option<F>,
    pub pipeline: RenderPipelineDescriptorView,
}

impl<S, F, U> View for RenderNode<S, F, U> {
    type V = RenderNodeView<S, F, U>;

    closed spec fn view(&self) -> RenderNodeView<S, F, U> {
        RenderNodeView {
            vertex_buffers: self.vertex_buffers@,
            uniform_bind_groups: self.uniform_bind_groups@,
            vertex_shader: self.vertex_shader,
            fragment_shader: self.fragment_shader,
            pipeline: self.pipeline@,
        }
    }
}

impl<S, F, U> RenderNodeView<S, F, U> {
    /// The colour format that the node's pipeline draws to.
    pub open spec fn color_format(self) -> wgpu::TextureFormat {
        self.pipeline.color_states[0].format
    }

    /// The format of the depth buffer that the node's pipeline tests against.
    pub open spec fn depth_format(self) -> wgpu::TextureFormat {
        self.pipeline.depth_stencil_state->0.format
    }

    /// The pipeline of a node is the one that fits what the node holds.
    pub open spec fn wf(self) -> bool {
        self.pipeline == render_pipeline(
            layouts_of(self.vertex_buffers),
            self.uniform_bind_groups.len(),
            self.fragment_shader is Some,
            self.color_format(),
            self.depth_format(),
        )
    }
}

/// One step of a render pass.
#[derive(Clone, Copy, Debug, PartialEq, Eq)]
pub enum RenderCommand {
    /// Make the node's pipeline the current one.
    SetPipeline,
    /// Bind the uniform bind group at position `group` of the node to slot
    /// `index`, without dynamic offsets.
    SetBindGroup { index: u32, group: usize },
}

/// The steps with which a node with `groups` uniform bind groups opens its
/// render pass: it sets its pipeline, then binds every group to the slot of
/// its position, in order.
pub open spec fn run_commands(groups: nat) -> Seq<RenderCommand> {
    seq![RenderCommand::SetPipeline] + Seq::new(
        groups,
        |i: int| RenderCommand::SetBindGroup { index: i as u32, group: i as usize },
    )
}

/// A render pass opens with one step for the pipeline and one for every
/// uniform bind group; as long as the positions fit in 32 bits, the group at
/// position `i` is bound to slot `i`.
pub proof fn lemma_run_commands(groups: nat, i: int)
    requires
        0 <= i < groups,
    ensures
        run_commands(groups).len() == groups + 1,
        run_commands(groups)[0] == RenderCommand::SetPipeline,
        i <= u32::MAX ==> run_commands(groups)[i + 1] == (RenderCommand::SetBindGroup {
            index: i as u32,
            group: i as usize,
        }) && i as u32 == i,
{
}

impl<S, F, U> RenderNodeBuilder<S, F, U> {
    /// Appends a vertex buffer with the given tag and layout.
    pub fn with_vertex_buffer(self, tag: TypeId, descriptor: VertexBufferDescriptor) -> (r: Self)
        ensures
            r@ == (RenderNodeBuilderView {
                vertex_buffers: self@.vertex_buffers.push((tag, descriptor@)),
                ..self@
            }),
    {
        let mut builder = self;
        builder.vertex_buffers.push(tag, descriptor);
        assert(builder.vertex_buffers@ =~= self@.vertex_buffers.push((tag, descriptor@)));
        builder
    }

    /// Appends a vertex buffer for vertices of type `VB`: the layout that
    /// `VB` gives for itself, under the tag of `VB`.
    pub fn add_vertex_buffer<VB: VertexBufferData>(self) -> (r: Self)
        ensures
            r@.vertex_buffers.len() == self@.vertex_buffers.len() + 1,
            r@.vertex_buffers.drop_last() == self@.vertex_buffers,
            r@.vertex_buffers.last().1 == VB::descriptor(),
            r@ == (RenderNodeBuilderView { vertex_buffers: r@.vertex_buffers, ..self@ }),
    {
        let tag = type_tag::<VB>();
        let descriptor = VB::get_descriptor();
        let r = self.with_vertex_buffer(tag, descriptor);
        assert(r@.vertex_buffers.drop_last() =~= self@.vertex_buffers);
        r
    }

    /// Appends a uniform bind group.
    pub fn add_uniform_bind_group(self, uniform: U) -> (r: Self)
        ensures
            r@ == (RenderNodeBuilderView {
                uniform_bind_groups: self@.uniform_bind_groups.push(uniform),
                ..self@
            }),
    {
        let mut builder = self;
        builder.uniform_bind_groups.push(uniform);
        builder
    }

    /// Sets the vertex shader, in place of any set before.
    pub fn set_vertex_shader(self, vertex_shader: S) -> (r: Self)
        ensures
            r@ == (RenderNodeBuilderView { vertex_shader: Some(vertex_shader), ..self@ }),
    {
        let mut builder = self;
        builder.vertex_shader = Some(vertex_shader);
        builder
    }

    /// Sets the fragment shader, in place of any set before.
    pub fn set_fragment_shader(self, fragment_shader: F) -> (r: Self)
        ensures
            r@ == (RenderNodeBuilderView { fragment_shader: Some(fragment_shader), ..self@ }),
    {
        let mut builder = self;
        builder.fragment_shader = Some(fragment_shader);
        builder
    }

    /// Describes the pipeline of the node that this builder would give.
    pub fn construct_pipeline(
        &self,
        color_format: wgpu::TextureFormat,
        depth_format: wgpu::TextureFormat,
    ) -> (pipeline: RenderPipelineDescriptor)
        ensures
            pipeline@ == self@.pipeline(color_format, depth_format),
    {
        let replace = BlendDescriptor {
            src_factor: BlendFactor::One,
            dst_factor: BlendFactor::Zero,
            operation: BlendOperation::Add,
        };
        let ignore = StencilStateFaceDescriptor {
            compare: CompareFunction::Always,
            fail_op: StencilOperation::Keep,
            depth_fail_op: StencilOperation::Keep,
            pass_op: StencilOperation::Keep,
        };
        let mut color_states: Vec<ColorStateDescriptor> = Vec::new();
        color_states.push(
            ColorStateDescriptor {
                format: color_format,
                alpha_blend: replace,
                color_blend: replace,
                write_mask: ColorWrite { red: true, green: true, blue: true, alpha: true },
            },
        );
        let pipeline = RenderPipelineDescriptor {
            bind_group_layouts: self.uniform_bind_groups.len(),
            has_fragment_stage: self.fragment_shader.is_some(),
            rasterization_state: Some(
                RasterizationStateDescriptor {
                    front_face: FrontFace::Ccw,
                    cull_mode: CullMode::Neither,
                    depth_bias: 0,
                    depth_bias_slope_scale: 0,
                    depth_bias_clamp: 0,
                },
            ),
            primitive_topology: PrimitiveTopology::TriangleList,
            color_states,
            depth_stencil_state: Some(
                DepthStencilStateDescriptor {
                    format: depth_format,
                    depth_write_enabled: true,
                    depth_compare: CompareFunction::Less,
                    stencil_front: ignore,
                    stencil_back: ignore,
                    stencil_read_mask: 0,
                    stencil_write_mask: 0,
                },
            ),
            index_format: IndexFormat::Uint32,
            vertex_buffers: self.vertex_buffers.descriptors(),
            sample_count: 1,
            sample_mask: !0u32,
            alpha_to_coverage_enabled: false,
        };
        assert(!0u32 == 0xffff_ffffu32) by (bit_vector);
        assert(pipeline@.color_states =~= self@.pipeline(color_format, depth_format).color_states);
        pipeline
    }

    /// Builds the node. A node needs a vertex shader: without one there is
    /// `MissingVertexShader` and no node. With one, the node holds what the
    /// builder held, and the pipeline for the two formats.
    pub fn build(
        self,
        color_format: wgpu::TextureFormat,
        depth_format: wgpu::TextureFormat,
    ) -> (r: Result<RenderNode<S, F, U>, RenderError>)
        ensures
            self@.vertex_shader is None ==> r == Err::<RenderNode<S, F, U>, RenderError>(
                RenderError::MissingVertexShader,
            ),
            self@.vertex_shader matches Some(vertex_shader) ==> r is Ok && r->Ok_0@ == (
            RenderNodeView {
                vertex_buffers: self@.vertex_buffers,
                uniform_bind_groups: self@.uniform_bind_groups,
                vertex_shader,
                fragment_shader: self@.fragment_shader,
                pipeline: self@.pipeline(color_format, depth_format),
            }) && r->Ok_0@.wf(),
    {
        if self.vertex_shader.is_none() {
            Err(RenderError::MissingVertexShader)
        } else {
            let pipeline = self.construct_pipeline(color_format, depth_format);
            Ok(
                RenderNode {
                    vertex_buffers: self.vertex_buffers,
                    uniform_bind_groups: self.uniform_bind_groups,
                    vertex_shader: self.vertex_shader.unwrap(),
                    fragment_shader: self.fragment_shader,
                    pipeline,
                },
            )
        }
    }
}

impl<S, F, U> Default for RenderNodeBuilder<S, F, U> {
    fn default() -> (builder: Self)
        ensures
            builder@ == RenderNodeBuilderView::<S, F, U>::empty(),
    {
        RenderNode::builder()
    }
}

impl<S, F, U> RenderNode<S, F, U> {
    #[verifier::type_invariant]
    spec fn well_formed(self) -> bool {
        self@.wf()
    }

    /// A builder that holds nothing yet.
    pub fn builder() -> (builder: RenderNodeBuilder<S, F, U>)
        ensures
            builder@ == RenderNodeBuilderView::<S, F, U>::empty(),
    {
        let builder = RenderNodeBuilder {
            vertex_buffers: VertexBufferList::new(),
            uniform_bind_groups: Vec::new(),
            vertex_shader: None,
            fragment_shader: None,
        };
        assert(builder.vertex_buffers@ =~= Seq::empty());
        builder
    }

    /// The uniform bind group that an update at `index` writes to.
    pub fn update(&self, index: usize) -> (group: &U)
        requires
            index < self@.uniform_bind_groups.len(),
        ensures
            *group == self@.uniform_bind_groups[index as int],
    {
        &self.uniform_bind_groups[index]
    }

    /// The vertex buffers, in the order in which they were added.
    pub fn vertex_buffers(&self) -> (list: &VertexBufferList)
        ensures
            list@ == self@.vertex_buffers,
    {
        &self.vertex_buffers
    }

    /// The uniform bind groups, in the order in which they were added.
    pub fn uniform_bind_groups(&self) -> (groups: &Vec<U>)
        ensures
            groups@ == self@.uniform_bind_groups,
    {
        &self.uniform_bind_groups
    }

    /// The vertex shader.
    pub fn vertex_shader(&self) -> (shader: &S)
        ensures
            *shader == self@.vertex_shader,
    {
        &self.vertex_shader
    }

    /// The fragment shader, if the node has one.
    pub fn fragment_shader(&self) -> (shader: &Option<F>)
        ensures
            *shader == self@.fragment_shader,
    {
        &self.fragment_shader
    }

    /// The description of the pipeline, which fits what the node holds.
    pub fn pipeline(&self) -> (pipeline: &RenderPipelineDescriptor)
        ensures
            pipeline@ == self@.pipeline,
            self@.wf(),
    {
        proof {
            use_type_invariant(self);
        }
        &self.pipeline
    }

    /// The steps with which this node opens its render pass.
    pub fn run(&self) -> (commands: Vec<RenderCommand>)
        ensures
            commands@ == run_commands(self@.uniform_bind_groups.len()),
    {
        let mut commands: Vec<RenderCommand> = Vec::new();
        commands.push(RenderCommand::SetPipeline);
        let n = self.uniform_bind_groups.len();
        let mut i: usize = 0;
        while i < n
            invariant
                i <= n,
                commands@ == run_commands(i as nat),
            decreases n - i,
        {
            commands.push(RenderCommand::SetBindGroup { index: i as u32, group: i });
            assert(commands@ =~= run_commands((i + 1) as nat));
            i = i + 1;
        }
        commands
    }
}

} // verus!
