//! Recording of state and draws within a render pass.

use crate::ir::access::{Access, ResourcePart};
use crate::ir::command::{
    mip_part_list, one_part, recorded, require_buffer_usage, require_texture_usage,
    validate_byte_range, Command, CommandEncoder, CommandView, EncoderView,
};
use crate::ir::groups::{validate_groups, DrawScope, GroupAccesses};
use crate::ir::pipeline::{
    DepthState, DrawUniforms, IndexFormat, VertexBufferLayoutView, MAX_VERTEX_BUFFERS,
};
use crate::ir::programmable::{
    BufferAccess, ProgrammablePipelineView, ProgrammableRenderPipelineDesc, TextureAccess,
    MAX_BIND_GROUPS,
};
use crate::ir::render_pass::{RenderPassDesc, RenderPassView};
use crate::ir::resource::{BufferUsage, TextureFormat, TextureUsage};
use crate::ir::shader::ShaderStages;
use crate::ir::table::{
    BindGroupRef, BufferRef, ProgrammableRenderPipelineRef, RenderPipelineRef, ResourceTable,
    SamplerRef, TableView, TextureRef,
};
use crate::ir::types::{Error, PixelRect};
use crate::ir::viewport::Viewport;
use crate::memory::Memory;
use vstd::prelude::*;

verus! {

/// What a render pass renders to and has bound, and the parts of resources that
/// its draws have used.
#[verifier::ext_equal]
pub struct RenderStateView {
    pub desc: RenderPassView,
    pub color_formats: Seq<TextureFormat>,
    pub depth_format: Option<TextureFormat>,
    pub pipeline: Option<RenderPipelineRef>,
    pub programmable_pipeline: Option<ProgrammableRenderPipelineRef>,
    pub bind_groups: Seq<Option<BindGroupRef>>,
    pub vertex_buffers: Seq<Option<(BufferRef, u64)>>,
    pub index_buffer: Option<(BufferRef, u64, IndexFormat)>,
    pub texture: Option<TextureRef>,
    pub sampler: Option<SamplerRef>,
    pub uniforms: Option<DrawUniforms>,
    pub used: Set<ResourcePart>,
}

/// The format of an attached texture.
pub open spec fn attachment_format(table: TableView, target: TextureRef) -> TextureFormat {
    match table.texture(target) {
        Ok(desc) => desc@.format,
        Err(_) => TextureFormat::Bgra8Unorm,
    }
}

/// A draw of `count` vertices or indices from `first`.
pub struct DrawShape {
    /// Number of vertices, or of indices.
    pub count: u32,
    /// First vertex, or first index.
    pub first: u32,
    /// Whether vertices are selected by indices.
    pub indexed: bool,
}

impl DrawShape {
    /// Whether the count makes whole triangles.
    pub open spec fn whole_triangles(self) -> bool {
        self.count != 0 && self.count % 3 == 0
    }

    /// First vertex or index past the draw.
    pub open spec fn end(self) -> int {
        self.first + self.count
    }
}

/// The state after recording a command that accesses nothing.
pub open spec fn with_state(
    encoder: EncoderView,
    command: CommandView,
    state: RenderStateView,
) -> Result<(EncoderView, RenderStateView), Error> {
    match encoder.record_state(command) {
        Err(error) => Err(error),
        Ok(next) => Ok((next, state)),
    }
}

impl RenderStateView {
    /// A pass that has bound and used nothing.
    pub open spec fn initial(table: TableView, desc: RenderPassView) -> Self {
        RenderStateView {
            desc,
            color_formats: Seq::new(
                desc.colors.len(),
                |i: int| attachment_format(table, desc.colors[i].target),
            ),
            depth_format: match desc.depth {
                Some(depth) => Some(attachment_format(table, depth.target)),
                None => None,
            },
            pipeline: None,
            programmable_pipeline: None,
            bind_groups: seq![None, None, None, None],
            vertex_buffers: seq![None, None, None, None, None, None, None, None],
            index_buffer: None,
            texture: None,
            sampler: None,
            uniforms: None,
            used: Set::empty(),
        }
    }

    /// Whether the depth contents stay unchanged.
    pub open spec fn read_only_depth(self) -> bool {
        self.desc.depth is Some && self.desc.depth->0.read_only
    }

    /// Whether a pipeline's depth state suits the pass: none, or of the attached
    /// format, and without writes where the depth is read-only.
    pub open spec fn depth_matches(self, depth: Option<DepthState>) -> bool {
        match depth {
            None => true,
            Some(depth) => self.depth_format == Some(depth.format) && !(self.read_only_depth()
                && depth.write_enabled),
        }
    }

    /// Bind a fixed pipeline.
    pub open spec fn set_pipeline(
        self,
        encoder: EncoderView,
        pipeline: RenderPipelineRef,
    ) -> Result<
        (EncoderView, Self),
        Error,
    > {
        match encoder.resources.render_pipeline(pipeline) {
            Err(error) => Err(error),
            Ok(desc) => if self.color_formats != seq![desc.target_format] || !self.depth_matches(
                desc.depth,
            ) {
                Err(Error::PipelineTargetMismatch)
            } else {
                with_state(
                    encoder,
                    CommandView::SetPipeline(pipeline),
                    RenderStateView {
                        pipeline: Some(pipeline),
                        programmable_pipeline: None,
                        ..self
                    },
                )
            },
        }
    }

    /// Whether a pipeline's outputs have the formats of the color attachments.
    pub open spec fn targets_match(self, desc: ProgrammablePipelineView) -> bool {
        &&& desc.targets.len() == self.color_formats.len()
        &&& forall|i: int|
            0 <= i < desc.targets.len() ==> (#[trigger] desc.targets[i]).format
                == self.color_formats[i]
    }

    /// Bind a programmable pipeline.
    pub open spec fn set_programmable_pipeline(
        self,
        encoder: EncoderView,
        pipeline: ProgrammableRenderPipelineRef,
    ) -> Result<(EncoderView, Self), Error> {
        match encoder.resources.programmable_render_pipeline(pipeline) {
            Err(error) => Err(error),
            Ok(desc) => if !self.targets_match(desc) || !self.depth_matches(desc.depth) {
                Err(Error::PipelineTargetMismatch)
            } else {
                with_state(
                    encoder,
                    CommandView::SetProgrammablePipeline(pipeline),
                    RenderStateView {
                        pipeline: None,
                        programmable_pipeline: Some(pipeline),
                        ..self
                    },
                )
            },
        }
    }

    /// Bind a group.
    pub open spec fn set_bind_group(
        self,
        encoder: EncoderView,
        index: u32,
        bind_group: BindGroupRef,
    ) -> Result<(EncoderView, Self), Error> {
        if index >= MAX_BIND_GROUPS {
            Err(Error::OutOfBounds)
        } else {
            match encoder.resources.bind_group(bind_group) {
                Err(error) => Err(error),
                Ok(_) => with_state(
                    encoder,
                    CommandView::SetBindGroup { index, bind_group },
                    RenderStateView {
                        bind_groups: self.bind_groups.update(index as int, Some(bind_group)),
                        ..self
                    },
                ),
            }
        }
    }

    /// Update push constants.
    pub open spec fn set_push_constants(
        self,
        encoder: EncoderView,
        stages: ShaderStages,
        offset: u32,
        data: Seq<u8>,
    ) -> Result<(EncoderView, Self), Error> {
        match self.programmable_pipeline {
            None => Err(Error::PipelineNotSet),
            Some(pipeline) => match encoder.resources.programmable_render_pipeline(pipeline) {
                Err(error) => Err(error),
                Ok(desc) => match desc.layout.check_push_constants(stages, offset, data.len()) {
                    Err(error) => Err(error),
                    Ok(_) => with_state(
                        encoder,
                        CommandView::SetPushConstants { stages, offset, data },
                        self,
                    ),
                },
            },
        }
    }

    /// Bind a vertex buffer to a slot with a command.
    pub open spec fn bind_vertex_buffer(
        self,
        encoder: EncoderView,
        slot: u32,
        buffer: BufferRef,
        offset: u64,
        command: CommandView,
    ) -> Result<(EncoderView, Self), Error> {
        if slot >= MAX_VERTEX_BUFFERS {
            Err(Error::OutOfBounds)
        } else {
            match encoder.resources.buffer(buffer) {
                Err(error) => Err(error),
                Ok(desc) => if !desc@.usage.allows(BufferUsage::VERTEX_BIT) {
                    Err(Error::InvalidUsage)
                } else if offset > desc@.size {
                    Err(Error::OutOfBounds)
                } else {
                    with_state(
                        encoder,
                        command,
                        RenderStateView {
                            vertex_buffers: self.vertex_buffers.update(
                                slot as int,
                                Some((buffer, offset)),
                            ),
                            ..self
                        },
                    )
                },
            }
        }
    }

    /// Bind the index buffer.
    pub open spec fn set_index_buffer(
        self,
        encoder: EncoderView,
        buffer: BufferRef,
        offset: u64,
        format: IndexFormat,
    ) -> Result<(EncoderView, Self), Error> {
        match encoder.resources.buffer(buffer) {
            Err(error) => Err(error),
            Ok(desc) => if !desc@.usage.allows(BufferUsage::INDEX_BIT) {
                Err(Error::InvalidUsage)
            } else if offset > desc@.size {
                Err(Error::OutOfBounds)
            } else if offset % format.byte_size() != 0 {
                Err(Error::InvalidValue)
            } else {
                with_state(
                    encoder,
                    CommandView::SetIndexBuffer { buffer, offset, format },
                    RenderStateView { index_buffer: Some((buffer, offset, format)), ..self },
                )
            },
        }
    }

    /// Whether sampling a texture would read what the pass writes.
    pub open spec fn feeds_back(self, texture: TextureRef) -> bool {
        self.desc.has_color_target(texture) || (self.desc.depth is Some
            && !self.desc.depth->0.read_only && self.desc.depth->0.target@.index
            == texture@.index)
    }

    /// Bind a sampled texture.
    pub open spec fn set_texture(self, encoder: EncoderView, texture: TextureRef) -> Result<
        (EncoderView, Self),
        Error,
    > {
        match encoder.resources.texture(texture) {
            Err(error) => Err(error),
            Ok(desc) => if !desc@.usage.allows(TextureUsage::SAMPLED_BIT) {
                Err(Error::InvalidUsage)
            } else if self.feeds_back(texture) {
                Err(Error::AttachmentFeedback)
            } else {
                with_state(
                    encoder,
                    CommandView::SetTexture(texture),
                    RenderStateView { texture: Some(texture), ..self },
                )
            },
        }
    }

    /// Bind a sampler.
    pub open spec fn set_sampler(self, encoder: EncoderView, sampler: SamplerRef) -> Result<
        (EncoderView, Self),
        Error,
    > {
        match encoder.resources.sampler(sampler) {
            Err(error) => Err(error),
            Ok(_) => with_state(
                encoder,
                CommandView::SetSampler(sampler),
                RenderStateView { sampler: Some(sampler), ..self },
            ),
        }
    }

    /// Set the uniforms of fixed pipelines.
    pub open spec fn set_uniforms(self, encoder: EncoderView, uniforms: DrawUniforms) -> Result<
        (EncoderView, Self),
        Error,
    > {
        with_state(
            encoder,
            CommandView::SetUniforms(uniforms),
            RenderStateView { uniforms: Some(uniforms), ..self },
        )
    }

    /// Set or reset the scissor rectangle.
    pub open spec fn set_scissor(self, encoder: EncoderView, scissor: Option<PixelRect>) -> Result<
        (EncoderView, Self),
        Error,
    > {
        if scissor is Some && !scissor->0@.inside(self.desc.area@) {
            Err(Error::OutOfBounds)
        } else {
            with_state(encoder, CommandView::SetScissor(scissor), self)
        }
    }

    /// Set the viewport.
    pub open spec fn set_viewport(self, encoder: EncoderView, viewport: Viewport) -> Result<
        (EncoderView, Self),
        Error,
    > {
        match encoder.resources.texture(self.desc.colors[0].target) {
            Err(error) => Err(error),
            Ok(desc) => if !viewport@.within(desc@.extent) {
                Err(Error::OutOfBounds)
            } else {
                with_state(encoder, CommandView::SetViewport(viewport), self)
            },
        }
    }

    /// The outcome of fetching from a vertex slot: `bytes` from the bound offset,
    /// which is a multiple of `alignment`.
    pub open spec fn check_vertex_slot(
        self,
        encoder: EncoderView,
        slot: int,
        alignment: int,
        bytes: int,
    ) -> Result<(), Error> {
        match self.vertex_buffers[slot] {
            None => Err(Error::VertexBufferNotSet),
            Some((buffer, offset)) => match encoder.resources.buffer(buffer) {
                Err(error) => Err(error),
                Ok(desc) => match encoder.access.check(
                    seq![ResourcePart::Buffer(buffer.id())],
                    Access::Buffer(BufferAccess::Vertex),
                ) {
                    Err(error) => Err(error),
                    Ok(_) => if offset as int % alignment != 0 {
                        Err(Error::InvalidValue)
                    } else if bytes > u64::MAX {
                        Err(Error::Overflow)
                    } else {
                        crate::ir::command::check_byte_range(
                            offset as int,
                            bytes,
                            desc@.size as int,
                        )
                    },
                },
            },
        }
    }

    /// Bytes that a draw fetches from a vertex slot: all vertices up to the last,
    /// or one vertex where indices select them.
    pub open spec fn vertex_bytes(shape: DrawShape, stride: u32) -> int {
        if shape.indexed {
            stride as int
        } else {
            shape.end() * stride
        }
    }

    /// The first failure among the first `count` vertex slots of a layout.
    pub open spec fn check_vertex_slots(
        self,
        encoder: EncoderView,
        buffers: Seq<VertexBufferLayoutView>,
        shape: DrawShape,
        count: nat,
    ) -> Result<(), Error>
        decreases count,
    {
        if count == 0 {
            Ok(())
        } else {
            crate::ir::table::first_failure(
                self.check_vertex_slots(encoder, buffers, shape, (count - 1) as nat),
                self.check_vertex_slot(
                    encoder,
                    count - 1,
                    4,
                    Self::vertex_bytes(shape, buffers[count - 1].stride),
                ),
            )
        }
    }

    /// The outcome of fetching indices, where a draw is indexed.
    pub open spec fn check_indices(self, encoder: EncoderView, shape: DrawShape) -> Result<
        (),
        Error,
    > {
        if !shape.indexed {
            Ok(())
        } else {
            match self.index_buffer {
                None => Err(Error::IndexBufferNotSet),
                Some((buffer, offset, format)) => match encoder.resources.buffer(buffer) {
                    Err(error) => Err(error),
                    Ok(desc) => match encoder.access.check(
                        seq![ResourcePart::Buffer(buffer.id())],
                        Access::Buffer(BufferAccess::Index),
                    ) {
                        Err(error) => Err(error),
                        Ok(_) => crate::ir::command::check_byte_range(
                            offset as int,
                            shape.end() * format.byte_size(),
                            desc@.size as int,
                        ),
                    },
                },
            }
        }
    }

    /// Textures that a draw must not sample.
    pub open spec fn unsampled_attachments(self) -> Seq<TextureRef> {
        let colors = Seq::new(self.desc.colors.len(), |i: int| self.desc.colors[i].target);
        match self.desc.depth {
            Some(depth) => if depth.read_only {
                colors
            } else {
                colors.push(depth.target)
            },
            None => colors,
        }
    }

    /// Buffers that a draw fetches from: the first `slots` vertex slots, and the
    /// index buffer where it is indexed.
    pub open spec fn fetched_buffers(self, slots: nat, indexed: bool) -> Seq<BufferRef> {
        let vertices = Seq::new(slots, |i: int| (self.vertex_buffers[i]->0).0);
        if indexed {
            vertices.push((self.index_buffer->0).0)
        } else {
            vertices
        }
    }

    /// Draw with the bound programmable pipeline.
    pub open spec fn draw_programmable(
        self,
        encoder: EncoderView,
        pipeline: ProgrammableRenderPipelineRef,
        shape: DrawShape,
        command: CommandView,
    ) -> Result<(EncoderView, Self), Error> {
        match encoder.resources.programmable_render_pipeline(pipeline) {
            Err(error) => Err(error),
            Ok(desc) => if shape.end() > u32::MAX {
                Err(Error::Overflow)
            } else {
                let slots = desc.vertex_buffers.len();
                match crate::ir::table::first_failure(
                    self.check_vertex_slots(encoder, desc.vertex_buffers, shape, slots),
                    self.check_indices(encoder, shape),
                ) {
                    Err(error) => Err(error),
                    Ok(_) => match crate::ir::groups::group_accesses(
                        encoder,
                        desc.layout.bind_groups,
                        self.bind_groups,
                        (DrawScope {
                            attachments: self.unsampled_attachments(),
                            fetched: self.fetched_buffers(slots, shape.indexed),
                        }),
                    ) {
                        Err(error) => Err(error),
                        Ok(accesses) => if !accesses.writes.disjoint(self.used) {
                            Err(Error::ResourceAccessConflict)
                        } else {
                            match encoder.record(command, accesses.used, accesses.writes) {
                                Err(error) => Err(error),
                                Ok(next) => Ok(
                                    (
                                        next,
                                        RenderStateView {
                                            used: self.used.union(accesses.used),
                                            ..self
                                        },
                                    ),
                                ),
                            }
                        },
                    },
                }
            },
        }
    }

    /// The mip levels that a fixed draw samples.
    pub open spec fn sampled_parts(self, table: TableView) -> Seq<ResourcePart> {
        match self.texture {
            None => Seq::empty(),
            Some(texture) => match table.texture(texture) {
                Ok(desc) => crate::ir::access::mip_parts(
                    texture.id(),
                    0,
                    desc@.mip_level_count as int,
                ),
                Err(_) => Seq::empty(),
            },
        }
    }

    /// The outcome of sampling in a fixed draw.
    pub open spec fn check_sampling(self, encoder: EncoderView, textured: bool) -> Result<
        (),
        Error,
    > {
        if !textured {
            Ok(())
        } else if self.texture is None || self.sampler is None {
            Err(Error::TextureBindingNotSet)
        } else {
            encoder.access.check(
                self.sampled_parts(encoder.resources),
                Access::Texture(TextureAccess::Sampled),
            )
        }
    }

    /// The parts that a fixed draw uses.
    pub open spec fn fixed_parts(self, table: TableView, textured: bool, indexed: bool) -> Seq<
        ResourcePart,
    > {
        let sampled = if textured {
            self.sampled_parts(table)
        } else {
            Seq::empty()
        };
        let vertices = sampled.push(ResourcePart::Buffer((self.vertex_buffers[0]->0).0.id()));
        if indexed {
            vertices.push(ResourcePart::Buffer((self.index_buffer->0).0.id()))
        } else {
            vertices
        }
    }

    /// Draw with the bound fixed pipeline.
    pub open spec fn draw_fixed(
        self,
        encoder: EncoderView,
        shape: DrawShape,
        command: CommandView,
    ) -> Result<(EncoderView, Self), Error> {
        match self.pipeline {
            None => Err(Error::PipelineNotSet),
            Some(pipeline) => match encoder.resources.render_pipeline(pipeline) {
                Err(error) => Err(error),
                Ok(desc) => if self.uniforms is None {
                    Err(Error::UniformsNotSet)
                } else {
                    let textured = desc.fragment.is_textured();
                    let stride = desc.vertex_buffer.stride;
                    match crate::ir::table::first_failure(
                        self.check_sampling(encoder, textured),
                        crate::ir::table::first_failure(
                            self.check_vertex_slot(
                                encoder,
                                0,
                                stride as int,
                                Self::vertex_bytes(shape, stride),
                            ),
                            self.check_indices(encoder, shape),
                        ),
                    ) {
                        Err(error) => Err(error),
                        Ok(_) => {
                            let used = self.fixed_parts(
                                encoder.resources,
                                textured,
                                shape.indexed,
                            ).to_set();
                            match encoder.record(command, used, Set::empty()) {
                                Err(error) => Err(error),
                                Ok(next) => Ok(
                                    (
                                        next,
                                        RenderStateView { used: self.used.union(used), ..self },
                                    ),
                                ),
                            }
                        },
                    }
                },
            },
        }
    }

    /// Draw with the bound pipeline.
    pub open spec fn draw(self, encoder: EncoderView, shape: DrawShape, command: CommandView)
        -> Result<(EncoderView, Self), Error> {
        if !shape.whole_triangles() {
            Err(Error::InvalidValue)
        } else {
            match self.programmable_pipeline {
                Some(pipeline) => self.draw_programmable(encoder, pipeline, shape, command),
                None => self.draw_fixed(encoder, shape, command),
            }
        }
    }

    /// Draw some instances with the bound pipeline.
    pub open spec fn draw_instances(
        self,
        encoder: EncoderView,
        shape: DrawShape,
        instance_count: u32,
        first_instance: u32,
        command: CommandView,
    ) -> Result<(EncoderView, Self), Error> {
        if instance_count == 0 {
            Err(Error::InvalidValue)
        } else if first_instance + instance_count > u32::MAX {
            Err(Error::Overflow)
        } else {
            self.draw(encoder, shape, command)
        }
    }
}

/// What a render pass renders to and has bound, and the parts of resources that
/// its draws have used.
pub struct RenderPassState {
    desc: RenderPassDesc,
    color_formats: Vec<TextureFormat>,
    depth_format: Option<TextureFormat>,
    pipeline: Option<RenderPipelineRef>,
    programmable_pipeline: Option<ProgrammableRenderPipelineRef>,
    bind_groups: [Option<BindGroupRef>; 4],
    vertex_buffers: [Option<(BufferRef, u64)>; 8],
    index_buffer: Option<(BufferRef, u64, IndexFormat)>,
    texture: Option<TextureRef>,
    sampler: Option<SamplerRef>,
    uniforms: Option<DrawUniforms>,
    used: Vec<ResourcePart>,
}

impl View for RenderPassState {
    type V = RenderStateView;

    closed spec fn view(&self) -> RenderStateView {
        RenderStateView {
            desc: self.desc@,
            color_formats: self.color_formats@,
            depth_format: self.depth_format,
            pipeline: self.pipeline,
            programmable_pipeline: self.programmable_pipeline,
            bind_groups: self.bind_groups@,
            vertex_buffers: self.vertex_buffers@,
            index_buffer: self.index_buffer,
            texture: self.texture,
            sampler: self.sampler,
            uniforms: self.uniforms,
            used: self.used@.to_set(),
        }
    }
}

/// Return the format of an attached texture.
fn format_of(resources: &ResourceTable, target: TextureRef) -> (r: TextureFormat)
    ensures
        r == attachment_format(resources@, target),
{
    match resources.texture(target) {
        Ok(desc) => desc.format(),
        Err(_) => TextureFormat::Bgra8Unorm,
    }
}

/// Parts that were used, as a set, once more parts were.
proof fn lemma_set_of_concat(left: Seq<ResourcePart>, right: Seq<ResourcePart>)
    ensures
        (left + right).to_set() == left.to_set().union(right.to_set()),
{
    let both = left + right;
    assert forall|part: ResourcePart| both.to_set().contains(part) == left.to_set().union(
        right.to_set(),
    ).contains(part) by {
        if left.contains(part) {
            let i = choose|i: int| 0 <= i < left.len() && left[i] == part;
            assert(both[i] == part);
        }
        if right.contains(part) {
            let i = choose|i: int| 0 <= i < right.len() && right[i] == part;
            assert(both[left.len() + i] == part);
        }
        if both.contains(part) {
            let i = choose|i: int| 0 <= i < both.len() && both[i] == part;
            if i < left.len() {
                assert(left[i] == part);
            } else {
                assert(right[i - left.len()] == part);
            }
        }
    }
    assert(both.to_set() =~= left.to_set().union(right.to_set()));
}

impl RenderPassState {
    /// A pass that has bound and used nothing.
    pub(crate) fn new(resources: &ResourceTable, desc: RenderPassDesc) -> (r: Self)
        ensures
            r@ == RenderStateView::initial(resources@, desc@),
    {
        let colors = desc.color_attachments();
        let mut color_formats: Vec<TextureFormat> = Vec::new();
        let mut i: usize = 0;
        while i < colors.len()
            invariant
                i <= colors@.len(),
                colors@ == desc@.colors,
                color_formats@.len() == i,
                forall|k: int|
                    0 <= k < i ==> #[trigger] color_formats@[k] == attachment_format(
                        resources@,
                        desc@.colors[k].target,
                    ),
            decreases colors@.len() - i,
        {
            color_formats.push(format_of(resources, colors[i].target));
            i = i + 1;
        }
        let depth_format = match desc.depth_attachment() {
            Some(depth) => Some(format_of(resources, depth.target)),
            None => None,
        };
        let state = Self {
            desc,
            color_formats,
            depth_format,
            pipeline: None,
            programmable_pipeline: None,
            bind_groups: [None, None, None, None],
            vertex_buffers: [None, None, None, None, None, None, None, None],
            index_buffer: None,
            texture: None,
            sampler: None,
            uniforms: None,
            used: Vec::new(),
        };
        assert(state@ =~= RenderStateView::initial(resources@, desc@));
        state
    }

    /// Return whether a pipeline's depth state suits the pass.
    fn depth_matches(&self, depth: Option<DepthState>) -> (r: bool)
        ensures
            r == self@.depth_matches(depth),
    {
        match depth {
            None => true,
            Some(depth) => {
                let read_only: bool = match self.desc.depth_attachment() {
                    Some(attachment) => attachment.read_only,
                    None => false,
                };
                match self.depth_format {
                    Some(format) => format == depth.format && !(read_only && depth.write_enabled),
                    None => false,
                }
            },
        }
    }

    /// Return whether a pipeline's outputs have the formats of the color attachments.
    fn targets_match(&self, desc: &ProgrammableRenderPipelineDesc) -> (r: bool)
        ensures
            r == self@.targets_match(desc@),
    {
        let targets = desc.color_targets();
        assert(desc@.targets.len() == targets@.len());
        if targets.len() != self.color_formats.len() {
            return false;
        }
        let mut i: usize = 0;
        while i < targets.len()
            invariant
                i <= targets@.len(),
                targets@.len() == self.color_formats@.len(),
                desc@.targets == crate::ir::programmable::target_views(targets@),
                self@.color_formats == self.color_formats@,
                forall|k: int|
                    0 <= k < i ==> (#[trigger] desc@.targets[k]).format == self@.color_formats[k],
            decreases targets@.len() - i,
        {
            if targets[i].format() != self.color_formats[i] {
                assert(desc@.targets[i as int].format != self@.color_formats[i as int]);
                return false;
            }
            i = i + 1;
        }
        true
    }

    /// Return whether sampling a texture would read what the pass writes.
    fn feeds_back(&self, texture: TextureRef) -> (r: bool)
        ensures
            r == self@.feeds_back(texture),
    {
        if self.desc.attaches_color(texture) {
            return true;
        }
        match self.desc.depth_attachment() {
            Some(depth) => !depth.read_only && depth.target.slot() == texture.slot(),
            None => false,
        }
    }

    /// Return the textures that a draw must not sample.
    fn unsampled_attachments(&self) -> (r: Vec<TextureRef>)
        ensures
            r@ == self@.unsampled_attachments(),
    {
        let colors = self.desc.color_attachments();
        let mut result: Vec<TextureRef> = Vec::new();
        let mut i: usize = 0;
        while i < colors.len()
            invariant
                i <= colors@.len(),
                colors@ == self@.desc.colors,
                result@.len() == i,
                forall|k: int| 0 <= k < i ==> #[trigger] result@[k] == colors@[k].target,
            decreases colors@.len() - i,
        {
            result.push(colors[i].target);
            i = i + 1;
        }
        match self.desc.depth_attachment() {
            Some(depth) => {
                if !depth.read_only {
                    result.push(depth.target);
                }
            },
            None => {},
        }
        assert(result@ =~= self@.unsampled_attachments());
        result
    }

    /// Check a fetch from a vertex slot.
    fn validate_vertex_slot(
        &self,
        encoder: &CommandEncoder<'_, '_>,
        slot: usize,
        alignment: u32,
        stride: u32,
        vertices: u64,
    ) -> (r: Result<(), Error>)
        requires
            slot < MAX_VERTEX_BUFFERS,
            alignment > 0,
        ensures
            r == self@.check_vertex_slot(
                encoder@,
                slot as int,
                alignment as int,
                vertices * stride,
            ),
    {
        let (buffer, offset): (BufferRef, u64) = match self.vertex_buffers[slot] {
            Some((buffer, offset)) => (buffer, offset),
            None => return Err(Error::VertexBufferNotSet),
        };
        let desc = match encoder.resources().buffer(buffer) {
            Ok(desc) => desc,
            Err(error) => return Err(error),
        };
        let part = one_part(ResourcePart::Buffer(buffer.id()));
        match encoder.check_access(&part, Access::Buffer(BufferAccess::Vertex)) {
            Ok(()) => {},
            Err(error) => return Err(error),
        }
        if offset % (alignment as u64) != 0 {
            return Err(Error::InvalidValue);
        }
        let bytes: u64 = match vertices.checked_mul(stride as u64) {
            Some(bytes) => bytes,
            None => return Err(Error::Overflow),
        };
        validate_byte_range(offset, bytes, desc.size())
    }

    /// Check the fetch of indices, where a draw is indexed.
    fn validate_indices(&self, encoder: &CommandEncoder<'_, '_>, shape: &DrawShape) -> (r: Result<
        (),
        Error,
    >)
        ensures
            r == self@.check_indices(encoder@, *shape),
    {
        if !shape.indexed {
            return Ok(());
        }
        let (buffer, offset, format): (BufferRef, u64, IndexFormat) = match self.index_buffer {
            Some((buffer, offset, format)) => (buffer, offset, format),
            None => return Err(Error::IndexBufferNotSet),
        };
        let desc = match encoder.resources().buffer(buffer) {
            Ok(desc) => desc,
            Err(error) => return Err(error),
        };
        let part = one_part(ResourcePart::Buffer(buffer.id()));
        match encoder.check_access(&part, Access::Buffer(BufferAccess::Index)) {
            Ok(()) => {},
            Err(error) => return Err(error),
        }
        let indices: u64 = shape.first as u64 + shape.count as u64;
        let size: u64 = format.byte_size();
        assert(indices * size <= 0x2_0000_0000 * 4) by (nonlinear_arith)
            requires
                indices <= 0x2_0000_0000,
                size <= 4,
        ;
        validate_byte_range(offset, indices * size, desc.size())
    }

    /// Return the number of vertices that a draw fetches from each slot.
    fn fetched_vertices(shape: &DrawShape) -> (r: u64)
        ensures
            forall|stride: u32|
                r * stride == #[trigger] RenderStateView::vertex_bytes(*shape, stride),
    {
        if shape.indexed {
            1
        } else {
            shape.first as u64 + shape.count as u64
        }
    }

    /// Check the vertex slots of a programmable pipeline.
    fn validate_vertex_slots(
        &self,
        encoder: &CommandEncoder<'_, '_>,
        desc: &ProgrammableRenderPipelineDesc,
        shape: &DrawShape,
    ) -> (r: Result<(), Error>)
        ensures
            r == self@.check_vertex_slots(
                encoder@,
                desc@.vertex_buffers,
                *shape,
                desc@.vertex_buffers.len(),
            ),
    {
        let layouts = desc.vertex_buffers();
        assert(layouts@.len() == desc@.vertex_buffers.len());
        let vertices: u64 = Self::fetched_vertices(shape);
        let mut slot: usize = 0;
        while slot < layouts.len()
            invariant
                slot <= layouts@.len() <= MAX_VERTEX_BUFFERS,
                desc@.vertex_buffers == crate::ir::programmable::vertex_buffer_views(layouts@),
                forall|stride: u32|
                    vertices * stride == #[trigger] RenderStateView::vertex_bytes(*shape, stride),
                self@.check_vertex_slots(encoder@, desc@.vertex_buffers, *shape, slot as nat)
                    == Ok::<(), Error>(()),
            decreases layouts@.len() - slot,
        {
            let stride: u32 = layouts[slot].stride();
            assert(stride == desc@.vertex_buffers[slot as int].stride);
            assert(vertices * stride == RenderStateView::vertex_bytes(*shape, stride));
            match self.validate_vertex_slot(encoder, slot, 4, stride, vertices) {
                Ok(()) => {},
                Err(error) => {
                    proof {
                        lemma_slot_failure_persists(
                            self@,
                            encoder@,
                            desc@.vertex_buffers,
                            *shape,
                            (slot + 1) as nat,
                        );
                    }
                    return Err(error);
                },
            }
            slot = slot + 1;
        }
        Ok(())
    }

    /// Return the buffers that a draw fetches from.
    fn fetched_buffers(&self, slots: usize, indexed: bool) -> (r: Vec<BufferRef>)
        requires
            slots <= MAX_VERTEX_BUFFERS,
            forall|i: int| 0 <= i < slots ==> (#[trigger] self@.vertex_buffers[i]) is Some,
            indexed ==> self@.index_buffer is Some,
        ensures
            r@ == self@.fetched_buffers(slots as nat, indexed),
    {
        let mut result: Vec<BufferRef> = Vec::new();
        let mut slot: usize = 0;
        while slot < slots
            invariant
                slot <= slots <= MAX_VERTEX_BUFFERS,
                self@.vertex_buffers == self.vertex_buffers@,
                forall|i: int| 0 <= i < slots ==> (#[trigger] self@.vertex_buffers[i]) is Some,
                result@.len() == slot,
                forall|k: int|
                    0 <= k < slot ==> #[trigger] result@[k] == (self@.vertex_buffers[k]->0).0,
            decreases slots - slot,
        {
            assert(self@.vertex_buffers[slot as int] is Some);
            match self.vertex_buffers[slot] {
                Some((buffer, _)) => result.push(buffer),
                None => {},
            }
            slot = slot + 1;
        }
        if indexed {
            match self.index_buffer {
                Some((buffer, _, _)) => result.push(buffer),
                None => {},
            }
        }
        assert(result@ =~= self@.fetched_buffers(slots as nat, indexed));
        result
    }

    /// Return whether draws have used a part that another draw would write.
    fn writes_used(&self, writes: &Vec<ResourcePart>) -> (r: bool)
        ensures
            r == !writes@.to_set().disjoint(self@.used),
    {
        let mut i: usize = 0;
        while i < writes.len()
            invariant
                i <= writes@.len(),
                self@.used == self.used@.to_set(),
                forall|k: int| 0 <= k < i ==> !self@.used.contains(#[trigger] writes@[k]),
            decreases writes@.len() - i,
        {
            if crate::ir::access::contains_part(&self.used, writes[i]) {
                proof {
                    let part = writes@[i as int];
                    assert(writes@.contains(part));
                    assert(writes@.to_set().contains(part) && self@.used.contains(part));
                }
                return true;
            }
            i = i + 1;
        }
        assert(writes@.to_set().disjoint(self@.used)) by {
            assert forall|part: ResourcePart| writes@.to_set().contains(part) implies !(
            #[trigger] self@.used.contains(part)) by {
                assert(writes@.contains(part));
                let k = choose|k: int| 0 <= k < writes@.len() && writes@[k] == part;
                assert(!self@.used.contains(writes@[k]));
            }
        }
        false
    }

    /// Note that a draw used parts, for which room was reserved.
    fn note_used(&mut self, parts: &Vec<ResourcePart>)
        ensures
            final(self)@ == (RenderStateView {
                used: old(self)@.used.union(parts@.to_set()),
                ..old(self)@
            }),
    {
        let ghost before = self@;
        let ghost list = self.used@;
        let mut i: usize = 0;
        assert(list + parts@.take(0) =~= list);
        while i < parts.len()
            invariant
                i <= parts@.len(),
                self.used@ == list + parts@.take(i as int),
                self@ == (RenderStateView { used: self.used@.to_set(), ..before }),
            decreases parts@.len() - i,
        {
            self.used.push(parts[i]);
            assert(self.used@ =~= list + parts@.take(i + 1));
            i = i + 1;
        }
        proof {
            assert(parts@.take(i as int) =~= parts@);
            lemma_set_of_concat(list, parts@);
        }
    }

    /// Check a programmable draw and return what it uses and writes.
    fn validate_programmable(
        &self,
        encoder: &CommandEncoder<'_, '_>,
        desc: &ProgrammableRenderPipelineDesc,
        shape: &DrawShape,
    ) -> (r: Result<GroupAccesses, Error>)
        ensures
            ({
                let slots = desc@.vertex_buffers.len();
                let checked = crate::ir::table::first_failure(
                    self@.check_vertex_slots(encoder@, desc@.vertex_buffers, *shape, slots),
                    self@.check_indices(encoder@, *shape),
                );
                let accesses = crate::ir::groups::group_accesses(
                    encoder@,
                    desc@.layout.bind_groups,
                    self@.bind_groups,
                    (DrawScope {
                        attachments: self@.unsampled_attachments(),
                        fetched: self@.fetched_buffers(slots, shape.indexed),
                    }),
                );
                match r {
                    Ok(found) => checked == Ok::<(), Error>(()) && accesses == Ok::<
                        crate::ir::groups::GroupAccessesView,
                        Error,
                    >(found@) && found@.writes.disjoint(self@.used),
                    Err(error) => checked == Err::<(), Error>(error) || (checked == Ok::<
                        (),
                        Error,
                    >(()) && match accesses {
                        Err(expected) => error == expected,
                        Ok(found) => error == Error::ResourceAccessConflict
                            && !found.writes.disjoint(self@.used),
                    }),
                }
            }),
    {
        match self.validate_vertex_slots(encoder, desc, shape) {
            Ok(()) => {},
            Err(error) => return Err(error),
        }
        match self.validate_indices(encoder, shape) {
            Ok(()) => {},
            Err(error) => return Err(error),
        }
        let layouts = desc.vertex_buffers();
        assert(layouts@.len() == desc@.vertex_buffers.len());
        proof {
            lemma_checked_slots_are_bound(
                self@,
                encoder@,
                desc@.vertex_buffers,
                *shape,
                desc@.vertex_buffers.len(),
            );
        }
        let fetched = self.fetched_buffers(layouts.len(), shape.indexed);
        let attachments = self.unsampled_attachments();
        let accesses = match validate_groups(
            encoder,
            desc.layout(),
            &self.bind_groups,
            &attachments,
            &fetched,
        ) {
            Ok(accesses) => accesses,
            Err(error) => return Err(error),
        };
        if self.writes_used(&accesses.writes) {
            return Err(Error::ResourceAccessConflict);
        }
        Ok(accesses)
    }

    /// Return the mip levels that a fixed draw samples.
    fn sampled_parts(&self, encoder: &CommandEncoder<'_, '_>) -> (r: Vec<ResourcePart>)
        ensures
            r@ == self@.sampled_parts(encoder@.resources),
    {
        match self.texture {
            None => Vec::new(),
            Some(texture) => match encoder.resources().texture(texture) {
                Ok(desc) => mip_part_list(texture.id(), 0, desc.mip_level_count()),
                Err(_) => Vec::new(),
            },
        }
    }

    /// Check a fixed draw and return the parts that it uses.
    fn validate_fixed(
        &self,
        encoder: &CommandEncoder<'_, '_>,
        textured: bool,
        stride: u32,
        shape: &DrawShape,
    ) -> (r: Result<Vec<ResourcePart>, Error>)
        requires
            stride > 0,
        ensures
            ({
                let checked = crate::ir::table::first_failure(
                    self@.check_sampling(encoder@, textured),
                    crate::ir::table::first_failure(
                        self@.check_vertex_slot(
                            encoder@,
                            0,
                            stride as int,
                            RenderStateView::vertex_bytes(*shape, stride),
                        ),
                        self@.check_indices(encoder@, *shape),
                    ),
                );
                match r {
                    Ok(parts) => checked == Ok::<(), Error>(()) && parts@ == self@.fixed_parts(
                        encoder@.resources,
                        textured,
                        shape.indexed,
                    ),
                    Err(error) => checked == Err::<(), Error>(error),
                }
            }),
    {
        let mut parts: Vec<ResourcePart> = Vec::new();
        if textured {
            if self.texture.is_none() || self.sampler.is_none() {
                return Err(Error::TextureBindingNotSet);
            }
            parts = self.sampled_parts(encoder);
            match encoder.check_access(&parts, Access::Texture(TextureAccess::Sampled)) {
                Ok(()) => {},
                Err(error) => return Err(error),
            }
        }
        let vertices: u64 = Self::fetched_vertices(shape);
        assert(vertices * stride == RenderStateView::vertex_bytes(*shape, stride));
        match self.validate_vertex_slot(encoder, 0, stride, stride, vertices) {
            Ok(()) => {},
            Err(error) => return Err(error),
        }
        match self.validate_indices(encoder, shape) {
            Ok(()) => {},
            Err(error) => return Err(error),
        }
        match self.vertex_buffers[0] {
            Some((buffer, _)) => parts.push(ResourcePart::Buffer(buffer.id())),
            None => {},
        }
        if shape.indexed {
            match self.index_buffer {
                Some((buffer, _, _)) => parts.push(ResourcePart::Buffer(buffer.id())),
                None => {},
            }
        }
        assert(parts@ =~= self@.fixed_parts(encoder@.resources, textured, shape.indexed));
        Ok(parts)
    }
}

/// A failure among the first vertex slots is a failure of all.
proof fn lemma_slot_failure_persists(
    state: RenderStateView,
    encoder: EncoderView,
    buffers: Seq<VertexBufferLayoutView>,
    shape: DrawShape,
    count: nat,
)
    requires
        count <= buffers.len(),
        state.check_vertex_slots(encoder, buffers, shape, count) is Err,
    ensures
        state.check_vertex_slots(encoder, buffers, shape, buffers.len())
            == state.check_vertex_slots(encoder, buffers, shape, count),
    decreases buffers.len() - count,
{
    if count < buffers.len() {
        lemma_slot_failure_persists(state, encoder, buffers, shape, count + 1);
    }
}

/// Slots that passed their check have a buffer.
proof fn lemma_checked_slots_are_bound(
    state: RenderStateView,
    encoder: EncoderView,
    buffers: Seq<VertexBufferLayoutView>,
    shape: DrawShape,
    count: nat,
)
    requires
        state.check_vertex_slots(encoder, buffers, shape, count) == Ok::<(), Error>(()),
    ensures
        forall|i: int| 0 <= i < count ==> (#[trigger] state.vertex_buffers[i]) is Some,
    decreases count,
{
    if count > 0 {
        lemma_checked_slots_are_bound(state, encoder, buffers, shape, (count - 1) as nat);
    }
}

/// Encoder for state and draws in one active render pass.
///
/// A call that fails records nothing and changes nothing.
pub struct RenderPassEncoder<'encoder, 'r, 'data> {
    /// Encoder that the pass belongs to.
    pub encoder: &'encoder mut CommandEncoder<'r, 'data>,
    /// What the pass renders to, has bound and has used.
    pub state: RenderPassState,
}

impl<'encoder, 'r, 'data> RenderPassEncoder<'encoder, 'r, 'data> {
    /// Bind a fixed pipeline.
    ///
    /// Fails as looking up the pipeline does, or with
    /// `Error::PipelineTargetMismatch` when its target and depth formats are not
    /// those of the attachments, or it writes a read-only depth.
    pub fn set_pipeline(&mut self, pipeline: RenderPipelineRef) -> (r: Result<(), Error>)
        ensures
            *final(final(self).encoder) == *final(old(self).encoder),
            final(self).encoder.memory() == old(self).encoder.memory(),
            recorded(
                (old(self).encoder@, old(self).state@),
                (final(self).encoder@, final(self).state@),
                old(self).state@.set_pipeline(old(self).encoder@, pipeline),
                old(self).encoder.memory(),
                r,
            ),
    {
        let desc = match self.encoder.resources().borrow_render_pipeline(pipeline) {
            Ok(desc) => desc,
            Err(error) => return Err(error),
        };
        if self.state.color_formats.len() != 1 || self.state.color_formats[0] != desc.target_format()
            || !self.state.depth_matches(desc.depth_state()) {
            assert(self.state@.color_formats == seq![desc@.target_format] ==> (
            self.state@.color_formats.len() == 1 && self.state@.color_formats[0]
                == desc@.target_format));
            return Err(Error::PipelineTargetMismatch);
        }
        assert(self.state@.color_formats =~= seq![desc@.target_format]);
        match self.encoder.push(Command::SetPipeline(pipeline)) {
            Ok(()) => {},
            Err(error) => return Err(error),
        }
        self.state.pipeline = Some(pipeline);
        self.state.programmable_pipeline = None;
        Ok(())
    }

    /// Bind a programmable pipeline.
    ///
    /// Fails as looking up the pipeline does, or with
    /// `Error::PipelineTargetMismatch` when its outputs and depth format are not
    /// those of the attachments, or it writes a read-only depth.
    pub fn set_programmable_pipeline(
        &mut self,
        pipeline: ProgrammableRenderPipelineRef,
    ) -> (r: Result<(), Error>)
        ensures
            *final(final(self).encoder) == *final(old(self).encoder),
            final(self).encoder.memory() == old(self).encoder.memory(),
            recorded(
                (old(self).encoder@, old(self).state@),
                (final(self).encoder@, final(self).state@),
                old(self).state@.set_programmable_pipeline(old(self).encoder@, pipeline),
                old(self).encoder.memory(),
                r,
            ),
    {
        let desc = match self.encoder.resources().borrow_programmable_render_pipeline(pipeline) {
            Ok(desc) => desc,
            Err(error) => return Err(error),
        };
        if !self.state.targets_match(desc) || !self.state.depth_matches(desc.depth_state()) {
            return Err(Error::PipelineTargetMismatch);
        }
        match self.encoder.push(Command::SetProgrammablePipeline(pipeline)) {
            Ok(()) => {},
            Err(error) => return Err(error),
        }
        self.state.programmable_pipeline = Some(pipeline);
        self.state.pipeline = None;
        Ok(())
    }

    /// Bind one programmable descriptor set; compatibility is checked at draw.
    ///
    /// Fails with `Error::OutOfBounds` for an index past the last set, or as
    /// looking up the group does.
    pub fn set_bind_group(&mut self, index: u32, bind_group: BindGroupRef) -> (r: Result<(), Error>)
        ensures
            *final(final(self).encoder) == *final(old(self).encoder),
            final(self).encoder.memory() == old(self).encoder.memory(),
            recorded(
                (old(self).encoder@, old(self).state@),
                (final(self).encoder@, final(self).state@),
                old(self).state@.set_bind_group(old(self).encoder@, index, bind_group),
                old(self).encoder.memory(),
                r,
            ),
    {
        if index as usize >= MAX_BIND_GROUPS {
            return Err(Error::OutOfBounds);
        }
        match self.encoder.resources().borrow_bind_group(bind_group) {
            Ok(_) => {},
            Err(error) => return Err(error),
        }
        match self.encoder.push(Command::SetBindGroup { index, bind_group }) {
            Ok(()) => {},
            Err(error) => return Err(error),
        }
        let ghost before = self.state@;
        let mut bind_groups = self.state.bind_groups;
        bind_groups[index as usize] = Some(bind_group);
        self.state.bind_groups = bind_groups;
        assert(self.state@ =~= (RenderStateView {
            bind_groups: before.bind_groups.update(index as int, Some(bind_group)),
            ..before
        }));
        Ok(())
    }

    /// Update push constants of the bound programmable pipeline with borrowed bytes.
    ///
    /// Fails with `Error::PipelineNotSet` without a programmable pipeline, or as
    /// the pipeline layout's `validate_push_constants` does.
    pub fn set_push_constants(
        &mut self,
        stages: ShaderStages,
        offset: u32,
        data: &'data [u8],
    ) -> (r: Result<(), Error>)
        ensures
            *final(final(self).encoder) == *final(old(self).encoder),
            final(self).encoder.memory() == old(self).encoder.memory(),
            recorded(
                (old(self).encoder@, old(self).state@),
                (final(self).encoder@, final(self).state@),
                old(self).state@.set_push_constants(old(self).encoder@, stages, offset, data@),
                old(self).encoder.memory(),
                r,
            ),
    {
        let pipeline = match self.state.programmable_pipeline {
            Some(pipeline) => pipeline,
            None => return Err(Error::PipelineNotSet),
        };
        let desc = match self.encoder.resources().borrow_programmable_render_pipeline(pipeline) {
            Ok(desc) => desc,
            Err(error) => return Err(error),
        };
        match desc.layout().validate_push_constants(stages, offset, data) {
            Ok(()) => {},
            Err(error) => return Err(error),
        }
        self.encoder.push(Command::SetPushConstants { stages, offset, data })
    }

    /// Bind a vertex buffer to a slot with a command.
    fn bind_vertex_buffer(
        &mut self,
        slot: u32,
        buffer: BufferRef,
        offset: u64,
        command: Command<'data>,
    ) -> (r: Result<(), Error>)
        ensures
            *final(final(self).encoder) == *final(old(self).encoder),
            final(self).encoder.memory() == old(self).encoder.memory(),
            recorded(
                (old(self).encoder@, old(self).state@),
                (final(self).encoder@, final(self).state@),
                old(self).state@.bind_vertex_buffer(
                    old(self).encoder@,
                    slot,
                    buffer,
                    offset,
                    command@,
                ),
                old(self).encoder.memory(),
                r,
            ),
    {
        if slot as usize >= MAX_VERTEX_BUFFERS {
            return Err(Error::OutOfBounds);
        }
        let desc = match self.encoder.resources().buffer(buffer) {
            Ok(desc) => desc,
            Err(error) => return Err(error),
        };
        match require_buffer_usage(desc.usage(), BufferUsage::vertex()) {
            Ok(()) => {},
            Err(error) => return Err(error),
        }
        if offset > desc.size() {
            return Err(Error::OutOfBounds);
        }
        match self.encoder.push(command) {
            Ok(()) => {},
            Err(error) => return Err(error),
        }
        let ghost before = self.state@;
        let mut vertex_buffers = self.state.vertex_buffers;
        vertex_buffers[slot as usize] = Some((buffer, offset));
        self.state.vertex_buffers = vertex_buffers;
        assert(self.state@ =~= (RenderStateView {
            vertex_buffers: before.vertex_buffers.update(slot as int, Some((buffer, offset))),
            ..before
        }));
        Ok(())
    }

    /// Bind the vertex buffer of slot zero.
    ///
    /// Fails as looking up the buffer does, or with `Error::InvalidUsage` or
    /// `Error::OutOfBounds` for an offset past its end.
    pub fn set_vertex_buffer(&mut self, buffer: BufferRef, offset: u64) -> (r: Result<(), Error>)
        ensures
            *final(final(self).encoder) == *final(old(self).encoder),
            final(self).encoder.memory() == old(self).encoder.memory(),
            recorded(
                (old(self).encoder@, old(self).state@),
                (final(self).encoder@, final(self).state@),
                old(self).state@.bind_vertex_buffer(
                    old(self).encoder@,
                    0,
                    buffer,
                    offset,
                    CommandView::SetVertexBuffer { buffer, offset },
                ),
                old(self).encoder.memory(),
                r,
            ),
    {
        self.bind_vertex_buffer(0, buffer, offset, Command::SetVertexBuffer { buffer, offset })
    }

    /// Bind a vertex buffer to a slot.
    ///
    /// Fails with `Error::OutOfBounds` for a slot past the last, and as
    /// `set_vertex_buffer` does.
    pub fn set_vertex_buffer_slot(
        &mut self,
        slot: u32,
        buffer: BufferRef,
        offset: u64,
    ) -> (r: Result<(), Error>)
        ensures
            *final(final(self).encoder) == *final(old(self).encoder),
            final(self).encoder.memory() == old(self).encoder.memory(),
            recorded(
                (old(self).encoder@, old(self).state@),
                (final(self).encoder@, final(self).state@),
                old(self).state@.bind_vertex_buffer(
                    old(self).encoder@,
                    slot,
                    buffer,
                    offset,
                    CommandView::SetVertexBufferSlot { slot, buffer, offset },
                ),
                old(self).encoder.memory(),
                r,
            ),
    {
        self.bind_vertex_buffer(
            slot,
            buffer,
            offset,
            Command::SetVertexBufferSlot { slot, buffer, offset },
        )
    }

    /// Bind the index buffer.
    ///
    /// Fails as looking up the buffer does, with `Error::InvalidUsage`, with
    /// `Error::OutOfBounds` for an offset past its end, or with
    /// `Error::InvalidValue` for an offset that is not a multiple of the index size.
    pub fn set_index_buffer(
        &mut self,
        buffer: BufferRef,
        offset: u64,
        format: IndexFormat,
    ) -> (r: Result<(), Error>)
        ensures
            *final(final(self).encoder) == *final(old(self).encoder),
            final(self).encoder.memory() == old(self).encoder.memory(),
            recorded(
                (old(self).encoder@, old(self).state@),
                (final(self).encoder@, final(self).state@),
                old(self).state@.set_index_buffer(old(self).encoder@, buffer, offset, format),
                old(self).encoder.memory(),
                r,
            ),
    {
        let desc = match self.encoder.resources().buffer(buffer) {
            Ok(desc) => desc,
            Err(error) => return Err(error),
        };
        match require_buffer_usage(desc.usage(), BufferUsage::index()) {
            Ok(()) => {},
            Err(error) => return Err(error),
        }
        if offset > desc.size() {
            return Err(Error::OutOfBounds);
        }
        if offset % format.byte_size() != 0 {
            return Err(Error::InvalidValue);
        }
        match self.encoder.push(Command::SetIndexBuffer { buffer, offset, format }) {
            Ok(()) => {},
            Err(error) => return Err(error),
        }
        self.state.index_buffer = Some((buffer, offset, format));
        Ok(())
    }

    /// Bind a sampled texture for fixed pipelines.
    ///
    /// Fails as looking up the texture does, with `Error::InvalidUsage`, or with
    /// `Error::AttachmentFeedback` when the pass writes the texture.
    pub fn set_texture(&mut self, texture: TextureRef) -> (r: Result<(), Error>)
        ensures
            *final(final(self).encoder) == *final(old(self).encoder),
            final(self).encoder.memory() == old(self).encoder.memory(),
            recorded(
                (old(self).encoder@, old(self).state@),
                (final(self).encoder@, final(self).state@),
                old(self).state@.set_texture(old(self).encoder@, texture),
                old(self).encoder.memory(),
                r,
            ),
    {
        let desc = match self.encoder.resources().texture(texture) {
            Ok(desc) => desc,
            Err(error) => return Err(error),
        };
        match require_texture_usage(desc.usage(), TextureUsage::sampled()) {
            Ok(()) => {},
            Err(error) => return Err(error),
        }
        if self.state.feeds_back(texture) {
            return Err(Error::AttachmentFeedback);
        }
        match self.encoder.push(Command::SetTexture(texture)) {
            Ok(()) => {},
            Err(error) => return Err(error),
        }
        self.state.texture = Some(texture);
        Ok(())
    }

    /// Bind a sampler for fixed pipelines. Fails as looking it up does.
    pub fn set_sampler(&mut self, sampler: SamplerRef) -> (r: Result<(), Error>)
        ensures
            *final(final(self).encoder) == *final(old(self).encoder),
            final(self).encoder.memory() == old(self).encoder.memory(),
            recorded(
                (old(self).encoder@, old(self).state@),
                (final(self).encoder@, final(self).state@),
                old(self).state@.set_sampler(old(self).encoder@, sampler),
                old(self).encoder.memory(),
                r,
            ),
    {
        match self.encoder.resources().sampler(sampler) {
            Ok(_) => {},
            Err(error) => return Err(error),
        }
        match self.encoder.push(Command::SetSampler(sampler)) {
            Ok(()) => {},
            Err(error) => return Err(error),
        }
        self.state.sampler = Some(sampler);
        Ok(())
    }

    /// Set the uniforms of fixed pipelines.
    pub fn set_uniforms(&mut self, uniforms: DrawUniforms) -> (r: Result<(), Error>)
        ensures
            *final(final(self).encoder) == *final(old(self).encoder),
            final(self).encoder.memory() == old(self).encoder.memory(),
            recorded(
                (old(self).encoder@, old(self).state@),
                (final(self).encoder@, final(self).state@),
                old(self).state@.set_uniforms(old(self).encoder@, uniforms),
                old(self).encoder.memory(),
                r,
            ),
    {
        match self.encoder.push(Command::SetUniforms(uniforms)) {
            Ok(()) => {},
            Err(error) => return Err(error),
        }
        self.state.uniforms = Some(uniforms);
        Ok(())
    }

    /// Set the scissor rectangle, or reset it to the render area.
    ///
    /// Returns `Error::OutOfBounds` for a rectangle that leaves the render area.
    pub fn set_scissor(&mut self, scissor: Option<PixelRect>) -> (r: Result<(), Error>)
        ensures
            *final(final(self).encoder) == *final(old(self).encoder),
            final(self).encoder.memory() == old(self).encoder.memory(),
            recorded(
                (old(self).encoder@, old(self).state@),
                (final(self).encoder@, final(self).state@),
                old(self).state@.set_scissor(old(self).encoder@, scissor),
                old(self).encoder.memory(),
                r,
            ),
    {
        match scissor {
            Some(rect) => {
                let area = self.state.desc.area();
                let rect_width: u32 = rect.width();
                let rect_height: u32 = rect.height();
                let area_width: u32 = area.width();
                let area_height: u32 = area.height();
                if rect.x() < area.x() || rect.y() < area.y() || rect.x() + rect_width > area.x()
                    + area_width || rect.y() + rect_height > area.y() + area_height {
                    return Err(Error::OutOfBounds);
                }
            },
            None => {},
        }
        self.encoder.push(Command::SetScissor(scissor))
    }

    /// Set the viewport.
    ///
    /// Returns `Error::OutOfBounds` for a rectangle that leaves the attachments.
    pub fn set_viewport(&mut self, viewport: Viewport) -> (r: Result<(), Error>)
        ensures
            *final(final(self).encoder) == *final(old(self).encoder),
            final(self).encoder.memory() == old(self).encoder.memory(),
            recorded(
                (old(self).encoder@, old(self).state@),
                (final(self).encoder@, final(self).state@),
                old(self).state@.set_viewport(old(self).encoder@, viewport),
                old(self).encoder.memory(),
                r,
            ),
    {
        let desc = match self.encoder.resources().texture(self.state.desc.target()) {
            Ok(desc) => desc,
            Err(error) => return Err(error),
        };
        if !viewport.is_within(desc.extent()) {
            return Err(Error::OutOfBounds);
        }
        self.encoder.push(Command::SetViewport(viewport))
    }

    /// Draw with the bound programmable pipeline.
    fn draw_programmable(
        &mut self,
        pipeline: ProgrammableRenderPipelineRef,
        shape: &DrawShape,
        command: Command<'data>,
    ) -> (r: Result<(), Error>)
        ensures
            *final(final(self).encoder) == *final(old(self).encoder),
            final(self).encoder.memory() == old(self).encoder.memory(),
            recorded(
                (old(self).encoder@, old(self).state@),
                (final(self).encoder@, final(self).state@),
                old(self).state@.draw_programmable(
                    old(self).encoder@,
                    pipeline,
                    *shape,
                    command@,
                ),
                old(self).encoder.memory(),
                r,
            ),
    {
        let desc = match self.encoder.resources().borrow_programmable_render_pipeline(pipeline) {
            Ok(desc) => desc,
            Err(error) => return Err(error),
        };
        if shape.first.checked_add(shape.count).is_none() {
            return Err(Error::Overflow);
        }
        let accesses = match self.state.validate_programmable(&*self.encoder, desc, shape) {
            Ok(accesses) => accesses,
            Err(error) => return Err(error),
        };
        let memory: Memory = self.encoder.memory();
        let reserved: bool = memory.reserve(&mut self.state.used, accesses.used.len());
        if !reserved {
            return match self.encoder.check_room() {
                Ok(()) => Err(Error::OutOfMemory),
                Err(error) => Err(error),
            };
        }
        match self.encoder.record(command, &accesses.used, &accesses.writes) {
            Ok(()) => {},
            Err(error) => return Err(error),
        }
        self.state.note_used(&accesses.used);
        Ok(())
    }

    /// Draw with the bound fixed pipeline.
    fn draw_fixed(&mut self, shape: &DrawShape, command: Command<'data>) -> (r: Result<(), Error>)
        ensures
            *final(final(self).encoder) == *final(old(self).encoder),
            final(self).encoder.memory() == old(self).encoder.memory(),
            recorded(
                (old(self).encoder@, old(self).state@),
                (final(self).encoder@, final(self).state@),
                old(self).state@.draw_fixed(old(self).encoder@, *shape, command@),
                old(self).encoder.memory(),
                r,
            ),
    {
        let pipeline = match self.state.pipeline {
            Some(pipeline) => pipeline,
            None => return Err(Error::PipelineNotSet),
        };
        let desc = match self.encoder.resources().borrow_render_pipeline(pipeline) {
            Ok(desc) => desc,
            Err(error) => return Err(error),
        };
        if self.state.uniforms.is_none() {
            return Err(Error::UniformsNotSet);
        }
        let textured: bool = desc.fragment().is_textured();
        let stride: u32 = desc.vertex_buffer().stride();
        let parts = match self.state.validate_fixed(&*self.encoder, textured, stride, shape) {
            Ok(parts) => parts,
            Err(error) => return Err(error),
        };
        let memory: Memory = self.encoder.memory();
        let reserved: bool = memory.reserve(&mut self.state.used, parts.len());
        if !reserved {
            return match self.encoder.check_room() {
                Ok(()) => Err(Error::OutOfMemory),
                Err(error) => Err(error),
            };
        }
        let written: Vec<ResourcePart> = Vec::new();
        assert(written@.to_set() =~= Set::empty());
        match self.encoder.record(command, &parts, &written) {
            Ok(()) => {},
            Err(error) => return Err(error),
        }
        self.state.note_used(&parts);
        Ok(())
    }

    /// Draw with the bound pipeline.
    fn draw_shape(&mut self, shape: &DrawShape, command: Command<'data>) -> (r: Result<(), Error>)
        ensures
            *final(final(self).encoder) == *final(old(self).encoder),
            final(self).encoder.memory() == old(self).encoder.memory(),
            recorded(
                (old(self).encoder@, old(self).state@),
                (final(self).encoder@, final(self).state@),
                old(self).state@.draw(old(self).encoder@, *shape, command@),
                old(self).encoder.memory(),
                r,
            ),
    {
        if shape.count == 0 || shape.count % 3 != 0 {
            return Err(Error::InvalidValue);
        }
        match self.state.programmable_pipeline {
            Some(pipeline) => self.draw_programmable(pipeline, shape, command),
            None => self.draw_fixed(shape, command),
        }
    }

    /// Record a draw of whole triangles.
    ///
    /// Fails with `Error::InvalidValue` for another count, with an error for
    /// state that the bound pipeline needs and the pass has not set, for a range
    /// that leaves a buffer, for groups that are not bound as the pipeline
    /// declares, or for an access that is not admitted.
    pub fn draw(&mut self, vertex_count: u32, first_vertex: u32) -> (r: Result<(), Error>)
        ensures
            *final(final(self).encoder) == *final(old(self).encoder),
            final(self).encoder.memory() == old(self).encoder.memory(),
            recorded(
                (old(self).encoder@, old(self).state@),
                (final(self).encoder@, final(self).state@),
                old(self).state@.draw(
                    old(self).encoder@,
                    (DrawShape { count: vertex_count, first: first_vertex, indexed: false }),
                    CommandView::Draw { vertex_count, first_vertex },
                ),
                old(self).encoder.memory(),
                r,
            ),
    {
        let shape = DrawShape { count: vertex_count, first: first_vertex, indexed: false };
        self.draw_shape(&shape, Command::Draw { vertex_count, first_vertex })
    }

    /// Record a draw of several instances.
    ///
    /// Fails with `Error::InvalidValue` for no instances, `Error::Overflow` when
    /// the last does not fit in 32 bits, or as `draw` does.
    pub fn draw_instanced(
        &mut self,
        vertex_count: u32,
        first_vertex: u32,
        instance_count: u32,
        first_instance: u32,
    ) -> (r: Result<(), Error>)
        ensures
            *final(final(self).encoder) == *final(old(self).encoder),
            final(self).encoder.memory() == old(self).encoder.memory(),
            recorded(
                (old(self).encoder@, old(self).state@),
                (final(self).encoder@, final(self).state@),
                old(self).state@.draw_instances(
                    old(self).encoder@,
                    (DrawShape { count: vertex_count, first: first_vertex, indexed: false }),
                    instance_count,
                    first_instance,
                    CommandView::DrawInstanced {
                        vertex_count,
                        first_vertex,
                        instance_count,
                        first_instance,
                    },
                ),
                old(self).encoder.memory(),
                r,
            ),
    {
        if instance_count == 0 {
            return Err(Error::InvalidValue);
        }
        if first_instance.checked_add(instance_count).is_none() {
            return Err(Error::Overflow);
        }
        let shape = DrawShape { count: vertex_count, first: first_vertex, indexed: false };
        self.draw_shape(
            &shape,
            Command::DrawInstanced { vertex_count, first_vertex, instance_count, first_instance },
        )
    }

    /// Record an indexed draw of whole triangles. The vertices that indices
    /// select are not known here; each vertex buffer must hold at least one.
    ///
    /// Fails as `draw` does, and for an index range that leaves the index buffer.
    pub fn draw_indexed(
        &mut self,
        index_count: u32,
        first_index: u32,
        base_vertex: i32,
    ) -> (r: Result<(), Error>)
        ensures
            *final(final(self).encoder) == *final(old(self).encoder),
            final(self).encoder.memory() == old(self).encoder.memory(),
            recorded(
                (old(self).encoder@, old(self).state@),
                (final(self).encoder@, final(self).state@),
                old(self).state@.draw(
                    old(self).encoder@,
                    (DrawShape { count: index_count, first: first_index, indexed: true }),
                    CommandView::DrawIndexed { index_count, first_index, base_vertex },
                ),
                old(self).encoder.memory(),
                r,
            ),
    {
        let shape = DrawShape { count: index_count, first: first_index, indexed: true };
        self.draw_shape(&shape, Command::DrawIndexed { index_count, first_index, base_vertex })
    }

    /// Record an indexed draw of several instances.
    ///
    /// Fails with `Error::InvalidValue` for no instances, `Error::Overflow` when
    /// the last does not fit in 32 bits, or as `draw_indexed` does.
    pub fn draw_indexed_instanced(
        &mut self,
        index_count: u32,
        first_index: u32,
        base_vertex: i32,
        instance_count: u32,
        first_instance: u32,
    ) -> (r: Result<(), Error>)
        ensures
            *final(final(self).encoder) == *final(old(self).encoder),
            final(self).encoder.memory() == old(self).encoder.memory(),
            recorded(
                (old(self).encoder@, old(self).state@),
                (final(self).encoder@, final(self).state@),
                old(self).state@.draw_instances(
                    old(self).encoder@,
                    (DrawShape { count: index_count, first: first_index, indexed: true }),
                    instance_count,
                    first_instance,
                    CommandView::DrawIndexedInstanced {
                        index_count,
                        first_index,
                        base_vertex,
                        instance_count,
                        first_instance,
                    },
                ),
                old(self).encoder.memory(),
                r,
            ),
    {
        if instance_count == 0 {
            return Err(Error::InvalidValue);
        }
        if first_instance.checked_add(instance_count).is_none() {
            return Err(Error::Overflow);
        }
        let shape = DrawShape { count: index_count, first: first_index, indexed: true };
        self.draw_shape(
            &shape,
            Command::DrawIndexedInstanced {
                index_count,
                first_index,
                base_vertex,
                instance_count,
                first_instance,
            },
        )
    }

    /// End this render pass, releasing the encoder for other commands.
    ///
    /// Returns `Error::CommandLimitExceeded` without room for the end, which an
    /// encoder keeps while a pass is open.
    pub fn end(self) -> (r: Result<(), Error>)
        ensures
            final(self.encoder).memory() == old(self.encoder).memory(),
            recorded(
                old(self.encoder)@,
                final(self.encoder)@,
                old(self.encoder)@.end_pass(CommandView::EndRenderPass),
                old(self.encoder).memory(),
                r,
            ),
    {
        self.encoder.push_end(Command::EndRenderPass)
    }
}

} // verus!
