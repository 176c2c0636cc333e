//! Owned command recordings for frontends that retain resources by identity.
//!
//! An owned recording is not a validated command buffer. Replaying it through
//! `OwnedCommandBuffer::record` resolves every identity against the supplied
//! resource table and uses the same encoder validation as borrowed recording.

use crate::ir::command::{CommandBuffer, CommandBufferView, CommandEncoder, CommandView, EncoderView};
use crate::ir::compute_pass_encoder::{ComputePassEncoder, ComputeStateView};
use crate::ir::pipeline::{DrawUniforms, IndexFormat};
use crate::ir::programmable::{BufferAccess, ResourceBarrier, TextureAccess};
use crate::ir::render_pass::{
    ColorAttachment, DepthAttachment, DepthLoadOp, LoadOp, RenderPassDesc, RenderPassView, StoreOp,
};
use crate::ir::render_pass_encoder::{DrawShape, RenderPassEncoder, RenderStateView};
use crate::ir::resource::{TextureWrite, TextureWriteView};
use crate::ir::shader::ShaderStages;
use crate::ir::table::{
    BindGroupId, BufferId, ComputePipelineId, ProgrammableRenderPipelineId, RenderPipelineId,
    ResourceTable, SamplerId, TableView, TextureId,
};
use crate::ir::types::{Error, PixelRect};
use crate::ir::viewport::Viewport;
use crate::memory::Memory;
use vstd::prelude::*;

verus! {

/// An owned depth attachment, validated when its recording is replayed.
#[derive(Debug, Clone, Copy)]
pub struct OwnedDepthAttachment {
    /// Depth attachment identity in the replay resource table.
    pub target: TextureId,
    /// Initial depth attachment operation.
    pub load: DepthLoadOp,
    /// Final depth attachment operation.
    pub store: StoreOp,
}

/// An owned color attachment, validated when its recording is replayed.
#[derive(Debug, Clone, Copy)]
pub struct OwnedColorAttachment {
    /// Color attachment identity in the replay resource table.
    pub target: TextureId,
    /// Initial color attachment operation.
    pub load: LoadOp,
    /// Final color attachment operation.
    pub store: StoreOp,
}

/// An owned render-pass descriptor, validated when its recording is replayed.
#[derive(Debug, Clone, Copy)]
pub struct OwnedRenderPassDesc {
    /// Color attachment identity in the replay resource table.
    pub target: TextureId,
    /// Non-empty render area.
    pub area: PixelRect,
    /// Initial color attachment operation.
    pub load: LoadOp,
    /// Final color attachment operation.
    pub store: StoreOp,
    /// Optional depth attachment.
    pub depth: Option<OwnedDepthAttachment>,
}

impl OwnedRenderPassDesc {
    /// The descriptor that this one becomes in a table.
    pub open spec fn resolved(self, table: TableView) -> Result<RenderPassView, Error> {
        match table.texture_ref(self.target) {
            Err(error) => Err(error),
            Ok(target) => match crate::ir::render_pass::check_color_target(
                table,
                target,
                self.area,
            ) {
                Err(error) => Err(error),
                Ok(_) => {
                    let color = RenderPassView {
                        area: self.area,
                        colors: seq![
                            ColorAttachment { target, load: self.load, store: self.store },
                        ],
                        depth: None,
                    };
                    match self.depth {
                        None => Ok(color),
                        Some(depth) => match table.texture_ref(depth.target) {
                            Err(error) => Err(error),
                            Ok(target) => match color.check_depth_attachment(
                                table,
                                target,
                                depth.load,
                            ) {
                                Err(error) => Err(error),
                                Ok(_) => Ok(
                                    RenderPassView {
                                        depth: Some(
                                            DepthAttachment {
                                                target,
                                                load: depth.load,
                                                store: depth.store,
                                                read_only: false,
                                            },
                                        ),
                                        ..color
                                    },
                                ),
                            },
                        },
                    }
                },
            },
        }
    }

    /// Resolve the identities against a table and validate the descriptor.
    pub fn resolve(self, resources: &ResourceTable) -> (r: Result<RenderPassDesc, Error>)
        ensures
            match r {
                Ok(desc) => self.resolved(resources@) == Ok::<RenderPassView, Error>(desc@),
                Err(error) => self.resolved(resources@) == Err::<RenderPassView, Error>(error),
            },
    {
        let target = match resources.texture_ref(self.target) {
            Ok(target) => target,
            Err(error) => return Err(error),
        };
        let desc = match RenderPassDesc::new(resources, target, self.area, self.load, self.store) {
            Ok(desc) => desc,
            Err(error) => return Err(error),
        };
        match self.depth {
            None => Ok(desc),
            Some(depth) => {
                let target = match resources.texture_ref(depth.target) {
                    Ok(target) => target,
                    Err(error) => return Err(error),
                };
                desc.with_depth_attachment(resources, target, depth.load, depth.store)
            },
        }
    }
}

/// A descriptor with the first `count` of some color attachments added.
pub open spec fn with_colors(
    table: TableView,
    desc: RenderPassView,
    colors: Seq<OwnedColorAttachment>,
    count: nat,
) -> Result<RenderPassView, Error>
    decreases count,
{
    if count == 0 {
        Ok(desc)
    } else {
        match with_colors(table, desc, colors, (count - 1) as nat) {
            Err(error) => Err(error),
            Ok(desc) => {
                let color = colors[count - 1];
                match table.texture_ref(color.target) {
                    Err(error) => Err(error),
                    Ok(target) => match desc.check_color_attachment(table, target) {
                        Err(error) => Err(error),
                        Ok(_) => Ok(
                            RenderPassView {
                                colors: desc.colors.push(
                                    ColorAttachment { target, load: color.load, store: color.store
                                    },
                                ),
                                ..desc
                            },
                        ),
                    },
                }
            },
        }
    }
}

/// The descriptor of a pass with further color attachments, and with a
/// read-only depth where that is asked for.
pub open spec fn resolved_attachments(
    table: TableView,
    desc: OwnedRenderPassDesc,
    colors: Seq<OwnedColorAttachment>,
    read_only_depth: bool,
) -> Result<RenderPassView, Error> {
    match desc.resolved(table) {
        Err(error) => Err(error),
        Ok(desc) => match with_colors(table, desc, colors, colors.len()) {
            Err(error) => Err(error),
            Ok(desc) => if !read_only_depth {
                Ok(desc)
            } else if !desc.preserves_depth() {
                Err(Error::InvalidDescriptor)
            } else {
                Ok(
                    RenderPassView {
                        depth: Some(DepthAttachment { read_only: true, ..desc.depth->0 }),
                        ..desc
                    },
                )
            },
        },
    }
}

/// A failure among the first color attachments is a failure of all.
proof fn lemma_color_failure_persists(
    table: TableView,
    desc: RenderPassView,
    colors: Seq<OwnedColorAttachment>,
    count: nat,
)
    requires
        count <= colors.len(),
        with_colors(table, desc, colors, count) is Err,
    ensures
        with_colors(table, desc, colors, colors.len()) == with_colors(table, desc, colors, count),
    decreases colors.len() - count,
{
    if count < colors.len() {
        lemma_color_failure_persists(table, desc, colors, count + 1);
    }
}

/// Resolve a pass with further color attachments.
fn resolve_attachments(
    resources: &ResourceTable,
    desc: OwnedRenderPassDesc,
    colors: &Vec<OwnedColorAttachment>,
    read_only_depth: bool,
) -> (r: Result<RenderPassDesc, Error>)
    ensures
        ({
            let wanted = resolved_attachments(resources@, desc, colors@, read_only_depth);
            match r {
                Ok(desc) => wanted == Ok::<RenderPassView, Error>(desc@),
                Err(error) => wanted == Err::<RenderPassView, Error>(error),
            }
        }),
{
    let mut result = match desc.resolve(resources) {
        Ok(result) => result,
        Err(error) => return Err(error),
    };
    let ghost first = result@;
    let mut i: usize = 0;
    while i < colors.len()
        invariant
            i <= colors@.len(),
            desc.resolved(resources@) == Ok::<RenderPassView, Error>(first),
            with_colors(resources@, first, colors@, i as nat) == Ok::<RenderPassView, Error>(
                result@,
            ),
        decreases colors@.len() - i,
    {
        let color: OwnedColorAttachment = colors[i];
        let target = match resources.texture_ref(color.target) {
            Ok(target) => target,
            Err(error) => {
                proof {
                    lemma_color_failure_persists(resources@, first, colors@, (i + 1) as nat);
                }
                return Err(error);
            },
        };
        result = match result.with_color_attachment(resources, target, color.load, color.store) {
            Ok(result) => result,
            Err(error) => {
                proof {
                    lemma_color_failure_persists(resources@, first, colors@, (i + 1) as nat);
                }
                return Err(error);
            },
        };
        i = i + 1;
    }
    if read_only_depth {
        result.with_read_only_depth()
    } else {
        Ok(result)
    }
}

/// An owned resource transition, validated when its recording is replayed.
#[allow(inconsistent_fields)]
#[derive(Debug, Clone, Copy)]
pub enum OwnedResourceBarrier {
    /// Change the declared access for a buffer.
    Buffer {
        /// Buffer identity in the replay resource table.
        buffer: BufferId,
        /// Access preceding the transition.
        before: BufferAccess,
        /// Access following the transition.
        after: BufferAccess,
    },
    /// Change the declared access for a texture.
    Texture {
        /// Texture identity in the replay resource table.
        texture: TextureId,
        /// Access preceding the transition.
        before: TextureAccess,
        /// Access following the transition.
        after: TextureAccess,
    },
    /// Change the declared access for one mip level of a texture.
    TextureMip {
        /// Texture identity in the replay resource table.
        texture: TextureId,
        /// Mip level.
        mip_level: u32,
        /// Access preceding the transition.
        before: TextureAccess,
        /// Access following the transition.
        after: TextureAccess,
    },
}

impl OwnedResourceBarrier {
    /// The barrier that this one becomes in a table.
    pub open spec fn resolved(self, table: TableView) -> Result<ResourceBarrier, Error> {
        match self {
            OwnedResourceBarrier::Buffer { buffer, before, after } => match table.buffer_ref(
                buffer,
            ) {
                Err(error) => Err(error),
                Ok(buffer) => Ok(ResourceBarrier::Buffer { buffer, before, after }),
            },
            OwnedResourceBarrier::Texture { texture, before, after } => match table.texture_ref(
                texture,
            ) {
                Err(error) => Err(error),
                Ok(texture) => Ok(ResourceBarrier::Texture { texture, before, after }),
            },
            OwnedResourceBarrier::TextureMip { texture, mip_level, before, after } =>
                match table.texture_ref(texture) {
                    Err(error) => Err(error),
                    Ok(texture) => Ok(
                        ResourceBarrier::TextureMip { texture, mip_level, before, after },
                    ),
                },
        }
    }

    /// Resolve the identity against a table.
    pub fn resolve(self, resources: &ResourceTable) -> (r: Result<ResourceBarrier, Error>)
        ensures
            r == self.resolved(resources@),
    {
        match self {
            OwnedResourceBarrier::Buffer { buffer, before, after } => {
                let buffer = match resources.buffer_ref(buffer) {
                    Ok(buffer) => buffer,
                    Err(error) => return Err(error),
                };
                Ok(ResourceBarrier::Buffer { buffer, before, after })
            },
            OwnedResourceBarrier::Texture { texture, before, after } => {
                let texture = match resources.texture_ref(texture) {
                    Ok(texture) => texture,
                    Err(error) => return Err(error),
                };
                Ok(ResourceBarrier::Texture { texture, before, after })
            },
            OwnedResourceBarrier::TextureMip { texture, mip_level, before, after } => {
                let texture = match resources.texture_ref(texture) {
                    Ok(texture) => texture,
                    Err(error) => return Err(error),
                };
                Ok(ResourceBarrier::TextureMip { texture, mip_level, before, after })
            },
        }
    }
}

/// One unvalidated, owned logical command.
///
/// Resource identities carry their owning table's identity. Upload bytes are
/// retained in the recording, so replayed commands borrow their data safely.
#[allow(inconsistent_fields)]
#[derive(Debug, Clone)]
pub enum OwnedCommand {
    /// Upload owned bytes into a logical buffer.
    WriteBuffer {
        /// Destination buffer.
        buffer: BufferId,
        /// Destination byte offset.
        offset: u64,
        /// Owned source bytes.
        data: Vec<u8>,
    },
    /// Upload owned pixels into level zero of a logical texture.
    WriteTexture {
        /// Destination texture.
        texture: TextureId,
        /// Destination rectangle.
        destination: PixelRect,
        /// Source row stride in bytes.
        bytes_per_row: u32,
        /// Owned source pixels.
        data: Vec<u8>,
    },
    /// Upload owned pixels into one layer of one mip level of a logical texture.
    WriteTextureLayer {
        /// Destination texture.
        texture: TextureId,
        /// Destination mip level.
        mip_level: u32,
        /// Destination array layer.
        array_layer: u32,
        /// Destination rectangle.
        destination: PixelRect,
        /// Source row stride in bytes.
        bytes_per_row: u32,
        /// Owned source pixels.
        data: Vec<u8>,
    },
    /// Copy a byte range between buffers.
    CopyBufferToBuffer {
        /// Source buffer.
        source: BufferId,
        /// Source byte offset.
        source_offset: u64,
        /// Destination buffer.
        destination: BufferId,
        /// Destination byte offset.
        destination_offset: u64,
        /// Number of bytes to copy.
        size: u64,
    },
    /// Copy equal-sized rectangles between textures.
    CopyTextureToTexture {
        /// Source texture.
        source: TextureId,
        /// Source rectangle.
        source_rect: PixelRect,
        /// Destination texture.
        destination: TextureId,
        /// Destination rectangle.
        destination_rect: PixelRect,
    },
    /// Declare an access transition outside a pass.
    ResourceBarrier(OwnedResourceBarrier),
    /// Begin a render pass.
    BeginRenderPass(OwnedRenderPassDesc),
    /// Begin a render pass with several color attachments or a read-only depth.
    BeginRenderPassWithAttachments {
        /// First color attachment, area and depth.
        desc: OwnedRenderPassDesc,
        /// Further color attachments.
        colors: Vec<OwnedColorAttachment>,
        /// Whether the depth contents stay unchanged.
        read_only_depth: bool,
    },
    /// End the active render pass.
    EndRenderPass,
    /// Bind a fixed render pipeline.
    SetPipeline(RenderPipelineId),
    /// Bind a programmable render pipeline.
    SetProgrammablePipeline(ProgrammableRenderPipelineId),
    /// Bind a group for the active render or compute pass.
    SetBindGroup {
        /// Pipeline layout group index.
        index: u32,
        /// Bind group identity.
        bind_group: BindGroupId,
    },
    /// Update push constants in the active render or compute pass.
    SetPushConstants {
        /// Updated stages.
        stages: ShaderStages,
        /// First updated byte.
        offset: u32,
        /// Owned bytes.
        data: Vec<u8>,
    },
    /// Bind the vertex buffer of slot zero for the active render pass.
    SetVertexBuffer {
        /// Vertex buffer identity.
        buffer: BufferId,
        /// Byte offset of the first vertex.
        offset: u64,
    },
    /// Bind a vertex buffer to a slot for the active render pass.
    SetVertexBufferSlot {
        /// Vertex buffer slot.
        slot: u32,
        /// Vertex buffer identity.
        buffer: BufferId,
        /// Byte offset of the first vertex.
        offset: u64,
    },
    /// Bind an index buffer for the active render pass.
    SetIndexBuffer {
        /// Index buffer identity.
        buffer: BufferId,
        /// Byte offset of the first index.
        offset: u64,
        /// Encoded index width.
        format: IndexFormat,
    },
    /// Bind a sampled texture for the active render pass.
    SetTexture(TextureId),
    /// Bind a sampler for the active render pass.
    SetSampler(SamplerId),
    /// Set fixed render pipeline uniforms.
    SetUniforms(DrawUniforms),
    /// Set or reset the render scissor.
    SetScissor(Option<PixelRect>),
    /// Set the viewport.
    SetViewport(Viewport),
    /// Issue a non-indexed draw.
    Draw {
        /// Number of vertices.
        vertex_count: u32,
        /// First vertex relative to the bound buffer.
        first_vertex: u32,
    },
    /// Issue a non-indexed draw of several instances.
    DrawInstanced {
        /// Number of vertices.
        vertex_count: u32,
        /// First vertex relative to the bound buffer.
        first_vertex: u32,
        /// Number of instances.
        instance_count: u32,
        /// First instance.
        first_instance: u32,
    },
    /// Issue an indexed draw.
    DrawIndexed {
        /// Number of indices.
        index_count: u32,
        /// First index relative to the bound buffer.
        first_index: u32,
        /// Signed vertex offset.
        base_vertex: i32,
    },
    /// Issue an indexed draw of several instances.
    DrawIndexedInstanced {
        /// Number of indices.
        index_count: u32,
        /// First index relative to the bound buffer.
        first_index: u32,
        /// Signed vertex offset.
        base_vertex: i32,
        /// Number of instances.
        instance_count: u32,
        /// First instance.
        first_instance: u32,
    },
    /// Begin a compute pass.
    BeginComputePass,
    /// End the active compute pass.
    EndComputePass,
    /// Bind a compute pipeline.
    SetComputePipeline(ComputePipelineId),
    /// Dispatch workgroups in the active compute pass.
    Dispatch {
        /// Workgroup count along the x axis.
        x: u32,
        /// Workgroup count along the y axis.
        y: u32,
        /// Workgroup count along the z axis.
        z: u32,
    },
}

/// Where a replay stands: outside passes, or in one with its state.
pub enum ReplayView {
    Outside(EncoderView),
    Render(EncoderView, RenderStateView),
    Compute(EncoderView, ComputeStateView),
}

/// Stand outside passes after a call.
pub open spec fn outside(result: Result<EncoderView, Error>) -> Result<ReplayView, Error> {
    match result {
        Ok(encoder) => Ok(ReplayView::Outside(encoder)),
        Err(error) => Err(error),
    }
}

/// Stand in a render pass after a call.
pub open spec fn in_render(result: Result<(EncoderView, RenderStateView), Error>) -> Result<
    ReplayView,
    Error,
> {
    match result {
        Ok((encoder, state)) => Ok(ReplayView::Render(encoder, state)),
        Err(error) => Err(error),
    }
}

/// Stand in a compute pass after a call.
pub open spec fn in_compute(result: Result<(EncoderView, ComputeStateView), Error>) -> Result<
    ReplayView,
    Error,
> {
    match result {
        Ok((encoder, state)) => Ok(ReplayView::Compute(encoder, state)),
        Err(error) => Err(error),
    }
}

/// Upload pixels that an identity and a region describe.
pub open spec fn replay_texture_write(
    encoder: EncoderView,
    texture: TextureId,
    write: TextureWriteView,
) -> Result<EncoderView, Error> {
    match encoder.resources.texture_ref(texture) {
        Err(error) => Err(error),
        Ok(texture) => if write.bytes_per_row == 0 {
            Err(Error::InvalidValue)
        } else {
            encoder.write_texture(texture, write)
        },
    }
}

/// Begin a render pass once its descriptor resolved.
pub open spec fn replay_begin(encoder: EncoderView, desc: Result<RenderPassView, Error>) -> Result<
    ReplayView,
    Error,
> {
    match desc {
        Err(error) => Err(error),
        Ok(desc) => in_render(encoder.begin_render_pass(desc)),
    }
}

/// Replay one command outside passes.
#[verifier::opaque]
pub open spec fn replay_outside(encoder: EncoderView, command: OwnedCommand) -> Result<
    ReplayView,
    Error,
> {
    let table = encoder.resources;
    match command {
        OwnedCommand::WriteBuffer { buffer, offset, data } => match table.buffer_ref(buffer) {
            Err(error) => Err(error),
            Ok(buffer) => outside(encoder.write_buffer(buffer, offset, data@)),
        },
        OwnedCommand::WriteTexture { texture, destination, bytes_per_row, data } => outside(
            replay_texture_write(
                encoder,
                texture,
                TextureWriteView {
                    destination,
                    bytes_per_row,
                    data: data@,
                    mip_level: 0,
                    array_layer: 0,
                },
            ),
        ),
        OwnedCommand::WriteTextureLayer {
            texture,
            mip_level,
            array_layer,
            destination,
            bytes_per_row,
            data,
        } => outside(
            replay_texture_write(
                encoder,
                texture,
                TextureWriteView {
                    destination,
                    bytes_per_row,
                    data: data@,
                    mip_level,
                    array_layer,
                },
            ),
        ),
        OwnedCommand::CopyBufferToBuffer {
            source,
            source_offset,
            destination,
            destination_offset,
            size,
        } => match (table.buffer_ref(source), table.buffer_ref(destination)) {
            (Err(error), _) => Err(error),
            (_, Err(error)) => Err(error),
            (Ok(source), Ok(destination)) => outside(
                encoder.copy_buffer_to_buffer(
                    source,
                    source_offset,
                    destination,
                    destination_offset,
                    size,
                ),
            ),
        },
        OwnedCommand::CopyTextureToTexture {
            source,
            source_rect,
            destination,
            destination_rect,
        } => match (table.texture_ref(source), table.texture_ref(destination)) {
            (Err(error), _) => Err(error),
            (_, Err(error)) => Err(error),
            (Ok(source), Ok(destination)) => outside(
                encoder.copy_texture_to_texture(
                    source,
                    source_rect,
                    destination,
                    destination_rect,
                ),
            ),
        },
        OwnedCommand::ResourceBarrier(barrier) => match barrier.resolved(table) {
            Err(error) => Err(error),
            Ok(barrier) => outside(encoder.resource_barrier(barrier)),
        },
        OwnedCommand::BeginRenderPass(desc) => replay_begin(encoder, desc.resolved(table)),
        OwnedCommand::BeginRenderPassWithAttachments { desc, colors, read_only_depth } =>
            replay_begin(
                encoder,
                resolved_attachments(table, desc, colors@, read_only_depth),
            ),
        OwnedCommand::BeginComputePass => in_compute(encoder.begin_compute_pass()),
        _ => Err(Error::InvalidDescriptor),
    }
}

/// Replay one command in a render pass.
#[verifier::opaque]
pub open spec fn replay_render(
    encoder: EncoderView,
    state: RenderStateView,
    command: OwnedCommand,
) -> Result<ReplayView, Error> {
    let table = encoder.resources;
    match command {
        OwnedCommand::EndRenderPass => outside(encoder.end_pass(CommandView::EndRenderPass)),
        OwnedCommand::SetPipeline(pipeline) => match table.render_pipeline_ref(pipeline) {
            Err(error) => Err(error),
            Ok(pipeline) => in_render(state.set_pipeline(encoder, pipeline)),
        },
        OwnedCommand::SetProgrammablePipeline(pipeline) =>
            match table.programmable_render_pipeline_ref(pipeline) {
                Err(error) => Err(error),
                Ok(pipeline) => in_render(state.set_programmable_pipeline(encoder, pipeline)),
            },
        OwnedCommand::SetBindGroup { index, bind_group } => match table.bind_group_ref(
            bind_group,
        ) {
            Err(error) => Err(error),
            Ok(bind_group) => in_render(state.set_bind_group(encoder, index, bind_group)),
        },
        OwnedCommand::SetPushConstants { stages, offset, data } => in_render(
            state.set_push_constants(encoder, stages, offset, data@),
        ),
        OwnedCommand::SetVertexBuffer { buffer, offset } => match table.buffer_ref(buffer) {
            Err(error) => Err(error),
            Ok(buffer) => in_render(
                state.bind_vertex_buffer(
                    encoder,
                    0,
                    buffer,
                    offset,
                    CommandView::SetVertexBuffer { buffer, offset },
                ),
            ),
        },
        OwnedCommand::SetVertexBufferSlot { slot, buffer, offset } => match table.buffer_ref(
            buffer,
        ) {
            Err(error) => Err(error),
            Ok(buffer) => in_render(
                state.bind_vertex_buffer(
                    encoder,
                    slot,
                    buffer,
                    offset,
                    CommandView::SetVertexBufferSlot { slot, buffer, offset },
                ),
            ),
        },
        OwnedCommand::SetIndexBuffer { buffer, offset, format } => match table.buffer_ref(
            buffer,
        ) {
            Err(error) => Err(error),
            Ok(buffer) => in_render(state.set_index_buffer(encoder, buffer, offset, format)),
        },
        OwnedCommand::SetTexture(texture) => match table.texture_ref(texture) {
            Err(error) => Err(error),
            Ok(texture) => in_render(state.set_texture(encoder, texture)),
        },
        OwnedCommand::SetSampler(sampler) => match table.sampler_ref(sampler) {
            Err(error) => Err(error),
            Ok(sampler) => in_render(state.set_sampler(encoder, sampler)),
        },
        OwnedCommand::SetUniforms(uniforms) => in_render(state.set_uniforms(encoder, uniforms)),
        OwnedCommand::SetScissor(scissor) => in_render(state.set_scissor(encoder, scissor)),
        OwnedCommand::SetViewport(viewport) => in_render(state.set_viewport(encoder, viewport)),
        OwnedCommand::Draw { vertex_count, first_vertex } => in_render(
            state.draw(
                encoder,
                (DrawShape { count: vertex_count, first: first_vertex, indexed: false }),
                CommandView::Draw { vertex_count, first_vertex },
            ),
        ),
        OwnedCommand::DrawInstanced {
            vertex_count,
            first_vertex,
            instance_count,
            first_instance,
        } => in_render(
            state.draw_instances(
                encoder,
                (DrawShape { count: vertex_count, first: first_vertex, indexed: false }),
                instance_count,
                first_instance,
                CommandView::DrawInstanced {
                    vertex_count,
                    first_vertex,
                    instance_count,
                    first_instance,
                },
            ),
        ),
        OwnedCommand::DrawIndexed { index_count, first_index, base_vertex } => in_render(
            state.draw(
                encoder,
                (DrawShape { count: index_count, first: first_index, indexed: true }),
                CommandView::DrawIndexed { index_count, first_index, base_vertex },
            ),
        ),
        OwnedCommand::DrawIndexedInstanced {
            index_count,
            first_index,
            base_vertex,
            instance_count,
            first_instance,
        } => in_render(
            state.draw_instances(
                encoder,
                (DrawShape { count: index_count, first: first_index, indexed: true }),
                instance_count,
                first_instance,
                CommandView::DrawIndexedInstanced {
                    index_count,
                    first_index,
                    base_vertex,
                    instance_count,
                    first_instance,
                },
            ),
        ),
        _ => Err(Error::InvalidDescriptor),
    }
}

/// Replay one command in a compute pass.
#[verifier::opaque]
pub open spec fn replay_compute(
    encoder: EncoderView,
    state: ComputeStateView,
    command: OwnedCommand,
) -> Result<ReplayView, Error> {
    let table = encoder.resources;
    match command {
        OwnedCommand::EndComputePass => outside(encoder.end_pass(CommandView::EndComputePass)),
        OwnedCommand::SetComputePipeline(pipeline) => match table.compute_pipeline_ref(pipeline) {
            Err(error) => Err(error),
            Ok(pipeline) => in_compute(state.set_pipeline(encoder, pipeline)),
        },
        OwnedCommand::SetBindGroup { index, bind_group } => match table.bind_group_ref(
            bind_group,
        ) {
            Err(error) => Err(error),
            Ok(bind_group) => in_compute(state.set_bind_group(encoder, index, bind_group)),
        },
        OwnedCommand::SetPushConstants { stages, offset, data } => in_compute(
            state.set_push_constants(encoder, stages, offset, data@),
        ),
        OwnedCommand::Dispatch { x, y, z } => in_compute(state.dispatch(encoder, x, y, z)),
        _ => Err(Error::InvalidDescriptor),
    }
}

/// Replay one command.
pub open spec fn replay_step(at: ReplayView, command: OwnedCommand) -> Result<ReplayView, Error> {
    match at {
        ReplayView::Outside(encoder) => replay_outside(encoder, command),
        ReplayView::Render(encoder, state) => replay_render(encoder, state, command),
        ReplayView::Compute(encoder, state) => replay_compute(encoder, state, command),
    }
}

/// Replay the first `count` commands against a table.
pub open spec fn replay(table: TableView, commands: Seq<OwnedCommand>, count: nat) -> Result<
    ReplayView,
    Error,
>
    decreases count,
{
    if count == 0 {
        Ok(ReplayView::Outside(EncoderView::initial(table)))
    } else {
        match replay(table, commands, (count - 1) as nat) {
            Err(error) => Err(error),
            Ok(at) => replay_step(at, commands[count - 1]),
        }
    }
}

/// The command buffer that a replay leads to, once no pass is left open.
pub open spec fn closed_buffer(at: Result<ReplayView, Error>) -> Result<CommandBufferView, Error> {
    match at {
        Err(error) => Err(error),
        Ok(ReplayView::Outside(encoder)) => Ok(
            CommandBufferView { resources: encoder.resources, commands: encoder.commands },
        ),
        Ok(_) => Err(Error::InvalidDescriptor),
    }
}

/// The command buffer that a recording becomes: every command replays, and no
/// pass is left open.
pub open spec fn replayed(table: TableView, commands: Seq<OwnedCommand>) -> Result<
    CommandBufferView,
    Error,
> {
    closed_buffer(replay(table, commands, commands.len()))
}

/// The color attachment that an owned one becomes.
pub open spec fn borrowed_color(color: OwnedColorAttachment) -> ColorAttachment {
    ColorAttachment { target: color.target.reference(), load: color.load, store: color.store }
}

/// The pass descriptor that an owned one becomes, with further color attachments.
pub open spec fn borrowed_pass(
    desc: OwnedRenderPassDesc,
    colors: Seq<OwnedColorAttachment>,
    read_only_depth: bool,
) -> RenderPassView {
    RenderPassView {
        area: desc.area,
        colors: seq![
            ColorAttachment {
                target: desc.target.reference(),
                load: desc.load,
                store: desc.store,
            },
        ] + Seq::new(colors.len(), |i: int| borrowed_color(colors[i])),
        depth: match desc.depth {
            None => None,
            Some(depth) => Some(
                DepthAttachment {
                    target: depth.target.reference(),
                    load: depth.load,
                    store: depth.store,
                    read_only: read_only_depth,
                },
            ),
        },
    }
}

/// The barrier that an owned one becomes.
pub open spec fn borrowed_barrier(barrier: OwnedResourceBarrier) -> ResourceBarrier {
    match barrier {
        OwnedResourceBarrier::Buffer { buffer, before, after } => ResourceBarrier::Buffer {
            buffer: buffer.reference(),
            before,
            after,
        },
        OwnedResourceBarrier::Texture { texture, before, after } => ResourceBarrier::Texture {
            texture: texture.reference(),
            before,
            after,
        },
        OwnedResourceBarrier::TextureMip { texture, mip_level, before, after } =>
            ResourceBarrier::TextureMip { texture: texture.reference(), mip_level, before, after },
    }
}

/// The command that an owned one becomes: the same values, with the reference of
/// each identity and the owned bytes.
pub open spec fn borrowed_form(command: OwnedCommand) -> CommandView {
    match command {
        OwnedCommand::WriteBuffer { buffer, offset, data } => CommandView::WriteBuffer {
            buffer: buffer.reference(),
            offset,
            data: data@,
        },
        OwnedCommand::WriteTexture { texture, destination, bytes_per_row, data } =>
            CommandView::WriteTexture {
                texture: texture.reference(),
                write: TextureWriteView {
                    destination,
                    bytes_per_row,
                    data: data@,
                    mip_level: 0,
                    array_layer: 0,
                },
            },
        OwnedCommand::WriteTextureLayer {
            texture,
            mip_level,
            array_layer,
            destination,
            bytes_per_row,
            data,
        } => CommandView::WriteTexture {
            texture: texture.reference(),
            write: TextureWriteView {
                destination,
                bytes_per_row,
                data: data@,
                mip_level,
                array_layer,
            },
        },
        OwnedCommand::CopyBufferToBuffer {
            source,
            source_offset,
            destination,
            destination_offset,
            size,
        } => CommandView::CopyBufferToBuffer {
            source: source.reference(),
            source_offset,
            destination: destination.reference(),
            destination_offset,
            size,
        },
        OwnedCommand::CopyTextureToTexture {
            source,
            source_rect,
            destination,
            destination_rect,
        } => CommandView::CopyTextureToTexture {
            source: source.reference(),
            source_rect,
            destination: destination.reference(),
            destination_rect,
        },
        OwnedCommand::ResourceBarrier(barrier) => CommandView::ResourceBarrier(
            borrowed_barrier(barrier),
        ),
        OwnedCommand::BeginRenderPass(desc) => CommandView::BeginRenderPass(
            borrowed_pass(desc, Seq::empty(), false),
        ),
        OwnedCommand::BeginRenderPassWithAttachments { desc, colors, read_only_depth } =>
            CommandView::BeginRenderPass(borrowed_pass(desc, colors@, read_only_depth)),
        OwnedCommand::EndRenderPass => CommandView::EndRenderPass,
        OwnedCommand::SetPipeline(pipeline) => CommandView::SetPipeline(pipeline.reference()),
        OwnedCommand::SetProgrammablePipeline(pipeline) => CommandView::SetProgrammablePipeline(
            pipeline.reference(),
        ),
        OwnedCommand::SetBindGroup { index, bind_group } => CommandView::SetBindGroup {
            index,
            bind_group: bind_group.reference(),
        },
        OwnedCommand::SetPushConstants { stages, offset, data } => CommandView::SetPushConstants {
            stages,
            offset,
            data: data@,
        },
        OwnedCommand::SetVertexBuffer { buffer, offset } => CommandView::SetVertexBuffer {
            buffer: buffer.reference(),
            offset,
        },
        OwnedCommand::SetVertexBufferSlot { slot, buffer, offset } =>
            CommandView::SetVertexBufferSlot { slot, buffer: buffer.reference(), offset },
        OwnedCommand::SetIndexBuffer { buffer, offset, format } => CommandView::SetIndexBuffer {
            buffer: buffer.reference(),
            offset,
            format,
        },
        OwnedCommand::SetTexture(texture) => CommandView::SetTexture(texture.reference()),
        OwnedCommand::SetSampler(sampler) => CommandView::SetSampler(sampler.reference()),
        OwnedCommand::SetUniforms(uniforms) => CommandView::SetUniforms(uniforms),
        OwnedCommand::SetScissor(scissor) => CommandView::SetScissor(scissor),
        OwnedCommand::SetViewport(viewport) => CommandView::SetViewport(viewport),
        OwnedCommand::Draw { vertex_count, first_vertex } => CommandView::Draw {
            vertex_count,
            first_vertex,
        },
        OwnedCommand::DrawInstanced {
            vertex_count,
            first_vertex,
            instance_count,
            first_instance,
        } => CommandView::DrawInstanced {
            vertex_count,
            first_vertex,
            instance_count,
            first_instance,
        },
        OwnedCommand::DrawIndexed { index_count, first_index, base_vertex } =>
            CommandView::DrawIndexed { index_count, first_index, base_vertex },
        OwnedCommand::DrawIndexedInstanced {
            index_count,
            first_index,
            base_vertex,
            instance_count,
            first_instance,
        } => CommandView::DrawIndexedInstanced {
            index_count,
            first_index,
            base_vertex,
            instance_count,
            first_instance,
        },
        OwnedCommand::BeginComputePass => CommandView::BeginComputePass,
        OwnedCommand::EndComputePass => CommandView::EndComputePass,
        OwnedCommand::SetComputePipeline(pipeline) => CommandView::SetComputePipeline(
            pipeline.reference(),
        ),
        OwnedCommand::Dispatch { x, y, z } => CommandView::Dispatch { x, y, z },
    }
}

/// The commands that owned ones become.
pub open spec fn borrowed_forms(commands: Seq<OwnedCommand>) -> Seq<CommandView> {
    Seq::new(commands.len(), |i: int| borrowed_form(commands[i]))
}

/// Adding color attachments appends their borrowed forms.
proof fn lemma_colors_borrowed(
    table: TableView,
    desc: RenderPassView,
    colors: Seq<OwnedColorAttachment>,
    count: nat,
)
    requires
        count <= colors.len(),
    ensures
        with_colors(table, desc, colors, count) matches Ok(result) ==> result == (RenderPassView {
            colors: desc.colors + Seq::new(count, |i: int| borrowed_color(colors[i])),
            ..desc
        }),
    decreases count,
{
    let forms = Seq::new(count, |i: int| borrowed_color(colors[i]));
    if count == 0 {
        assert(desc.colors + forms =~= desc.colors);
    } else {
        let fewer = (count - 1) as nat;
        lemma_colors_borrowed(table, desc, colors, fewer);
        let less = Seq::new(fewer, |i: int| borrowed_color(colors[i]));
        assert((desc.colors + less).push(borrowed_color(colors[count - 1])) =~= desc.colors
            + forms);
    }
}

/// A descriptor that resolves becomes its borrowed form.
pub proof fn lemma_passes_borrowed(
    table: TableView,
    desc: OwnedRenderPassDesc,
    colors: Seq<OwnedColorAttachment>,
    read_only_depth: bool,
)
    ensures
        desc.resolved(table) matches Ok(result) ==> result == borrowed_pass(
            desc,
            Seq::empty(),
            false,
        ),
        resolved_attachments(table, desc, colors, read_only_depth) matches Ok(result) ==> result
            == borrowed_pass(desc, colors, read_only_depth),
{
    if desc.resolved(table) is Ok {
        let first = desc.resolved(table)->Ok_0;
        assert(first.colors =~= borrowed_pass(desc, Seq::empty(), false).colors);
        lemma_colors_borrowed(table, first, colors, colors.len());
        assert(first.colors + Seq::new(colors.len(), |i: int| borrowed_color(colors[i]))
            =~= borrowed_pass(desc, colors, read_only_depth).colors);
    }
}

/// Replay the first `count` commands against a table, where room for each is granted
/// or refused as listed.
pub open spec fn replay_answered(
    table: TableView,
    commands: Seq<OwnedCommand>,
    answers: Seq<bool>,
    count: nat,
) -> Result<ReplayView, Error>
    decreases count,
{
    if count == 0 {
        Ok(ReplayView::Outside(EncoderView::initial(table)))
    } else {
        match replay_answered(table, commands, answers, (count - 1) as nat) {
            Err(error) => Err(error),
            Ok(at) => crate::memory::answered(
                replay_step(at, commands[count - 1]),
                answers[count - 1],
                Error::OutOfMemory,
            ),
        }
    }
}

/// The command buffer that a recording becomes, where room for each command is
/// granted or refused as listed.
pub open spec fn replayed_answered(
    table: TableView,
    commands: Seq<OwnedCommand>,
    answers: Seq<bool>,
) -> Result<CommandBufferView, Error> {
    closed_buffer(replay_answered(table, commands, answers, commands.len()))
}

/// Whether a recording may become a buffer or fail, with some answers to its
/// requests for room.
pub open spec fn replays_to(
    table: TableView,
    commands: Seq<OwnedCommand>,
    memory: Memory,
    outcome: Result<CommandBufferView, Error>,
) -> bool {
    exists|answers: Seq<bool>|
        answers.len() == commands.len() && memory.may_answer(answers)
            && #[trigger] replayed_answered(table, commands, answers) == outcome
}

/// What a result of a command buffer holds.
pub open spec fn buffer_outcome(result: Result<CommandBuffer<'_, '_>, Error>) -> Result<
    CommandBufferView,
    Error,
> {
    match result {
        Ok(buffer) => Ok(buffer@),
        Err(error) => Err(error),
    }
}

proof fn lemma_granted_replay(
    table: TableView,
    commands: Seq<OwnedCommand>,
    answers: Seq<bool>,
    count: nat,
)
    requires
        forall|i: int| 0 <= i < count ==> #[trigger] answers[i],
    ensures
        replay_answered(table, commands, answers, count) == replay(table, commands, count),
    decreases count,
{
    if count > 0 {
        lemma_granted_replay(table, commands, answers, (count - 1) as nat);
        assert(answers[count - 1]);
    }
}

proof fn lemma_answered_failure_persists(
    table: TableView,
    commands: Seq<OwnedCommand>,
    answers: Seq<bool>,
    count: nat,
)
    requires
        count <= commands.len(),
        replay_answered(table, commands, answers, count) is Err,
    ensures
        replay_answered(table, commands, answers, commands.len()) == replay_answered(
            table,
            commands,
            answers,
            count,
        ),
    decreases commands.len() - count,
{
    if count < commands.len() {
        lemma_answered_failure_persists(table, commands, answers, count + 1);
    }
}

/// Where all room is granted, a recording becomes the buffer of its replay, or fails
/// as that does. The first command that is accepted and refused room makes the
/// recording fail for want of memory.
pub proof fn law_answers_decide_recordings(
    table: TableView,
    commands: Seq<OwnedCommand>,
    answers: Seq<bool>,
)
    requires
        answers.len() == commands.len(),
    ensures
        (forall|i: int| 0 <= i < answers.len() ==> #[trigger] answers[i]) ==> replayed_answered(
            table,
            commands,
            answers,
        ) == replayed(table, commands),
        forall|at: nat|
            at < commands.len() && !(#[trigger] answers[at as int]) && (forall|i: int|
                0 <= i < at ==> #[trigger] answers[i]) && replay(table, commands, at + 1) is Ok
                ==> replayed_answered(table, commands, answers) == Err::<CommandBufferView, Error>(
                Error::OutOfMemory,
            ),
{
    if forall|i: int| 0 <= i < answers.len() ==> #[trigger] answers[i] {
        lemma_granted_replay(table, commands, answers, commands.len());
    }
    assert forall|at: nat|
        at < commands.len() && !(#[trigger] answers[at as int]) && (forall|i: int|
            0 <= i < at ==> #[trigger] answers[i]) && replay(
            table,
            commands,
            at + 1,
        ) is Ok implies replayed_answered(table, commands, answers) == Err::<
        CommandBufferView,
        Error,
    >(Error::OutOfMemory) by {
        lemma_granted_replay(table, commands, answers, at);
        lemma_answered_failure_persists(table, commands, answers, at + 1);
    }
}

proof fn lemma_answered_success(
    table: TableView,
    commands: Seq<OwnedCommand>,
    answers: Seq<bool>,
    count: nat,
)
    ensures
        replay_answered(table, commands, answers, count) is Ok ==> replay_answered(
            table,
            commands,
            answers,
            count,
        ) == replay(table, commands, count),
    decreases count,
{
    if count > 0 {
        lemma_answered_success(table, commands, answers, (count - 1) as nat);
    }
}

/// A recording that was recorded once is recorded again, wherever its requests for
/// room are granted, and every time it succeeds it becomes the same buffer.
pub proof fn law_recordings_can_be_repeated(
    table: TableView,
    commands: Seq<OwnedCommand>,
    memory: Memory,
    first: CommandBufferView,
    later: Memory,
    second: Result<CommandBufferView, Error>,
)
    requires
        replays_to(table, commands, memory, Ok(first)),
        replays_to(table, commands, later, second),
    ensures
        later == Memory::Fixed(true) ==> second == Ok::<CommandBufferView, Error>(first),
        second is Ok ==> second == Ok::<CommandBufferView, Error>(first),
        first.commands == borrowed_forms(commands),
{
    let answers = choose|answers: Seq<bool>|
        answers.len() == commands.len() && memory.may_answer(answers)
            && #[trigger] replayed_answered(table, commands, answers) == Ok::<
            CommandBufferView,
            Error,
        >(first);
    lemma_answered_success(table, commands, answers, commands.len());
    crate::ir::recording::law_replays_record_borrowed_forms(table, commands);
    let others = choose|others: Seq<bool>|
        others.len() == commands.len() && later.may_answer(others)
            && #[trigger] replayed_answered(table, commands, others) == second;
    lemma_answered_success(table, commands, others, commands.len());
    if later == Memory::Fixed(true) {
        assert forall|i: int| 0 <= i < others.len() implies #[trigger] others[i] by {
            assert(later.may(others[i]));
        }
        law_answers_decide_recordings(table, commands, others);
    }
}

/// Whether the command at a position fails, by itself or for want of room, after the
/// ones before it were recorded.
spec fn fails_at(
    table: TableView,
    commands: Seq<OwnedCommand>,
    memory: Memory,
    at: nat,
    error: Error,
) -> bool {
    &&& at < commands.len()
    &&& at > 0 ==> memory.may(true)
    &&& replay(table, commands, at) is Ok
    &&& match replay(table, commands, at + 1) {
        Err(expected) => error == expected,
        Ok(_) => error == Error::OutOfMemory && memory.may(false),
    }
}

/// Whether replaying fails at one of the commands, or leaves a pass open.
spec fn fails(
    table: TableView,
    commands: Seq<OwnedCommand>,
    memory: Memory,
    error: Error,
) -> bool {
    ||| exists|at: nat| fails_at(table, commands, memory, at, error)
    ||| memory.may(true) && replay(table, commands, commands.len()) is Ok && replayed(
        table,
        commands,
    ) == Err::<CommandBufferView, Error>(error)
}

/// Answers that grant room up to a position.
spec fn granted_up_to(length: nat, at: nat, later: bool) -> Seq<bool> {
    Seq::new(length, |i: int| i < at || later)
}

proof fn lemma_failures_are_answered(
    table: TableView,
    commands: Seq<OwnedCommand>,
    memory: Memory,
    error: Error,
)
    requires
        fails(table, commands, memory, error),
    ensures
        replays_to(table, commands, memory, Err(error)),
        memory == Memory::Fixed(true) ==> replayed(table, commands) == Err::<
            CommandBufferView,
            Error,
        >(error),
{
    if exists|at: nat| fails_at(table, commands, memory, at, error) {
        let at = choose|at: nat| fails_at(table, commands, memory, at, error);
        let later = if replay(table, commands, at + 1) is Ok {
            false
        } else {
            memory.may(true)
        };
        let answers = granted_up_to(commands.len(), at, later);
        lemma_granted_replay(table, commands, answers, at);
        assert(answers[at as int] == later);
        lemma_answered_failure_persists(table, commands, answers, at + 1);
        assert(replayed_answered(table, commands, answers) == Err::<CommandBufferView, Error>(
            error,
        ));
        if replay(table, commands, at + 1) is Err {
            lemma_replay_failure_persists(table, commands, at + 1);
        }
    } else {
        lemma_granted_buffers(table, commands, memory);
    }
}

proof fn lemma_granted_buffers(table: TableView, commands: Seq<OwnedCommand>, memory: Memory)
    requires
        commands.len() > 0 ==> memory.may(true),
    ensures
        replays_to(table, commands, memory, replayed(table, commands)),
{
    let answers = granted_up_to(commands.len(), commands.len(), true);
    lemma_granted_replay(table, commands, answers, commands.len());
    assert(replayed_answered(table, commands, answers) == replayed(table, commands));
}

/// Beginning a render pass.
proof fn lemma_begin_render(encoder: EncoderView, desc: OwnedRenderPassDesc)
    ensures
        replay_outside(encoder, OwnedCommand::BeginRenderPass(desc)) == replay_begin(
            encoder,
            desc.resolved(encoder.resources),
        ),
{
    reveal(replay_outside);
}

/// Beginning a render pass with several attachments.
proof fn lemma_begin_attachments(
    encoder: EncoderView,
    desc: OwnedRenderPassDesc,
    colors: Vec<OwnedColorAttachment>,
    read_only_depth: bool,
)
    ensures
        replay_outside(
            encoder,
            OwnedCommand::BeginRenderPassWithAttachments { desc, colors, read_only_depth },
        ) == replay_begin(
            encoder,
            resolved_attachments(encoder.resources, desc, colors@, read_only_depth),
        ),
{
    reveal(replay_outside);
}

/// Beginning a compute pass.
proof fn lemma_begin_compute(encoder: EncoderView)
    ensures
        replay_outside(encoder, OwnedCommand::BeginComputePass) == in_compute(
            encoder.begin_compute_pass(),
        ),
{
    reveal(replay_outside);
}

/// Ending a render pass.
proof fn lemma_end_render(encoder: EncoderView, state: RenderStateView)
    ensures
        replay_render(encoder, state, OwnedCommand::EndRenderPass) == outside(
            encoder.end_pass(CommandView::EndRenderPass),
        ),
{
    reveal(replay_render);
}

/// Ending a compute pass.
proof fn lemma_end_compute(encoder: EncoderView, state: ComputeStateView)
    ensures
        replay_compute(encoder, state, OwnedCommand::EndComputePass) == outside(
            encoder.end_pass(CommandView::EndComputePass),
        ),
{
    reveal(replay_compute);
}

/// A failure of the first commands is a failure of all.
proof fn lemma_replay_failure_persists(
    table: TableView,
    commands: Seq<OwnedCommand>,
    count: nat,
)
    requires
        count <= commands.len(),
        replay(table, commands, count) is Err,
    ensures
        replay(table, commands, commands.len()) == replay(table, commands, count),
    decreases commands.len() - count,
{
    if count < commands.len() {
        lemma_replay_failure_persists(table, commands, count + 1);
    }
}

/// An immutable, owned command recording that can be validated and replayed.
///
/// Construction retains the commands without validating them. A backend must
/// consume the validated `CommandBuffer` returned by `record`, rather than
/// executing the raw commands returned by `commands`.
#[derive(Debug, Clone)]
pub struct OwnedCommandBuffer {
    commands: Vec<OwnedCommand>,
}

impl View for OwnedCommandBuffer {
    type V = Seq<OwnedCommand>;

    closed spec fn view(&self) -> Seq<OwnedCommand> {
        self.commands@
    }
}

impl Default for OwnedCommandBuffer {
    fn default() -> (r: Self)
        ensures
            r@ == Seq::<OwnedCommand>::empty(),
    {
        Self { commands: Vec::new() }
    }
}

impl OwnedCommandBuffer {
    /// Retain an owned command sequence for later validation and replay.
    pub fn new(commands: Vec<OwnedCommand>) -> (r: Self)
        ensures
            r@ == commands@,
    {
        Self { commands }
    }

    /// Return the immutable, unvalidated command sequence.
    pub fn commands(&self) -> (r: &[OwnedCommand])
        ensures
            r@ == self@,
    {
        self.commands.as_slice()
    }

    /// Return the number of commands retained by this recording.
    pub fn command_count(&self) -> (r: usize)
        ensures
            r == self@.len(),
    {
        self.commands.len()
    }

    /// Return whether the recording contains no commands.
    pub fn is_empty(&self) -> (r: bool)
        ensures
            r == (self@.len() == 0),
    {
        self.commands.is_empty()
    }

    /// Validate this recording using the canonical borrowed command encoder.
    ///
    /// No backend work is performed. Errors are the same as those of `record`.
    pub fn validate(&self, resources: &ResourceTable) -> (r: Result<(), Error>)
        ensures
            match r {
                Ok(()) => replayed(resources@, self@) is Ok,
                Err(error) => replays_to(resources@, self@, Memory::System, Err(error)),
            },
            self@.len() == 0 ==> r is Ok,
    {
        self.validate_with(resources, Memory::System)
    }

    /// Validate this recording, where requests for room are answered as given.
    pub fn validate_with(&self, resources: &ResourceTable, memory: Memory) -> (r: Result<
        (),
        Error,
    >)
        ensures
            match r {
                Ok(()) => replayed(resources@, self@) is Ok && (self@.len() > 0 ==> memory.may(
                    true,
                )),
                Err(error) => replays_to(resources@, self@, memory, Err(error)),
            },
            memory == Memory::Fixed(true) ==> r == (match replayed(resources@, self@) {
                Ok(_) => Ok::<(), Error>(()),
                Err(error) => Err(error),
            }),
            self@.len() == 0 ==> r is Ok,
    {
        match self.record_with(resources, memory) {
            Ok(_) => Ok(()),
            Err(error) => Err(error),
        }
    }

    /// Resolve resource identities and record a validated borrowed buffer.
    ///
    /// Resource ownership, usage, bounds, pipeline state, bindings, and command
    /// capacity are checked by `CommandEncoder` and its pass encoders. An
    /// unmatched or incorrectly nested pass command is rejected with
    /// `Error::InvalidDescriptor`. Upload bytes borrow this recording, while
    /// the buffer borrows `resources`; neither is copied or extended.
    pub fn record<'r, 'data>(&'data self, resources: &'r ResourceTable) -> (r: Result<
        CommandBuffer<'r, 'data>,
        Error,
    >)
        ensures
            replays_to(resources@, self@, Memory::System, buffer_outcome(r)),
            r matches Ok(buffer) ==> replayed(resources@, self@) == Ok::<CommandBufferView, Error>(
                buffer@,
            ) && buffer@.consistent() && buffer@.commands == borrowed_forms(self@),
            self@.len() == 0 ==> r is Ok,
    {
        self.record_with(resources, Memory::System)
    }

    /// Record a validated borrowed buffer, where requests for room are answered as
    /// given. Where all are granted, the outcome is that of the replay.
    pub fn record_with<'r, 'data>(&'data self, resources: &'r ResourceTable, memory: Memory) -> (r:
        Result<CommandBuffer<'r, 'data>, Error>)
        ensures
            replays_to(resources@, self@, memory, buffer_outcome(r)),
            memory == Memory::Fixed(true) ==> buffer_outcome(r) == replayed(resources@, self@),
            r matches Ok(buffer) ==> replayed(resources@, self@) == Ok::<CommandBufferView, Error>(
                buffer@,
            ) && buffer@.consistent() && buffer@.commands == borrowed_forms(self@) && (self@.len()
                > 0 ==> memory.may(true)),
            self@.len() == 0 ==> r is Ok,
    {
        proof {
            crate::ir::recording::law_replayed_buffers_are_consistent(resources@, self@);
            crate::ir::recording::law_replays_record_borrowed_forms(resources@, self@);
        }
        let mut encoder = CommandEncoder::with_memory(resources, memory);
        let mut next: usize = 0;
        while next < self.commands.len()
            invariant
                next <= self.commands@.len(),
                self@ == self.commands@,
                next > 0 ==> memory.may(true),
                encoder.memory() == memory,
                encoder@.resources == resources@,
                !encoder@.pass_open,
                replay(resources@, self@, next as nat) == Ok::<ReplayView, Error>(
                    ReplayView::Outside(encoder@),
                ),
            decreases self.commands@.len() - next,
        {
            match self.replay_next(&mut encoder, resources, next) {
                Ok(after) => {
                    next = after;
                },
                Err(error) => {
                    proof {
                        lemma_failures_are_answered(resources@, self@, memory, error);
                    }
                    return Err(error);
                },
            }
        }
        proof {
            lemma_granted_buffers(resources@, self@, memory);
        }
        encoder.finish()
    }

    /// Replay the command at a position outside passes, with the whole pass
    /// where it begins one. Returns the position after it.
    fn replay_next<'r, 'data>(
        &'data self,
        encoder: &mut CommandEncoder<'r, 'data>,
        resources: &'r ResourceTable,
        at: usize,
    ) -> (r: Result<usize, Error>)
        requires
            at < self@.len(),
            old(encoder)@.resources == resources@,
            !old(encoder)@.pass_open,
            at > 0 ==> old(encoder).memory().may(true),
            replay(resources@, self@, at as nat) == Ok::<ReplayView, Error>(
                ReplayView::Outside(old(encoder)@),
            ),
        ensures
            match r {
                Ok(after) => at < after <= self@.len() && final(encoder)@.resources == resources@
                    && !final(encoder)@.pass_open && final(encoder).memory()
                    == old(encoder).memory() && old(encoder).memory().may(true) && replay(
                        resources@,
                        self@,
                        after as nat,
                    ) == Ok::<ReplayView, Error>(
                    ReplayView::Outside(final(encoder)@),
                ),
                Err(error) => fails(resources@, self@, old(encoder).memory(), error),
            },
    {
        let ghost memory = encoder.memory();
        assert(at < self.commands.len());
        match &self.commands[at] {
            OwnedCommand::BeginRenderPass(desc) => {
                proof {
                    lemma_begin_render(encoder@, *desc);
                }
                let desc = match desc.resolve(resources) {
                    Ok(desc) => desc,
                    Err(error) => {
                        assert(fails_at(resources@, self@, memory, at as nat, error));
                        return Err(error);
                    },
                };
                self.replay_render_pass(encoder, resources, at, desc)
            },
            OwnedCommand::BeginRenderPassWithAttachments { desc, colors, read_only_depth } => {
                proof {
                    lemma_begin_attachments(encoder@, *desc, *colors, *read_only_depth);
                }
                let desc = match resolve_attachments(resources, *desc, colors, *read_only_depth) {
                    Ok(desc) => desc,
                    Err(error) => {
                        assert(fails_at(resources@, self@, memory, at as nat, error));
                        return Err(error);
                    },
                };
                self.replay_render_pass(encoder, resources, at, desc)
            },
            OwnedCommand::BeginComputePass => {
                proof {
                    lemma_begin_compute(encoder@);
                }
                self.replay_compute_pass(encoder, resources, at)
            },
            _ => match self.replay_single(encoder, resources, at) {
                Ok(()) => Ok(at + 1),
                Err(error) => {
                    assert(fails_at(resources@, self@, memory, at as nat, error));
                    Err(error)
                },
            },
        }
    }

    /// Replay one command outside passes that does not begin one.
    fn replay_single<'r, 'data>(
        &'data self,
        encoder: &mut CommandEncoder<'r, 'data>,
        resources: &'r ResourceTable,
        at: usize,
    ) -> (r: Result<(), Error>)
        requires
            at < self@.len(),
            old(encoder)@.resources == resources@,
            !old(encoder)@.pass_open,
            !(self@[at as int] is BeginRenderPass),
            !(self@[at as int] is BeginRenderPassWithAttachments),
            !(self@[at as int] is BeginComputePass),
        ensures
            match r {
                Ok(()) => replay_outside(old(encoder)@, self@[at as int]) == Ok::<
                    ReplayView,
                    Error,
                >(ReplayView::Outside(final(encoder)@)) && final(encoder)@.resources
                    == resources@ && !final(encoder)@.pass_open && final(encoder).memory()
                    == old(encoder).memory() && old(encoder).memory().may(true),
                Err(error) => match replay_outside(
                    old(encoder)@,
                    self@[at as int],
                ) {
                    Err(expected) => error == expected,
                    Ok(_) => error == Error::OutOfMemory && old(encoder).memory().may(false),
                },
            },
    {
        proof {
            reveal(replay_outside);
        }
        match &self.commands[at] {
            OwnedCommand::WriteBuffer { buffer, offset, data } => {
                let buffer = match resources.buffer_ref(*buffer) {
                    Ok(buffer) => buffer,
                    Err(error) => return Err(error),
                };
                encoder.write_buffer(buffer, *offset, data.as_slice())
            },
            OwnedCommand::WriteTexture { texture, destination, bytes_per_row, data } => {
                let texture = match resources.texture_ref(*texture) {
                    Ok(texture) => texture,
                    Err(error) => return Err(error),
                };
                let write = match TextureWrite::new(*destination, *bytes_per_row, data.as_slice()) {
                    Ok(write) => write,
                    Err(error) => return Err(error),
                };
                encoder.write_texture(texture, write)
            },
            OwnedCommand::WriteTextureLayer {
                texture,
                mip_level,
                array_layer,
                destination,
                bytes_per_row,
                data,
            } => {
                let texture = match resources.texture_ref(*texture) {
                    Ok(texture) => texture,
                    Err(error) => return Err(error),
                };
                let write = match TextureWrite::new(*destination, *bytes_per_row, data.as_slice()) {
                    Ok(write) => write,
                    Err(error) => return Err(error),
                };
                encoder.write_texture(
                    texture,
                    write.with_mip_level(*mip_level).with_array_layer(*array_layer),
                )
            },
            OwnedCommand::CopyBufferToBuffer {
                source,
                source_offset,
                destination,
                destination_offset,
                size,
            } => {
                let source = match resources.buffer_ref(*source) {
                    Ok(source) => source,
                    Err(error) => return Err(error),
                };
                let destination = match resources.buffer_ref(*destination) {
                    Ok(destination) => destination,
                    Err(error) => return Err(error),
                };
                encoder.copy_buffer_to_buffer(
                    source,
                    *source_offset,
                    destination,
                    *destination_offset,
                    *size,
                )
            },
            OwnedCommand::CopyTextureToTexture {
                source,
                source_rect,
                destination,
                destination_rect,
            } => {
                let source = match resources.texture_ref(*source) {
                    Ok(source) => source,
                    Err(error) => return Err(error),
                };
                let destination = match resources.texture_ref(*destination) {
                    Ok(destination) => destination,
                    Err(error) => return Err(error),
                };
                encoder.copy_texture_to_texture(
                    source,
                    *source_rect,
                    destination,
                    *destination_rect,
                )
            },
            OwnedCommand::ResourceBarrier(barrier) => {
                let barrier = match barrier.resolve(resources) {
                    Ok(barrier) => barrier,
                    Err(error) => return Err(error),
                };
                encoder.resource_barrier(barrier)
            },
            _ => Err(Error::InvalidDescriptor),
        }
    }

    /// Replay a render pass that begins at a position, up to and with its end.
    fn replay_render_pass<'r, 'data>(
        &'data self,
        encoder: &mut CommandEncoder<'r, 'data>,
        resources: &'r ResourceTable,
        at: usize,
        desc: RenderPassDesc,
    ) -> (r: Result<usize, Error>)
        requires
            at < self@.len(),
            old(encoder)@.resources == resources@,
            !old(encoder)@.pass_open,
            at > 0 ==> old(encoder).memory().may(true),
            replay(resources@, self@, at as nat) is Ok,
            replay(resources@, self@, (at + 1) as nat) == in_render(
                old(encoder)@.begin_render_pass(desc@),
            ),
        ensures
            match r {
                Ok(after) => at < after <= self@.len() && final(encoder)@.resources == resources@
                    && !final(encoder)@.pass_open && final(encoder).memory()
                    == old(encoder).memory() && old(encoder).memory().may(true) && replay(
                        resources@,
                        self@,
                        after as nat,
                    ) == Ok::<ReplayView, Error>(
                    ReplayView::Outside(final(encoder)@),
                ),
                Err(error) => fails(resources@, self@, old(encoder).memory(), error),
            },
    {
        let ghost memory = encoder.memory();
        assert(at < self.commands.len());
        match encoder.begin_render_pass(desc) {
            Ok(pass) => {
                let mut pass = pass;
                match self.replay_render_commands(&mut pass, resources, at + 1) {
                    Ok(end) => {
                        proof {
                            assert(end < self.commands.len());
                            lemma_end_render(pass.encoder@, pass.state@);
                        }
                        match pass.end() {
                        Ok(()) => Ok(end + 1),
                        Err(error) => {
                            assert(fails_at(resources@, self@, memory, end as nat, error));
                            Err(error)
                        },
                    }
                    },
                    Err(error) => Err(error),
                }
            },
            Err(error) => {
                assert(fails_at(resources@, self@, memory, at as nat, error));
                Err(error)
            },
        }
    }

    /// Replay commands in a render pass up to its end. Returns the position of
    /// the end.
    fn replay_render_commands<'encoder, 'r, 'data>(
        &'data self,
        pass: &mut RenderPassEncoder<'encoder, 'r, 'data>,
        resources: &'r ResourceTable,
        start: usize,
    ) -> (r: Result<usize, Error>)
        requires
            start <= self@.len(),
            old(pass).encoder.memory().may(true),
            old(pass).encoder@.resources == resources@,
            replay(resources@, self@, start as nat) == Ok::<ReplayView, Error>(
                ReplayView::Render(old(pass).encoder@, old(pass).state@),
            ),
        ensures
            *final(final(pass).encoder) == *final(old(pass).encoder),
            match r {
                Ok(end) => start <= end < self@.len() && self@[end as int] is EndRenderPass
                    && final(pass).encoder@.resources == resources@ && final(pass).encoder.memory()
                    == old(pass).encoder.memory() && replay(
                    resources@,
                    self@,
                    end as nat,
                ) == Ok::<ReplayView, Error>(
                    ReplayView::Render(final(pass).encoder@, final(pass).state@),
                ),
                Err(error) => fails(resources@, self@, old(pass).encoder.memory(), error),
            },
    {
        let mut next: usize = start;
        while next < self.commands.len()
            invariant
                start <= next <= self.commands@.len(),
                self@ == self.commands@,
                pass.encoder@.resources == resources@,
                pass.encoder.memory() == old(pass).encoder.memory(),
                pass.encoder.memory().may(true),
                *final(pass.encoder) == *final(old(pass).encoder),
                replay(resources@, self@, next as nat) == Ok::<ReplayView, Error>(
                    ReplayView::Render(pass.encoder@, pass.state@),
                ),
            decreases self.commands@.len() - next,
        {
            match &self.commands[next] {
                OwnedCommand::EndRenderPass => return Ok(next),
                _ => {},
            }
            match self.replay_render_command(pass, resources, next) {
                Ok(()) => {},
                Err(error) => {
                    assert(fails_at(
                        resources@,
                        self@,
                        old(pass).encoder.memory(),
                        next as nat,
                        error,
                    ));
                    return Err(error);
                },
            }
            next = next + 1;
        }
        Err(Error::InvalidDescriptor)
    }

    /// Replay one command in a render pass, other than its end.
    fn replay_render_command<'encoder, 'r, 'data>(
        &'data self,
        pass: &mut RenderPassEncoder<'encoder, 'r, 'data>,
        resources: &'r ResourceTable,
        at: usize,
    ) -> (r: Result<(), Error>)
        requires
            at < self@.len(),
            old(pass).encoder@.resources == resources@,
            !(self@[at as int] is EndRenderPass),
        ensures
            *final(final(pass).encoder) == *final(old(pass).encoder),
            match r {
                Ok(()) => replay_render(
                    old(pass).encoder@,
                    old(pass).state@,
                    self@[at as int],
                ) == Ok::<ReplayView, Error>(
                    ReplayView::Render(final(pass).encoder@, final(pass).state@),
                ) && final(pass).encoder@.resources == resources@ && final(pass).encoder.memory()
                    == old(pass).encoder.memory() && old(pass).encoder.memory().may(true),
                Err(error) => match replay_render(
                    old(pass).encoder@,
                    old(pass).state@,
                    self@[at as int],
                ) {
                    Err(expected) => error == expected,
                    Ok(_) => error == Error::OutOfMemory && old(pass).encoder.memory().may(false),
                },
            },
    {
        proof {
            reveal(replay_render);
        }
        match &self.commands[at] {
            OwnedCommand::SetPipeline(pipeline) => {
                let pipeline = match resources.render_pipeline_ref(*pipeline) {
                    Ok(pipeline) => pipeline,
                    Err(error) => return Err(error),
                };
                pass.set_pipeline(pipeline)
            },
            OwnedCommand::SetProgrammablePipeline(pipeline) => {
                let pipeline = match resources.programmable_render_pipeline_ref(*pipeline) {
                    Ok(pipeline) => pipeline,
                    Err(error) => return Err(error),
                };
                pass.set_programmable_pipeline(pipeline)
            },
            OwnedCommand::SetBindGroup { index, bind_group } => {
                let bind_group = match resources.bind_group_ref(*bind_group) {
                    Ok(bind_group) => bind_group,
                    Err(error) => return Err(error),
                };
                pass.set_bind_group(*index, bind_group)
            },
            OwnedCommand::SetPushConstants { stages, offset, data } => {
                pass.set_push_constants(*stages, *offset, data.as_slice())
            },
            OwnedCommand::SetVertexBuffer { buffer, offset } => {
                let buffer = match resources.buffer_ref(*buffer) {
                    Ok(buffer) => buffer,
                    Err(error) => return Err(error),
                };
                pass.set_vertex_buffer(buffer, *offset)
            },
            OwnedCommand::SetVertexBufferSlot { slot, buffer, offset } => {
                let buffer = match resources.buffer_ref(*buffer) {
                    Ok(buffer) => buffer,
                    Err(error) => return Err(error),
                };
                pass.set_vertex_buffer_slot(*slot, buffer, *offset)
            },
            OwnedCommand::SetIndexBuffer { buffer, offset, format } => {
                let buffer = match resources.buffer_ref(*buffer) {
                    Ok(buffer) => buffer,
                    Err(error) => return Err(error),
                };
                pass.set_index_buffer(buffer, *offset, *format)
            },
            OwnedCommand::SetTexture(texture) => {
                let texture = match resources.texture_ref(*texture) {
                    Ok(texture) => texture,
                    Err(error) => return Err(error),
                };
                pass.set_texture(texture)
            },
            OwnedCommand::SetSampler(sampler) => {
                let sampler = match resources.sampler_ref(*sampler) {
                    Ok(sampler) => sampler,
                    Err(error) => return Err(error),
                };
                pass.set_sampler(sampler)
            },
            OwnedCommand::SetUniforms(uniforms) => pass.set_uniforms(*uniforms),
            OwnedCommand::SetScissor(scissor) => pass.set_scissor(*scissor),
            OwnedCommand::SetViewport(viewport) => pass.set_viewport(*viewport),
            OwnedCommand::Draw { .. }
            | OwnedCommand::DrawInstanced { .. }
            | OwnedCommand::DrawIndexed { .. }
            | OwnedCommand::DrawIndexedInstanced { .. } => self.replay_draw(pass, resources, at),
            _ => Err(Error::InvalidDescriptor),
        }
    }

    /// Replay one draw in a render pass.
    fn replay_draw<'encoder, 'r, 'data>(
        &'data self,
        pass: &mut RenderPassEncoder<'encoder, 'r, 'data>,
        resources: &'r ResourceTable,
        at: usize,
    ) -> (r: Result<(), Error>)
        requires
            at < self@.len(),
            old(pass).encoder@.resources == resources@,
            self@[at as int] is Draw || self@[at as int] is DrawInstanced
                || self@[at as int] is DrawIndexed || self@[at as int] is DrawIndexedInstanced,
        ensures
            *final(final(pass).encoder) == *final(old(pass).encoder),
            match r {
                Ok(()) => replay_render(
                    old(pass).encoder@,
                    old(pass).state@,
                    self@[at as int],
                ) == Ok::<ReplayView, Error>(
                    ReplayView::Render(final(pass).encoder@, final(pass).state@),
                ) && final(pass).encoder@.resources == resources@ && final(pass).encoder.memory()
                    == old(pass).encoder.memory() && old(pass).encoder.memory().may(true),
                Err(error) => match replay_render(
                    old(pass).encoder@,
                    old(pass).state@,
                    self@[at as int],
                ) {
                    Err(expected) => error == expected,
                    Ok(_) => error == Error::OutOfMemory && old(pass).encoder.memory().may(false),
                },
            },
    {
        proof {
            reveal(replay_render);
        }
        match &self.commands[at] {
            OwnedCommand::Draw { vertex_count, first_vertex } => {
                pass.draw(*vertex_count, *first_vertex)
            },
            OwnedCommand::DrawInstanced {
                vertex_count,
                first_vertex,
                instance_count,
                first_instance,
            } => pass.draw_instanced(
                *vertex_count,
                *first_vertex,
                *instance_count,
                *first_instance,
            ),
            OwnedCommand::DrawIndexed { index_count, first_index, base_vertex } => {
                pass.draw_indexed(*index_count, *first_index, *base_vertex)
            },
            OwnedCommand::DrawIndexedInstanced {
                index_count,
                first_index,
                base_vertex,
                instance_count,
                first_instance,
            } => pass.draw_indexed_instanced(
                *index_count,
                *first_index,
                *base_vertex,
                *instance_count,
                *first_instance,
            ),
            _ => Err(Error::InvalidDescriptor),
        }
    }

    /// Replay a compute pass that begins at a position, up to and with its end.
    fn replay_compute_pass<'r, 'data>(
        &'data self,
        encoder: &mut CommandEncoder<'r, 'data>,
        resources: &'r ResourceTable,
        at: usize,
    ) -> (r: Result<usize, Error>)
        requires
            at < self@.len(),
            old(encoder)@.resources == resources@,
            !old(encoder)@.pass_open,
            at > 0 ==> old(encoder).memory().may(true),
            replay(resources@, self@, at as nat) is Ok,
            replay(resources@, self@, (at + 1) as nat) == in_compute(
                old(encoder)@.begin_compute_pass(),
            ),
        ensures
            match r {
                Ok(after) => at < after <= self@.len() && final(encoder)@.resources == resources@
                    && !final(encoder)@.pass_open && final(encoder).memory()
                    == old(encoder).memory() && old(encoder).memory().may(true) && replay(
                        resources@,
                        self@,
                        after as nat,
                    ) == Ok::<ReplayView, Error>(
                    ReplayView::Outside(final(encoder)@),
                ),
                Err(error) => fails(resources@, self@, old(encoder).memory(), error),
            },
    {
        let ghost memory = encoder.memory();
        assert(at < self.commands.len());
        match encoder.begin_compute_pass() {
            Ok(pass) => {
                let mut pass = pass;
                match self.replay_compute_commands(&mut pass, resources, at + 1) {
                    Ok(end) => {
                        proof {
                            assert(end < self.commands.len());
                            lemma_end_compute(pass.encoder@, pass.state@);
                        }
                        match pass.end() {
                        Ok(()) => Ok(end + 1),
                        Err(error) => {
                            assert(fails_at(resources@, self@, memory, end as nat, error));
                            Err(error)
                        },
                    }
                    },
                    Err(error) => Err(error),
                }
            },
            Err(error) => {
                assert(fails_at(resources@, self@, memory, at as nat, error));
                Err(error)
            },
        }
    }

    /// Replay commands in a compute pass up to its end. Returns the position of
    /// the end.
    fn replay_compute_commands<'encoder, 'r, 'data>(
        &'data self,
        pass: &mut ComputePassEncoder<'encoder, 'r, 'data>,
        resources: &'r ResourceTable,
        start: usize,
    ) -> (r: Result<usize, Error>)
        requires
            start <= self@.len(),
            old(pass).encoder.memory().may(true),
            old(pass).encoder@.resources == resources@,
            replay(resources@, self@, start as nat) == Ok::<ReplayView, Error>(
                ReplayView::Compute(old(pass).encoder@, old(pass).state@),
            ),
        ensures
            *final(final(pass).encoder) == *final(old(pass).encoder),
            match r {
                Ok(end) => start <= end < self@.len() && self@[end as int] is EndComputePass
                    && final(pass).encoder@.resources == resources@ && final(pass).encoder.memory()
                    == old(pass).encoder.memory() && replay(
                    resources@,
                    self@,
                    end as nat,
                ) == Ok::<ReplayView, Error>(
                    ReplayView::Compute(final(pass).encoder@, final(pass).state@),
                ),
                Err(error) => fails(resources@, self@, old(pass).encoder.memory(), error),
            },
    {
        let mut next: usize = start;
        while next < self.commands.len()
            invariant
                start <= next <= self.commands@.len(),
                self@ == self.commands@,
                pass.encoder@.resources == resources@,
                pass.encoder.memory() == old(pass).encoder.memory(),
                pass.encoder.memory().may(true),
                *final(pass.encoder) == *final(old(pass).encoder),
                replay(resources@, self@, next as nat) == Ok::<ReplayView, Error>(
                    ReplayView::Compute(pass.encoder@, pass.state@),
                ),
            decreases self.commands@.len() - next,
        {
            match &self.commands[next] {
                OwnedCommand::EndComputePass => return Ok(next),
                _ => {},
            }
            match self.replay_compute_command(pass, resources, next) {
                Ok(()) => {},
                Err(error) => {
                    assert(fails_at(
                        resources@,
                        self@,
                        old(pass).encoder.memory(),
                        next as nat,
                        error,
                    ));
                    return Err(error);
                },
            }
            next = next + 1;
        }
        Err(Error::InvalidDescriptor)
    }

    /// Replay one command in a compute pass, other than its end.
    fn replay_compute_command<'encoder, 'r, 'data>(
        &'data self,
        pass: &mut ComputePassEncoder<'encoder, 'r, 'data>,
        resources: &'r ResourceTable,
        at: usize,
    ) -> (r: Result<(), Error>)
        requires
            at < self@.len(),
            old(pass).encoder@.resources == resources@,
            !(self@[at as int] is EndComputePass),
        ensures
            *final(final(pass).encoder) == *final(old(pass).encoder),
            match r {
                Ok(()) => replay_compute(
                    old(pass).encoder@,
                    old(pass).state@,
                    self@[at as int],
                ) == Ok::<ReplayView, Error>(
                    ReplayView::Compute(final(pass).encoder@, final(pass).state@),
                ) && final(pass).encoder@.resources == resources@ && final(pass).encoder.memory()
                    == old(pass).encoder.memory() && old(pass).encoder.memory().may(true),
                Err(error) => match replay_compute(
                    old(pass).encoder@,
                    old(pass).state@,
                    self@[at as int],
                ) {
                    Err(expected) => error == expected,
                    Ok(_) => error == Error::OutOfMemory && old(pass).encoder.memory().may(false),
                },
            },
    {
        proof {
            reveal(replay_compute);
        }
        match &self.commands[at] {
            OwnedCommand::SetComputePipeline(pipeline) => {
                let pipeline = match resources.compute_pipeline_ref(*pipeline) {
                    Ok(pipeline) => pipeline,
                    Err(error) => return Err(error),
                };
                pass.set_pipeline(pipeline)
            },
            OwnedCommand::SetBindGroup { index, bind_group } => {
                let bind_group = match resources.bind_group_ref(*bind_group) {
                    Ok(bind_group) => bind_group,
                    Err(error) => return Err(error),
                };
                pass.set_bind_group(*index, bind_group)
            },
            OwnedCommand::SetPushConstants { stages, offset, data } => {
                pass.set_push_constants(*stages, *offset, data.as_slice())
            },
            OwnedCommand::Dispatch { x, y, z } => pass.dispatch(*x, *y, *z),
            _ => Err(Error::InvalidDescriptor),
        }
    }
}

} // verus!
