//! Validated logical upload, copy, and pass commands.

use crate::ir::access::{Access, AccessTracker, AccessView, ResourcePart};
use crate::ir::pipeline::{DrawUniforms, IndexFormat};
use crate::ir::programmable::{BufferAccess, ResourceBarrier, TextureAccess};
use crate::ir::render_pass::{RenderPassDesc, RenderPassView};
use crate::ir::render_pass_encoder::{RenderPassEncoder, RenderPassState, RenderStateView};
use crate::ir::compute_pass_encoder::{ComputePassEncoder, ComputePassState, ComputeStateView};
use crate::ir::resource::{BufferUsage, TextureUsage, TextureWrite, TextureWriteView};
use crate::ir::shader::ShaderStages;
use crate::ir::table::{
    BindGroupRef, BufferRef, ComputePipelineRef, ProgrammableRenderPipelineRef, RenderPipelineRef,
    ResourceTable, SamplerRef, TableView, TextureRef,
};
use crate::ir::types::{Error, PixelRect, RectView};
use crate::ir::viewport::Viewport;
use crate::memory::Memory;
use vstd::prelude::*;

verus! {

/// Maximum commands retained by one logical command buffer.
pub const MAX_COMMANDS: usize = 4_096;

/// One validated command.
#[allow(inconsistent_fields)]
#[derive(Debug, Clone, Copy)]
pub enum Command<'data> {
    /// Upload borrowed bytes into a buffer.
    WriteBuffer {
        /// Destination buffer.
        buffer: BufferRef,
        /// Destination byte offset.
        offset: u64,
        /// Borrowed source bytes.
        data: &'data [u8],
    },
    /// Upload borrowed pixels into a texture.
    WriteTexture {
        /// Destination texture.
        texture: TextureRef,
        /// Region and borrowed source pixels.
        write: TextureWrite<'data>,
    },
    /// Copy a byte range between buffers.
    CopyBufferToBuffer {
        /// Source buffer.
        source: BufferRef,
        /// Source byte offset.
        source_offset: u64,
        /// Destination buffer.
        destination: BufferRef,
        /// Destination byte offset.
        destination_offset: u64,
        /// Number of bytes.
        size: u64,
    },
    /// Copy equal-sized rectangles between textures.
    CopyTextureToTexture {
        /// Source texture.
        source: TextureRef,
        /// Source rectangle.
        source_rect: PixelRect,
        /// Destination texture.
        destination: TextureRef,
        /// Destination rectangle.
        destination_rect: PixelRect,
    },
    /// Order accesses before and after.
    ResourceBarrier(ResourceBarrier),
    /// Begin a render pass.
    BeginRenderPass(RenderPassDesc),
    /// End the active render pass.
    EndRenderPass,
    /// Bind a fixed render pipeline.
    SetPipeline(RenderPipelineRef),
    /// Bind a programmable render pipeline.
    SetProgrammablePipeline(ProgrammableRenderPipelineRef),
    /// Bind a group for the active pass.
    SetBindGroup {
        /// Pipeline layout group index.
        index: u32,
        /// Bind group.
        bind_group: BindGroupRef,
    },
    /// Update push constants of the bound programmable pipeline.
    SetPushConstants {
        /// Updated stages.
        stages: ShaderStages,
        /// First updated byte.
        offset: u32,
        /// Borrowed bytes.
        data: &'data [u8],
    },
    /// Bind the vertex buffer of slot zero.
    SetVertexBuffer {
        /// Vertex buffer.
        buffer: BufferRef,
        /// Byte offset of the first vertex.
        offset: u64,
    },
    /// Bind a vertex buffer to a slot.
    SetVertexBufferSlot {
        /// Vertex buffer slot.
        slot: u32,
        /// Vertex buffer.
        buffer: BufferRef,
        /// Byte offset of the first vertex.
        offset: u64,
    },
    /// Bind the index buffer.
    SetIndexBuffer {
        /// Index buffer.
        buffer: BufferRef,
        /// Byte offset of the first index.
        offset: u64,
        /// Encoded index width.
        format: IndexFormat,
    },
    /// Bind a sampled texture.
    SetTexture(TextureRef),
    /// Bind a sampler.
    SetSampler(SamplerRef),
    /// Set fixed render pipeline uniforms.
    SetUniforms(DrawUniforms),
    /// Set or reset the scissor rectangle.
    SetScissor(Option<PixelRect>),
    /// Set the viewport.
    SetViewport(Viewport),
    /// Issue a non-indexed draw.
    Draw {
        /// Number of vertices.
        vertex_count: u32,
        /// First vertex relative to the bound buffer.
        first_vertex: u32,
    },
    /// Issue a non-indexed draw of several instances.
    DrawInstanced {
        /// Number of vertices.
        vertex_count: u32,
        /// First vertex relative to the bound buffer.
        first_vertex: u32,
        /// Number of instances.
        instance_count: u32,
        /// First instance.
        first_instance: u32,
    },
    /// Issue an indexed draw.
    DrawIndexed {
        /// Number of indices.
        index_count: u32,
        /// First index relative to the bound buffer.
        first_index: u32,
        /// Signed vertex offset.
        base_vertex: i32,
    },
    /// Issue an indexed draw of several instances.
    DrawIndexedInstanced {
        /// Number of indices.
        index_count: u32,
        /// First index relative to the bound buffer.
        first_index: u32,
        /// Signed vertex offset.
        base_vertex: i32,
        /// Number of instances.
        instance_count: u32,
        /// First instance.
        first_instance: u32,
    },
    /// Begin a compute pass.
    BeginComputePass,
    /// End the active compute pass.
    EndComputePass,
    /// Bind a compute pipeline.
    SetComputePipeline(ComputePipelineRef),
    /// Dispatch workgroups.
    Dispatch {
        /// Workgroup count along the x axis.
        x: u32,
        /// Workgroup count along the y axis.
        y: u32,
        /// Workgroup count along the z axis.
        z: u32,
    },
}

/// The contents of a command.
#[allow(inconsistent_fields)]
#[verifier::ext_equal]
pub enum CommandView {
    WriteBuffer { buffer: BufferRef, offset: u64, data: Seq<u8> },
    WriteTexture { texture: TextureRef, write: TextureWriteView },
    CopyBufferToBuffer {
        source: BufferRef,
        source_offset: u64,
        destination: BufferRef,
        destination_offset: u64,
        size: u64,
    },
    CopyTextureToTexture {
        source: TextureRef,
        source_rect: PixelRect,
        destination: TextureRef,
        destination_rect: PixelRect,
    },
    ResourceBarrier(ResourceBarrier),
    BeginRenderPass(RenderPassView),
    EndRenderPass,
    SetPipeline(RenderPipelineRef),
    SetProgrammablePipeline(ProgrammableRenderPipelineRef),
    SetBindGroup { index: u32, bind_group: BindGroupRef },
    SetPushConstants { stages: ShaderStages, offset: u32, data: Seq<u8> },
    SetVertexBuffer { buffer: BufferRef, offset: u64 },
    SetVertexBufferSlot { slot: u32, buffer: BufferRef, offset: u64 },
    SetIndexBuffer { buffer: BufferRef, offset: u64, format: IndexFormat },
    SetTexture(TextureRef),
    SetSampler(SamplerRef),
    SetUniforms(DrawUniforms),
    SetScissor(Option<PixelRect>),
    SetViewport(Viewport),
    Draw { vertex_count: u32, first_vertex: u32 },
    DrawInstanced {
        vertex_count: u32,
        first_vertex: u32,
        instance_count: u32,
        first_instance: u32,
    },
    DrawIndexed { index_count: u32, first_index: u32, base_vertex: i32 },
    DrawIndexedInstanced {
        index_count: u32,
        first_index: u32,
        base_vertex: i32,
        instance_count: u32,
        first_instance: u32,
    },
    BeginComputePass,
    EndComputePass,
    SetComputePipeline(ComputePipelineRef),
    Dispatch { x: u32, y: u32, z: u32 },
}

impl<'data> View for Command<'data> {
    type V = CommandView;

    open spec fn view(&self) -> CommandView {
        match *self {
            Command::WriteBuffer { buffer, offset, data } => CommandView::WriteBuffer {
                buffer,
                offset,
                data: data@,
            },
            Command::WriteTexture { texture, write } => CommandView::WriteTexture {
                texture,
                write: write@,
            },
            Command::CopyBufferToBuffer {
                source,
                source_offset,
                destination,
                destination_offset,
                size,
            } => CommandView::CopyBufferToBuffer {
                source,
                source_offset,
                destination,
                destination_offset,
                size,
            },
            Command::CopyTextureToTexture {
                source,
                source_rect,
                destination,
                destination_rect,
            } => CommandView::CopyTextureToTexture {
                source,
                source_rect,
                destination,
                destination_rect,
            },
            Command::ResourceBarrier(barrier) => CommandView::ResourceBarrier(barrier),
            Command::BeginRenderPass(desc) => CommandView::BeginRenderPass(desc@),
            Command::EndRenderPass => CommandView::EndRenderPass,
            Command::SetPipeline(pipeline) => CommandView::SetPipeline(pipeline),
            Command::SetProgrammablePipeline(pipeline) => CommandView::SetProgrammablePipeline(pipeline),
            Command::SetBindGroup {
                index,
                bind_group,
            } => CommandView::SetBindGroup { index, bind_group },
            Command::SetPushConstants { stages, offset, data } => CommandView::SetPushConstants {
                stages,
                offset,
                data: data@,
            },
            Command::SetVertexBuffer {
                buffer,
                offset,
            } => CommandView::SetVertexBuffer { buffer, offset },
            Command::SetVertexBufferSlot {
                slot,
                buffer,
                offset,
            } => CommandView::SetVertexBufferSlot { slot, buffer, offset },
            Command::SetIndexBuffer {
                buffer,
                offset,
                format,
            } => CommandView::SetIndexBuffer { buffer, offset, format },
            Command::SetTexture(texture) => CommandView::SetTexture(texture),
            Command::SetSampler(sampler) => CommandView::SetSampler(sampler),
            Command::SetUniforms(uniforms) => CommandView::SetUniforms(uniforms),
            Command::SetScissor(scissor) => CommandView::SetScissor(scissor),
            Command::SetViewport(viewport) => CommandView::SetViewport(viewport),
            Command::Draw {
                vertex_count,
                first_vertex,
            } => CommandView::Draw { vertex_count, first_vertex },
            Command::DrawInstanced {
                vertex_count,
                first_vertex,
                instance_count,
                first_instance,
            } => CommandView::DrawInstanced {
                vertex_count,
                first_vertex,
                instance_count,
                first_instance,
            },
            Command::DrawIndexed {
                index_count,
                first_index,
                base_vertex,
            } => CommandView::DrawIndexed { index_count, first_index, base_vertex },
            Command::DrawIndexedInstanced {
                index_count,
                first_index,
                base_vertex,
                instance_count,
                first_instance,
            } => CommandView::DrawIndexedInstanced {
                index_count,
                first_index,
                base_vertex,
                instance_count,
                first_instance,
            },
            Command::BeginComputePass => CommandView::BeginComputePass,
            Command::EndComputePass => CommandView::EndComputePass,
            Command::SetComputePipeline(pipeline) => CommandView::SetComputePipeline(pipeline),
            Command::Dispatch { x, y, z } => CommandView::Dispatch { x, y, z },
        }
    }
}

/// The contents of commands.
pub open spec fn command_views(commands: Seq<Command<'_>>) -> Seq<CommandView> {
    Seq::new(commands.len(), |i: int| commands[i]@)
}

/// The state of a command encoder: the table, what was recorded, whether a pass
/// is open, and the accesses that await a barrier or were announced by one.
#[verifier::ext_equal]
pub struct EncoderView {
    pub resources: TableView,
    pub commands: Seq<CommandView>,
    pub pass_open: bool,
    pub access: AccessView,
}

/// The outcome of taking `length` bytes from `offset` out of `limit` bytes.
pub open spec fn check_byte_range(offset: int, length: int, limit: int) -> Result<(), Error> {
    if offset + length > u64::MAX {
        Err(Error::Overflow)
    } else if offset + length > limit {
        Err(Error::OutOfBounds)
    } else {
        Ok(())
    }
}

/// Bytes that an upload of rows reads: whole strides for all rows but the last,
/// and of the last only its pixels.
pub open spec fn upload_bytes(write: TextureWriteView, bytes_per_pixel: u32) -> int {
    write.bytes_per_row * (write.destination@.height - 1) + write.destination@.width
        * bytes_per_pixel
}

/// How a recording call relates to what it was asked for: it fails as wanted and
/// changes nothing, or it reaches the wanted state where room for it may be
/// granted, or it fails and changes nothing where room may be refused.
pub open spec fn recorded<S>(
    before: S,
    after: S,
    wanted: Result<S, Error>,
    memory: Memory,
    r: Result<(), Error>,
) -> bool {
    match wanted {
        Err(error) => r == Err::<(), Error>(error) && after == before,
        Ok(next) => (memory.may(true) && r == Ok::<(), Error>(()) && after == next) || (memory.may(
            false,
        ) && r == Err::<(), Error>(Error::OutOfMemory) && after == before),
    }
}

impl EncoderView {
    /// An encoder that recorded nothing.
    pub open spec fn initial(resources: TableView) -> Self {
        EncoderView {
            resources,
            commands: Seq::empty(),
            pass_open: false,
            access: AccessView::empty(),
        }
    }

    /// Commands that may be recorded in all. An open pass keeps a place for its end.
    pub open spec fn capacity(self) -> int {
        if self.pass_open {
            MAX_COMMANDS - 1
        } else {
            MAX_COMMANDS as int
        }
    }

    /// What every reachable encoder keeps: there is room for the end of an open pass.
    pub open spec fn within_limit(self) -> bool {
        self.commands.len() <= self.capacity()
    }

    /// Record a command that uses some parts of resources and writes some.
    pub open spec fn record(
        self,
        command: CommandView,
        used: Set<ResourcePart>,
        written: Set<ResourcePart>,
    ) -> Result<Self, Error> {
        if self.commands.len() >= self.capacity() {
            Err(Error::CommandLimitExceeded)
        } else {
            Ok(
                EncoderView {
                    commands: self.commands.push(command),
                    access: self.access.after_use(used, written),
                    ..self
                },
            )
        }
    }

    /// Record a command that accesses nothing.
    pub open spec fn record_state(self, command: CommandView) -> Result<Self, Error> {
        if self.commands.len() >= self.capacity() {
            Err(Error::CommandLimitExceeded)
        } else {
            Ok(EncoderView { commands: self.commands.push(command), ..self })
        }
    }

    /// Record a command that accesses parts once the access is admitted.
    pub open spec fn record_access(
        self,
        command: CommandView,
        parts: Seq<ResourcePart>,
        access: Access,
    ) -> Result<Self, Error> {
        match self.access.check(parts, access) {
            Err(error) => Err(error),
            Ok(_) => self.record(command, parts.to_set(), Set::empty()),
        }
    }

    /// Upload bytes into a buffer.
    pub open spec fn write_buffer(self, buffer: BufferRef, offset: u64, data: Seq<u8>) -> Result<
        Self,
        Error,
    > {
        if self.pass_open {
            Err(Error::RenderPassActive)
        } else {
            match self.resources.buffer(buffer) {
                Err(error) => Err(error),
                Ok(desc) => if !desc@.usage.allows(BufferUsage::COPY_DST_BIT) {
                    Err(Error::InvalidUsage)
                } else if data.len() == 0 {
                    Err(Error::InvalidValue)
                } else {
                    match check_byte_range(offset as int, data.len() as int, desc@.size as int) {
                        Err(error) => Err(error),
                        Ok(_) => self.record_access(
                            CommandView::WriteBuffer { buffer, offset, data },
                            seq![ResourcePart::Buffer(buffer.id())],
                            Access::Buffer(BufferAccess::CopyDestination),
                        ),
                    }
                },
            }
        }
    }

    /// Upload pixels into a texture.
    pub open spec fn write_texture(self, texture: TextureRef, write: TextureWriteView) -> Result<
        Self,
        Error,
    > {
        if self.pass_open {
            Err(Error::RenderPassActive)
        } else {
            match self.resources.texture(texture) {
                Err(error) => Err(error),
                Ok(desc) => {
                    let tight = write.destination@.width * desc@.format.bytes_per_pixel();
                    if !desc@.usage.allows(TextureUsage::COPY_DST_BIT) {
                        Err(Error::InvalidUsage)
                    } else if write.mip_level >= desc@.mip_level_count || write.array_layer
                        >= desc@.array_layer_count || !write.destination@.within(
                        desc@.mip_extent(write.mip_level as nat),
                    ) {
                        Err(Error::OutOfBounds)
                    } else if tight > u32::MAX {
                        Err(Error::Overflow)
                    } else if write.bytes_per_row < tight {
                        Err(Error::InvalidValue)
                    } else if write.data.len() < upload_bytes(
                        write,
                        desc@.format.bytes_per_pixel(),
                    ) {
                        Err(Error::OutOfBounds)
                    } else {
                        self.record_access(
                            CommandView::WriteTexture { texture, write },
                            seq![ResourcePart::TextureMip(texture.id(), write.mip_level)],
                            Access::Texture(TextureAccess::CopyDestination),
                        )
                    }
                },
            }
        }
    }

    /// Copy bytes between buffers.
    pub open spec fn copy_buffer_to_buffer(
        self,
        source: BufferRef,
        source_offset: u64,
        destination: BufferRef,
        destination_offset: u64,
        size: u64,
    ) -> Result<Self, Error> {
        if self.pass_open {
            Err(Error::RenderPassActive)
        } else {
            match (self.resources.buffer(source), self.resources.buffer(destination)) {
                (Err(error), _) => Err(error),
                (_, Err(error)) => Err(error),
                (Ok(from), Ok(to)) => if !from@.usage.allows(BufferUsage::COPY_SRC_BIT)
                    || !to@.usage.allows(BufferUsage::COPY_DST_BIT) {
                    Err(Error::InvalidUsage)
                } else if size == 0 || source_offset % 4 != 0 || destination_offset % 4 != 0 || size
                    % 4 != 0 {
                    Err(Error::InvalidValue)
                } else {
                    let ranges = crate::ir::table::first_failure(
                        check_byte_range(source_offset as int, size as int, from@.size as int),
                        check_byte_range(destination_offset as int, size as int, to@.size as int),
                    );
                    let from_part = seq![ResourcePart::Buffer(source.id())];
                    let to_part = seq![ResourcePart::Buffer(destination.id())];
                    let accesses = crate::ir::table::first_failure(
                        self.access.check(from_part, Access::Buffer(BufferAccess::CopySource)),
                        self.access.check(to_part, Access::Buffer(BufferAccess::CopyDestination)),
                    );
                    match ranges {
                        Err(error) => Err(error),
                        Ok(_) => if source == destination {
                            Err(Error::ResourceAccessConflict)
                        } else {
                            match accesses {
                                Err(error) => Err(error),
                                Ok(_) => self.record(
                                    CommandView::CopyBufferToBuffer {
                                        source,
                                        source_offset,
                                        destination,
                                        destination_offset,
                                        size,
                                    },
                                    (from_part + to_part).to_set(),
                                    Set::empty(),
                                ),
                            }
                        },
                    }
                },
            }
        }
    }

    /// Copy pixels between level zero of textures.
    pub open spec fn copy_texture_to_texture(
        self,
        source: TextureRef,
        source_rect: PixelRect,
        destination: TextureRef,
        destination_rect: PixelRect,
    ) -> Result<Self, Error> {
        if self.pass_open {
            Err(Error::RenderPassActive)
        } else {
            match (self.resources.texture(source), self.resources.texture(destination)) {
                (Err(error), _) => Err(error),
                (_, Err(error)) => Err(error),
                (Ok(from), Ok(to)) => if !from@.usage.allows(TextureUsage::COPY_SRC_BIT)
                    || !to@.usage.allows(TextureUsage::COPY_DST_BIT) {
                    Err(Error::InvalidUsage)
                } else if from@.format != to@.format || source_rect@.width
                    != destination_rect@.width || source_rect@.height != destination_rect@.height {
                    Err(Error::InvalidDescriptor)
                } else if !source_rect@.within(from@.extent) || !destination_rect@.within(
                    to@.extent,
                ) {
                    Err(Error::OutOfBounds)
                } else if source@.index == destination@.index && source_rect@.overlaps(
                    destination_rect@,
                ) {
                    Err(Error::InvalidValue)
                } else {
                    let from_part = seq![ResourcePart::TextureMip(source.id(), 0)];
                    let to_part = seq![ResourcePart::TextureMip(destination.id(), 0)];
                    let accesses = crate::ir::table::first_failure(
                        self.access.check(from_part, Access::Texture(TextureAccess::CopySource)),
                        self.access.check(to_part, Access::Texture(TextureAccess::CopyDestination)),
                    );
                    match accesses {
                        Err(error) => Err(error),
                        Ok(_) => self.record(
                            CommandView::CopyTextureToTexture {
                                source,
                                source_rect,
                                destination,
                                destination_rect,
                            },
                            (from_part + to_part).to_set(),
                            Set::empty(),
                        ),
                    }
                },
            }
        }
    }

    /// Announce accesses to parts after a barrier on them.
    pub open spec fn announce(
        self,
        barrier: ResourceBarrier,
        parts: Seq<ResourcePart>,
        before: Access,
        writes: bool,
        after: Access,
    ) -> Result<Self, Error> {
        match self.access.check_barrier(parts, before, writes) {
            Err(error) => Err(error),
            Ok(_) => match self.record_state(CommandView::ResourceBarrier(barrier)) {
                Err(error) => Err(error),
                Ok(next) => Ok(
                    EncoderView { access: self.access.after_barrier(parts, after), ..next },
                ),
            },
        }
    }

    /// Order the accesses to mip levels from `base` up to `end`.
    pub open spec fn texture_barrier(
        self,
        barrier: ResourceBarrier,
        texture: TextureRef,
        level: Option<u32>,
        before: TextureAccess,
        after: TextureAccess,
    ) -> Result<Self, Error> {
        match self.resources.texture(texture) {
            Err(error) => Err(error),
            Ok(desc) => if !desc@.usage.allows(before.usage_bit()) || !desc@.usage.allows(
                after.usage_bit(),
            ) {
                Err(Error::InvalidUsage)
            } else if level is Some && level->0 >= desc@.mip_level_count {
                Err(Error::OutOfBounds)
            } else {
                let (base, end): (int, int) = match level {
                    Some(level) => (level as int, level + 1),
                    None => (0, desc@.mip_level_count as int),
                };
                self.announce(
                    barrier,
                    crate::ir::access::mip_parts(texture.id(), base, end),
                    Access::Texture(before),
                    before == TextureAccess::StorageWrite,
                    Access::Texture(after),
                )
            },
        }
    }

    /// Order the accesses before and after a barrier.
    pub open spec fn resource_barrier(self, barrier: ResourceBarrier) -> Result<Self, Error> {
        if self.pass_open {
            Err(Error::RenderPassActive)
        } else {
            match barrier {
                ResourceBarrier::Buffer { buffer, before, after } => match self.resources.buffer(
                    buffer,
                ) {
                    Err(error) => Err(error),
                    Ok(desc) => if !desc@.usage.allows(before.usage_bit()) || !desc@.usage.allows(
                        after.usage_bit(),
                    ) {
                        Err(Error::InvalidUsage)
                    } else {
                        self.announce(
                            barrier,
                            seq![ResourcePart::Buffer(buffer.id())],
                            Access::Buffer(before),
                            before == BufferAccess::StorageReadWrite,
                            Access::Buffer(after),
                        )
                    },
                },
                ResourceBarrier::Texture { texture, before, after } => self.texture_barrier(
                    barrier,
                    texture,
                    None,
                    before,
                    after,
                ),
                ResourceBarrier::TextureMip { texture, mip_level, before, after } =>
                    self.texture_barrier(barrier, texture, Some(mip_level), before, after),
            }
        }
    }

    /// The outcome of beginning a pass with one attached texture.
    pub open spec fn check_attachment(self, target: TextureRef, area: RectView) -> Result<
        (),
        Error,
    > {
        match self.resources.texture(target) {
            Err(error) => Err(error),
            Ok(desc) => if !desc@.usage.allows(TextureUsage::RENDER_ATTACHMENT_BIT) {
                Err(Error::InvalidUsage)
            } else if !area.within(desc@.extent) {
                Err(Error::OutOfBounds)
            } else {
                Ok(())
            },
        }
    }

    /// The first failure among the first `count` color attachments.
    pub open spec fn check_colors(self, desc: RenderPassView, count: nat) -> Result<(), Error>
        decreases count,
    {
        if count == 0 {
            Ok(())
        } else {
            crate::ir::table::first_failure(
                self.check_colors(desc, (count - 1) as nat),
                self.check_attachment(desc.colors[count - 1].target, desc.area@),
            )
        }
    }

    /// The first failure among the attachments.
    pub open spec fn check_attachments(self, desc: RenderPassView) -> Result<(), Error> {
        crate::ir::table::first_failure(
            self.check_colors(desc, desc.colors.len()),
            match desc.depth {
                Some(depth) => self.check_attachment(depth.target, desc.area@),
                None => Ok(()),
            },
        )
    }

    /// Begin a render pass.
    pub open spec fn begin_render_pass(self, desc: RenderPassView) -> Result<
        (Self, RenderStateView),
        Error,
    > {
        if self.pass_open {
            Err(Error::RenderPassActive)
        } else {
            match self.check_attachments(desc) {
                Err(error) => Err(error),
                Ok(_) => if self.commands.len() > MAX_COMMANDS - 2 {
                    Err(Error::CommandLimitExceeded)
                } else {
                    match self.record_access(
                        CommandView::BeginRenderPass(desc),
                        attachment_parts(desc),
                        Access::Texture(TextureAccess::RenderAttachment),
                    ) {
                        Err(error) => Err(error),
                        Ok(next) => Ok(
                            (
                                EncoderView { pass_open: true, ..next },
                                RenderStateView::initial(self.resources, desc),
                            ),
                        ),
                    }
                },
            }
        }
    }

    /// Begin a compute pass.
    pub open spec fn begin_compute_pass(self) -> Result<(Self, ComputeStateView), Error> {
        if self.pass_open {
            Err(Error::RenderPassActive)
        } else if self.commands.len() > MAX_COMMANDS - 2 {
            Err(Error::CommandLimitExceeded)
        } else {
            match self.record_state(CommandView::BeginComputePass) {
                Err(error) => Err(error),
                Ok(next) => Ok(
                    (EncoderView { pass_open: true, ..next }, ComputeStateView::initial()),
                ),
            }
        }
    }

    /// End the open pass with a command.
    pub open spec fn end_pass(self, command: CommandView) -> Result<Self, Error> {
        if self.commands.len() >= MAX_COMMANDS {
            Err(Error::CommandLimitExceeded)
        } else {
            Ok(EncoderView { commands: self.commands.push(command), pass_open: false, ..self })
        }
    }
}

/// The mip levels that a render pass renders to.
pub open spec fn attachment_parts(desc: RenderPassView) -> Seq<ResourcePart> {
    let colors = Seq::new(
        desc.colors.len(),
        |i: int| ResourcePart::TextureMip(desc.colors[i].target.id(), 0),
    );
    match desc.depth {
        Some(depth) => colors.push(ResourcePart::TextureMip(depth.target.id(), 0)),
        None => colors,
    }
}

/// Records validated commands against one table.
///
/// A call that fails records nothing and changes nothing.
pub struct CommandEncoder<'r, 'data> {
    resources: &'r ResourceTable,
    commands: Vec<Command<'data>>,
    pass_open: bool,
    access: AccessTracker,
    memory: Memory,
}

impl<'r, 'data> View for CommandEncoder<'r, 'data> {
    type V = EncoderView;

    closed spec fn view(&self) -> EncoderView {
        EncoderView {
            resources: self.resources@,
            commands: command_views(self.commands@),
            pass_open: self.pass_open,
            access: self.access@,
        }
    }
}

/// Return the mip levels of a texture from `base` up to `end`.
pub(crate) fn mip_part_list(texture: crate::ir::table::TextureId, base: u32, end: u32) -> (r: Vec<
    ResourcePart,
>)
    requires
        base <= end,
    ensures
        r@ == crate::ir::access::mip_parts(texture, base as int, end as int),
{
    let mut parts: Vec<ResourcePart> = Vec::new();
    let mut level: u32 = base;
    while level < end
        invariant
            base <= level <= end,
            parts@ == crate::ir::access::mip_parts(texture, base as int, level as int),
        decreases end - level,
    {
        parts.push(ResourcePart::TextureMip(texture, level));
        level = level + 1;
        assert(parts@ =~= crate::ir::access::mip_parts(texture, base as int, level as int));
    }
    assert(parts@ =~= crate::ir::access::mip_parts(texture, base as int, end as int));
    parts
}

/// Return one part as a list.
pub(crate) fn one_part(part: ResourcePart) -> (r: Vec<ResourcePart>)
    ensures
        r@ == seq![part],
{
    let mut parts: Vec<ResourcePart> = Vec::new();
    parts.push(part);
    assert(parts@ =~= seq![part]);
    parts
}

/// Return whether a usage allows an operation, or else the error.
pub(crate) fn require_texture_usage(usage: TextureUsage, required: TextureUsage) -> (r: Result<
    (),
    Error,
>)
    ensures
        r == (if usage.allows(required@) {
            Ok::<(), Error>(())
        } else {
            Err(Error::InvalidUsage)
        }),
{
    if usage.contains(required) {
        Ok(())
    } else {
        Err(Error::InvalidUsage)
    }
}

/// Return whether a usage allows an operation, or else the error.
pub(crate) fn require_buffer_usage(usage: BufferUsage, required: BufferUsage) -> (r: Result<
    (),
    Error,
>)
    ensures
        r == (if usage.allows(required@) {
            Ok::<(), Error>(())
        } else {
            Err(Error::InvalidUsage)
        }),
{
    if usage.contains(required) {
        Ok(())
    } else {
        Err(Error::InvalidUsage)
    }
}

/// Check that `length` bytes from `offset` lie within `limit` bytes.
pub(crate) fn validate_byte_range(offset: u64, length: u64, limit: u64) -> (r: Result<(), Error>)
    ensures
        r == check_byte_range(offset as int, length as int, limit as int),
{
    match offset.checked_add(length) {
        Some(end) => if end <= limit {
            Ok(())
        } else {
            Err(Error::OutOfBounds)
        },
        None => Err(Error::Overflow),
    }
}

/// Return whether two rectangles have a pixel in common.
fn rectangles_overlap(left: PixelRect, right: PixelRect) -> (r: bool)
    ensures
        r == left@.overlaps(right@),
{
    let left_width: u32 = left.width();
    let left_height: u32 = left.height();
    let right_width: u32 = right.width();
    let right_height: u32 = right.height();
    left.x() < right.x() + right_width && right.x() < left.x() + left_width && left.y() < right.y()
        + right_height && right.y() < left.y() + left_height
}

impl<'r, 'data> CommandEncoder<'r, 'data> {
    /// How requests for room are answered. This is no part of what was recorded.
    pub closed spec fn spec_memory(&self) -> Memory {
        self.memory
    }

    /// Return how requests for room are answered.
    #[verifier::when_used_as_spec(spec_memory)]
    pub fn memory(&self) -> (r: Memory)
        ensures
            r == self.spec_memory(),
    {
        self.memory
    }

    /// Create an encoder for a table.
    pub fn new(resources: &'r ResourceTable) -> (r: Self)
        ensures
            r@ == EncoderView::initial(resources@),
            r.memory() == Memory::System,
    {
        Self::with_memory(resources, Memory::System)
    }

    /// Create an encoder for a table, whose requests for room are answered as given.
    pub fn with_memory(resources: &'r ResourceTable, memory: Memory) -> (r: Self)
        ensures
            r@ == EncoderView::initial(resources@),
            r.memory() == memory,
    {
        let encoder = Self {
            resources,
            commands: Vec::new(),
            pass_open: false,
            access: AccessTracker::new(),
            memory,
        };
        assert(encoder@ =~= EncoderView::initial(resources@));
        encoder
    }

    /// Return the table that commands refer to.
    pub fn resources(&self) -> (r: &'r ResourceTable)
        ensures
            r@ == self@.resources,
    {
        self.resources
    }

    /// Record a command, given whether room for it was reserved.
    pub(crate) fn push_reserved(&mut self, command: Command<'data>, reserved: bool) -> (r:
        Result<(), Error>)
        ensures
            match old(self)@.record_state(command@) {
                Err(error) => r == Err::<(), Error>(error) && final(self)@ == old(self)@,
                Ok(next) => if reserved {
                    r == Ok::<(), Error>(()) && final(self)@ == next
                } else {
                    r == Err::<(), Error>(Error::OutOfMemory) && final(self)@ == old(self)@
                },
            },
            final(self).memory() == old(self).memory(),
    {
        match self.check_room() {
            Ok(()) => {},
            Err(error) => return Err(error),
        }
        if !reserved {
            return Err(Error::OutOfMemory);
        }
        let ghost before = self.commands@;
        self.commands.push(command);
        proof {
            assert(command_views(self.commands@) =~= command_views(before).push(command@));
        }
        Ok(())
    }

    /// Return whether another command can be recorded, or else the error.
    pub(crate) fn check_room(&self) -> (r: Result<(), Error>)
        ensures
            r == (if self@.commands.len() >= self@.capacity() {
                Err::<(), Error>(Error::CommandLimitExceeded)
            } else {
                Ok(())
            }),
    {
        let limit: usize = if self.pass_open {
            MAX_COMMANDS - 1
        } else {
            MAX_COMMANDS
        };
        if self.commands.len() >= limit {
            Err(Error::CommandLimitExceeded)
        } else {
            Ok(())
        }
    }

    /// Record a command that accesses nothing.
    pub(crate) fn push(&mut self, command: Command<'data>) -> (r: Result<(), Error>)
        ensures
            final(self).memory() == old(self).memory(),
            recorded(
                old(self)@,
                final(self)@,
                old(self)@.record_state(command@),
                old(self).memory(),
                r,
            ),
    {
        let reserved: bool = self.memory.reserve(&mut self.commands, 1);
        self.push_reserved(command, reserved)
    }

    /// Record a command that uses some parts of resources and writes some.
    pub(crate) fn record(
        &mut self,
        command: Command<'data>,
        used: &Vec<ResourcePart>,
        written: &Vec<ResourcePart>,
    ) -> (r: Result<(), Error>)
        ensures
            final(self).memory() == old(self).memory(),
            recorded(
                old(self)@,
                final(self)@,
                old(self)@.record(command@, used@.to_set(), written@.to_set()),
                old(self).memory(),
                r,
            ),
    {
        match self.check_room() {
            Ok(()) => {},
            Err(error) => return Err(error),
        }
        if !self.access.reserve_pending(written.len(), self.memory) {
            return Err(Error::OutOfMemory);
        }
        match self.push(command) {
            Ok(()) => {},
            Err(error) => return Err(error),
        }
        self.access.note_use(used, written);
        Ok(())
    }

    /// Check an access to parts.
    pub(crate) fn check_access(&self, parts: &Vec<ResourcePart>, access: Access) -> (r: Result<
        (),
        Error,
    >)
        ensures
            r == self@.access.check(parts@, access),
    {
        self.access.check(parts, access)
    }

    /// Record a command that accesses parts once the access is admitted.
    fn record_access(
        &mut self,
        command: Command<'data>,
        parts: &Vec<ResourcePart>,
        access: Access,
    ) -> (r: Result<(), Error>)
        ensures
            final(self).memory() == old(self).memory(),
            recorded(
                old(self)@,
                final(self)@,
                old(self)@.record_access(command@, parts@, access),
                old(self).memory(),
                r,
            ),
    {
        match self.access.check(parts, access) {
            Ok(()) => {},
            Err(error) => return Err(error),
        }
        let written: Vec<ResourcePart> = Vec::new();
        assert(written@.to_set() =~= Set::empty());
        self.record(command, parts, &written)
    }

    /// Return whether no pass is open, or else the error.
    fn ensure_outside_pass(&self) -> (r: Result<(), Error>)
        ensures
            r == (if self@.pass_open {
                Err::<(), Error>(Error::RenderPassActive)
            } else {
                Ok(())
            }),
    {
        if self.pass_open {
            Err(Error::RenderPassActive)
        } else {
            Ok(())
        }
    }

    /// Record an upload of borrowed bytes into a buffer, outside passes.
    ///
    /// Fails as looking up the buffer does, and with `Error::InvalidUsage` when
    /// the buffer is no copy destination, `Error::InvalidValue` for no bytes,
    /// `Error::Overflow` or `Error::OutOfBounds` for a range that leaves the
    /// buffer, or the error of an access that is not admitted.
    pub fn write_buffer(&mut self, buffer: BufferRef, offset: u64, data: &'data [u8]) -> (r: Result<
        (),
        Error,
    >)
        ensures
            final(self).memory() == old(self).memory(),
            recorded(
                old(self)@,
                final(self)@,
                old(self)@.write_buffer(buffer, offset, data@),
                old(self).memory(),
                r,
            ),
    {
        match self.ensure_outside_pass() {
            Ok(()) => {},
            Err(error) => return Err(error),
        }
        let desc = match self.resources.buffer(buffer) {
            Ok(desc) => desc,
            Err(error) => return Err(error),
        };
        match require_buffer_usage(desc.usage(), BufferUsage::copy_dst()) {
            Ok(()) => {},
            Err(error) => return Err(error),
        }
        if data.len() == 0 {
            return Err(Error::InvalidValue);
        }
        match validate_byte_range(offset, data.len() as u64, desc.size()) {
            Ok(()) => {},
            Err(error) => return Err(error),
        }
        self.record_access(
            Command::WriteBuffer { buffer, offset, data },
            &one_part(ResourcePart::Buffer(buffer.id())),
            Access::Buffer(BufferAccess::CopyDestination),
        )
    }

    /// Record an upload of borrowed pixels into a texture, outside passes.
    ///
    /// Fails as looking up the texture does, and with `Error::InvalidUsage` when
    /// the texture is no copy destination, `Error::OutOfBounds` for a level, layer
    /// or region that the texture does not have, `Error::Overflow` or
    /// `Error::InvalidValue` for a row stride that does not hold a row,
    /// `Error::OutOfBounds` for too few bytes, or the error of an access that is
    /// not admitted.
    pub fn write_texture(&mut self, texture: TextureRef, write: TextureWrite<'data>) -> (r: Result<
        (),
        Error,
    >)
        ensures
            final(self).memory() == old(self).memory(),
            recorded(
                old(self)@,
                final(self)@,
                old(self)@.write_texture(texture, write@),
                old(self).memory(),
                r,
            ),
    {
        match self.ensure_outside_pass() {
            Ok(()) => {},
            Err(error) => return Err(error),
        }
        let desc = match self.resources.texture(texture) {
            Ok(desc) => desc,
            Err(error) => return Err(error),
        };
        match require_texture_usage(desc.usage(), TextureUsage::copy_dst()) {
            Ok(()) => {},
            Err(error) => return Err(error),
        }
        let extent = match desc.mip_extent(write.mip_level()) {
            Ok(extent) => extent,
            Err(error) => return Err(error),
        };
        if write.array_layer() >= desc.array_layer_count() {
            return Err(Error::OutOfBounds);
        }
        if !write.destination().is_within(extent) {
            return Err(Error::OutOfBounds);
        }
        let width: u32 = write.destination().width();
        let height: u32 = write.destination().height();
        let tight: u32 = match width.checked_mul(desc.format().bytes_per_pixel()) {
            Some(tight) => tight,
            None => return Err(Error::Overflow),
        };
        let stride: u32 = write.bytes_per_row();
        if stride < tight {
            return Err(Error::InvalidValue);
        }
        let rows: u64 = (height - 1) as u64;
        assert(stride as u64 * rows <= 0xffff_ffff * 0xffff_ffff) by (nonlinear_arith)
            requires
                stride <= 0xffff_ffff,
                rows <= 0xffff_ffff,
        ;
        let required: u64 = stride as u64 * rows + tight as u64;
        if (write.data().len() as u64) < required {
            return Err(Error::OutOfBounds);
        }
        self.record_access(
            Command::WriteTexture { texture, write },
            &one_part(ResourcePart::TextureMip(texture.id(), write.mip_level())),
            Access::Texture(TextureAccess::CopyDestination),
        )
    }

    /// Record a copy of a non-zero, four-byte-aligned range, outside passes.
    ///
    /// Fails as looking up the buffers does, and with `Error::InvalidUsage`,
    /// `Error::InvalidValue` for an unaligned or empty range, `Error::Overflow` or
    /// `Error::OutOfBounds` for one that leaves a buffer,
    /// `Error::ResourceAccessConflict` for a copy within one buffer, or the error
    /// of an access that is not admitted.
    pub fn copy_buffer_to_buffer(
        &mut self,
        source: BufferRef,
        source_offset: u64,
        destination: BufferRef,
        destination_offset: u64,
        size: u64,
    ) -> (r: Result<(), Error>)
        ensures
            final(self).memory() == old(self).memory(),
            recorded(
                old(self)@,
                final(self)@,
                old(self)@.copy_buffer_to_buffer(
                    source,
                    source_offset,
                    destination,
                    destination_offset,
                    size,
                ),
                old(self).memory(),
                r,
            ),
    {
        match self.ensure_outside_pass() {
            Ok(()) => {},
            Err(error) => return Err(error),
        }
        let from = match self.resources.buffer(source) {
            Ok(desc) => desc,
            Err(error) => return Err(error),
        };
        let to = match self.resources.buffer(destination) {
            Ok(desc) => desc,
            Err(error) => return Err(error),
        };
        match require_buffer_usage(from.usage(), BufferUsage::copy_src()) {
            Ok(()) => {},
            Err(error) => return Err(error),
        }
        match require_buffer_usage(to.usage(), BufferUsage::copy_dst()) {
            Ok(()) => {},
            Err(error) => return Err(error),
        }
        if size == 0 || source_offset % 4 != 0 || destination_offset % 4 != 0 || size % 4 != 0 {
            return Err(Error::InvalidValue);
        }
        match validate_byte_range(source_offset, size, from.size()) {
            Ok(()) => {},
            Err(error) => return Err(error),
        }
        match validate_byte_range(destination_offset, size, to.size()) {
            Ok(()) => {},
            Err(error) => return Err(error),
        }
        if source == destination {
            return Err(Error::ResourceAccessConflict);
        }
        let from_part = one_part(ResourcePart::Buffer(source.id()));
        let to_part = one_part(ResourcePart::Buffer(destination.id()));
        match self.access.check(&from_part, Access::Buffer(BufferAccess::CopySource)) {
            Ok(()) => {},
            Err(error) => return Err(error),
        }
        match self.access.check(&to_part, Access::Buffer(BufferAccess::CopyDestination)) {
            Ok(()) => {},
            Err(error) => return Err(error),
        }
        let mut parts = one_part(ResourcePart::Buffer(source.id()));
        parts.push(ResourcePart::Buffer(destination.id()));
        assert(parts@ =~= from_part@ + to_part@);
        let written: Vec<ResourcePart> = Vec::new();
        assert(written@.to_set() =~= Set::empty());
        self.record(
            Command::CopyBufferToBuffer {
                source,
                source_offset,
                destination,
                destination_offset,
                size,
            },
            &parts,
            &written,
        )
    }

    /// Record a copy of equal-sized rectangles between level zero of textures,
    /// outside passes.
    ///
    /// Fails as looking up the textures does, and with `Error::InvalidUsage`,
    /// `Error::InvalidDescriptor` for differing formats or sizes,
    /// `Error::OutOfBounds` for a rectangle that leaves its texture,
    /// `Error::InvalidValue` for overlapping rectangles of one texture, or the
    /// error of an access that is not admitted.
    pub fn copy_texture_to_texture(
        &mut self,
        source: TextureRef,
        source_rect: PixelRect,
        destination: TextureRef,
        destination_rect: PixelRect,
    ) -> (r: Result<(), Error>)
        ensures
            final(self).memory() == old(self).memory(),
            recorded(
                old(self)@,
                final(self)@,
                old(self)@.copy_texture_to_texture(
                    source,
                    source_rect,
                    destination,
                    destination_rect,
                ),
                old(self).memory(),
                r,
            ),
    {
        match self.ensure_outside_pass() {
            Ok(()) => {},
            Err(error) => return Err(error),
        }
        let from = match self.resources.texture(source) {
            Ok(desc) => desc,
            Err(error) => return Err(error),
        };
        let to = match self.resources.texture(destination) {
            Ok(desc) => desc,
            Err(error) => return Err(error),
        };
        match require_texture_usage(from.usage(), TextureUsage::copy_src()) {
            Ok(()) => {},
            Err(error) => return Err(error),
        }
        match require_texture_usage(to.usage(), TextureUsage::copy_dst()) {
            Ok(()) => {},
            Err(error) => return Err(error),
        }
        if from.format() != to.format() || !source_rect.same_extent(destination_rect) {
            return Err(Error::InvalidDescriptor);
        }
        if !source_rect.is_within(from.extent()) || !destination_rect.is_within(to.extent()) {
            return Err(Error::OutOfBounds);
        }
        match self.resources.same_texture(source, destination) {
            Ok(same) => {
                if same && rectangles_overlap(source_rect, destination_rect) {
                    return Err(Error::InvalidValue);
                }
            },
            Err(error) => return Err(error),
        }
        let from_part = one_part(ResourcePart::TextureMip(source.id(), 0));
        let to_part = one_part(ResourcePart::TextureMip(destination.id(), 0));
        match self.access.check(&from_part, Access::Texture(TextureAccess::CopySource)) {
            Ok(()) => {},
            Err(error) => return Err(error),
        }
        match self.access.check(&to_part, Access::Texture(TextureAccess::CopyDestination)) {
            Ok(()) => {},
            Err(error) => return Err(error),
        }
        let mut parts = one_part(ResourcePart::TextureMip(source.id(), 0));
        parts.push(ResourcePart::TextureMip(destination.id(), 0));
        assert(parts@ =~= from_part@ + to_part@);
        let written: Vec<ResourcePart> = Vec::new();
        assert(written@.to_set() =~= Set::empty());
        self.record(
            Command::CopyTextureToTexture { source, source_rect, destination, destination_rect },
            &parts,
            &written,
        )
    }

    /// Record a barrier on parts and announce what follows.
    fn announce(
        &mut self,
        barrier: ResourceBarrier,
        parts: &Vec<ResourcePart>,
        before: Access,
        writes: bool,
        after: Access,
    ) -> (r: Result<(), Error>)
        ensures
            final(self).memory() == old(self).memory(),
            recorded(
                old(self)@,
                final(self)@,
                old(self)@.announce(barrier, parts@, before, writes, after),
                old(self).memory(),
                r,
            ),
    {
        match self.access.check_barrier(parts, before, writes) {
            Ok(()) => {},
            Err(error) => return Err(error),
        }
        match self.check_room() {
            Ok(()) => {},
            Err(error) => return Err(error),
        }
        if !self.access.reserve_announced(parts.len(), self.memory) {
            return Err(Error::OutOfMemory);
        }
        match self.push(Command::ResourceBarrier(barrier)) {
            Ok(()) => {},
            Err(error) => return Err(error),
        }
        self.access.note_barrier(parts, after);
        Ok(())
    }

    /// Record a barrier on one mip level of a texture, or on all of them.
    fn texture_barrier(
        &mut self,
        barrier: ResourceBarrier,
        texture: TextureRef,
        level: Option<u32>,
        before: TextureAccess,
        after: TextureAccess,
    ) -> (r: Result<(), Error>)
        ensures
            final(self).memory() == old(self).memory(),
            recorded(
                old(self)@,
                final(self)@,
                old(self)@.texture_barrier(barrier, texture, level, before, after),
                old(self).memory(),
                r,
            ),
    {
        let desc = match self.resources.texture(texture) {
            Ok(desc) => desc,
            Err(error) => return Err(error),
        };
        match require_texture_usage(desc.usage(), before.usage()) {
            Ok(()) => {},
            Err(error) => return Err(error),
        }
        match require_texture_usage(desc.usage(), after.usage()) {
            Ok(()) => {},
            Err(error) => return Err(error),
        }
        let count: u32 = desc.mip_level_count();
        let (base, end): (u32, u32) = match level {
            Some(level) => {
                if level >= count {
                    return Err(Error::OutOfBounds);
                }
                (level, level + 1)
            },
            None => (0, count),
        };
        self.announce(
            barrier,
            &mip_part_list(texture.id(), base, end),
            Access::Texture(before),
            before == TextureAccess::StorageWrite,
            Access::Texture(after),
        )
    }

    /// Record an execution and memory dependency, outside passes.
    ///
    /// Storage writes must be followed by this command before another access.
    /// Fails as looking up the resource does, and with `Error::InvalidUsage` when
    /// the resource does not allow either access, `Error::OutOfBounds` for a mip
    /// level that it does not have, or `Error::InvalidResourceAccess` when the
    /// previous access is not the one that was made or announced. Backends
    /// validate and implement the dependency.
    pub fn resource_barrier(&mut self, barrier: ResourceBarrier) -> (r: Result<(), Error>)
        ensures
            final(self).memory() == old(self).memory(),
            recorded(
                old(self)@,
                final(self)@,
                old(self)@.resource_barrier(barrier),
                old(self).memory(),
                r,
            ),
    {
        match self.ensure_outside_pass() {
            Ok(()) => {},
            Err(error) => return Err(error),
        }
        match barrier {
            ResourceBarrier::Buffer { buffer, before, after } => {
                let desc = match self.resources.buffer(buffer) {
                    Ok(desc) => desc,
                    Err(error) => return Err(error),
                };
                match require_buffer_usage(desc.usage(), before.usage()) {
                    Ok(()) => {},
                    Err(error) => return Err(error),
                }
                match require_buffer_usage(desc.usage(), after.usage()) {
                    Ok(()) => {},
                    Err(error) => return Err(error),
                }
                self.announce(
                    barrier,
                    &one_part(ResourcePart::Buffer(buffer.id())),
                    Access::Buffer(before),
                    before == BufferAccess::StorageReadWrite,
                    Access::Buffer(after),
                )
            },
            ResourceBarrier::Texture { texture, before, after } => {
                self.texture_barrier(barrier, texture, None, before, after)
            },
            ResourceBarrier::TextureMip { texture, mip_level, before, after } => {
                self.texture_barrier(barrier, texture, Some(mip_level), before, after)
            },
        }
    }

    /// Check that a texture can be attached to a pass over an area.
    fn validate_attachment(&self, target: TextureRef, area: PixelRect) -> (r: Result<(), Error>)
        ensures
            r == self@.check_attachment(target, area@),
    {
        let desc = match self.resources.texture(target) {
            Ok(desc) => desc,
            Err(error) => return Err(error),
        };
        match require_texture_usage(desc.usage(), TextureUsage::render_attachment()) {
            Ok(()) => {},
            Err(error) => return Err(error),
        }
        if !area.is_within(desc.extent()) {
            return Err(Error::OutOfBounds);
        }
        Ok(())
    }

    /// Begin a render pass. A dropped pass remains open and prevents finishing.
    ///
    /// Fails with `Error::RenderPassActive` inside a pass, as looking up an
    /// attachment does, with `Error::InvalidUsage` or `Error::OutOfBounds` for an
    /// attachment that cannot be rendered to in the area, with
    /// `Error::CommandLimitExceeded` without room for the pass and its end, or
    /// with the error of an access that is not admitted.
    pub fn begin_render_pass<'encoder>(&'encoder mut self, desc: RenderPassDesc) -> (r: Result<
        RenderPassEncoder<'encoder, 'r, 'data>,
        Error,
    >)
        ensures
            match r {
                Ok(pass) => old(self)@.begin_render_pass(desc@) == Ok::<
                    (EncoderView, RenderStateView),
                    Error,
                >((pass.encoder@, pass.state@)) && *final(self) == *final(pass.encoder)
                    && pass.encoder.memory() == old(self).memory() && old(self).memory().may(true),
                Err(error) => final(self)@ == old(self)@ && match old(self)@.begin_render_pass(
                    desc@,
                ) {
                    Err(expected) => error == expected,
                    Ok(_) => error == Error::OutOfMemory && old(self).memory().may(false),
                } && final(self).memory() == old(self).memory(),
            },
    {
        match self.ensure_outside_pass() {
            Ok(()) => {},
            Err(error) => return Err(error),
        }
        let colors = desc.color_attachments();
        let area = desc.area();
        let mut i: usize = 0;
        while i < colors.len()
            invariant
                i <= colors@.len(),
                colors@ == desc@.colors,
                area == desc@.area,
                self@ == old(self)@,
                self.memory() == old(self).memory(),
                !self@.pass_open,
                self@.check_colors(desc@, i as nat) == Ok::<(), Error>(()),
            decreases colors@.len() - i,
        {
            match self.validate_attachment(colors[i].target, area) {
                Ok(()) => {},
                Err(error) => {
                    proof {
                        lemma_color_failure_persists(self@, desc@, (i + 1) as nat);
                    }
                    return Err(error);
                },
            }
            i = i + 1;
        }
        match desc.depth_attachment() {
            Some(depth) => {
                match self.validate_attachment(depth.target, area) {
                    Ok(()) => {},
                    Err(error) => return Err(error),
                }
            },
            None => {},
        }
        if self.commands.len() > MAX_COMMANDS - 2 {
            return Err(Error::CommandLimitExceeded);
        }
        let mut parts: Vec<ResourcePart> = Vec::new();
        let mut k: usize = 0;
        while k < colors.len()
            invariant
                k <= colors@.len(),
                colors@ == desc@.colors,
                parts@.len() == k,
                forall|m: int|
                    0 <= m < k ==> #[trigger] parts@[m] == ResourcePart::TextureMip(
                        desc@.colors[m].target.id(),
                        0,
                    ),
            decreases colors@.len() - k,
        {
            parts.push(ResourcePart::TextureMip(colors[k].target.id(), 0));
            k = k + 1;
        }
        match desc.depth_attachment() {
            Some(depth) => {
                parts.push(ResourcePart::TextureMip(depth.target.id(), 0));
            },
            None => {},
        }
        assert(parts@ =~= attachment_parts(desc@));
        let state = RenderPassState::new(self.resources, desc);
        match self.record_access(
            Command::BeginRenderPass(desc),
            &parts,
            Access::Texture(TextureAccess::RenderAttachment),
        ) {
            Ok(()) => {},
            Err(error) => return Err(error),
        }
        self.pass_open = true;
        Ok(RenderPassEncoder { encoder: self, state })
    }

    /// Begin a compute pass. A dropped pass remains open and prevents finishing.
    ///
    /// Fails with `Error::RenderPassActive` inside a pass, or with
    /// `Error::CommandLimitExceeded` without room for the pass and its end.
    pub fn begin_compute_pass<'encoder>(&'encoder mut self) -> (r: Result<
        ComputePassEncoder<'encoder, 'r, 'data>,
        Error,
    >)
        ensures
            match r {
                Ok(pass) => old(self)@.begin_compute_pass() == Ok::<
                    (EncoderView, ComputeStateView),
                    Error,
                >((pass.encoder@, pass.state@)) && *final(self) == *final(pass.encoder)
                    && pass.encoder.memory() == old(self).memory() && old(self).memory().may(true),
                Err(error) => final(self)@ == old(self)@ && match old(self)@.begin_compute_pass() {
                    Err(expected) => error == expected,
                    Ok(_) => error == Error::OutOfMemory && old(self).memory().may(false),
                } && final(self).memory() == old(self).memory(),
            },
    {
        match self.ensure_outside_pass() {
            Ok(()) => {},
            Err(error) => return Err(error),
        }
        if self.commands.len() > MAX_COMMANDS - 2 {
            return Err(Error::CommandLimitExceeded);
        }
        match self.push(Command::BeginComputePass) {
            Ok(()) => {},
            Err(error) => return Err(error),
        }
        self.pass_open = true;
        Ok(ComputePassEncoder { encoder: self, state: ComputePassState::new() })
    }

    /// Record the end of the open pass.
    pub(crate) fn push_end(&mut self, command: Command<'data>) -> (r: Result<(), Error>)
        ensures
            final(self).memory() == old(self).memory(),
            recorded(
                old(self)@,
                final(self)@,
                old(self)@.end_pass(command@),
                old(self).memory(),
                r,
            ),
    {
        if self.commands.len() >= MAX_COMMANDS {
            return Err(Error::CommandLimitExceeded);
        }
        if !self.memory.reserve(&mut self.commands, 1) {
            return Err(Error::OutOfMemory);
        }
        let ghost before = self.commands@;
        self.commands.push(command);
        assert(command_views(self.commands@) =~= command_views(before).push(command@));
        self.pass_open = false;
        Ok(())
    }

    /// Return the recorded commands.
    ///
    /// Returns `Error::RenderPassStillActive` exactly when a pass is open.
    pub fn finish(self) -> (r: Result<CommandBuffer<'r, 'data>, Error>)
        ensures
            match r {
                Ok(buffer) => !self@.pass_open && buffer@ == (CommandBufferView {
                    resources: self@.resources,
                    commands: self@.commands,
                }),
                Err(error) => self@.pass_open && error == Error::RenderPassStillActive,
            },
    {
        if self.pass_open {
            Err(Error::RenderPassStillActive)
        } else {
            Ok(CommandBuffer { resources: self.resources, commands: self.commands })
        }
    }
}

/// A failure among the first color attachments is a failure of all.
proof fn lemma_color_failure_persists(encoder: EncoderView, desc: RenderPassView, count: nat)
    requires
        count <= desc.colors.len(),
        encoder.check_colors(desc, count) is Err,
    ensures
        encoder.check_colors(desc, desc.colors.len()) == encoder.check_colors(desc, count),
    decreases desc.colors.len() - count,
{
    if count < desc.colors.len() {
        lemma_color_failure_persists(encoder, desc, count + 1);
    }
}

/// The contents of a finished command buffer.
#[verifier::ext_equal]
pub struct CommandBufferView {
    pub resources: TableView,
    pub commands: Seq<CommandView>,
}

/// A finished, validated sequence of commands.
pub struct CommandBuffer<'r, 'data> {
    resources: &'r ResourceTable,
    commands: Vec<Command<'data>>,
}

impl<'r, 'data> View for CommandBuffer<'r, 'data> {
    type V = CommandBufferView;

    closed spec fn view(&self) -> CommandBufferView {
        CommandBufferView {
            resources: self.resources@,
            commands: command_views(self.commands@),
        }
    }
}

impl<'r, 'data> CommandBuffer<'r, 'data> {
    /// Return the table that the commands refer to.
    pub fn resources(&self) -> (r: &'r ResourceTable)
        ensures
            r@ == self@.resources,
    {
        self.resources
    }

    /// Return the commands in order.
    pub fn commands(&self) -> (r: &[Command<'data>])
        ensures
            command_views(r@) == self@.commands,
    {
        self.commands.as_slice()
    }

    /// Return the number of commands.
    pub fn command_count(&self) -> (r: usize)
        ensures
            r == self@.commands.len(),
    {
        self.commands.len()
    }

    /// Return whether there are no commands.
    pub fn is_empty(&self) -> (r: bool)
        ensures
            r == (self@.commands.len() == 0),
    {
        self.commands.is_empty()
    }
}

} // verus!
