//! What holds of every recording, whichever calls made it.

use crate::ir::access::ResourcePart;
use crate::ir::command::{CommandBufferView, CommandView, EncoderView};
use crate::ir::compute_pass_encoder::ComputeStateView;
use crate::ir::owned::{OwnedCommand, ReplayView};
use crate::ir::pipeline::{DrawUniforms, IndexFormat, MAX_VERTEX_BUFFERS};
use crate::ir::programmable::{ResourceBarrier, MAX_BIND_GROUPS};
use crate::ir::render_pass::RenderPassView;
use crate::ir::render_pass_encoder::{DrawShape, RenderStateView};
use crate::ir::resource::TextureWriteView;
use crate::ir::shader::ShaderStages;
use crate::ir::table::{
    BindGroupRef, BufferRef, ComputePipelineRef, ProgrammableRenderPipelineRef, RenderPipelineRef,
    SamplerRef, TableView, TextureRef,
};
use crate::ir::types::{Error, PixelRect};
use crate::ir::viewport::Viewport;
use vstd::prelude::*;

verus! {

/// Where a sequence of commands stands.
pub enum PassScope {
    Outside,
    Render,
    Compute,
}

/// Where a command leads, or nothing where the command has no place there.
pub open spec fn scope_after(scope: PassScope, command: CommandView) -> Option<PassScope> {
    match scope {
        PassScope::Outside => match command {
            CommandView::WriteBuffer { .. } => Some(PassScope::Outside),
            CommandView::WriteTexture { .. } => Some(PassScope::Outside),
            CommandView::CopyBufferToBuffer { .. } => Some(PassScope::Outside),
            CommandView::CopyTextureToTexture { .. } => Some(PassScope::Outside),
            CommandView::ResourceBarrier(_) => Some(PassScope::Outside),
            CommandView::BeginRenderPass(_) => Some(PassScope::Render),
            CommandView::BeginComputePass => Some(PassScope::Compute),
            _ => None,
        },
        PassScope::Render => match command {
            CommandView::EndRenderPass => Some(PassScope::Outside),
            CommandView::SetPipeline(_) => Some(PassScope::Render),
            CommandView::SetProgrammablePipeline(_) => Some(PassScope::Render),
            CommandView::SetBindGroup { .. } => Some(PassScope::Render),
            CommandView::SetPushConstants { .. } => Some(PassScope::Render),
            CommandView::SetVertexBuffer { .. } => Some(PassScope::Render),
            CommandView::SetVertexBufferSlot { .. } => Some(PassScope::Render),
            CommandView::SetIndexBuffer { .. } => Some(PassScope::Render),
            CommandView::SetTexture(_) => Some(PassScope::Render),
            CommandView::SetSampler(_) => Some(PassScope::Render),
            CommandView::SetUniforms(_) => Some(PassScope::Render),
            CommandView::SetScissor(_) => Some(PassScope::Render),
            CommandView::SetViewport(_) => Some(PassScope::Render),
            CommandView::Draw { .. } => Some(PassScope::Render),
            CommandView::DrawInstanced { .. } => Some(PassScope::Render),
            CommandView::DrawIndexed { .. } => Some(PassScope::Render),
            CommandView::DrawIndexedInstanced { .. } => Some(PassScope::Render),
            _ => None,
        },
        PassScope::Compute => match command {
            CommandView::EndComputePass => Some(PassScope::Outside),
            CommandView::SetComputePipeline(_) => Some(PassScope::Compute),
            CommandView::SetBindGroup { .. } => Some(PassScope::Compute),
            CommandView::SetPushConstants { .. } => Some(PassScope::Compute),
            CommandView::Dispatch { .. } => Some(PassScope::Compute),
            _ => None,
        },
    }
}

/// Where commands lead from outside passes, or nothing where they are not nested.
pub open spec fn scope_of(commands: Seq<CommandView>) -> Option<PassScope>
    decreases commands.len(),
{
    if commands.len() == 0 {
        Some(PassScope::Outside)
    } else {
        match scope_of(commands.drop_last()) {
            None => None,
            Some(scope) => scope_after(scope, commands.last()),
        }
    }
}

/// Whether everything that a command names is defined in a table.
pub open spec fn resolves(table: TableView, command: CommandView) -> bool {
    match command {
        CommandView::WriteBuffer { buffer, .. } => table.buffer(buffer) is Ok,
        CommandView::WriteTexture { texture, .. } => table.texture(texture) is Ok,
        CommandView::CopyBufferToBuffer { source, destination, .. } => table.buffer(source) is Ok
            && table.buffer(destination) is Ok,
        CommandView::CopyTextureToTexture { source, destination, .. } => table.texture(
            source,
        ) is Ok && table.texture(destination) is Ok,
        CommandView::ResourceBarrier(barrier) => match barrier {
            ResourceBarrier::Buffer { buffer, .. } => table.buffer(buffer) is Ok,
            ResourceBarrier::Texture { texture, .. } => table.texture(texture) is Ok,
            ResourceBarrier::TextureMip { texture, .. } => table.texture(texture) is Ok,
        },
        CommandView::BeginRenderPass(desc) => {
            &&& forall|i: int|
                0 <= i < desc.colors.len() ==> table.texture(
                    (#[trigger] desc.colors[i]).target,
                ) is Ok
            &&& desc.depth matches Some(depth) ==> table.texture(depth.target) is Ok
        },
        CommandView::SetPipeline(pipeline) => table.render_pipeline(pipeline) is Ok,
        CommandView::SetProgrammablePipeline(pipeline) => table.programmable_render_pipeline(
            pipeline,
        ) is Ok,
        CommandView::SetBindGroup { bind_group, .. } => table.bind_group(bind_group) is Ok,
        CommandView::SetVertexBuffer { buffer, .. } => table.buffer(buffer) is Ok,
        CommandView::SetVertexBufferSlot { buffer, .. } => table.buffer(buffer) is Ok,
        CommandView::SetIndexBuffer { buffer, .. } => table.buffer(buffer) is Ok,
        CommandView::SetTexture(texture) => table.texture(texture) is Ok,
        CommandView::SetSampler(sampler) => table.sampler(sampler) is Ok,
        CommandView::SetComputePipeline(pipeline) => table.compute_pipeline(pipeline) is Ok,
        _ => true,
    }
}

impl EncoderView {
    /// What every encoder keeps: the commands are nested and lead to `scope`, all
    /// that they name is defined, and there is room for the end of an open pass.
    pub open spec fn consistent(self, scope: PassScope) -> bool {
        &&& self.within_limit()
        &&& self.pass_open == !(scope is Outside)
        &&& scope_of(self.commands) == Some(scope)
        &&& forall|i: int|
            0 <= i < self.commands.len() ==> resolves(self.resources, #[trigger] self.commands[i])
    }

    /// Whether an encoder for the same table has one more command.
    pub open spec fn follows(self, earlier: Self, command: CommandView) -> bool {
        &&& self.resources == earlier.resources
        &&& self.commands == earlier.commands.push(command)
    }
}

impl CommandBufferView {
    /// What every finished buffer keeps: its passes are nested and closed, all that
    /// it names is defined, and it is within the limit.
    pub open spec fn consistent(self) -> bool {
        &&& self.commands.len() <= crate::ir::command::MAX_COMMANDS
        &&& scope_of(self.commands) == Some(PassScope::Outside)
        &&& forall|i: int|
            0 <= i < self.commands.len() ==> resolves(self.resources, #[trigger] self.commands[i])
    }
}

impl RenderStateView {
    /// What every render pass keeps: at most one pipeline is bound, it renders to
    /// the attachments, and all that is bound is defined.
    pub open spec fn consistent(self, table: TableView) -> bool {
        &&& self.pipeline is None || self.programmable_pipeline is None
        &&& self.pipeline matches Some(pipeline) ==> match table.render_pipeline(pipeline) {
            Ok(desc) => self.color_formats == seq![desc.target_format] && self.depth_matches(
                desc.depth,
            ),
            Err(_) => false,
        }
        &&& self.programmable_pipeline matches Some(pipeline)
            ==> match table.programmable_render_pipeline(pipeline) {
            Ok(desc) => self.targets_match(desc) && self.depth_matches(desc.depth),
            Err(_) => false,
        }
        &&& self.bind_groups.len() == MAX_BIND_GROUPS
        &&& forall|i: int|
            0 <= i < self.bind_groups.len() ==> ((#[trigger] self.bind_groups[i]) matches Some(
                group,
            ) ==> table.bind_group(group) is Ok)
        &&& self.vertex_buffers.len() == MAX_VERTEX_BUFFERS
        &&& forall|i: int|
            0 <= i < self.vertex_buffers.len() ==> ((
            #[trigger] self.vertex_buffers[i]) matches Some(bound) ==> table.buffer(bound.0) is Ok)
        &&& self.index_buffer matches Some(bound) ==> table.buffer(bound.0) is Ok
        &&& self.texture matches Some(texture) ==> table.texture(texture) is Ok
            && !self.feeds_back(texture)
        &&& self.sampler matches Some(sampler) ==> table.sampler(sampler) is Ok
    }
}

impl ComputeStateView {
    /// What every compute pass keeps: all that is bound is defined.
    pub open spec fn consistent(self, table: TableView) -> bool {
        &&& self.pipeline matches Some(pipeline) ==> table.compute_pipeline(pipeline) is Ok
        &&& self.bind_groups.len() == MAX_BIND_GROUPS
        &&& forall|i: int|
            0 <= i < self.bind_groups.len() ==> ((#[trigger] self.bind_groups[i]) matches Some(
                group,
            ) ==> table.bind_group(group) is Ok)
    }
}

/// Whether a call that succeeds adds a command to a consistent recording, leads to
/// `scope` and changes nothing else of the recording.
pub open spec fn records(
    result: Result<EncoderView, Error>,
    encoder: EncoderView,
    command: CommandView,
    scope: PassScope,
) -> bool {
    match result {
        Ok(next) => next.consistent(scope) && next.follows(encoder, command),
        Err(_) => true,
    }
}

/// Whether a call in a render pass that succeeds also keeps the pass consistent.
pub open spec fn records_in_render(
    result: Result<(EncoderView, RenderStateView), Error>,
    encoder: EncoderView,
    command: CommandView,
) -> bool {
    match result {
        Ok((next, state)) => next.consistent(PassScope::Render) && next.follows(encoder, command)
            && state.consistent(next.resources),
        Err(_) => true,
    }
}

/// Whether a call in a compute pass that succeeds also keeps the pass consistent.
pub open spec fn records_in_compute(
    result: Result<(EncoderView, ComputeStateView), Error>,
    encoder: EncoderView,
    command: CommandView,
) -> bool {
    match result {
        Ok((next, state)) => next.consistent(PassScope::Compute) && next.follows(encoder, command)
            && state.consistent(next.resources),
        Err(_) => true,
    }
}

proof fn lemma_appended(
    before: EncoderView,
    after: EncoderView,
    command: CommandView,
    scope: PassScope,
    next: PassScope,
)
    requires
        before.consistent(scope),
        after.follows(before, command),
        after.within_limit(),
        after.pass_open == !(next is Outside),
        scope_after(scope, command) == Some(next),
        resolves(before.resources, command),
    ensures
        after.consistent(next),
{
    assert(after.commands.drop_last() =~= before.commands);
    assert(after.commands.last() == command);
    assert forall|i: int| 0 <= i < after.commands.len() implies resolves(
        after.resources,
        #[trigger] after.commands[i],
    ) by {
        if i < before.commands.len() {
            assert(after.commands[i] == before.commands[i]);
        }
    }
}

/// A new encoder is consistent, and a finished one becomes a consistent buffer.
pub proof fn law_recordings_begin_and_finish_consistent(table: TableView, encoder: EncoderView)
    ensures
        EncoderView::initial(table).consistent(PassScope::Outside),
        encoder.consistent(PassScope::Outside) ==> (CommandBufferView {
            resources: encoder.resources,
            commands: encoder.commands,
        }).consistent(),
{
}

/// Uploads, copies and barriers add themselves to a consistent recording and
/// leave it outside passes.
pub proof fn law_transfers_keep_recordings_consistent(encoder: EncoderView)
    requires
        encoder.consistent(PassScope::Outside),
    ensures
        forall|buffer: BufferRef, offset: u64, data: Seq<u8>|
            records(
                #[trigger] encoder.write_buffer(buffer, offset, data),
                encoder,
                CommandView::WriteBuffer { buffer, offset, data },
                PassScope::Outside,
            ),
        forall|texture: TextureRef, write: TextureWriteView|
            records(
                #[trigger] encoder.write_texture(texture, write),
                encoder,
                CommandView::WriteTexture { texture, write },
                PassScope::Outside,
            ),
        forall|
            source: BufferRef,
            source_offset: u64,
            destination: BufferRef,
            destination_offset: u64,
            size: u64,
        |
            records(
                #[trigger] encoder.copy_buffer_to_buffer(
                    source,
                    source_offset,
                    destination,
                    destination_offset,
                    size,
                ),
                encoder,
                CommandView::CopyBufferToBuffer {
                    source,
                    source_offset,
                    destination,
                    destination_offset,
                    size,
                },
                PassScope::Outside,
            ),
        forall|
            source: TextureRef,
            source_rect: PixelRect,
            destination: TextureRef,
            destination_rect: PixelRect,
        |
            records(
                #[trigger] encoder.copy_texture_to_texture(
                    source,
                    source_rect,
                    destination,
                    destination_rect,
                ),
                encoder,
                CommandView::CopyTextureToTexture {
                    source,
                    source_rect,
                    destination,
                    destination_rect,
                },
                PassScope::Outside,
            ),
        forall|barrier: ResourceBarrier|
            records(
                #[trigger] encoder.resource_barrier(barrier),
                encoder,
                CommandView::ResourceBarrier(barrier),
                PassScope::Outside,
            ),
{
    let outside = PassScope::Outside;
    assert forall|buffer: BufferRef, offset: u64, data: Seq<u8>| records(
        #[trigger] encoder.write_buffer(buffer, offset, data),
        encoder,
        CommandView::WriteBuffer { buffer, offset, data },
        outside,
    ) by {
        let result = encoder.write_buffer(buffer, offset, data);
        if result is Ok {
            lemma_appended(
                encoder,
                result->Ok_0,
                CommandView::WriteBuffer { buffer, offset, data },
                outside,
                outside,
            );
        }
    }
    assert forall|texture: TextureRef, write: TextureWriteView| records(
        #[trigger] encoder.write_texture(texture, write),
        encoder,
        CommandView::WriteTexture { texture, write },
        outside,
    ) by {
        let result = encoder.write_texture(texture, write);
        if result is Ok {
            lemma_appended(
                encoder,
                result->Ok_0,
                CommandView::WriteTexture { texture, write },
                outside,
                outside,
            );
        }
    }
    assert forall|
        source: BufferRef,
        source_offset: u64,
        destination: BufferRef,
        destination_offset: u64,
        size: u64,
    | records(
        #[trigger] encoder.copy_buffer_to_buffer(
            source,
            source_offset,
            destination,
            destination_offset,
            size,
        ),
        encoder,
        CommandView::CopyBufferToBuffer {
            source,
            source_offset,
            destination,
            destination_offset,
            size,
        },
        outside,
    ) by {
        let result = encoder.copy_buffer_to_buffer(
            source,
            source_offset,
            destination,
            destination_offset,
            size,
        );
        if result is Ok {
            lemma_appended(
                encoder,
                result->Ok_0,
                CommandView::CopyBufferToBuffer {
                    source,
                    source_offset,
                    destination,
                    destination_offset,
                    size,
                },
                outside,
                outside,
            );
        }
    }
    assert forall|
        source: TextureRef,
        source_rect: PixelRect,
        destination: TextureRef,
        destination_rect: PixelRect,
    | records(
        #[trigger] encoder.copy_texture_to_texture(
            source,
            source_rect,
            destination,
            destination_rect,
        ),
        encoder,
        CommandView::CopyTextureToTexture { source, source_rect, destination, destination_rect },
        outside,
    ) by {
        let result = encoder.copy_texture_to_texture(
            source,
            source_rect,
            destination,
            destination_rect,
        );
        if result is Ok {
            lemma_appended(
                encoder,
                result->Ok_0,
                CommandView::CopyTextureToTexture {
                    source,
                    source_rect,
                    destination,
                    destination_rect,
                },
                outside,
                outside,
            );
        }
    }
    assert forall|barrier: ResourceBarrier| records(
        #[trigger] encoder.resource_barrier(barrier),
        encoder,
        CommandView::ResourceBarrier(barrier),
        outside,
    ) by {
        let result = encoder.resource_barrier(barrier);
        if result is Ok {
            lemma_appended(
                encoder,
                result->Ok_0,
                CommandView::ResourceBarrier(barrier),
                outside,
                outside,
            );
        }
    }
}

proof fn lemma_checked_colors_resolve(
    encoder: EncoderView,
    desc: RenderPassView,
    count: nat,
    i: int,
)
    requires
        encoder.check_colors(desc, count) is Ok,
        0 <= i < count <= desc.colors.len(),
    ensures
        encoder.resources.texture(desc.colors[i].target) is Ok,
    decreases count,
{
    if i < count - 1 {
        lemma_checked_colors_resolve(encoder, desc, (count - 1) as nat, i);
    }
}

/// Passes begin outside passes, with nothing bound.
pub proof fn law_passes_begin_consistent(encoder: EncoderView)
    requires
        encoder.consistent(PassScope::Outside),
    ensures
        forall|desc: RenderPassView|
            records_in_render(
                #[trigger] encoder.begin_render_pass(desc),
                encoder,
                CommandView::BeginRenderPass(desc),
            ),
        records_in_compute(
            encoder.begin_compute_pass(),
            encoder,
            CommandView::BeginComputePass,
        ),
{
    assert forall|desc: RenderPassView| records_in_render(
        #[trigger] encoder.begin_render_pass(desc),
        encoder,
        CommandView::BeginRenderPass(desc),
    ) by {
        let result = encoder.begin_render_pass(desc);
        if result is Ok {
            assert forall|i: int| 0 <= i < desc.colors.len() implies encoder.resources.texture(
                (#[trigger] desc.colors[i]).target,
            ) is Ok by {
                lemma_checked_colors_resolve(encoder, desc, desc.colors.len(), i);
            }
            lemma_appended(
                encoder,
                (result->Ok_0).0,
                CommandView::BeginRenderPass(desc),
                PassScope::Outside,
                PassScope::Render,
            );
        }
    }
    let result = encoder.begin_compute_pass();
    if result is Ok {
        lemma_appended(
            encoder,
            (result->Ok_0).0,
            CommandView::BeginComputePass,
            PassScope::Outside,
            PassScope::Compute,
        );
    }
}

/// Inside a pass no other begins, and nothing is uploaded, copied or ordered.
pub proof fn law_passes_do_not_nest(encoder: EncoderView)
    requires
        encoder.pass_open,
    ensures
        forall|desc: RenderPassView|
            (#[trigger] encoder.begin_render_pass(desc)) == Err::<
                (EncoderView, RenderStateView),
                Error,
            >(Error::RenderPassActive),
        encoder.begin_compute_pass() == Err::<(EncoderView, ComputeStateView), Error>(
            Error::RenderPassActive,
        ),
        forall|buffer: BufferRef, offset: u64, data: Seq<u8>|
            (#[trigger] encoder.write_buffer(buffer, offset, data)) == Err::<EncoderView, Error>(
                Error::RenderPassActive,
            ),
        forall|texture: TextureRef, write: TextureWriteView|
            (#[trigger] encoder.write_texture(texture, write)) == Err::<EncoderView, Error>(
                Error::RenderPassActive,
            ),
        forall|
            source: BufferRef,
            source_offset: u64,
            destination: BufferRef,
            destination_offset: u64,
            size: u64,
        |
            (#[trigger] encoder.copy_buffer_to_buffer(source, source_offset, destination, destination_offset, size)) == Err::<EncoderView, Error>(
                Error::RenderPassActive,
            ),
        forall|
            source: TextureRef,
            source_rect: PixelRect,
            destination: TextureRef,
            destination_rect: PixelRect,
        |
            (#[trigger] encoder.copy_texture_to_texture(source, source_rect, destination, destination_rect)) == Err::<EncoderView, Error>(
                Error::RenderPassActive,
            ),
        forall|barrier: ResourceBarrier|
            (#[trigger] encoder.resource_barrier(barrier)) == Err::<EncoderView, Error>(
                Error::RenderPassActive,
            ),
{
}

/// An open pass can always be ended: the recording kept room for its end.
pub proof fn law_open_passes_can_be_ended(encoder: EncoderView)
    ensures
        encoder.consistent(PassScope::Render) ==> (encoder.end_pass(
            CommandView::EndRenderPass,
        ) matches Ok(next) && next.consistent(PassScope::Outside) && next.follows(
            encoder,
            CommandView::EndRenderPass,
        )),
        encoder.consistent(PassScope::Compute) ==> (encoder.end_pass(
            CommandView::EndComputePass,
        ) matches Ok(next) && next.consistent(PassScope::Outside) && next.follows(
            encoder,
            CommandView::EndComputePass,
        )),
{
    if encoder.consistent(PassScope::Render) {
        lemma_appended(
            encoder,
            encoder.end_pass(CommandView::EndRenderPass)->Ok_0,
            CommandView::EndRenderPass,
            PassScope::Render,
            PassScope::Outside,
        );
    }
    if encoder.consistent(PassScope::Compute) {
        lemma_appended(
            encoder,
            encoder.end_pass(CommandView::EndComputePass)->Ok_0,
            CommandView::EndComputePass,
            PassScope::Compute,
            PassScope::Outside,
        );
    }
}

/// Calls that bind state in a render pass add themselves to a consistent recording
/// and keep the pass consistent.
pub proof fn law_bindings_keep_render_passes_consistent(
    encoder: EncoderView,
    state: RenderStateView,
)
    requires
        encoder.consistent(PassScope::Render),
        state.consistent(encoder.resources),
    ensures
        forall|pipeline: RenderPipelineRef|
            records_in_render(
                #[trigger] state.set_pipeline(encoder, pipeline),
                encoder,
                CommandView::SetPipeline(pipeline),
            ),
        forall|pipeline: ProgrammableRenderPipelineRef|
            records_in_render(
                #[trigger] state.set_programmable_pipeline(encoder, pipeline),
                encoder,
                CommandView::SetProgrammablePipeline(pipeline),
            ),
        forall|index: u32, bind_group: BindGroupRef|
            records_in_render(
                #[trigger] state.set_bind_group(encoder, index, bind_group),
                encoder,
                CommandView::SetBindGroup { index, bind_group },
            ),
        forall|stages: ShaderStages, offset: u32, data: Seq<u8>|
            records_in_render(
                #[trigger] state.set_push_constants(encoder, stages, offset, data),
                encoder,
                CommandView::SetPushConstants { stages, offset, data },
            ),
        forall|buffer: BufferRef, offset: u64, format: IndexFormat|
            records_in_render(
                #[trigger] state.set_index_buffer(encoder, buffer, offset, format),
                encoder,
                CommandView::SetIndexBuffer { buffer, offset, format },
            ),
        forall|texture: TextureRef|
            records_in_render(
                #[trigger] state.set_texture(encoder, texture),
                encoder,
                CommandView::SetTexture(texture),
            ),
        forall|sampler: SamplerRef|
            records_in_render(
                #[trigger] state.set_sampler(encoder, sampler),
                encoder,
                CommandView::SetSampler(sampler),
            ),
        forall|uniforms: DrawUniforms|
            records_in_render(
                #[trigger] state.set_uniforms(encoder, uniforms),
                encoder,
                CommandView::SetUniforms(uniforms),
            ),
        forall|scissor: Option<PixelRect>|
            records_in_render(
                #[trigger] state.set_scissor(encoder, scissor),
                encoder,
                CommandView::SetScissor(scissor),
            ),
        forall|viewport: Viewport|
            records_in_render(
                #[trigger] state.set_viewport(encoder, viewport),
                encoder,
                CommandView::SetViewport(viewport),
            ),
        forall|slot: u32, buffer: BufferRef, offset: u64, command: CommandView|
            binds_vertex_buffer(command, slot, buffer, offset) ==> records_in_render(
                #[trigger] state.bind_vertex_buffer(encoder, slot, buffer, offset, command),
                encoder,
                command,
            ),
{
    let render = PassScope::Render;
    assert forall|pipeline: RenderPipelineRef| records_in_render(
        #[trigger] state.set_pipeline(encoder, pipeline),
        encoder,
        CommandView::SetPipeline(pipeline),
    ) by {
        let result = state.set_pipeline(encoder, pipeline);
        if result is Ok {
            lemma_appended(
                encoder,
                (result->Ok_0).0,
                CommandView::SetPipeline(pipeline),
                render,
                render,
            );
        }
    }
    assert forall|pipeline: ProgrammableRenderPipelineRef| records_in_render(
        #[trigger] state.set_programmable_pipeline(encoder, pipeline),
        encoder,
        CommandView::SetProgrammablePipeline(pipeline),
    ) by {
        let result = state.set_programmable_pipeline(encoder, pipeline);
        if result is Ok {
            lemma_appended(
                encoder,
                (result->Ok_0).0,
                CommandView::SetProgrammablePipeline(pipeline),
                render,
                render,
            );
        }
    }
    assert forall|index: u32, bind_group: BindGroupRef| records_in_render(
        #[trigger] state.set_bind_group(encoder, index, bind_group),
        encoder,
        CommandView::SetBindGroup { index, bind_group },
    ) by {
        let result = state.set_bind_group(encoder, index, bind_group);
        if result is Ok {
            lemma_appended(
                encoder,
                (result->Ok_0).0,
                CommandView::SetBindGroup { index, bind_group },
                render,
                render,
            );
        }
    }
    assert forall|stages: ShaderStages, offset: u32, data: Seq<u8>| records_in_render(
        #[trigger] state.set_push_constants(encoder, stages, offset, data),
        encoder,
        CommandView::SetPushConstants { stages, offset, data },
    ) by {
        let result = state.set_push_constants(encoder, stages, offset, data);
        if result is Ok {
            lemma_appended(
                encoder,
                (result->Ok_0).0,
                CommandView::SetPushConstants { stages, offset, data },
                render,
                render,
            );
        }
    }
    assert forall|buffer: BufferRef, offset: u64, format: IndexFormat| records_in_render(
        #[trigger] state.set_index_buffer(encoder, buffer, offset, format),
        encoder,
        CommandView::SetIndexBuffer { buffer, offset, format },
    ) by {
        let result = state.set_index_buffer(encoder, buffer, offset, format);
        if result is Ok {
            lemma_appended(
                encoder,
                (result->Ok_0).0,
                CommandView::SetIndexBuffer { buffer, offset, format },
                render,
                render,
            );
        }
    }
    assert forall|texture: TextureRef| records_in_render(
        #[trigger] state.set_texture(encoder, texture),
        encoder,
        CommandView::SetTexture(texture),
    ) by {
        let result = state.set_texture(encoder, texture);
        if result is Ok {
            lemma_appended(
                encoder,
                (result->Ok_0).0,
                CommandView::SetTexture(texture),
                render,
                render,
            );
        }
    }
    assert forall|sampler: SamplerRef| records_in_render(
        #[trigger] state.set_sampler(encoder, sampler),
        encoder,
        CommandView::SetSampler(sampler),
    ) by {
        let result = state.set_sampler(encoder, sampler);
        if result is Ok {
            lemma_appended(
                encoder,
                (result->Ok_0).0,
                CommandView::SetSampler(sampler),
                render,
                render,
            );
        }
    }
    assert forall|uniforms: DrawUniforms| records_in_render(
        #[trigger] state.set_uniforms(encoder, uniforms),
        encoder,
        CommandView::SetUniforms(uniforms),
    ) by {
        let result = state.set_uniforms(encoder, uniforms);
        if result is Ok {
            lemma_appended(
                encoder,
                (result->Ok_0).0,
                CommandView::SetUniforms(uniforms),
                render,
                render,
            );
        }
    }
    assert forall|scissor: Option<PixelRect>| records_in_render(
        #[trigger] state.set_scissor(encoder, scissor),
        encoder,
        CommandView::SetScissor(scissor),
    ) by {
        let result = state.set_scissor(encoder, scissor);
        if result is Ok {
            lemma_appended(
                encoder,
                (result->Ok_0).0,
                CommandView::SetScissor(scissor),
                render,
                render,
            );
        }
    }
    assert forall|viewport: Viewport| records_in_render(
        #[trigger] state.set_viewport(encoder, viewport),
        encoder,
        CommandView::SetViewport(viewport),
    ) by {
        let result = state.set_viewport(encoder, viewport);
        if result is Ok {
            lemma_appended(
                encoder,
                (result->Ok_0).0,
                CommandView::SetViewport(viewport),
                render,
                render,
            );
        }
    }
    assert forall|slot: u32, buffer: BufferRef, offset: u64, command: CommandView|
        binds_vertex_buffer(command, slot, buffer, offset) implies records_in_render(
        #[trigger] state.bind_vertex_buffer(encoder, slot, buffer, offset, command),
        encoder,
        command,
    ) by {
        let result = state.bind_vertex_buffer(encoder, slot, buffer, offset, command);
        if result is Ok {
            lemma_appended(encoder, (result->Ok_0).0, command, render, render);
        }
    }
}

/// Whether a command binds a vertex buffer to a slot.
pub open spec fn binds_vertex_buffer(
    command: CommandView,
    slot: u32,
    buffer: BufferRef,
    offset: u64,
) -> bool {
    command == (CommandView::SetVertexBufferSlot { slot, buffer, offset }) || (slot == 0
        && command == (CommandView::SetVertexBuffer { buffer, offset }))
}

/// Whether a command draws.
pub open spec fn is_draw(command: CommandView) -> bool {
    command is Draw || command is DrawInstanced || command is DrawIndexed
        || command is DrawIndexedInstanced
}

/// Draws add themselves to a consistent recording and keep the pass consistent,
/// and only a pass with a bound pipeline draws.
pub proof fn law_draws_keep_render_passes_consistent(
    encoder: EncoderView,
    state: RenderStateView,
    shape: DrawShape,
    instance_count: u32,
    first_instance: u32,
    command: CommandView,
)
    requires
        encoder.consistent(PassScope::Render),
        state.consistent(encoder.resources),
        is_draw(command),
    ensures
        records_in_render(state.draw(encoder, shape, command), encoder, command),
        records_in_render(
            state.draw_instances(encoder, shape, instance_count, first_instance, command),
            encoder,
            command,
        ),
        state.draw(encoder, shape, command) is Ok ==> state.pipeline is Some
            || state.programmable_pipeline is Some,
{
    let result = state.draw(encoder, shape, command);
    if result is Ok {
        lemma_appended(
            encoder,
            (result->Ok_0).0,
            command,
            PassScope::Render,
            PassScope::Render,
        );
    }
}

/// Calls in a compute pass add themselves to a consistent recording and keep the
/// pass consistent.
pub proof fn law_calls_keep_compute_passes_consistent(
    encoder: EncoderView,
    state: ComputeStateView,
)
    requires
        encoder.consistent(PassScope::Compute),
        state.consistent(encoder.resources),
    ensures
        forall|pipeline: ComputePipelineRef|
            records_in_compute(
                #[trigger] state.set_pipeline(encoder, pipeline),
                encoder,
                CommandView::SetComputePipeline(pipeline),
            ),
        forall|index: u32, bind_group: BindGroupRef|
            records_in_compute(
                #[trigger] state.set_bind_group(encoder, index, bind_group),
                encoder,
                CommandView::SetBindGroup { index, bind_group },
            ),
        forall|stages: ShaderStages, offset: u32, data: Seq<u8>|
            records_in_compute(
                #[trigger] state.set_push_constants(encoder, stages, offset, data),
                encoder,
                CommandView::SetPushConstants { stages, offset, data },
            ),
        forall|x: u32, y: u32, z: u32|
            records_in_compute(
                #[trigger] state.dispatch(encoder, x, y, z),
                encoder,
                CommandView::Dispatch { x, y, z },
            ),
{
    let compute = PassScope::Compute;
    assert forall|pipeline: ComputePipelineRef| records_in_compute(
        #[trigger] state.set_pipeline(encoder, pipeline),
        encoder,
        CommandView::SetComputePipeline(pipeline),
    ) by {
        let result = state.set_pipeline(encoder, pipeline);
        if result is Ok {
            lemma_appended(
                encoder,
                (result->Ok_0).0,
                CommandView::SetComputePipeline(pipeline),
                compute,
                compute,
            );
        }
    }
    assert forall|index: u32, bind_group: BindGroupRef| records_in_compute(
        #[trigger] state.set_bind_group(encoder, index, bind_group),
        encoder,
        CommandView::SetBindGroup { index, bind_group },
    ) by {
        let result = state.set_bind_group(encoder, index, bind_group);
        if result is Ok {
            lemma_appended(
                encoder,
                (result->Ok_0).0,
                CommandView::SetBindGroup { index, bind_group },
                compute,
                compute,
            );
        }
    }
    assert forall|stages: ShaderStages, offset: u32, data: Seq<u8>| records_in_compute(
        #[trigger] state.set_push_constants(encoder, stages, offset, data),
        encoder,
        CommandView::SetPushConstants { stages, offset, data },
    ) by {
        let result = state.set_push_constants(encoder, stages, offset, data);
        if result is Ok {
            lemma_appended(
                encoder,
                (result->Ok_0).0,
                CommandView::SetPushConstants { stages, offset, data },
                compute,
                compute,
            );
        }
    }
    assert forall|x: u32, y: u32, z: u32| records_in_compute(
        #[trigger] state.dispatch(encoder, x, y, z),
        encoder,
        CommandView::Dispatch { x, y, z },
    ) by {
        let result = state.dispatch(encoder, x, y, z);
        if result is Ok {
            lemma_appended(
                encoder,
                (result->Ok_0).0,
                CommandView::Dispatch { x, y, z },
                compute,
                compute,
            );
        }
    }
}

/// Whether a replay against a table stands on a consistent recording.
pub open spec fn replay_consistent(at: ReplayView, table: TableView, count: nat) -> bool {
    match at {
        ReplayView::Outside(encoder) => encoder.consistent(PassScope::Outside) && encoder.resources
            == table && encoder.commands.len() == count,
        ReplayView::Render(encoder, state) => encoder.consistent(PassScope::Render)
            && state.consistent(table) && encoder.resources == table && encoder.commands.len()
            == count,
        ReplayView::Compute(encoder, state) => encoder.consistent(PassScope::Compute)
            && state.consistent(table) && encoder.resources == table && encoder.commands.len()
            == count,
    }
}

/// The encoder that a replay stands on.
pub open spec fn standing_on(at: ReplayView) -> EncoderView {
    match at {
        ReplayView::Outside(encoder) => encoder,
        ReplayView::Render(encoder, _) => encoder,
        ReplayView::Compute(encoder, _) => encoder,
    }
}

proof fn lemma_replay_step(at: ReplayView, table: TableView, count: nat, command: OwnedCommand)
    requires
        replay_consistent(at, table, count),
    ensures
        crate::ir::owned::replay_step(at, command) matches Ok(next) ==> replay_consistent(
            next,
            table,
            count + 1,
        ) && standing_on(next).follows(
            standing_on(at),
            crate::ir::owned::borrowed_form(command),
        ),
{
    match at {
        ReplayView::Outside(encoder) => {
            reveal(crate::ir::owned::replay_outside);
            match command {
                OwnedCommand::BeginRenderPass(desc) => {
                    crate::ir::owned::lemma_passes_borrowed(table, desc, Seq::empty(), false);
                },
                OwnedCommand::BeginRenderPassWithAttachments { desc, colors, read_only_depth } => {
                    crate::ir::owned::lemma_passes_borrowed(
                        table,
                        desc,
                        colors@,
                        read_only_depth,
                    );
                },
                _ => {},
            }
            law_transfers_keep_recordings_consistent(encoder);
            law_passes_begin_consistent(encoder);
        },
        ReplayView::Render(encoder, state) => {
            lemma_replay_render_step(encoder, state, command);
        },
        ReplayView::Compute(encoder, state) => {
            reveal(crate::ir::owned::replay_compute);
            law_calls_keep_compute_passes_consistent(encoder, state);
            law_open_passes_can_be_ended(encoder);
        },
    }
}

spec fn is_owned_draw(command: OwnedCommand) -> bool {
    command is Draw || command is DrawInstanced || command is DrawIndexed
        || command is DrawIndexedInstanced
}

proof fn lemma_replay_draw(
    encoder: EncoderView,
    state: RenderStateView,
    command: OwnedCommand,
)
    requires
        is_owned_draw(command),
        encoder.consistent(PassScope::Render),
        state.consistent(encoder.resources),
    ensures
        crate::ir::owned::replay_render(encoder, state, command) matches Ok(next)
            ==> replay_consistent(next, encoder.resources, encoder.commands.len() + 1)
            && standing_on(next).follows(encoder, crate::ir::owned::borrowed_form(command)),
{
    reveal(crate::ir::owned::replay_render);
    match command {
        OwnedCommand::Draw { vertex_count, first_vertex } => {
            law_draws_keep_render_passes_consistent(
                encoder,
                state,
                DrawShape { count: vertex_count, first: first_vertex, indexed: false },
                1,
                0,
                CommandView::Draw { vertex_count, first_vertex },
            );
        },
        OwnedCommand::DrawInstanced {
            vertex_count,
            first_vertex,
            instance_count,
            first_instance,
        } => {
            law_draws_keep_render_passes_consistent(
                encoder,
                state,
                DrawShape { count: vertex_count, first: first_vertex, indexed: false },
                instance_count,
                first_instance,
                CommandView::DrawInstanced {
                    vertex_count,
                    first_vertex,
                    instance_count,
                    first_instance,
                },
            );
        },
        OwnedCommand::DrawIndexed { index_count, first_index, base_vertex } => {
            law_draws_keep_render_passes_consistent(
                encoder,
                state,
                DrawShape { count: index_count, first: first_index, indexed: true },
                1,
                0,
                CommandView::DrawIndexed { index_count, first_index, base_vertex },
            );
        },
        OwnedCommand::DrawIndexedInstanced {
            index_count,
            first_index,
            base_vertex,
            instance_count,
            first_instance,
        } => {
            law_draws_keep_render_passes_consistent(
                encoder,
                state,
                DrawShape { count: index_count, first: first_index, indexed: true },
                instance_count,
                first_instance,
                CommandView::DrawIndexedInstanced {
                    index_count,
                    first_index,
                    base_vertex,
                    instance_count,
                    first_instance,
                },
            );
        },
        _ => {},
    }
}

#[verifier::spinoff_prover]
#[verifier::rlimit(60)]
proof fn lemma_replay_binding(
    encoder: EncoderView,
    state: RenderStateView,
    command: OwnedCommand,
)
    requires
        !is_owned_draw(command),
        encoder.consistent(PassScope::Render),
        state.consistent(encoder.resources),
    ensures
        crate::ir::owned::replay_render(encoder, state, command) matches Ok(next)
            ==> replay_consistent(next, encoder.resources, encoder.commands.len() + 1)
            && standing_on(next).follows(encoder, crate::ir::owned::borrowed_form(command)),
{
    reveal(crate::ir::owned::replay_render);
    law_bindings_keep_render_passes_consistent(encoder, state);
    law_open_passes_can_be_ended(encoder);
    match command {
        OwnedCommand::SetVertexBuffer { buffer, offset } => {
            if encoder.resources.buffer_ref(buffer) is Ok {
                let found = encoder.resources.buffer_ref(buffer)->Ok_0;
                assert(binds_vertex_buffer(
                    CommandView::SetVertexBuffer { buffer: found, offset },
                    0,
                    found,
                    offset,
                ));
            }
        },
        OwnedCommand::SetVertexBufferSlot { slot, buffer, offset } => {
            if encoder.resources.buffer_ref(buffer) is Ok {
                let found = encoder.resources.buffer_ref(buffer)->Ok_0;
                assert(binds_vertex_buffer(
                    CommandView::SetVertexBufferSlot { slot, buffer: found, offset },
                    slot,
                    found,
                    offset,
                ));
            }
        },
        _ => {},
    }
}

proof fn lemma_replay_render_step(
    encoder: EncoderView,
    state: RenderStateView,
    command: OwnedCommand,
)
    requires
        encoder.consistent(PassScope::Render),
        state.consistent(encoder.resources),
    ensures
        crate::ir::owned::replay_render(encoder, state, command) matches Ok(next)
            ==> replay_consistent(next, encoder.resources, encoder.commands.len() + 1)
            && standing_on(next).follows(encoder, crate::ir::owned::borrowed_form(command)),
{
    if is_owned_draw(command) {
        lemma_replay_draw(encoder, state, command);
    } else {
        lemma_replay_binding(encoder, state, command);
    }
}

/// Replaying any owned commands stands on a consistent recording, with one command
/// for each that was replayed.
pub proof fn law_replays_are_consistent(
    table: TableView,
    commands: Seq<OwnedCommand>,
    count: nat,
)
    ensures
        crate::ir::owned::replay(table, commands, count) matches Ok(at) ==> replay_consistent(
            at,
            table,
            count,
        ),
    decreases count,
{
    if count > 0 {
        law_replays_are_consistent(table, commands, (count - 1) as nat);
        let before = crate::ir::owned::replay(table, commands, (count - 1) as nat);
        if before is Ok {
            lemma_replay_step(before->Ok_0, table, (count - 1) as nat, commands[count - 1]);
        }
    }
}

proof fn lemma_replays_record_borrowed_forms(
    table: TableView,
    commands: Seq<OwnedCommand>,
    count: nat,
)
    requires
        count <= commands.len(),
    ensures
        crate::ir::owned::replay(table, commands, count) matches Ok(at) ==> standing_on(at).commands
            == crate::ir::owned::borrowed_forms(commands.take(count as int)),
    decreases count,
{
    let forms = crate::ir::owned::borrowed_forms(commands.take(count as int));
    if count == 0 {
        assert(forms =~= Seq::empty());
    } else {
        let fewer = (count - 1) as nat;
        lemma_replays_record_borrowed_forms(table, commands, fewer);
        law_replays_are_consistent(table, commands, fewer);
        let before = crate::ir::owned::replay(table, commands, fewer);
        if before is Ok {
            lemma_replay_step(before->Ok_0, table, fewer, commands[count - 1]);
            assert(forms =~= crate::ir::owned::borrowed_forms(commands.take(fewer as int)).push(
                crate::ir::owned::borrowed_form(commands[count - 1]),
            ));
        }
    }
}

/// Every command of the buffer that an owned recording becomes is the borrowed form
/// of the owned one: the same kind and values, the reference of each identity, and
/// the owned bytes. So every replay of a recording gives the same commands, against
/// whichever table it succeeds.
pub proof fn law_replays_record_borrowed_forms(table: TableView, commands: Seq<OwnedCommand>)
    ensures
        crate::ir::owned::replayed(table, commands) matches Ok(buffer) ==> buffer.resources == table
            && buffer.commands == crate::ir::owned::borrowed_forms(commands),
{
    lemma_replays_record_borrowed_forms(table, commands, commands.len());
    law_replays_are_consistent(table, commands, commands.len());
    assert(commands.take(commands.len() as int) =~= commands);
}

/// Every buffer that an owned recording becomes is consistent and has one command
/// for each owned one.
pub proof fn law_replayed_buffers_are_consistent(table: TableView, commands: Seq<OwnedCommand>)
    ensures
        crate::ir::owned::replayed(table, commands) matches Ok(buffer) ==> buffer.consistent()
            && buffer.resources == table && buffer.commands.len() == commands.len(),
{
    law_replays_are_consistent(table, commands, commands.len());
}

} // verus!
