//! What passes have bound, read off the commands that were recorded.

use crate::ir::access::Access;
use crate::ir::command::{CommandView, EncoderView, MAX_COMMANDS};
use crate::ir::compute_pass_encoder::ComputeStateView;
use crate::ir::pipeline::{DepthState, DrawUniforms, IndexFormat, MAX_VERTEX_BUFFERS};
use crate::ir::programmable::{TextureAccess, MAX_BIND_GROUPS};
use crate::ir::render_pass::RenderPassView;
use crate::ir::render_pass_encoder::{DrawShape, RenderStateView};
use crate::ir::resource::{BufferUsage, TextureFormat, TextureUsage};
use crate::ir::shader::ShaderStages;
use crate::ir::table::{
    BindGroupRef, BufferRef, ComputePipelineRef, ProgrammableRenderPipelineRef, RenderPipelineRef,
    SamplerRef, TableView, TextureRef,
};
use crate::ir::types::{Error, PixelRect, RectView};
use crate::ir::viewport::Viewport;
use vstd::prelude::*;

verus! {

/// The fixed pipeline that commands leave bound, where none of shaders replaced it.
pub open spec fn fixed_pipeline(commands: Seq<CommandView>) -> Option<RenderPipelineRef>
    decreases commands.len(),
{
    if commands.len() == 0 {
        None
    } else {
        match commands.last() {
            CommandView::SetPipeline(pipeline) => Some(pipeline),
            CommandView::SetProgrammablePipeline(_) => None,
            CommandView::BeginRenderPass(_) => None,
            _ => fixed_pipeline(commands.drop_last()),
        }
    }
}

/// The programmable pipeline that commands leave bound, where no fixed one replaced it.
pub open spec fn shader_pipeline(commands: Seq<CommandView>) -> Option<
    ProgrammableRenderPipelineRef,
>
    decreases commands.len(),
{
    if commands.len() == 0 {
        None
    } else {
        match commands.last() {
            CommandView::SetProgrammablePipeline(pipeline) => Some(pipeline),
            CommandView::SetPipeline(_) => None,
            CommandView::BeginRenderPass(_) => None,
            _ => shader_pipeline(commands.drop_last()),
        }
    }
}

/// The buffer that commands leave bound to a vertex slot, and its first byte.
pub open spec fn slot_buffer(commands: Seq<CommandView>, wanted: int) -> Option<(BufferRef, u64)>
    decreases commands.len(),
{
    if commands.len() == 0 {
        None
    } else {
        match commands.last() {
            CommandView::SetVertexBuffer { buffer, offset } => if wanted == 0 {
                Some((buffer, offset))
            } else {
                slot_buffer(commands.drop_last(), wanted)
            },
            CommandView::SetVertexBufferSlot { slot, buffer, offset } => if wanted == slot {
                Some((buffer, offset))
            } else {
                slot_buffer(commands.drop_last(), wanted)
            },
            CommandView::BeginRenderPass(_) => None,
            _ => slot_buffer(commands.drop_last(), wanted),
        }
    }
}

/// The group that commands leave bound as one of the sets of the latest pass.
pub open spec fn set_group(commands: Seq<CommandView>, wanted: int) -> Option<BindGroupRef>
    decreases commands.len(),
{
    if commands.len() == 0 {
        None
    } else {
        match commands.last() {
            CommandView::SetBindGroup { index, bind_group } => if wanted == index {
                Some(bind_group)
            } else {
                set_group(commands.drop_last(), wanted)
            },
            CommandView::BeginRenderPass(_) => None,
            CommandView::BeginComputePass => None,
            _ => set_group(commands.drop_last(), wanted),
        }
    }
}

/// The compute pipeline that commands leave bound.
pub open spec fn kernel(commands: Seq<CommandView>) -> Option<ComputePipelineRef>
    decreases commands.len(),
{
    if commands.len() == 0 {
        None
    } else {
        match commands.last() {
            CommandView::SetComputePipeline(pipeline) => Some(pipeline),
            CommandView::BeginComputePass => None,
            _ => kernel(commands.drop_last()),
        }
    }
}

/// Whether a render pass has bound what the commands say.
pub open spec fn holds_bindings(state: RenderStateView, commands: Seq<CommandView>) -> bool {
    &&& crate::ir::meaning::open_pass(commands) == Some(state.desc)
    &&& state.pipeline == fixed_pipeline(commands)
    &&& state.programmable_pipeline == shader_pipeline(commands)
    &&& state.vertex_buffers.len() == MAX_VERTEX_BUFFERS
    &&& forall|slot: int|
        0 <= slot < state.vertex_buffers.len() ==> (#[trigger] state.vertex_buffers[slot])
            == slot_buffer(commands, slot)
    &&& state.bind_groups.len() == MAX_BIND_GROUPS
    &&& forall|set: int|
        0 <= set < state.bind_groups.len() ==> (#[trigger] state.bind_groups[set]) == set_group(
            commands,
            set,
        )
    &&& state.index_buffer == crate::ir::meaning::bound_index_buffer(commands)
    &&& state.texture == crate::ir::meaning::bound_texture(commands)
    &&& state.sampler == crate::ir::meaning::bound_sampler(commands)
    &&& state.uniforms == crate::ir::meaning::bound_uniforms(commands)
}

/// Whether a call that succeeds leaves bound what the commands then say.
pub open spec fn keeps_bindings(result: Result<(EncoderView, RenderStateView), Error>) -> bool {
    match result {
        Ok((next, after)) => holds_bindings(after, next.commands),
        Err(_) => true,
    }
}

/// Whether a compute pass has bound what the commands say.
pub open spec fn holds_kernel(state: ComputeStateView, commands: Seq<CommandView>) -> bool {
    &&& state.pipeline == kernel(commands)
    &&& state.bind_groups.len() == MAX_BIND_GROUPS
    &&& forall|set: int|
        0 <= set < state.bind_groups.len() ==> (#[trigger] state.bind_groups[set]) == set_group(
            commands,
            set,
        )
}

/// Whether a call that succeeds leaves bound what the commands then say.
pub open spec fn keeps_kernel(result: Result<(EncoderView, ComputeStateView), Error>) -> bool {
    match result {
        Ok((next, after)) => holds_kernel(after, next.commands),
        Err(_) => true,
    }
}

proof fn lemma_last(commands: Seq<CommandView>, command: CommandView)
    ensures
        commands.push(command).drop_last() == commands,
        commands.push(command).last() == command,
{
    assert(commands.push(command).drop_last() =~= commands);
}

/// A pass that has just begun has bound nothing, whatever earlier passes bound, and knows
/// the formats of its attachments.
pub proof fn law_passes_begin_with_nothing_bound(encoder: EncoderView, desc: RenderPassView)
    ensures
        keeps_bindings(encoder.begin_render_pass(desc)),
        encoder.begin_render_pass(desc) matches Ok((next, state)) ==> {
            &&& state.color_formats.len() == desc.colors.len()
            &&& forall|i: int|
                0 <= i < desc.colors.len() ==> encoder.resources.texture(
                    (#[trigger] desc.colors[i]).target,
                ) is Ok && state.color_formats[i] == encoder.resources.texture(
                    desc.colors[i].target,
                )->Ok_0@.format
            &&& state.depth_format is Some <==> desc.depth is Some
            &&& desc.depth matches Some(depth) ==> encoder.resources.texture(depth.target) is Ok
                && state.depth_format == Some(
                encoder.resources.texture(depth.target)->Ok_0@.format,
            )
            &&& state.used == Set::<crate::ir::access::ResourcePart>::empty()
        },
        keeps_kernel(encoder.begin_compute_pass()),
{
    lemma_last(encoder.commands, CommandView::BeginRenderPass(desc));
    lemma_last(encoder.commands, CommandView::BeginComputePass);
    lemma_colors(encoder, desc, desc.colors.len());
}

/// Every color attachment passes exactly when each of them does.
proof fn lemma_colors(encoder: EncoderView, desc: RenderPassView, count: nat)
    ensures
        encoder.check_colors(desc, count) is Ok <==> forall|i: int|
            0 <= i < count ==> encoder.check_attachment(
                (#[trigger] desc.colors[i]).target,
                desc.area@,
            ) is Ok,
    decreases count,
{
    if count > 0 {
        lemma_colors(encoder, desc, (count - 1) as nat);
        if encoder.check_colors(desc, count) is Ok {
            assert forall|i: int| 0 <= i < count implies encoder.check_attachment(
                (#[trigger] desc.colors[i]).target,
                desc.area@,
            ) is Ok by {}
        }
    }
}

/// Whether a texture can be rendered to over an area: it exists, rendering to it is
/// allowed, and it has every pixel of the area.
pub open spec fn renderable(table: TableView, target: TextureRef, area: RectView) -> bool {
    &&& table.texture(target) is Ok
    &&& table.texture(target)->Ok_0@.usage.allows(TextureUsage::RENDER_ATTACHMENT_BIT)
    &&& forall|x: int, y: int| #[trigger]
        area.contains(x, y) ==> crate::ir::bounds::texel_exists(
            table.texture(target)->Ok_0@.extent,
            x,
            y,
        )
}

/// A render pass begins exactly when no pass is open, every attachment can be rendered to
/// over the whole area, the access is admitted, and the pass and its end have room.
pub proof fn law_passes_begin_within_their_attachments(encoder: EncoderView, desc: RenderPassView)
    requires
        desc.area@.valid(),
    ensures
        encoder.begin_render_pass(desc) is Ok <==> {
            &&& !encoder.pass_open
            &&& forall|i: int|
                0 <= i < desc.colors.len() ==> renderable(
                    encoder.resources,
                    (#[trigger] desc.colors[i]).target,
                    desc.area@,
                )
            &&& desc.depth matches Some(depth) ==> renderable(
                encoder.resources,
                depth.target,
                desc.area@,
            )
            &&& encoder.commands.len() + 2 <= MAX_COMMANDS
            &&& encoder.access.check(
                crate::ir::command::attachment_parts(desc),
                Access::Texture(TextureAccess::RenderAttachment),
            ) is Ok
        },
{
    lemma_colors(encoder, desc, desc.colors.len());
    assert forall|target: TextureRef| #[trigger]
        renderable(encoder.resources, target, desc.area@) <==> encoder.check_attachment(
            target,
            desc.area@,
        ) is Ok by {
        if encoder.resources.texture(target) is Ok {
            crate::ir::types::law_within_is_every_pixel(
                desc.area@,
                encoder.resources.texture(target)->Ok_0@.extent,
            );
        }
    }
    if encoder.check_colors(desc, desc.colors.len()) is Ok {
        assert forall|i: int| 0 <= i < desc.colors.len() implies renderable(
            encoder.resources,
            (#[trigger] desc.colors[i]).target,
            desc.area@,
        ) by {}
    } else {
        let i = choose|i: int|
            0 <= i < desc.colors.len() && !(encoder.check_attachment(
                (#[trigger] desc.colors[i]).target,
                desc.area@,
            ) is Ok);
        assert(!renderable(encoder.resources, desc.colors[i].target, desc.area@));
    }
    if desc.depth is Some {
        assert(renderable(encoder.resources, desc.depth->0.target, desc.area@)
            <==> encoder.check_attachment(desc.depth->0.target, desc.area@) is Ok);
    }
}

/// One more command changes what it names.
proof fn lemma_bindings_kept(
    commands: Seq<CommandView>,
    longer: Seq<CommandView>,
    state: RenderStateView,
    after: RenderStateView,
)
    requires
        longer.len() > 0,
        longer.drop_last() == commands,
        holds_bindings(state, commands),
        !(longer.last() is BeginRenderPass),
        !(longer.last() is EndRenderPass),
        !(longer.last() is BeginComputePass),
        after.desc == state.desc,
        after.pipeline == (match longer.last() {
            CommandView::SetPipeline(pipeline) => Some(pipeline),
            CommandView::SetProgrammablePipeline(_) => None,
            _ => state.pipeline,
        }),
        after.programmable_pipeline == (match longer.last() {
            CommandView::SetProgrammablePipeline(pipeline) => Some(pipeline),
            CommandView::SetPipeline(_) => None,
            _ => state.programmable_pipeline,
        }),
        after.vertex_buffers == (match longer.last() {
            CommandView::SetVertexBuffer { buffer, offset } => state.vertex_buffers.update(
                0,
                Some((buffer, offset)),
            ),
            CommandView::SetVertexBufferSlot { slot, buffer, offset } =>
                state.vertex_buffers.update(slot as int, Some((buffer, offset))),
            _ => state.vertex_buffers,
        }),
        longer.last() matches CommandView::SetVertexBufferSlot { slot, .. } ==> slot
            < MAX_VERTEX_BUFFERS,
        after.bind_groups == (match longer.last() {
            CommandView::SetBindGroup { index, bind_group } => state.bind_groups.update(
                index as int,
                Some(bind_group),
            ),
            _ => state.bind_groups,
        }),
        longer.last() matches CommandView::SetBindGroup { index, .. } ==> index < MAX_BIND_GROUPS,
        after.index_buffer == (match longer.last() {
            CommandView::SetIndexBuffer { buffer, offset, format } => Some(
                (buffer, offset, format),
            ),
            _ => state.index_buffer,
        }),
        after.texture == (match longer.last() {
            CommandView::SetTexture(texture) => Some(texture),
            _ => state.texture,
        }),
        after.sampler == (match longer.last() {
            CommandView::SetSampler(sampler) => Some(sampler),
            _ => state.sampler,
        }),
        after.uniforms == (match longer.last() {
            CommandView::SetUniforms(uniforms) => Some(uniforms),
            _ => state.uniforms,
        }),
    ensures
        holds_bindings(after, longer),
{
    assert forall|slot: int| 0 <= slot < after.vertex_buffers.len() implies (
    #[trigger] after.vertex_buffers[slot]) == slot_buffer(longer, slot) by {
        assert(state.vertex_buffers[slot] == slot_buffer(commands, slot));
    }
    assert forall|set: int| 0 <= set < after.bind_groups.len() implies (
    #[trigger] after.bind_groups[set]) == set_group(longer, set) by {
        assert(state.bind_groups[set] == set_group(commands, set));
    }
}

/// In a render pass, what is bound is always what the commands of the pass bound last.
#[verifier::rlimit(60)]
pub proof fn law_render_passes_hold_what_was_bound(encoder: EncoderView, state: RenderStateView)
    requires
        holds_bindings(state, encoder.commands),
    ensures
        forall|pipeline: RenderPipelineRef|
            keeps_bindings(#[trigger] state.set_pipeline(encoder, pipeline)),
        forall|pipeline: ProgrammableRenderPipelineRef|
            keeps_bindings(#[trigger] state.set_programmable_pipeline(encoder, pipeline)),
        forall|index: u32, bind_group: BindGroupRef|
            keeps_bindings(#[trigger] state.set_bind_group(encoder, index, bind_group)),
        forall|stages: ShaderStages, offset: u32, data: Seq<u8>|
            keeps_bindings(#[trigger] state.set_push_constants(encoder, stages, offset, data)),
        forall|buffer: BufferRef, offset: u64|
            keeps_bindings(
                #[trigger] state.bind_vertex_buffer(
                    encoder,
                    0,
                    buffer,
                    offset,
                    CommandView::SetVertexBuffer { buffer, offset },
                ),
            ),
        forall|slot: u32, buffer: BufferRef, offset: u64|
            keeps_bindings(
                #[trigger] state.bind_vertex_buffer(
                    encoder,
                    slot,
                    buffer,
                    offset,
                    CommandView::SetVertexBufferSlot { slot, buffer, offset },
                ),
            ),
        forall|buffer: BufferRef, offset: u64, format: IndexFormat|
            keeps_bindings(#[trigger] state.set_index_buffer(encoder, buffer, offset, format)),
        forall|texture: TextureRef|
            keeps_bindings(#[trigger] state.set_texture(encoder, texture)),
        forall|sampler: SamplerRef|
            keeps_bindings(#[trigger] state.set_sampler(encoder, sampler)),
        forall|uniforms: DrawUniforms|
            keeps_bindings(#[trigger] state.set_uniforms(encoder, uniforms)),
        forall|scissor: Option<PixelRect>|
            keeps_bindings(#[trigger] state.set_scissor(encoder, scissor)),
        forall|viewport: Viewport|
            keeps_bindings(#[trigger] state.set_viewport(encoder, viewport)),
{
    assert forall|pipeline: RenderPipelineRef| keeps_bindings(
        #[trigger] state.set_pipeline(encoder, pipeline),
    ) by {
        let result = state.set_pipeline(encoder, pipeline);
        if result is Ok {
            let (next, after) = result->Ok_0;
            lemma_last(encoder.commands, next.commands.last());
            assert(next.commands =~= encoder.commands.push(next.commands.last()));
            lemma_bindings_kept(encoder.commands, next.commands, state, after);
        }
    }
    assert forall|pipeline: ProgrammableRenderPipelineRef| keeps_bindings(
        #[trigger] state.set_programmable_pipeline(encoder, pipeline),
    ) by {
        let result = state.set_programmable_pipeline(encoder, pipeline);
        if result is Ok {
            let (next, after) = result->Ok_0;
            lemma_last(encoder.commands, next.commands.last());
            assert(next.commands =~= encoder.commands.push(next.commands.last()));
            lemma_bindings_kept(encoder.commands, next.commands, state, after);
        }
    }
    assert forall|index: u32, bind_group: BindGroupRef| keeps_bindings(
        #[trigger] state.set_bind_group(encoder, index, bind_group),
    ) by {
        let result = state.set_bind_group(encoder, index, bind_group);
        if result is Ok {
            let (next, after) = result->Ok_0;
            lemma_last(encoder.commands, next.commands.last());
            assert(next.commands =~= encoder.commands.push(next.commands.last()));
            lemma_bindings_kept(encoder.commands, next.commands, state, after);
        }
    }
    assert forall|stages: ShaderStages, offset: u32, data: Seq<u8>| keeps_bindings(
        #[trigger] state.set_push_constants(encoder, stages, offset, data),
    ) by {
        let result = state.set_push_constants(encoder, stages, offset, data);
        if result is Ok {
            let (next, after) = result->Ok_0;
            lemma_last(encoder.commands, next.commands.last());
            assert(next.commands =~= encoder.commands.push(next.commands.last()));
            lemma_bindings_kept(encoder.commands, next.commands, state, after);
        }
    }
    assert forall|buffer: BufferRef, offset: u64| keeps_bindings(
        #[trigger] state.bind_vertex_buffer(
            encoder,
            0,
            buffer,
            offset,
            CommandView::SetVertexBuffer { buffer, offset },
        ),
    ) by {
        let result = state.bind_vertex_buffer(
            encoder,
            0,
            buffer,
            offset,
            CommandView::SetVertexBuffer { buffer, offset },
        );
        if result is Ok {
            let (next, after) = result->Ok_0;
            lemma_last(encoder.commands, next.commands.last());
            assert(next.commands =~= encoder.commands.push(next.commands.last()));
            lemma_bindings_kept(encoder.commands, next.commands, state, after);
        }
    }
    assert forall|slot: u32, buffer: BufferRef, offset: u64| keeps_bindings(
        #[trigger] state.bind_vertex_buffer(
            encoder,
            slot,
            buffer,
            offset,
            CommandView::SetVertexBufferSlot { slot, buffer, offset },
        ),
    ) by {
        let result = state.bind_vertex_buffer(
            encoder,
            slot,
            buffer,
            offset,
            CommandView::SetVertexBufferSlot { slot, buffer, offset },
        );
        if result is Ok {
            let (next, after) = result->Ok_0;
            lemma_last(encoder.commands, next.commands.last());
            assert(next.commands =~= encoder.commands.push(next.commands.last()));
            lemma_bindings_kept(encoder.commands, next.commands, state, after);
        }
    }
    assert forall|buffer: BufferRef, offset: u64, format: IndexFormat| keeps_bindings(
        #[trigger] state.set_index_buffer(encoder, buffer, offset, format),
    ) by {
        let result = state.set_index_buffer(encoder, buffer, offset, format);
        if result is Ok {
            let (next, after) = result->Ok_0;
            lemma_last(encoder.commands, next.commands.last());
            assert(next.commands =~= encoder.commands.push(next.commands.last()));
            lemma_bindings_kept(encoder.commands, next.commands, state, after);
        }
    }
    assert forall|texture: TextureRef| keeps_bindings(
        #[trigger] state.set_texture(encoder, texture),
    ) by {
        let result = state.set_texture(encoder, texture);
        if result is Ok {
            let (next, after) = result->Ok_0;
            lemma_last(encoder.commands, next.commands.last());
            assert(next.commands =~= encoder.commands.push(next.commands.last()));
            lemma_bindings_kept(encoder.commands, next.commands, state, after);
        }
    }
    assert forall|sampler: SamplerRef| keeps_bindings(
        #[trigger] state.set_sampler(encoder, sampler),
    ) by {
        let result = state.set_sampler(encoder, sampler);
        if result is Ok {
            let (next, after) = result->Ok_0;
            lemma_last(encoder.commands, next.commands.last());
            assert(next.commands =~= encoder.commands.push(next.commands.last()));
            lemma_bindings_kept(encoder.commands, next.commands, state, after);
        }
    }
    assert forall|uniforms: DrawUniforms| keeps_bindings(
        #[trigger] state.set_uniforms(encoder, uniforms),
    ) by {
        let result = state.set_uniforms(encoder, uniforms);
        if result is Ok {
            let (next, after) = result->Ok_0;
            lemma_last(encoder.commands, next.commands.last());
            assert(next.commands =~= encoder.commands.push(next.commands.last()));
            lemma_bindings_kept(encoder.commands, next.commands, state, after);
        }
    }
    assert forall|scissor: Option<PixelRect>| keeps_bindings(
        #[trigger] state.set_scissor(encoder, scissor),
    ) by {
        let result = state.set_scissor(encoder, scissor);
        if result is Ok {
            let (next, after) = result->Ok_0;
            lemma_last(encoder.commands, next.commands.last());
            assert(next.commands =~= encoder.commands.push(next.commands.last()));
            lemma_bindings_kept(encoder.commands, next.commands, state, after);
        }
    }
    assert forall|viewport: Viewport| keeps_bindings(
        #[trigger] state.set_viewport(encoder, viewport),
    ) by {
        let result = state.set_viewport(encoder, viewport);
        if result is Ok {
            let (next, after) = result->Ok_0;
            lemma_last(encoder.commands, next.commands.last());
            assert(next.commands =~= encoder.commands.push(next.commands.last()));
            lemma_bindings_kept(encoder.commands, next.commands, state, after);
        }
    }
}

/// Draws leave bound what was bound.
pub proof fn law_draws_keep_what_was_bound(
    encoder: EncoderView,
    state: RenderStateView,
    shape: DrawShape,
    command: CommandView,
)
    requires
        holds_bindings(state, encoder.commands),
        command is Draw || command is DrawIndexed || command is DrawInstanced
            || command is DrawIndexedInstanced,
    ensures
        keeps_bindings(state.draw(encoder, shape, command)),
{
    lemma_last(encoder.commands, command);
    let result = state.draw(encoder, shape, command);
    if result is Ok {
        let (next, after) = result->Ok_0;
        assert(next.commands == encoder.commands.push(command));
        lemma_bindings_kept(encoder.commands, next.commands, state, after);
    }
}

/// In a compute pass, what is bound is always what the commands of the pass bound last.
pub proof fn law_compute_passes_hold_what_was_bound(encoder: EncoderView, state: ComputeStateView)
    requires
        holds_kernel(state, encoder.commands),
    ensures
        forall|pipeline: ComputePipelineRef|
            keeps_kernel(#[trigger] state.set_pipeline(encoder, pipeline)),
        forall|index: u32, bind_group: BindGroupRef|
            keeps_kernel(#[trigger] state.set_bind_group(encoder, index, bind_group)),
        forall|stages: ShaderStages, offset: u32, data: Seq<u8>|
            keeps_kernel(#[trigger] state.set_push_constants(encoder, stages, offset, data)),
        forall|x: u32, y: u32, z: u32|
            keeps_kernel(#[trigger] state.dispatch(encoder, x, y, z)),
{
    assert forall|pipeline: ComputePipelineRef| keeps_kernel(
        #[trigger] state.set_pipeline(encoder, pipeline),
    ) by {
        lemma_last(encoder.commands, CommandView::SetComputePipeline(pipeline));
    }
    assert forall|index: u32, bind_group: BindGroupRef| keeps_kernel(
        #[trigger] state.set_bind_group(encoder, index, bind_group),
    ) by {
        lemma_last(encoder.commands, CommandView::SetBindGroup { index, bind_group });
        let result = state.set_bind_group(encoder, index, bind_group);
        if result is Ok {
            let (next, after) = result->Ok_0;
            assert forall|set: int| 0 <= set < after.bind_groups.len() implies (
            #[trigger] after.bind_groups[set]) == set_group(next.commands, set) by {
                assert(state.bind_groups[set] == set_group(encoder.commands, set));
            }
        }
    }
    assert forall|stages: ShaderStages, offset: u32, data: Seq<u8>| keeps_kernel(
        #[trigger] state.set_push_constants(encoder, stages, offset, data),
    ) by {
        lemma_last(encoder.commands, CommandView::SetPushConstants { stages, offset, data });
    }
    assert forall|x: u32, y: u32, z: u32| keeps_kernel(
        #[trigger] state.dispatch(encoder, x, y, z),
    ) by {
        lemma_last(encoder.commands, CommandView::Dispatch { x, y, z });
    }
}

/// Whether the depth use of a pipeline suits the depth attachment of a pass.
pub open spec fn depth_suits(
    table: TableView,
    desc: RenderPassView,
    depth: Option<DepthState>,
) -> bool {
    depth matches Some(used) ==> {
        &&& desc.depth is Some
        &&& crate::ir::render_pass_encoder::attachment_format(table, desc.depth->0.target)
            == used.format
        &&& desc.depth->0.read_only ==> !used.write_enabled
    }
}

/// A pipeline is bound exactly when its outputs have the formats of the color attachments,
/// one for one, and its depth use suits the depth attachment.
pub proof fn law_pipelines_suit_their_pass(
    encoder: EncoderView,
    state: RenderStateView,
    pipeline: RenderPipelineRef,
    shaders: ProgrammableRenderPipelineRef,
)
    requires
        state.color_formats.len() == state.desc.colors.len(),
        forall|i: int|
            0 <= i < state.desc.colors.len() ==> (#[trigger] state.color_formats[i])
                == crate::ir::render_pass_encoder::attachment_format(
                encoder.resources,
                state.desc.colors[i].target,
            ),
        state.depth_format == (match state.desc.depth {
            Some(depth) => Some(
                crate::ir::render_pass_encoder::attachment_format(encoder.resources, depth.target),
            ),
            None => None::<TextureFormat>,
        }),
    ensures
        state.set_pipeline(encoder, pipeline) is Ok <==> {
            let desc = encoder.resources.render_pipeline(pipeline)->Ok_0;
            &&& encoder.resources.render_pipeline(pipeline) is Ok
            &&& state.desc.colors.len() == 1
            &&& crate::ir::render_pass_encoder::attachment_format(
                encoder.resources,
                state.desc.colors[0].target,
            ) == desc.target_format
            &&& depth_suits(encoder.resources, state.desc, desc.depth)
            &&& encoder.commands.len() < encoder.capacity()
        },
        state.set_programmable_pipeline(encoder, shaders) is Ok <==> {
            let desc = encoder.resources.programmable_render_pipeline(shaders)->Ok_0;
            &&& encoder.resources.programmable_render_pipeline(shaders) is Ok
            &&& desc.targets.len() == state.desc.colors.len()
            &&& forall|i: int|
                0 <= i < desc.targets.len() ==> (#[trigger] desc.targets[i]).format
                    == crate::ir::render_pass_encoder::attachment_format(
                    encoder.resources,
                    state.desc.colors[i].target,
                )
            &&& depth_suits(encoder.resources, state.desc, desc.depth)
            &&& encoder.commands.len() < encoder.capacity()
        },
{
    if encoder.resources.render_pipeline(pipeline) is Ok {
        let format = encoder.resources.render_pipeline(pipeline)->Ok_0.target_format;
        if state.color_formats == seq![format] {
            assert(state.color_formats[0] == format);
        } else if state.color_formats.len() == 1 {
            assert(state.color_formats[0] != format) by {
                if state.color_formats[0] == format {
                    assert(state.color_formats =~= seq![format]);
                }
            }
        }
    }
    if encoder.resources.programmable_render_pipeline(shaders) is Ok {
        let desc = encoder.resources.programmable_render_pipeline(shaders)->Ok_0;
        if desc.targets.len() == state.desc.colors.len() && !state.targets_match(desc) {
            let i = choose|i: int|
                0 <= i < desc.targets.len() && (#[trigger] desc.targets[i]).format
                    != state.color_formats[i];
            assert(desc.targets[i].format != state.color_formats[i]);
        }
    }
}

/// Vertex and index buffers are bound exactly when there is such a slot, the buffer allows
/// the use, and the binding starts within the buffer, at a whole index for indices.
pub proof fn law_fetched_buffers_allow_fetching(
    encoder: EncoderView,
    state: RenderStateView,
    slot: u32,
    buffer: BufferRef,
    offset: u64,
    format: IndexFormat,
    command: CommandView,
)
    ensures
        state.bind_vertex_buffer(encoder, slot, buffer, offset, command) is Ok <==> {
            &&& slot < MAX_VERTEX_BUFFERS
            &&& encoder.resources.buffer(buffer) is Ok
            &&& encoder.resources.buffer(buffer)->Ok_0@.usage.allows(BufferUsage::VERTEX_BIT)
            &&& offset <= encoder.resources.buffer(buffer)->Ok_0@.size
            &&& encoder.commands.len() < encoder.capacity()
        },
        state.set_index_buffer(encoder, buffer, offset, format) is Ok <==> {
            &&& encoder.resources.buffer(buffer) is Ok
            &&& encoder.resources.buffer(buffer)->Ok_0@.usage.allows(BufferUsage::INDEX_BIT)
            &&& offset <= encoder.resources.buffer(buffer)->Ok_0@.size
            &&& offset as int % crate::ir_execute::vertices::index_width(format) == 0
            &&& encoder.commands.len() < encoder.capacity()
        },
{
}

/// A texture is bound exactly when it can be sampled and the pass writes none of it.
pub proof fn law_sampled_textures_are_not_rendered_to(
    encoder: EncoderView,
    state: RenderStateView,
    texture: TextureRef,
)
    requires
        forall|i: int|
            0 <= i < state.desc.colors.len() ==> encoder.resources.texture(
                (#[trigger] state.desc.colors[i]).target,
            ) is Ok,
        state.desc.depth matches Some(depth) ==> encoder.resources.texture(depth.target) is Ok,
    ensures
        state.set_texture(encoder, texture) is Ok <==> {
            &&& encoder.resources.texture(texture) is Ok
            &&& encoder.resources.texture(texture)->Ok_0@.usage.allows(TextureUsage::SAMPLED_BIT)
            &&& forall|i: int|
                0 <= i < state.desc.colors.len() ==> (#[trigger] state.desc.colors[i]).target@
                    != texture@
            &&& state.desc.depth matches Some(depth) ==> (depth.target@ == texture@
                ==> depth.read_only)
            &&& encoder.commands.len() < encoder.capacity()
        },
{
    if encoder.resources.texture(texture) is Ok {
        assert forall|i: int| 0 <= i < state.desc.colors.len() implies (((
        #[trigger] state.desc.colors[i]).target@ == texture@) <==> state.desc.colors[i].target@.index
            == texture@.index) by {}
        if state.desc.has_color_target(texture) {
            let i = choose|i: int|
                0 <= i < state.desc.colors.len() && (#[trigger] state.desc.colors[i]).target@.index
                    == texture@.index;
            assert(state.desc.colors[i].target@ == texture@);
        }
    }
}

/// A scissor is set exactly when the pass covers every pixel of it.
pub proof fn law_scissors_lie_within_the_pass(
    encoder: EncoderView,
    state: RenderStateView,
    scissor: PixelRect,
)
    requires
        scissor@.valid(),
    ensures
        state.set_scissor(encoder, Some(scissor)) is Ok <==> encoder.commands.len()
            < encoder.capacity() && forall|x: int, y: int| #[trigger]
            scissor@.contains(x, y) ==> state.desc.area@.contains(x, y),
        state.set_scissor(encoder, None) is Ok <==> encoder.commands.len() < encoder.capacity(),
{
    assert(scissor@.contains(scissor@.x as int, scissor@.y as int));
    assert(scissor@.contains(scissor@.right() - 1, scissor@.bottom() - 1));
}

/// Workgroups are dispatched only in numbers between one and the limit along every axis,
/// and with a pipeline bound.
pub proof fn law_dispatches_are_within_limits(
    encoder: EncoderView,
    state: ComputeStateView,
    x: u32,
    y: u32,
    z: u32,
)
    ensures
        state.dispatch(encoder, x, y, z) is Ok ==> {
            &&& 0 < x < 0x1_0000
            &&& 0 < y < 0x1_0000
            &&& 0 < z < 0x1_0000
            &&& state.pipeline is Some
            &&& encoder.resources.compute_pipeline(state.pipeline->0) is Ok
            &&& encoder.commands.len() < encoder.capacity()
        },
        state.dispatch(encoder, x, y, z) == Err::<(EncoderView, ComputeStateView), Error>(
            Error::InvalidValue,
        ) <== (x == 0 || y == 0 || z == 0 || x > 0xffff || y > 0xffff || z > 0xffff),
{
}

} // verus!
