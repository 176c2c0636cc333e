//! Owned commands as copies of the commands that they become.

use crate::ir::command::{CommandView, EncoderView};
use crate::ir::owned::{
    OwnedColorAttachment, OwnedCommand, OwnedDepthAttachment, OwnedResourceBarrier, ReplayView,
};
use crate::ir::programmable::ResourceBarrier;
use crate::ir::render_pass::{ColorAttachment, DepthAttachment};
use crate::ir::render_pass_encoder::{DrawShape, RenderStateView};
use crate::ir::table::TableView;
use crate::ir::types::Error;
use vstd::prelude::*;

verus! {

/// Whether an owned color attachment is a copy of another one.
pub open spec fn copies_color(owned: OwnedColorAttachment, color: ColorAttachment) -> bool {
    color.target.id() == owned.target && color.load == owned.load && color.store == owned.store
}

/// Whether an owned depth attachment is a copy of another one.
pub open spec fn copies_depth(owned: OwnedDepthAttachment, depth: DepthAttachment) -> bool {
    depth.target.id() == owned.target && depth.load == owned.load && depth.store == owned.store
}

/// Whether an owned barrier is a copy of another one.
pub open spec fn copies_barrier(owned: OwnedResourceBarrier, barrier: ResourceBarrier) -> bool {
    match owned {
        OwnedResourceBarrier::Buffer { buffer, before, after } => barrier
            matches ResourceBarrier::Buffer { buffer: b, before: from, after: to } && b.id()
            == buffer && from == before && to == after,
        OwnedResourceBarrier::Texture { texture, before, after } => barrier
            matches ResourceBarrier::Texture { texture: t, before: from, after: to } && t.id()
            == texture && from == before && to == after,
        OwnedResourceBarrier::TextureMip { texture, mip_level, before, after } => barrier
            matches ResourceBarrier::TextureMip {
            texture: t,
            mip_level: level,
            before: from,
            after: to,
        } && t.id() == texture && level == mip_level && from == before && to == after,
    }
}

/// Whether an owned command is a copy of a command: of the same kind, with the same values,
/// the identity of each resource, and the same bytes.
pub open spec fn copies(owned: OwnedCommand, command: CommandView) -> bool {
    match owned {
        OwnedCommand::WriteBuffer { buffer, offset, data } => command
            matches CommandView::WriteBuffer { buffer: b, offset: o, data: bytes } && b.id()
            == buffer && o == offset && bytes == data@,
        OwnedCommand::WriteTexture { texture, destination, bytes_per_row, data } => command
            matches CommandView::WriteTexture { texture: t, write } && t.id() == texture
            && write.destination == destination && write.bytes_per_row == bytes_per_row
            && write.data == data@ && write.mip_level == 0 && write.array_layer == 0,
        OwnedCommand::WriteTextureLayer {
            texture,
            mip_level,
            array_layer,
            destination,
            bytes_per_row,
            data,
        } => command matches CommandView::WriteTexture { texture: t, write } && t.id() == texture
            && write.destination == destination && write.bytes_per_row == bytes_per_row
            && write.data == data@ && write.mip_level == mip_level && write.array_layer
            == array_layer,
        OwnedCommand::CopyBufferToBuffer {
            source,
            source_offset,
            destination,
            destination_offset,
            size,
        } => command matches CommandView::CopyBufferToBuffer {
            source: from,
            source_offset: first,
            destination: to,
            destination_offset: second,
            size: length,
        } && from.id() == source && first == source_offset && to.id() == destination && second
            == destination_offset && length == size,
        OwnedCommand::CopyTextureToTexture {
            source,
            source_rect,
            destination,
            destination_rect,
        } => command matches CommandView::CopyTextureToTexture {
            source: from,
            source_rect: first,
            destination: to,
            destination_rect: second,
        } && from.id() == source && first == source_rect && to.id() == destination && second
            == destination_rect,
        OwnedCommand::ResourceBarrier(barrier) => command
            matches CommandView::ResourceBarrier(borrowed) && copies_barrier(barrier, borrowed),
        OwnedCommand::BeginRenderPass(desc) => command matches CommandView::BeginRenderPass(pass)
            && {
            &&& pass.area == desc.area
            &&& pass.colors.len() == 1
            &&& pass.colors[0].target.id() == desc.target
            &&& pass.colors[0].load == desc.load
            &&& pass.colors[0].store == desc.store
            &&& pass.depth is Some <==> desc.depth is Some
            &&& desc.depth matches Some(depth) ==> copies_depth(depth, pass.depth->0)
                && !pass.depth->0.read_only
        },
        OwnedCommand::BeginRenderPassWithAttachments { desc, colors, read_only_depth } => command
            matches CommandView::BeginRenderPass(pass) && {
            &&& pass.area == desc.area
            &&& pass.colors.len() == 1 + colors@.len()
            &&& pass.colors[0].target.id() == desc.target
            &&& pass.colors[0].load == desc.load
            &&& pass.colors[0].store == desc.store
            &&& forall|i: int|
                0 <= i < colors@.len() ==> copies_color(
                    #[trigger] colors@[i],
                    pass.colors[i + 1],
                )
            &&& pass.depth is Some <==> desc.depth is Some
            &&& desc.depth matches Some(depth) ==> copies_depth(depth, pass.depth->0)
                && pass.depth->0.read_only == read_only_depth
        },
        OwnedCommand::EndRenderPass => command is EndRenderPass,
        OwnedCommand::SetPipeline(pipeline) => command matches CommandView::SetPipeline(p)
            && p.id() == pipeline,
        OwnedCommand::SetProgrammablePipeline(pipeline) => command
            matches CommandView::SetProgrammablePipeline(p) && p.id() == pipeline,
        OwnedCommand::SetBindGroup { index, bind_group } => command
            matches CommandView::SetBindGroup { index: i, bind_group: g } && i == index && g.id()
            == bind_group,
        OwnedCommand::SetPushConstants { stages, offset, data } => command
            matches CommandView::SetPushConstants { stages: s, offset: o, data: bytes } && s
            == stages && o == offset && bytes == data@,
        OwnedCommand::SetVertexBuffer { buffer, offset } => command
            matches CommandView::SetVertexBuffer { buffer: b, offset: o } && b.id() == buffer && o
            == offset,
        OwnedCommand::SetVertexBufferSlot { slot, buffer, offset } => command
            matches CommandView::SetVertexBufferSlot { slot: s, buffer: b, offset: o } && s == slot
            && b.id() == buffer && o == offset,
        OwnedCommand::SetIndexBuffer { buffer, offset, format } => command
            matches CommandView::SetIndexBuffer { buffer: b, offset: o, format: f } && b.id()
            == buffer && o == offset && f == format,
        OwnedCommand::SetTexture(texture) => command matches CommandView::SetTexture(t) && t.id()
            == texture,
        OwnedCommand::SetSampler(sampler) => command matches CommandView::SetSampler(s) && s.id()
            == sampler,
        OwnedCommand::SetUniforms(uniforms) => command == CommandView::SetUniforms(uniforms),
        OwnedCommand::SetScissor(scissor) => command == CommandView::SetScissor(scissor),
        OwnedCommand::SetViewport(viewport) => command == CommandView::SetViewport(viewport),
        OwnedCommand::Draw { vertex_count, first_vertex } => command matches CommandView::Draw {
            vertex_count: count,
            first_vertex: first,
        } && count == vertex_count && first == first_vertex,
        OwnedCommand::DrawInstanced {
            vertex_count,
            first_vertex,
            instance_count,
            first_instance,
        } => command matches CommandView::DrawInstanced {
            vertex_count: count,
            first_vertex: first,
            instance_count: instances,
            first_instance: from,
        } && count == vertex_count && first == first_vertex && instances == instance_count && from
            == first_instance,
        OwnedCommand::DrawIndexed { index_count, first_index, base_vertex } => command
            matches CommandView::DrawIndexed {
            index_count: count,
            first_index: first,
            base_vertex: base,
        } && count == index_count && first == first_index && base == base_vertex,
        OwnedCommand::DrawIndexedInstanced {
            index_count,
            first_index,
            base_vertex,
            instance_count,
            first_instance,
        } => command matches CommandView::DrawIndexedInstanced {
            index_count: count,
            first_index: first,
            base_vertex: base,
            instance_count: instances,
            first_instance: from,
        } && count == index_count && first == first_index && base == base_vertex && instances
            == instance_count && from == first_instance,
        OwnedCommand::BeginComputePass => command is BeginComputePass,
        OwnedCommand::EndComputePass => command is EndComputePass,
        OwnedCommand::SetComputePipeline(pipeline) => command
            matches CommandView::SetComputePipeline(p) && p.id() == pipeline,
        OwnedCommand::Dispatch { x, y, z } => command matches CommandView::Dispatch {
            x: across,
            y: down,
            z: deep,
        } && across == x && down == y && deep == z,
    }
}

/// A recording that is replayed becomes one command for each of its own, in order, and each
/// is what it is a copy of.
pub proof fn law_replays_copy_their_commands(table: TableView, commands: Seq<OwnedCommand>)
    ensures
        crate::ir::owned::replayed(table, commands) matches Ok(buffer) ==> {
            &&& buffer.resources == table
            &&& buffer.commands.len() == commands.len()
            &&& forall|i: int|
                0 <= i < commands.len() ==> copies(#[trigger] commands[i], buffer.commands[i])
        },
{
    crate::ir::recording::law_replays_record_borrowed_forms(table, commands);
    crate::ir::table::law_references_and_identities_correspond();
    if crate::ir::owned::replayed(table, commands) is Ok {
        let buffer = crate::ir::owned::replayed(table, commands)->Ok_0;
        assert forall|i: int| 0 <= i < commands.len() implies copies(
            #[trigger] commands[i],
            buffer.commands[i],
        ) by {
            assert(buffer.commands[i] == crate::ir::owned::borrowed_forms(commands)[i]);
            lemma_copied(commands[i]);
        }
    }
}

/// An owned command is a copy of what it becomes.
proof fn lemma_copied(owned: OwnedCommand)
    ensures
        copies(owned, crate::ir::owned::borrowed_form(owned)),
{
    crate::ir::table::law_references_and_identities_correspond();
}

/// Replayed draws are checked over the vertices, indices and instances that they name.
pub proof fn law_replayed_draws_are_checked_alike(
    encoder: EncoderView,
    state: RenderStateView,
    count: u32,
    first: u32,
    base_vertex: i32,
    instance_count: u32,
    first_instance: u32,
)
    ensures
        replays_alike(
            encoder,
            state,
            OwnedCommand::Draw { vertex_count: count, first_vertex: first },
            state.draw(
                encoder,
                DrawShape { count, first, indexed: false },
                CommandView::Draw { vertex_count: count, first_vertex: first },
            ),
        ),
        replays_alike(
            encoder,
            state,
            OwnedCommand::DrawIndexed { index_count: count, first_index: first, base_vertex },
            state.draw(
                encoder,
                DrawShape { count, first, indexed: true },
                CommandView::DrawIndexed { index_count: count, first_index: first, base_vertex },
            ),
        ),
        replays_alike(
            encoder,
            state,
            OwnedCommand::DrawInstanced {
                vertex_count: count,
                first_vertex: first,
                instance_count,
                first_instance,
            },
            state.draw_instances(
                encoder,
                DrawShape { count, first, indexed: false },
                instance_count,
                first_instance,
                CommandView::DrawInstanced {
                    vertex_count: count,
                    first_vertex: first,
                    instance_count,
                    first_instance,
                },
            ),
        ),
        replays_alike(
            encoder,
            state,
            OwnedCommand::DrawIndexedInstanced {
                index_count: count,
                first_index: first,
                base_vertex,
                instance_count,
                first_instance,
            },
            state.draw_instances(
                encoder,
                DrawShape { count, first, indexed: true },
                instance_count,
                first_instance,
                CommandView::DrawIndexedInstanced {
                    index_count: count,
                    first_index: first,
                    base_vertex,
                    instance_count,
                    first_instance,
                },
            ),
        ),
{
    reveal(crate::ir::owned::replay_render);
}

/// Whether replaying a command in a render pass ends as a call does.
pub open spec fn replays_alike(
    encoder: EncoderView,
    state: RenderStateView,
    owned: OwnedCommand,
    call: Result<(EncoderView, RenderStateView), Error>,
) -> bool {
    match (crate::ir::owned::replay_step(ReplayView::Render(encoder, state), owned), call) {
        (Ok(ReplayView::Render(next, after)), Ok((called, left))) => next == called && after
            == left,
        (Err(error), Err(named)) => error == named,
        _ => false,
    }
}

} // verus!
