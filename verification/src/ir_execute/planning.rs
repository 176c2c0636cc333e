//! Which recorded commands can be planned, and why others cannot.

use crate::ir::command::{CommandView, EncoderView};
use crate::ir::render_pass::RenderPassView;
use crate::ir::render_pass_encoder::RenderStateView;
use crate::ir::resource::{TextureDescView, TextureUsage, TextureWriteView};
use crate::ir::table::{BufferRef, TextureRef};
use crate::ir::types::PixelRect;
use crate::ir_execute::draw::ActiveView;
use crate::ir_execute::plan::PlanView;
use crate::ir_execute::resources::ResourcesView;
use crate::ir_execute::{IrSubmitError, UnsupportedIrFeature};
use vstd::prelude::*;

verus! {

/// Whether devices can hold a texture: one layer of linear color.
pub open spec fn holdable(desc: TextureDescView) -> bool {
    &&& desc.array_layer_count == 1
    &&& desc.format is Bgra8Unorm || desc.format is Rgba8Unorm || desc.format is R8Unorm
}

/// Whether a texture has a use on a device other than being copied from.
pub open spec fn useful(desc: TextureDescView) -> bool {
    desc.usage.allows(TextureUsage::SAMPLED_BIT) || desc.usage.allows(
        TextureUsage::RENDER_ATTACHMENT_BIT,
    ) || desc.usage.allows(TextureUsage::COPY_DST_BIT) || desc.usage.allows(
        TextureUsage::PRESENT_BIT,
    )
}

/// Whether planning was refused for a feature that devices do not have.
pub open spec fn unsupported<T>(
    result: Result<T, IrSubmitError>,
    feature: UnsupportedIrFeature,
) -> bool {
    result matches Err(IrSubmitError::Unsupported(named)) && named == feature
}

/// A recorded copy is planned exactly when devices can hold both textures and the source
/// has a use on them.
pub proof fn law_recorded_copies_are_planned(
    encoder: EncoderView,
    source: TextureRef,
    source_rect: PixelRect,
    destination: TextureRef,
    destination_rect: PixelRect,
)
    requires
        encoder.copy_texture_to_texture(source, source_rect, destination, destination_rect) is Ok,
    ensures
        ({
            let from = encoder.resources.texture(source)->Ok_0@;
            let to = encoder.resources.texture(destination)->Ok_0@;
            let plan = crate::ir_execute::plan::spec_plan_copy(
                encoder.resources,
                source,
                source_rect,
                destination,
                destination_rect,
            );
            &&& plan is Ok <==> holdable(from) && holdable(to) && useful(from)
            &&& !(from.format is Bgra8Unorm || from.format is Rgba8Unorm || from.format is R8Unorm)
                ==> unsupported(plan, UnsupportedIrFeature::TargetFormat)
            &&& (from.format is Bgra8Unorm || from.format is Rgba8Unorm || from.format is R8Unorm)
                && (from.array_layer_count != 1 || to.array_layer_count != 1 || !useful(from))
                ==> unsupported(plan, UnsupportedIrFeature::TargetUsage)
        }),
{
}

/// A recorded upload is planned exactly when devices can hold the texture and no image
/// stands for it.
pub proof fn law_recorded_uploads_are_planned(
    encoder: EncoderView,
    resources: ResourcesView,
    texture: TextureRef,
    write: TextureWriteView,
)
    requires
        encoder.write_texture(texture, write) is Ok,
        write.destination@.valid(),
        write.data.len() <= usize::MAX,
        write.destination@.width * write.destination@.height * 4 <= usize::MAX,
    ensures
        ({
            let desc = encoder.resources.texture(texture)->Ok_0@;
            let plan = crate::ir_execute::plan::spec_plan_upload(
                resources,
                encoder.resources,
                texture,
                write,
            );
            &&& plan is Ok <==> holdable(desc) && !resources.maps(texture.id())
            &&& holdable(desc) && resources.maps(texture.id()) ==> unsupported(
                plan,
                UnsupportedIrFeature::TextureUpload,
            )
        }),
{
}

/// A recorded write is planned as long as no pass came before it, and its end can be
/// addressed.
pub proof fn law_recorded_writes_are_planned(
    encoder: EncoderView,
    resources: ResourcesView,
    plan: PlanView,
    buffer: BufferRef,
    offset: u64,
    data: Seq<u8>,
)
    requires
        encoder.write_buffer(buffer, offset, data) is Ok,
        offset + data.len() <= usize::MAX,
        plan.active is None,
    ensures
        ({
            let next = plan.step(
                resources,
                encoder.resources,
                CommandView::WriteBuffer { buffer, offset, data },
            );
            &&& next is Ok <==> !plan.seen_pass
            &&& plan.seen_pass ==> unsupported(next, UnsupportedIrFeature::CommandSequence)
        }),
{
}

/// A recorded pass is opened exactly when it has one color attachment of blue, green, red
/// and alpha, and an image of its sides stands for the texture, or none and devices can
/// hold it without presenting it.
pub proof fn law_recorded_passes_are_opened(
    encoder: EncoderView,
    resources: ResourcesView,
    desc: RenderPassView,
)
    requires
        encoder.begin_render_pass(desc) is Ok,
        desc.colors.len() > 0,
        desc.area@.valid(),
    ensures
        ({
            let target = desc.colors[0].target;
            let texture = encoder.resources.texture(target)->Ok_0@;
            let pass = crate::ir_execute::plan::spec_open_pass(resources, encoder.resources, desc);
            pass is Ok <==> {
                &&& desc.colors.len() == 1
                &&& texture.format is Bgra8Unorm
                &&& match resources.image_of(target.id()) {
                    Some(image) => forall|x: int, y: int| #[trigger]
                        desc.area@.contains(x, y) ==> x < image.width && y < image.height,
                    None => texture.array_layer_count == 1 && !texture.usage.allows(
                        TextureUsage::PRESENT_BIT,
                    ),
                }
            }
        }),
{
    crate::ir::bindings::law_passes_begin_within_their_attachments(encoder, desc);
    let target = desc.colors[0].target;
    assert(crate::ir::bindings::renderable(encoder.resources, target, desc.area@));
    let texture = encoder.resources.texture(target)->Ok_0@;
    crate::ir::types::law_within_is_every_pixel(desc.area@, texture.extent);
    if resources.image_of(target.id()) is Some {
        let image = resources.image_of(target.id())->0;
        crate::ir::types::law_within_is_every_pixel(
            desc.area@,
            crate::ir::types::ExtentView { width: image.width, height: image.height },
        );
    }
}

/// A recorded scissor suits the planned pass over the same area.
pub proof fn law_recorded_scissors_are_planned(
    encoder: EncoderView,
    state: RenderStateView,
    resources: ResourcesView,
    plan: PlanView,
    pass: ActiveView,
    scissor: PixelRect,
)
    requires
        scissor@.valid(),
        plan.active == Some(pass),
        pass.submission.render_area.x == state.desc.area@.x,
        pass.submission.render_area.y == state.desc.area@.y,
        pass.submission.render_area.width == state.desc.area@.width,
        pass.submission.render_area.height == state.desc.area@.height,
        encoder.commands.len() < encoder.capacity(),
    ensures
        plan.step(
            resources,
            encoder.resources,
            CommandView::SetScissor(Some(scissor)),
        ) is Ok <==> state.set_scissor(encoder, Some(scissor)) is Ok,
        plan.step(resources, encoder.resources, CommandView::SetScissor(None)) is Ok,
{
}

/// Devices refuse barriers, compute work, programmable pipelines with what belongs to them,
/// viewports and instances wherever they stand, transfers inside passes, and bindings and
/// draws outside of them.
pub proof fn law_other_commands_are_out_of_sequence(
    resources: ResourcesView,
    table: crate::ir::table::TableView,
    plan: PlanView,
    command: CommandView,
)
    ensures
        command is ResourceBarrier || command is CopyBufferToBuffer || command is BeginComputePass
            || command is EndComputePass || command is SetComputePipeline || command is Dispatch
            || command is SetProgrammablePipeline || command is SetBindGroup
            || command is SetPushConstants || command is SetVertexBufferSlot
            || command is SetViewport || command is DrawInstanced
            || command is DrawIndexedInstanced ==> unsupported(
            plan.step(resources, table, command),
            UnsupportedIrFeature::CommandSequence,
        ),
        plan.active is Some && (command is WriteBuffer || command is WriteTexture
            || command is CopyTextureToTexture || command is BeginRenderPass) ==> unsupported(
            plan.step(resources, table, command),
            UnsupportedIrFeature::CommandSequence,
        ),
        plan.active is None && (command is EndRenderPass || command is SetPipeline
            || command is SetVertexBuffer || command is SetIndexBuffer || command is SetTexture
            || command is SetSampler || command is SetUniforms || command is SetScissor
            || command is Draw || command is DrawIndexed) ==> unsupported(
            plan.step(resources, table, command),
            UnsupportedIrFeature::CommandSequence,
        ),
        plan.active matches Some(pass) ==> (command is EndRenderPass ==> (plan.step(
            resources,
            table,
            command,
        ) is Ok <==> pass.submission.draws.len() > 0)),
        crate::ir_execute::plan::finished(Ok(plan)) is Ok <==> plan.active is None
            && plan.events.len() > 0,
{
}

/// Commands are submitted only with the resources of their own table, and only where queue,
/// context and resources belong together.
pub proof fn law_submissions_belong_together(
    queue_context: i32,
    context: i32,
    resources: ResourcesView,
    table: crate::ir::table::TableView,
)
    ensures
        crate::ir_execute::plan::check_submission(queue_context, context, resources, table) is Ok
            <==> resources.table == table.id && resources.context_id == context
            && resources.context_id == queue_context,
        resources.table != table.id ==> crate::ir_execute::plan::check_submission(
            queue_context,
            context,
            resources,
            table,
        ) == Err::<(), IrSubmitError>(IrSubmitError::ResourceTableMismatch),
        resources.table == table.id && !(resources.context_id == context && resources.context_id
            == queue_context) ==> crate::ir_execute::plan::check_submission(
            queue_context,
            context,
            resources,
            table,
        ) == Err::<(), IrSubmitError>(IrSubmitError::ContextMismatch),
{
}

} // verus!
