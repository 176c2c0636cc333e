//! The reasons that refused calls name.

use crate::ir::access::{Access, ResourcePart};
use crate::ir::command::{CommandView, EncoderView, MAX_COMMANDS};
use crate::ir::compute_pass_encoder::ComputeStateView;
use crate::ir::pipeline::IndexFormat;
use crate::ir::programmable::{BufferAccess, PipelineLayoutView, TextureAccess};
use crate::ir::render_pass::{DepthLoadOp, RenderPassView};
use crate::ir::render_pass_encoder::{DrawShape, RenderStateView};
use crate::ir::resource::{BufferUsage, TextureFormat, TextureUsage, TextureWriteView};
use crate::ir::shader::ShaderStages;
use crate::ir::table::{
    BindGroupRef, BufferRef, ComputePipelineRef, ProgrammableRenderPipelineRef, RenderPipelineRef,
    SamplerRef, TableView, TextureRef,
};
use crate::ir::texture_view::TextureViewView;
use crate::ir::types::{Error, PixelRect};
use crate::ir::viewport::Viewport;
use vstd::prelude::*;

verus! {

/// The reason that a refused call names.
pub open spec fn reason<T>(result: Result<T, Error>) -> Option<Error> {
    match result {
        Ok(_) => None,
        Err(error) => Some(error),
    }
}

/// Calls outside passes name an open pass first, then what is not defined.
pub proof fn law_transfers_are_refused_in_passes(
    encoder: EncoderView,
    buffer: BufferRef,
    other: BufferRef,
    texture: TextureRef,
    target: TextureRef,
    offset: u64,
    other_offset: u64,
    size: u64,
    data: Seq<u8>,
    write: TextureWriteView,
    from: PixelRect,
    to: PixelRect,
    desc: RenderPassView,
)
    ensures
        encoder.pass_open ==> {
            &&& reason(encoder.write_buffer(buffer, offset, data)) == Some(Error::RenderPassActive)
            &&& reason(encoder.write_texture(texture, write)) == Some(Error::RenderPassActive)
            &&& reason(
                encoder.copy_buffer_to_buffer(buffer, offset, other, other_offset, size),
            ) == Some(Error::RenderPassActive)
            &&& reason(encoder.copy_texture_to_texture(texture, from, target, to)) == Some(
                Error::RenderPassActive,
            )
            &&& reason(encoder.begin_render_pass(desc)) == Some(Error::RenderPassActive)
            &&& reason(encoder.begin_compute_pass()) == Some(Error::RenderPassActive)
        },
        !encoder.pass_open ==> {
            &&& encoder.resources.buffer(buffer) is Err ==> reason(
                encoder.write_buffer(buffer, offset, data),
            ) == reason(encoder.resources.buffer(buffer))
            &&& encoder.resources.texture(texture) is Err ==> reason(
                encoder.write_texture(texture, write),
            ) == reason(encoder.resources.texture(texture))
            &&& encoder.resources.buffer(buffer) is Err ==> reason(
                encoder.copy_buffer_to_buffer(buffer, offset, other, other_offset, size),
            ) == reason(encoder.resources.buffer(buffer))
            &&& encoder.resources.buffer(buffer) is Ok && encoder.resources.buffer(other) is Err
                ==> reason(
                encoder.copy_buffer_to_buffer(buffer, offset, other, other_offset, size),
            ) == reason(encoder.resources.buffer(other))
            &&& encoder.resources.texture(texture) is Err ==> reason(
                encoder.copy_texture_to_texture(texture, from, target, to),
            ) == reason(encoder.resources.texture(texture))
            &&& encoder.resources.texture(texture) is Ok && encoder.resources.texture(target) is Err
                ==> reason(encoder.copy_texture_to_texture(texture, from, target, to)) == reason(
                encoder.resources.texture(target),
            )
        },
        !encoder.pass_open ==> reason(encoder.begin_compute_pass()) == (if encoder.commands.len()
            + 2 > MAX_COMMANDS {
            Some(Error::CommandLimitExceeded)
        } else {
            None
        }),
{
}

/// What becomes of a call that is in order: the access may be refused, and the commands may
/// be full.
pub open spec fn admission(
    encoder: EncoderView,
    parts: Seq<ResourcePart>,
    access: Access,
) -> Option<
    Error,
> {
    if encoder.access.check(parts, access) is Err {
        reason(encoder.access.check(parts, access))
    } else if encoder.commands.len() >= encoder.capacity() {
        Some(Error::CommandLimitExceeded)
    } else {
        None
    }
}

/// Uploads into a buffer that is defined are refused for its usage, then for having no
/// bytes, then for an end past the largest offset, then for an end past the buffer.
pub proof fn law_refused_uploads_name_their_reason(
    encoder: EncoderView,
    buffer: BufferRef,
    offset: u64,
    data: Seq<u8>,
)
    requires
        !encoder.pass_open,
        encoder.resources.buffer(buffer) is Ok,
    ensures
        ({
            let desc = encoder.resources.buffer(buffer)->Ok_0@;
            let found = reason(encoder.write_buffer(buffer, offset, data));
            if !desc.usage.allows(BufferUsage::COPY_DST_BIT) {
                found == Some(Error::InvalidUsage)
            } else if data.len() == 0 {
                found == Some(Error::InvalidValue)
            } else if offset + data.len() > u64::MAX {
                found == Some(Error::Overflow)
            } else if offset + data.len() > desc.size {
                found == Some(Error::OutOfBounds)
            } else {
                found == admission(
                    encoder,
                    seq![ResourcePart::Buffer(buffer.id())],
                    Access::Buffer(BufferAccess::CopyDestination),
                )
            }
        }),
{
}

/// Uploads into a texture that is defined are refused for its usage, then for a level, a
/// layer or a region that it does not have, then for rows that are too long or overlap,
/// then for missing bytes.
pub proof fn law_refused_texel_uploads_name_their_reason(
    encoder: EncoderView,
    texture: TextureRef,
    write: TextureWriteView,
)
    requires
        !encoder.pass_open,
        encoder.resources.texture(texture) is Ok,
    ensures
        ({
            let desc = encoder.resources.texture(texture)->Ok_0@;
            let found = reason(encoder.write_texture(texture, write));
            let row = write.destination@.width * desc.format.bytes_per_pixel();
            if !desc.usage.allows(TextureUsage::COPY_DST_BIT) {
                found == Some(Error::InvalidUsage)
            } else if write.mip_level >= desc.mip_level_count || write.array_layer
                >= desc.array_layer_count || !write.destination@.within(
                desc.mip_extent(write.mip_level as nat),
            ) {
                found == Some(Error::OutOfBounds)
            } else if row > u32::MAX {
                found == Some(Error::Overflow)
            } else if row > write.bytes_per_row {
                found == Some(Error::InvalidValue)
            } else if write.data.len() < (write.destination@.height - 1) * write.bytes_per_row
                + row {
                found == Some(Error::OutOfBounds)
            } else {
                found == admission(
                    encoder,
                    seq![ResourcePart::TextureMip(texture.id(), write.mip_level)],
                    Access::Texture(TextureAccess::CopyDestination),
                )
            }
        }),
{
    vstd::arithmetic::mul::lemma_mul_is_commutative(
        write.bytes_per_row as int,
        write.destination@.height - 1,
    );
}

/// Copies between buffers that are defined are refused for a usage, then for having no
/// bytes or partial words, then for the source range, then for the destination range, then
/// for being within one buffer.
pub proof fn law_refused_copies_name_their_reason(
    encoder: EncoderView,
    source: BufferRef,
    source_offset: u64,
    destination: BufferRef,
    destination_offset: u64,
    size: u64,
)
    requires
        !encoder.pass_open,
        encoder.resources.buffer(source) is Ok,
        encoder.resources.buffer(destination) is Ok,
    ensures
        ({
            let from = encoder.resources.buffer(source)->Ok_0@;
            let to = encoder.resources.buffer(destination)->Ok_0@;
            let found = reason(
                encoder.copy_buffer_to_buffer(
                    source,
                    source_offset,
                    destination,
                    destination_offset,
                    size,
                ),
            );
            if !(from.usage.allows(BufferUsage::COPY_SRC_BIT) && to.usage.allows(
                BufferUsage::COPY_DST_BIT,
            )) {
                found == Some(Error::InvalidUsage)
            } else if size == 0 || size % 4 != 0 || source_offset % 4 != 0 || destination_offset
                % 4 != 0 {
                found == Some(Error::InvalidValue)
            } else if source_offset + size > u64::MAX {
                found == Some(Error::Overflow)
            } else if source_offset + size > from.size {
                found == Some(Error::OutOfBounds)
            } else if destination_offset + size > u64::MAX {
                found == Some(Error::Overflow)
            } else if destination_offset + size > to.size {
                found == Some(Error::OutOfBounds)
            } else if source == destination {
                found == Some(Error::ResourceAccessConflict)
            } else if encoder.access.check(
                seq![ResourcePart::Buffer(source.id())],
                Access::Buffer(BufferAccess::CopySource),
            ) is Err {
                found == reason(
                    encoder.access.check(
                        seq![ResourcePart::Buffer(source.id())],
                        Access::Buffer(BufferAccess::CopySource),
                    ),
                )
            } else {
                found == admission(
                    encoder,
                    seq![ResourcePart::Buffer(destination.id())],
                    Access::Buffer(BufferAccess::CopyDestination),
                )
            }
        }),
{
}

/// Copies between textures that are defined are refused for a usage, then for formats or
/// shapes that differ, then for regions past an edge, then for regions that overlap.
pub proof fn law_refused_texel_copies_name_their_reason(
    encoder: EncoderView,
    source: TextureRef,
    source_rect: PixelRect,
    destination: TextureRef,
    destination_rect: PixelRect,
)
    requires
        !encoder.pass_open,
        encoder.resources.texture(source) is Ok,
        encoder.resources.texture(destination) is Ok,
    ensures
        ({
            let from = encoder.resources.texture(source)->Ok_0@;
            let to = encoder.resources.texture(destination)->Ok_0@;
            let found = reason(
                encoder.copy_texture_to_texture(source, source_rect, destination, destination_rect),
            );
            if !(from.usage.allows(TextureUsage::COPY_SRC_BIT) && to.usage.allows(
                TextureUsage::COPY_DST_BIT,
            )) {
                found == Some(Error::InvalidUsage)
            } else if from.format != to.format || source_rect@.width != destination_rect@.width
                || source_rect@.height != destination_rect@.height {
                found == Some(Error::InvalidDescriptor)
            } else if !source_rect@.within(from.extent) || !destination_rect@.within(to.extent) {
                found == Some(Error::OutOfBounds)
            } else if source@ == destination@ && source_rect@.overlaps(destination_rect@) {
                found == Some(Error::InvalidValue)
            } else if encoder.access.check(
                seq![ResourcePart::TextureMip(source.id(), 0)],
                Access::Texture(TextureAccess::CopySource),
            ) is Err {
                found == reason(
                    encoder.access.check(
                        seq![ResourcePart::TextureMip(source.id(), 0)],
                        Access::Texture(TextureAccess::CopySource),
                    ),
                )
            } else {
                found == admission(
                    encoder,
                    seq![ResourcePart::TextureMip(destination.id(), 0)],
                    Access::Texture(TextureAccess::CopyDestination),
                )
            }
        }),
{
    assert(source@ == destination@ <==> source@.index == destination@.index);
}

/// A use is refused for a missing barrier first, and for another announced access then.
pub proof fn law_refused_accesses_name_their_reason(
    access: crate::ir::access::AccessView,
    part: ResourcePart,
    wanted: Access,
)
    ensures
        reason(access.check(seq![part], wanted)) == (if access.pending.contains(part) {
            Some(Error::MissingBarrier)
        } else if access.announced.dom().contains(part) && access.announced[part] != wanted {
            Some(Error::InvalidResourceAccess)
        } else {
            None
        }),
{
    let parts = seq![part];
    assert(parts[0] == part);
    if access.pending.contains(part) {
        assert(access.pending.contains(parts[0]));
    }
    if access.announces_other(part, wanted) {
        assert(access.announces_other(parts[0], wanted));
    }
}

/// Bindings in a render pass are refused for what is not defined, then for a usage, a place
/// or a format that does not suit, and only then for full commands.
pub proof fn law_refused_bindings_name_their_reason(
    encoder: EncoderView,
    state: RenderStateView,
    pipeline: RenderPipelineRef,
    shaders: ProgrammableRenderPipelineRef,
    index: u32,
    bind_group: BindGroupRef,
    slot: u32,
    buffer: BufferRef,
    offset: u64,
    format: IndexFormat,
    texture: TextureRef,
    sampler: SamplerRef,
    scissor: PixelRect,
    command: CommandView,
)
    ensures
        ({
            let full = if encoder.commands.len() >= encoder.capacity() {
                Some(Error::CommandLimitExceeded)
            } else {
                None
            };
            let table = encoder.resources;
            &&& reason(state.set_pipeline(encoder, pipeline)) == (if table.render_pipeline(
                pipeline,
            ) is Err {
                reason(table.render_pipeline(pipeline))
            } else if state.color_formats != seq![
                table.render_pipeline(pipeline)->Ok_0.target_format,
            ] || !state.depth_matches(table.render_pipeline(pipeline)->Ok_0.depth) {
                Some(Error::PipelineTargetMismatch)
            } else {
                full
            })
            &&& reason(state.set_programmable_pipeline(encoder, shaders)) == (
            if table.programmable_render_pipeline(shaders) is Err {
                reason(table.programmable_render_pipeline(shaders))
            } else if !state.targets_match(table.programmable_render_pipeline(shaders)->Ok_0)
                || !state.depth_matches(table.programmable_render_pipeline(shaders)->Ok_0.depth) {
                Some(Error::PipelineTargetMismatch)
            } else {
                full
            })
            &&& reason(state.set_bind_group(encoder, index, bind_group)) == (if index >= 4 {
                Some(Error::OutOfBounds)
            } else if table.bind_group(bind_group) is Err {
                reason(table.bind_group(bind_group))
            } else {
                full
            })
            &&& reason(state.bind_vertex_buffer(encoder, slot, buffer, offset, command)) == (
            if slot >= 8 {
                Some(Error::OutOfBounds)
            } else if table.buffer(buffer) is Err {
                reason(table.buffer(buffer))
            } else if !table.buffer(buffer)->Ok_0@.usage.allows(BufferUsage::VERTEX_BIT) {
                Some(Error::InvalidUsage)
            } else if offset > table.buffer(buffer)->Ok_0@.size {
                Some(Error::OutOfBounds)
            } else {
                full
            })
            &&& reason(state.set_index_buffer(encoder, buffer, offset, format)) == (
            if table.buffer(buffer) is Err {
                reason(table.buffer(buffer))
            } else if !table.buffer(buffer)->Ok_0@.usage.allows(BufferUsage::INDEX_BIT) {
                Some(Error::InvalidUsage)
            } else if offset > table.buffer(buffer)->Ok_0@.size {
                Some(Error::OutOfBounds)
            } else if offset as int % crate::ir_execute::vertices::index_width(format) != 0 {
                Some(Error::InvalidValue)
            } else {
                full
            })
            &&& reason(state.set_texture(encoder, texture)) == (if table.texture(texture) is Err {
                reason(table.texture(texture))
            } else if !table.texture(texture)->Ok_0@.usage.allows(TextureUsage::SAMPLED_BIT) {
                Some(Error::InvalidUsage)
            } else if state.feeds_back(texture) {
                Some(Error::AttachmentFeedback)
            } else {
                full
            })
            &&& reason(state.set_sampler(encoder, sampler)) == (if table.sampler(sampler) is Err {
                reason(table.sampler(sampler))
            } else {
                full
            })
            &&& reason(state.set_scissor(encoder, Some(scissor))) == (if !scissor@.inside(
                state.desc.area@,
            ) {
                Some(Error::OutOfBounds)
            } else {
                full
            })
        }),
{
}

/// A viewport is refused where the first attachment does not hold it.
pub proof fn law_refused_viewports_name_their_reason(
    encoder: EncoderView,
    state: RenderStateView,
    viewport: Viewport,
)
    requires
        encoder.resources.texture(state.desc.colors[0].target) is Ok,
    ensures
        ({
            let extent = encoder.resources.texture(state.desc.colors[0].target)->Ok_0@.extent;
            let one = crate::ir::float::scaled_one();
            let left = crate::ir::float::scaled_value(viewport@.x);
            let top = crate::ir::float::scaled_value(viewport@.y);
            let right = left + crate::ir::float::scaled_value(viewport@.width);
            let bottom = top + crate::ir::float::scaled_value(viewport@.height);
            reason(state.set_viewport(encoder, viewport)) == (if left < 0 || top < 0 || right
                > extent.width * one || bottom > extent.height * one {
                Some(Error::OutOfBounds)
            } else if encoder.commands.len() >= encoder.capacity() {
                Some(Error::CommandLimitExceeded)
            } else {
                None
            })
        }),
{
}

/// Draws are refused for partial triangles first, and then for what is not bound: the
/// pipeline, the uniforms, the texture and the sampler, the vertices, the indices.
pub proof fn law_refused_draws_name_what_is_missing(
    encoder: EncoderView,
    state: RenderStateView,
    shape: DrawShape,
    instance_count: u32,
    first_instance: u32,
    command: CommandView,
)
    ensures
        ({
            let found = reason(state.draw(encoder, shape, command));
            let desc = encoder.resources.render_pipeline(state.pipeline->0)->Ok_0;
            &&& shape.count == 0 || shape.count % 3 != 0 ==> found == Some(Error::InvalidValue)
            &&& shape.count > 0 && shape.count % 3 == 0 && state.programmable_pipeline is None ==> {
                &&& state.pipeline is None ==> found == Some(Error::PipelineNotSet)
                &&& state.pipeline is Some && encoder.resources.render_pipeline(
                    state.pipeline->0,
                ) is Ok ==> {
                    &&& state.uniforms is None ==> found == Some(Error::UniformsNotSet)
                    &&& state.uniforms is Some && desc.fragment.is_textured() && (state.texture
                        is None || state.sampler is None) ==> found == Some(
                        Error::TextureBindingNotSet,
                    )
                    &&& state.uniforms is Some && !desc.fragment.is_textured()
                        && state.vertex_buffers[0] is None ==> found == Some(
                        Error::VertexBufferNotSet,
                    )
                }
            }
            &&& shape.count > 0 && shape.count % 3 == 0 && (
            state.programmable_pipeline matches Some(shaders)
                && encoder.resources.programmable_render_pipeline(shaders) is Ok) && shape.first
                + shape.count > u32::MAX ==> found == Some(Error::Overflow)
            &&& instance_count == 0 ==> reason(
                state.draw_instances(encoder, shape, instance_count, first_instance, command),
            ) == Some(Error::InvalidValue)
            &&& instance_count > 0 && first_instance + instance_count > u32::MAX ==> reason(
                state.draw_instances(encoder, shape, instance_count, first_instance, command),
            ) == Some(Error::Overflow)
        }),
{
}

/// A vertex slot is refused where nothing is bound, then for its access, then for an offset
/// between vertices, then for an end past the largest offset or past the buffer. Indices
/// are refused alike.
pub proof fn law_refused_fetches_name_their_reason(
    encoder: EncoderView,
    state: RenderStateView,
    shape: DrawShape,
    slot: int,
    alignment: int,
    bytes: int,
)
    requires
        bytes >= 0,
    ensures
        ({
            let (buffer, offset) = state.vertex_buffers[slot]->0;
            let part = seq![ResourcePart::Buffer(buffer.id())];
            let access = encoder.access.check(part, Access::Buffer(BufferAccess::Vertex));
            let found = reason(state.check_vertex_slot(encoder, slot, alignment, bytes));
            if state.vertex_buffers[slot] is None {
                found == Some(Error::VertexBufferNotSet)
            } else if encoder.resources.buffer(buffer) is Err {
                found == reason(encoder.resources.buffer(buffer))
            } else if access is Err {
                found == reason(access)
            } else if offset as int % alignment != 0 {
                found == Some(Error::InvalidValue)
            } else if offset + bytes > u64::MAX {
                found == Some(Error::Overflow)
            } else if offset + bytes > encoder.resources.buffer(buffer)->Ok_0@.size {
                found == Some(Error::OutOfBounds)
            } else {
                found is None
            }
        }),
        shape.indexed ==> ({
            let (buffer, offset, format) = state.index_buffer->0;
            let part = seq![ResourcePart::Buffer(buffer.id())];
            let access = encoder.access.check(part, Access::Buffer(BufferAccess::Index));
            let found = reason(state.check_indices(encoder, shape));
            let end = offset + (shape.first + shape.count)
                * crate::ir_execute::vertices::index_width(format);
            if state.index_buffer is None {
                found == Some(Error::IndexBufferNotSet)
            } else if encoder.resources.buffer(buffer) is Err {
                found == reason(encoder.resources.buffer(buffer))
            } else if access is Err {
                found == reason(access)
            } else if end > u64::MAX {
                found == Some(Error::Overflow)
            } else if end > encoder.resources.buffer(buffer)->Ok_0@.size {
                found == Some(Error::OutOfBounds)
            } else {
                found is None
            }
        }),
{
}

/// Calls in a compute pass are refused for numbers of workgroups, for a missing pipeline,
/// and for what is not defined.
pub proof fn law_refused_compute_calls_name_their_reason(
    encoder: EncoderView,
    state: ComputeStateView,
    pipeline: ComputePipelineRef,
    index: u32,
    bind_group: BindGroupRef,
    stages: ShaderStages,
    offset: u32,
    data: Seq<u8>,
    x: u32,
    y: u32,
    z: u32,
)
    ensures
        ({
            let full = if encoder.commands.len() >= encoder.capacity() {
                Some(Error::CommandLimitExceeded)
            } else {
                None
            };
            let table = encoder.resources;
            &&& reason(state.set_pipeline(encoder, pipeline)) == (if table.compute_pipeline(
                pipeline,
            ) is Err {
                reason(table.compute_pipeline(pipeline))
            } else {
                full
            })
            &&& reason(state.set_bind_group(encoder, index, bind_group)) == (if index >= 4 {
                Some(Error::OutOfBounds)
            } else if table.bind_group(bind_group) is Err {
                reason(table.bind_group(bind_group))
            } else {
                full
            })
            &&& state.pipeline is None ==> reason(
                state.set_push_constants(encoder, stages, offset, data),
            ) == Some(Error::PipelineNotSet)
            &&& state.pipeline is None && 0 < x <= 0xffff && 0 < y <= 0xffff && 0 < z <= 0xffff
                ==> reason(state.dispatch(encoder, x, y, z)) == Some(Error::PipelineNotSet)
        }),
{
}

/// Push constants are refused for having no stage, no bytes or partial words, then for an
/// end past the largest offset, then for an end past the limit, then for not being declared.
pub proof fn law_refused_push_constants_name_their_reason(
    layout: PipelineLayoutView,
    stages: ShaderStages,
    offset: u32,
    length: nat,
)
    ensures
        ({
            let found = reason(layout.check_push_constants(stages, offset, length));
            if stages@ == 0 || length == 0 || offset % 4 != 0 || length % 4 != 0 {
                found == Some(Error::InvalidValue)
            } else if offset + length > u32::MAX {
                found == Some(Error::Overflow)
            } else if offset + length > 128 {
                found == Some(Error::OutOfBounds)
            } else {
                found is None || found == Some(Error::BindingLayoutMismatch)
            }
        }),
{
}

/// Views are refused for a format with other pixels, then for levels or layers that do not
/// exist, then for layers that do not suit the coordinates.
pub proof fn law_refused_views_name_their_reason(
    view: TextureViewView,
    texture: crate::ir::resource::TextureDescView,
)
    ensures
        ({
            let found = reason(view.check(texture));
            if !texture.format.view_compatible(view.format) {
                found == Some(Error::InvalidDescriptor)
            } else if view.mip_level_count == 0 || view.array_layer_count == 0
                || view.base_mip_level + view.mip_level_count > texture.mip_level_count
                || view.base_array_layer + view.array_layer_count > texture.array_layer_count {
                found == Some(Error::OutOfBounds)
            } else {
                found is None || found == Some(Error::InvalidDescriptor)
            }
        }),
{
}

/// Attachments are refused for what is not defined, for a format that is not of their kind,
/// for a usage, for an area past an edge or other sides, for being attached twice, and for
/// being too many.
pub proof fn law_refused_attachments_name_their_reason(
    table: TableView,
    desc: RenderPassView,
    target: TextureRef,
    load: DepthLoadOp,
)
    requires
        desc.colors.len() > 0,
        table.texture(desc.colors[0].target) is Ok,
        table.texture(target) is Ok,
    ensures
        ({
            let first = table.texture(desc.colors[0].target)->Ok_0@;
            let texture = table.texture(target)->Ok_0@;
            let found = reason(desc.check_color_attachment(table, target));
            let attached = exists|i: int|
                0 <= i < desc.colors.len() && (#[trigger] desc.colors[i]).target@.index
                    == target@.index;
            if texture.format == TextureFormat::Depth32Float {
                found == Some(Error::InvalidDescriptor)
            } else if !texture.usage.allows(TextureUsage::RENDER_ATTACHMENT_BIT) {
                found == Some(Error::InvalidUsage)
            } else if !desc.area@.within(texture.extent) || texture.extent != first.extent {
                found == Some(Error::OutOfBounds)
            } else if attached {
                found == Some(Error::InvalidDescriptor)
            } else if desc.colors.len() >= 8 {
                found == Some(Error::ResourceLimitExceeded)
            } else {
                found is None
            }
        }),
        ({
            let first = table.texture(desc.colors[0].target)->Ok_0@;
            let texture = table.texture(target)->Ok_0@;
            let found = reason(desc.check_depth_attachment(table, target, load));
            if texture.format != TextureFormat::Depth32Float {
                found == Some(Error::InvalidDescriptor)
            } else if !texture.usage.allows(TextureUsage::RENDER_ATTACHMENT_BIT) {
                found == Some(Error::InvalidUsage)
            } else if !desc.area@.within(texture.extent) || texture.extent != first.extent {
                found == Some(Error::OutOfBounds)
            } else if load matches DepthLoadOp::Clear(value)
                && !crate::ir::float::in_unit_interval(value) {
                found == Some(Error::InvalidDescriptor)
            } else {
                found is None
            }
        }),
{
}

} // verus!
