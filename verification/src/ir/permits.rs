//! Which accesses resources permit, and how barriers and push constants agree with that.

use crate::ir::access::{Access, ResourcePart};
use crate::ir::command::{CommandView, EncoderView};
use crate::ir::pipeline::IndexFormat;
use crate::ir::programmable::{
    BindingResource, BindingType, BufferAccess, PipelineLayoutView, ResourceBarrier, TextureAccess,
};
use crate::ir::render_pass_encoder::RenderStateView;
use crate::ir::resource::{BufferUsage, TextureFormat, TextureUsage, TextureWriteView};
use crate::ir::shader::ShaderStages;
use crate::ir::table::{BufferRef, TextureRef};
use crate::ir::types::{Error, RectView};
use vstd::prelude::*;

verus! {

/// Whether a call was refused because the usage of a resource does not permit it.
pub open spec fn refused_for_usage<T>(result: Result<T, Error>) -> bool {
    result matches Err(error) && error == Error::InvalidUsage
}

/// Whether calls that make an access to a buffer are not refused for its usage.
pub open spec fn buffer_permits(
    encoder: EncoderView,
    state: RenderStateView,
    buffer: BufferRef,
    access: BufferAccess,
) -> bool {
    match access {
        BufferAccess::CopyDestination => forall|offset: u64, data: Seq<u8>|
            !refused_for_usage(#[trigger] encoder.write_buffer(buffer, offset, data)),
        BufferAccess::CopySource => encoder.resources.buffer(buffer)->Ok_0@.usage.allows(
            BufferUsage::COPY_SRC_BIT,
        ),
        BufferAccess::Vertex => forall|offset: u64|
            !refused_for_usage(
                #[trigger] state.bind_vertex_buffer(
                    encoder,
                    0,
                    buffer,
                    offset,
                    CommandView::SetVertexBuffer { buffer, offset },
                ),
            ),
        BufferAccess::Index => forall|offset: u64, format: IndexFormat|
            !refused_for_usage(#[trigger] state.set_index_buffer(encoder, buffer, offset, format)),
        BufferAccess::Uniform => forall|offset: u64, size: u64|
            !refused_for_usage(
                #[trigger] crate::ir::programmable::check_resource(
                    encoder.resources,
                    BindingResource::Buffer { buffer: buffer.id(), offset, size },
                    BindingType::UniformBuffer,
                ),
            ),
        _ => forall|offset: u64, size: u64, read_only: bool|
            !refused_for_usage(
                #[trigger] crate::ir::programmable::check_resource(
                    encoder.resources,
                    BindingResource::Buffer { buffer: buffer.id(), offset, size },
                    BindingType::StorageBuffer { read_only },
                ),
            ),
    }
}

/// Whether calls that make an access to a texture are not refused for its usage.
pub open spec fn texture_permits(
    encoder: EncoderView,
    state: RenderStateView,
    texture: TextureRef,
    access: TextureAccess,
) -> bool {
    match access {
        TextureAccess::CopyDestination => forall|write: TextureWriteView|
            !refused_for_usage(#[trigger] encoder.write_texture(texture, write)),
        TextureAccess::CopySource => encoder.resources.texture(texture)->Ok_0@.usage.allows(
            TextureUsage::COPY_SRC_BIT,
        ),
        TextureAccess::Sampled => !refused_for_usage(state.set_texture(encoder, texture)),
        TextureAccess::RenderAttachment => forall|area: RectView|
            !refused_for_usage(#[trigger] encoder.check_attachment(texture, area)),
        TextureAccess::StorageWrite => forall|format: TextureFormat|
            !refused_for_usage(
                #[trigger] crate::ir::programmable::check_texture_binding(
                    encoder.resources,
                    texture.id(),
                    Some(format),
                ),
            ),
    }
}

/// A buffer permits an access exactly when its usage holds the flag of the access.
pub proof fn lemma_buffer_permits(
    encoder: EncoderView,
    state: RenderStateView,
    buffer: BufferRef,
    access: BufferAccess,
)
    requires
        !encoder.pass_open,
        encoder.resources.buffer(buffer) is Ok,
    ensures
        buffer_permits(encoder, state, buffer, access) <==> encoder.resources.buffer(
            buffer,
        )->Ok_0@.usage.allows(access.usage_bit()),
{
    crate::ir::table::law_identities_round_trip(encoder.resources);
    let usage = encoder.resources.buffer(buffer)->Ok_0@.usage;
    let allowed = usage.allows(access.usage_bit());
    match access {
        BufferAccess::CopyDestination => {
            assert(!allowed ==> refused_for_usage(encoder.write_buffer(buffer, 0, Seq::empty())));
        },
        BufferAccess::CopySource => {},
        BufferAccess::Vertex => {
            assert(!allowed ==> refused_for_usage(
                state.bind_vertex_buffer(
                    encoder,
                    0,
                    buffer,
                    0,
                    CommandView::SetVertexBuffer { buffer, offset: 0 },
                ),
            ));
        },
        BufferAccess::Index => {
            assert(!allowed ==> refused_for_usage(
                state.set_index_buffer(encoder, buffer, 0, IndexFormat::Uint16),
            ));
        },
        BufferAccess::Uniform => {
            assert(!allowed ==> refused_for_usage(
                crate::ir::programmable::check_resource(
                    encoder.resources,
                    BindingResource::Buffer { buffer: buffer.id(), offset: 0, size: 0 },
                    BindingType::UniformBuffer,
                ),
            ));
        },
        _ => {
            assert(!allowed ==> refused_for_usage(
                crate::ir::programmable::check_resource(
                    encoder.resources,
                    BindingResource::Buffer { buffer: buffer.id(), offset: 0, size: 0 },
                    BindingType::StorageBuffer { read_only: true },
                ),
            ));
        },
    }
}

/// A barrier on a buffer is refused for its usage exactly when calls that make one of its
/// accesses are.
pub proof fn law_buffer_barriers_name_permitted_accesses(
    encoder: EncoderView,
    state: RenderStateView,
    buffer: BufferRef,
    before: BufferAccess,
    after: BufferAccess,
)
    requires
        !encoder.pass_open,
        encoder.resources.buffer(buffer) is Ok,
    ensures
        refused_for_usage(
            encoder.resource_barrier(ResourceBarrier::Buffer { buffer, before, after }),
        ) <==> !(buffer_permits(encoder, state, buffer, before) && buffer_permits(
            encoder,
            state,
            buffer,
            after,
        )),
{
    lemma_buffer_permits(encoder, state, buffer, before);
    lemma_buffer_permits(encoder, state, buffer, after);
}

/// A texture permits an access exactly when its usage holds the flag of the access.
pub proof fn lemma_texture_permits(
    encoder: EncoderView,
    state: RenderStateView,
    texture: TextureRef,
    access: TextureAccess,
    write: TextureWriteView,
    area: RectView,
)
    requires
        !encoder.pass_open,
        encoder.resources.texture(texture) is Ok,
    ensures
        texture_permits(encoder, state, texture, access) <==> encoder.resources.texture(
            texture,
        )->Ok_0@.usage.allows(access.usage_bit()),
{
    crate::ir::table::law_identities_round_trip(encoder.resources);
    let allowed = encoder.resources.texture(texture)->Ok_0@.usage.allows(access.usage_bit());
    match access {
        TextureAccess::CopyDestination => {
            assert(!allowed ==> refused_for_usage(encoder.write_texture(texture, write)));
        },
        TextureAccess::RenderAttachment => {
            assert(!allowed ==> refused_for_usage(encoder.check_attachment(texture, area)));
        },
        TextureAccess::StorageWrite => {
            assert(!allowed ==> refused_for_usage(
                crate::ir::programmable::check_texture_binding(
                    encoder.resources,
                    texture.id(),
                    Some(TextureFormat::Rgba8Unorm),
                ),
            ));
        },
        _ => {},
    }
}

/// A barrier on a texture, or on one of its levels, is refused for its usage exactly when
/// calls that make one of its accesses are.
pub proof fn law_texture_barriers_name_permitted_accesses(
    encoder: EncoderView,
    state: RenderStateView,
    texture: TextureRef,
    mip_level: u32,
    before: TextureAccess,
    after: TextureAccess,
    write: TextureWriteView,
    area: RectView,
)
    requires
        !encoder.pass_open,
        encoder.resources.texture(texture) is Ok,
    ensures
        refused_for_usage(
            encoder.resource_barrier(ResourceBarrier::Texture { texture, before, after }),
        ) <==> !(texture_permits(encoder, state, texture, before) && texture_permits(
            encoder,
            state,
            texture,
            after,
        )),
        refused_for_usage(
            encoder.resource_barrier(
                ResourceBarrier::TextureMip { texture, mip_level, before, after },
            ),
        ) <==> !(texture_permits(encoder, state, texture, before) && texture_permits(
            encoder,
            state,
            texture,
            after,
        )),
{
    lemma_texture_permits(encoder, state, texture, before, write, area);
    lemma_texture_permits(encoder, state, texture, after, write, area);
}

/// After a barrier on a texture, every level of it admits the announced access and no
/// other. After a barrier on one level, that level does, and the others admit what they
/// admitted before.
pub proof fn law_texture_barriers_cover_their_levels(
    encoder: EncoderView,
    texture: TextureRef,
    mip_level: u32,
    before: TextureAccess,
    after: TextureAccess,
    level: u32,
    access: Access,
)
    requires
        encoder.resources.texture(texture) is Ok,
        level < encoder.resources.texture(texture)->Ok_0@.mip_level_count,
    ensures
        encoder.resource_barrier(
            ResourceBarrier::Texture { texture, before, after },
        ) matches Ok(next) ==> (next.access.check(
            seq![ResourcePart::TextureMip(texture.id(), level)],
            access,
        ) is Ok <==> access == Access::Texture(after)),
        encoder.resource_barrier(
            ResourceBarrier::TextureMip { texture, mip_level, before, after },
        ) matches Ok(next) ==> next.access.check(
            seq![ResourcePart::TextureMip(texture.id(), level)],
            access,
        ) == (if level == mip_level {
            if access == Access::Texture(after) {
                Ok::<(), Error>(())
            } else {
                Err(Error::InvalidResourceAccess)
            }
        } else {
            encoder.access.check(seq![ResourcePart::TextureMip(texture.id(), level)], access)
        }),
{
    let part = ResourcePart::TextureMip(texture.id(), level);
    let count = encoder.resources.texture(texture)->Ok_0@.mip_level_count;
    let all = crate::ir::access::mip_parts(texture.id(), 0, count as int);
    assert(all[level as int] == part);
    crate::ir::access::law_barrier_admits_the_announced_access(
        encoder.access,
        all,
        Access::Texture(after),
        part,
        access,
    );
    let one = crate::ir::access::mip_parts(texture.id(), mip_level as int, mip_level + 1);
    assert(one.len() == 1 && one[0] == ResourcePart::TextureMip(texture.id(), mip_level));
    if level == mip_level {
        assert(one.contains(part)) by {
            assert(one[0] == part);
        }
        crate::ir::access::law_barrier_admits_the_announced_access(
            encoder.access,
            one,
            Access::Texture(after),
            part,
            access,
        );
    } else {
        assert(!one.contains(part));
        crate::ir::access::law_other_parts_are_untouched(
            encoder.access,
            one,
            Access::Texture(after),
            Set::empty(),
            Set::empty(),
            part,
            access,
        );
    }
}

/// Whether a stage declares a byte of the push constants.
pub open spec fn declares_byte(layout: PipelineLayoutView, stage: u8, at: int) -> bool {
    exists|i: int| #[trigger] range_declares(layout, i, stage, at)
}

/// Whether a range declares a byte for a stage.
pub open spec fn range_declares(layout: PipelineLayoutView, i: int, stage: u8, at: int) -> bool {
    &&& 0 <= i < layout.push_constant_ranges.len()
    &&& layout.push_constant_ranges[i]@.stages.allows(stage)
    &&& layout.push_constant_ranges[i]@.offset <= at < layout.push_constant_ranges[i]@.offset
        + layout.push_constant_ranges[i]@.size
}

/// An update of push constants is accepted exactly when it has some stages and some whole
/// words, ends by the limit, every updated stage declares every updated byte, and every
/// range that declares an updated byte is of updated stages alone.
pub proof fn law_push_constants_are_declared(
    layout: PipelineLayoutView,
    stages: ShaderStages,
    offset: u32,
    length: nat,
)
    requires
        crate::ir::programmable::push_constant_ranges_valid(layout.push_constant_ranges),
        forall|i: int|
            0 <= i < layout.push_constant_ranges.len() ==> (
            #[trigger] layout.push_constant_ranges[i])@.valid(),
    ensures
        layout.check_push_constants(stages, offset, length) is Ok <==> {
            &&& stages@ != 0
            &&& length > 0
            &&& offset % 4 == 0
            &&& length % 4 == 0
            &&& offset + length <= 128
            &&& forall|stage: u8, at: int|
                crate::ir::programmable::single_stage(stage) && stages.allows(stage) && offset
                    <= at < offset + length ==> #[trigger] declares_byte(layout, stage, at)
            &&& forall|i: int, at: int|
                0 <= i < layout.push_constant_ranges.len() && offset <= at < offset + length
                    && #[trigger] range_declares(layout, i, 0, at) ==> stages.allows(
                    layout.push_constant_ranges[i]@.stages@,
                )
        },
{
    let end = offset + length;
    assert(forall|bits: u8| #[trigger] (bits & 0) == 0) by (bit_vector);
    if length > 0 {
        assert forall|stage: u8|
            #![trigger stages.allows(stage)]
            crate::ir::programmable::single_stage(stage) && stages.allows(stage) implies (
        layout.stage_covers(stage, offset as int, end) <==> forall|at: int|
            offset <= at < end ==> #[trigger] declares_byte(layout, stage, at)) by {
            if layout.stage_covers(stage, offset as int, end) {
                let i = choose|i: int|
                    0 <= i < layout.push_constant_ranges.len() && {
                        let range = (#[trigger] layout.push_constant_ranges[i])@;
                        range.stages.allows(stage) && range.offset <= offset && end <= range.end()
                    };
                assert forall|at: int| offset <= at < end implies #[trigger] declares_byte(
                    layout,
                    stage,
                    at,
                ) by {
                    assert(range_declares(layout, i, stage, at));
                }
            } else if declares_byte(layout, stage, offset as int) && declares_byte(
                layout,
                stage,
                end - 1,
            ) {
                let i = choose|i: int| #[trigger] range_declares(layout, i, stage, offset as int);
                let j = choose|j: int| #[trigger] range_declares(layout, j, stage, end - 1);
                let left = layout.push_constant_ranges[i];
                let right = layout.push_constant_ranges[j];
                assert(left@.stages.allows(stage) && right@.stages.allows(stage));
                if i < j {
                    assert(crate::ir::programmable::share_a_stage(left, right));
                } else if j < i {
                    assert(crate::ir::programmable::share_a_stage(right, left));
                }
                assert(i == j);
                assert(left@.offset <= offset && end <= left@.end());
            }
        }
        assert forall|i: int| 0 <= i < layout.push_constant_ranges.len() implies ({
            let range = (#[trigger] layout.push_constant_ranges[i])@;
            (offset < range.end() && range.offset < end) <==> exists|at: int|
                offset <= at < end && #[trigger] range_declares(layout, i, 0, at)
        }) by {
            let range = layout.push_constant_ranges[i]@;
            assert(range.valid());
            let at: int = if offset >= range.offset {
                offset as int
            } else {
                range.offset as int
            };
            if offset < range.end() && range.offset < end {
                assert(range_declares(layout, i, 0, at));
            }
        }
    }
}

} // verus!
