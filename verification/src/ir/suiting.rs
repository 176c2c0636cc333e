//! Which resources suit the bindings, usages and stages that are declared for them.

use crate::ir::access::{Access, AccessView, ResourcePart};
use crate::ir::pipeline::VertexBufferLayoutView;
use crate::ir::programmable::{BindGroupView, BindingResource, BindingType};
use crate::ir::resource::{BufferUsage, TextureDescView, TextureFormat, TextureUsage};
use crate::ir::shader::{ShaderStage, ShaderStages};
use crate::ir::table::{BufferId, SamplerId, TableView, TextureId};
use crate::ir::texture_view::{TextureViewDesc, TextureViewDimension};
use crate::ir::types::{Error, ExtentView};
use crate::ir::viewport::ViewportView;
use vstd::prelude::*;

verus! {

/// A range of a buffer can be bound exactly when the buffer allows the use, the range has
/// bytes, every byte of it exists, its size is whole words, and it starts at a multiple of
/// sixteen bytes for uniforms and of four bytes for storage. A refusal names the usage
/// first, then sizes and multiples, then the end.
pub proof fn law_bound_buffers_suit(
    table: TableView,
    buffer: BufferId,
    offset: u64,
    size: u64,
    uniform: bool,
)
    requires
        table.buffer(buffer.reference()) is Ok,
    ensures
        ({
            let desc = table.buffer(buffer.reference())->Ok_0@;
            let resource = BindingResource::Buffer { buffer, offset, size };
            let ty = if uniform {
                BindingType::UniformBuffer
            } else {
                BindingType::StorageBuffer { read_only: true }
            };
            let found = crate::ir::programmable::check_resource(table, resource, ty);
            let allowed = if uniform {
                desc.usage.allows(BufferUsage::UNIFORM_BIT)
            } else {
                desc.usage.allows(BufferUsage::STORAGE_BIT)
            };
            let aligned = size > 0 && size % 4 == 0 && (if uniform {
                offset % 16 == 0
            } else {
                offset % 4 == 0
            });
            &&& found is Ok <==> allowed && aligned && forall|at: int|
                offset <= at < offset + size ==> #[trigger] crate::ir::bounds::byte_exists(
                    desc.size as int,
                    at,
                )
            &&& !allowed ==> found == Err::<(), Error>(Error::InvalidUsage)
            &&& allowed && !aligned ==> found == Err::<(), Error>(Error::InvalidValue)
            &&& allowed && aligned && offset + size > u64::MAX ==> found == Err::<(), Error>(
                Error::Overflow,
            )
            &&& allowed && aligned && desc.size < offset + size <= u64::MAX ==> found == Err::<
                (),
                Error,
            >(Error::OutOfBounds)
            &&& forall|read_only: bool| !uniform ==> #[trigger]
                crate::ir::programmable::check_resource(
                    table,
                    resource,
                    BindingType::StorageBuffer { read_only },
                ) == found
        }),
{
    crate::ir::table::law_references_and_identities_correspond();
    assert(buffer.reference()@ == buffer@);
    let desc = table.buffer(buffer.reference())->Ok_0@;
    if size > 0 {
        assert(crate::ir::bounds::byte_exists(desc.size as int, offset + size - 1) <==> offset
            + size <= desc.size);
    }
}

/// A whole texture can be bound for sampling exactly when it allows that and has one layer
/// of color, and for storage exactly when it allows that, has the declared format, and one
/// level and one layer.
pub proof fn law_bound_textures_suit(
    table: TableView,
    texture: TextureId,
    format: TextureFormat,
    access: crate::ir::programmable::StorageTextureAccess,
)
    requires
        table.texture(texture.reference()) is Ok,
    ensures
        ({
            let desc = table.texture(texture.reference())->Ok_0@;
            let resource = BindingResource::Texture(texture);
            let sampled = crate::ir::programmable::check_resource(
                table,
                resource,
                BindingType::SampledTexture,
            );
            let stored = crate::ir::programmable::check_resource(
                table,
                resource,
                BindingType::StorageTexture { format, access },
            );
            &&& sampled is Ok <==> desc.usage.allows(TextureUsage::SAMPLED_BIT)
                && desc.array_layer_count == 1 && !(desc.format is Depth32Float)
            &&& !desc.usage.allows(TextureUsage::SAMPLED_BIT) ==> sampled == Err::<(), Error>(
                Error::InvalidUsage,
            )
            &&& sampled is Err && desc.usage.allows(TextureUsage::SAMPLED_BIT) ==> sampled
                == Err::<(), Error>(Error::InvalidDescriptor)
            &&& stored is Ok <==> desc.usage.allows(TextureUsage::STORAGE_BIT) && desc.format
                == format && desc.array_layer_count == 1 && desc.mip_level_count == 1
            &&& !desc.usage.allows(TextureUsage::STORAGE_BIT) ==> stored == Err::<(), Error>(
                Error::InvalidUsage,
            )
            &&& stored is Err && desc.usage.allows(TextureUsage::STORAGE_BIT) ==> stored == Err::<
                (),
                Error,
            >(Error::BindingLayoutMismatch)
        }),
{
    crate::ir::table::law_references_and_identities_correspond();
    assert(texture.reference()@ == texture@);
}

/// A view can be bound for sampling exactly when it suits its texture, the texture allows
/// it, and its coordinates and its kind, depth or color, are the declared ones. It can be
/// bound for storage exactly when it suits, is allowed, and is one level of one flat layer
/// in the declared format.
pub proof fn law_bound_views_suit(
    table: TableView,
    texture: TextureId,
    view: TextureViewDesc,
    dimension: TextureViewDimension,
    depth: bool,
    format: TextureFormat,
    access: crate::ir::programmable::StorageTextureAccess,
)
    requires
        table.texture(texture.reference()) is Ok,
    ensures
        ({
            let desc = table.texture(texture.reference())->Ok_0@;
            let resource = BindingResource::TextureView { texture, view };
            &&& crate::ir::programmable::check_resource(
                table,
                resource,
                BindingType::SampledTextureView { dimension, depth },
            ) is Ok <==> view@.check(desc) is Ok && desc.usage.allows(TextureUsage::SAMPLED_BIT)
                && view@.dimension == dimension && depth == (view@.format is Depth32Float)
            &&& crate::ir::programmable::check_resource(
                table,
                resource,
                BindingType::StorageTexture { format, access },
            ) is Ok <==> view@.check(desc) is Ok && desc.usage.allows(TextureUsage::STORAGE_BIT)
                && view@.format == format && view@.dimension is D2 && view@.mip_level_count == 1
                && view@.array_layer_count == 1
        }),
{
    crate::ir::table::law_references_and_identities_correspond();
    assert(texture.reference()@ == texture@);
}

/// A sampler that compares is bound only where comparing is declared, and one that does
/// not only where it is not. A resource of another kind than declared is never bound.
pub proof fn law_bound_samplers_suit(
    table: TableView,
    sampler: SamplerId,
    resource: BindingResource,
    ty: BindingType,
)
    requires
        table.sampler(sampler.reference()) is Ok,
    ensures
        ({
            let desc = table.sampler(sampler.reference())->Ok_0@;
            &&& crate::ir::programmable::check_resource(
                table,
                BindingResource::Sampler(sampler),
                BindingType::Sampler,
            ) is Ok <==> desc.compare is None
            &&& crate::ir::programmable::check_resource(
                table,
                BindingResource::Sampler(sampler),
                BindingType::ComparisonSampler,
            ) is Ok <==> desc.compare is Some
            &&& crate::ir::programmable::check_resource(table, resource, ty) is Ok ==> {
                &&& (ty is UniformBuffer || ty is StorageBuffer) <==> resource is Buffer
                &&& (ty is Sampler || ty is ComparisonSampler) <==> resource is Sampler
                &&& ty is SampledTexture ==> resource is Texture
                &&& ty is SampledTextureView ==> resource is TextureView
                &&& ty is StorageTexture ==> resource is Texture || resource is TextureView
            }
        }),
{
    crate::ir::table::law_references_and_identities_correspond();
    assert(sampler.reference()@ == sampler@);
}

proof fn lemma_group_bindings(group: BindGroupView, table: TableView, count: nat)
    ensures
        group.check_bindings(table, count) is Ok <==> forall|i: int|
            0 <= i < count ==> (#[trigger] group.entries[i]).binding == group.layout[i].binding
                && crate::ir::programmable::check_resource(
                table,
                group.entries[i].resource,
                group.layout[i].ty,
            ) is Ok,
    decreases count,
{
    if count > 0 {
        let fewer = (count - 1) as nat;
        lemma_group_bindings(group, table, fewer);
        if group.check_bindings(table, count) is Ok {
            assert forall|i: int| 0 <= i < count implies (#[trigger] group.entries[i]).binding
                == group.layout[i].binding && crate::ir::programmable::check_resource(
                table,
                group.entries[i].resource,
                group.layout[i].ty,
            ) is Ok by {}
        } else if group.check_bindings(table, fewer) is Ok {
            assert(group.entries[fewer as int].binding != group.layout[fewer as int].binding
                || crate::ir::programmable::check_resource(
                table,
                group.entries[fewer as int].resource,
                group.layout[fewer as int].ty,
            ) is Err);
        }
    }
}

/// Bindings form a group exactly when there is one for every declared binding, in its place
/// and suiting it, and no two share storage that shaders write through one of them.
pub proof fn law_groups_suit_their_layout(group: BindGroupView, table: TableView)
    ensures
        group.check(table) is Ok <==> {
            &&& group.entries.len() == group.layout.len()
            &&& forall|i: int|
                0 <= i < group.entries.len() ==> (#[trigger] group.entries[i]).binding
                    == group.layout[i].binding && crate::ir::programmable::check_resource(
                    table,
                    group.entries[i].resource,
                    group.layout[i].ty,
                ) is Ok
            &&& forall|i: int, j: int|
                0 <= i < j < group.entries.len() && crate::ir::conflicts::shares_storage(
                    (#[trigger] group.entries[i]).resource,
                    (#[trigger] group.entries[j]).resource,
                ) ==> !crate::ir::conflicts::stores(group.layout[i].ty)
                    && !crate::ir::conflicts::stores(group.layout[j].ty)
        },
        group.entries.len() == group.layout.len() && group.check_bindings(
            table,
            group.entries.len(),
        ) is Ok && group.check(table) is Err ==> group.check(table) == Err::<(), Error>(
            Error::ResourceAccessConflict,
        ),
{
    lemma_group_bindings(group, table, group.entries.len());
    if group.conflicts() {
        let (i, j) = choose|i: int, j: int|
            0 <= j < i < group.entries.len() && #[trigger] group.conflict(i, j);
        assert(crate::ir::conflicts::shares_storage(
            group.entries[j].resource,
            group.entries[i].resource,
        ));
    } else {
        assert forall|i: int, j: int|
            0 <= i < j < group.entries.len() && crate::ir::conflicts::shares_storage(
                (#[trigger] group.entries[i]).resource,
                (#[trigger] group.entries[j]).resource,
            ) implies !crate::ir::conflicts::stores(group.layout[i].ty)
            && !crate::ir::conflicts::stores(group.layout[j].ty) by {
            assert(!group.conflict(j, i));
        }
    }
}

/// A format carries a usage exactly when the usage is not empty, storage is for linear red,
/// green, blue and alpha alone, and depth is neither copied nor presented nor stored.
pub proof fn law_formats_carry_their_usage(format: TextureFormat, usage: TextureUsage)
    requires
        usage@ < 64,
    ensures
        TextureDescView::usage_fits(format, usage) <==> {
            &&& usage@ != 0
            &&& usage.allows(TextureUsage::STORAGE_BIT) ==> format is Rgba8Unorm
            &&& format is Depth32Float ==> !usage.allows(TextureUsage::COPY_SRC_BIT)
                && !usage.allows(TextureUsage::COPY_DST_BIT) && !usage.allows(
                TextureUsage::PRESENT_BIT,
            ) && !usage.allows(TextureUsage::STORAGE_BIT)
        },
{
    let bits = usage@;
    assert(bits < 64 ==> ((bits & 3 == bits) <==> (bits & 4 != 4 && bits & 8 != 8 && bits & 16 != 16
        && bits & 32 != 32))) by (bit_vector);
}

/// Each stage is in its own set and in no set of another stage.
pub proof fn law_stages_are_distinct(stage: ShaderStage, other: ShaderStage)
    ensures
        ShaderStages::stage_bit(stage) & ShaderStages::stage_bit(other)
            == ShaderStages::stage_bit(other) <==> stage == other,
        crate::ir::programmable::single_stage(ShaderStages::stage_bit(stage)),
{
    assert(1u8 & 1u8 == 1u8 && 2u8 & 2u8 == 2u8 && 4u8 & 4u8 == 4u8 && 1u8 & 2u8 == 0u8 && 1u8
        & 4u8 == 0u8 && 2u8 & 1u8 == 0u8 && 2u8 & 4u8 == 0u8 && 4u8 & 1u8 == 0u8 && 4u8 & 2u8
        == 0u8) by (bit_vector);
}

/// Vertex locations are in order exactly when each is below the limit and no two attributes,
/// of whichever buffers, have the same one.
pub proof fn law_locations_are_distinct(
    buffers: Seq<VertexBufferLayoutView>,
    b: int,
    i: int,
    c: int,
    j: int,
)
    requires
        crate::ir::programmable::locations_valid(buffers),
        0 <= b < buffers.len(),
        0 <= i < buffers[b].attributes.len(),
        0 <= c < buffers.len(),
        0 <= j < buffers[c].attributes.len(),
    ensures
        buffers[b].attributes[i].location < 16,
        buffers[b].attributes[i].location == buffers[c].attributes[j].location ==> b == c && i
            == j,
{
    assert(crate::ir::programmable::location_is_new(buffers, b, i));
    assert(crate::ir::programmable::location_is_new(buffers, c, j));
    assert(buffers[b].attributes[i].location == buffers[b].attributes[i].location);
    assert(buffers[c].attributes[j].location == buffers[c].attributes[j].location);
}

/// A viewport is proper exactly when all of it is finite, it has an area, and its depths
/// are in order between zero and one. It lies within an extent exactly when its edges do.
pub proof fn law_proper_viewports(viewport: ViewportView, extent: ExtentView)
    ensures
        viewport.valid() <==> {
            &&& crate::ir::float::finite(viewport.x) && crate::ir::float::finite(viewport.y)
            &&& crate::ir::float::finite(viewport.width)
            &&& crate::ir::float::finite(viewport.height)
            &&& crate::ir::float::finite(viewport.min_depth)
            &&& crate::ir::float::finite(viewport.max_depth)
            &&& crate::ir::float::scaled_value(viewport.width) > 0
            &&& crate::ir::float::scaled_value(viewport.height) > 0
            &&& 0 <= crate::ir::float::scaled_value(viewport.min_depth)
            &&& crate::ir::float::scaled_value(viewport.min_depth)
                <= crate::ir::float::scaled_value(viewport.max_depth)
            &&& crate::ir::float::scaled_value(viewport.max_depth)
                <= crate::ir::float::scaled_value(crate::ir::float::ONE_BITS)
        },
        ({
            let left = crate::ir::float::scaled_value(viewport.x);
            let top = crate::ir::float::scaled_value(viewport.y);
            let right = left + crate::ir::float::scaled_value(viewport.width);
            let bottom = top + crate::ir::float::scaled_value(viewport.height);
            let one = crate::ir::float::scaled_value(crate::ir::float::ONE_BITS);
            viewport.within(extent) <==> 0 <= left && right <= extent.width * one && 0 <= top
                && bottom <= extent.height * one
        }),
{
    crate::ir::numbers::law_patterns_denote_numbers(0);
}

/// A barrier is refused where a storage write waits for one and the barrier is from another
/// access, and where another access than the one it is from was announced.
pub proof fn law_refused_barriers(
    access: AccessView,
    part: ResourcePart,
    before: Access,
    writes: bool,
)
    ensures
        access.check_barrier(seq![part], before, writes) is Ok <==> {
            &&& access.pending.contains(part) ==> writes
            &&& access.announced.dom().contains(part) ==> access.announced[part] == before
        },
        access.check_barrier(seq![part], before, writes) is Err ==> access.check_barrier(
            seq![part],
            before,
            writes,
        ) == Err::<(), Error>(Error::InvalidResourceAccess),
{
    let parts = seq![part];
    assert(parts[0] == part);
    if access.pending.contains(part) {
        assert(access.pending.contains(parts[0]));
    }
    if access.announces_other(part, before) {
        assert(access.announces_other(parts[0], before));
    }
}

} // verus!
