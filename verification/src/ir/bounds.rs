//! What accepted transfers, views and draws may touch.

use crate::ir::access::{Access, ResourcePart};
use crate::ir::command::{CommandView, EncoderView, MAX_COMMANDS};
use crate::ir::programmable::{BufferAccess, TextureAccess};
use crate::ir::render_pass_encoder::{DrawShape, RenderStateView};
use crate::ir::resource::{
    BufferUsage, TextureDescView, TextureFormat, TextureUsage, TextureWriteView,
};
use crate::ir::table::{BufferRef, TextureRef};
use crate::ir::texture_view::{TextureViewDimension, TextureViewView};
use crate::ir::types::{ExtentView, PixelRect};
use vstd::prelude::*;

verus! {

/// The bits of each component that a pixel stores.
pub open spec fn component_bits(format: TextureFormat) -> Seq<nat> {
    match format {
        TextureFormat::Bgra8Unorm => seq![8, 8, 8, 8],
        TextureFormat::Rgba8Unorm => seq![8, 8, 8, 8],
        TextureFormat::Rgba8UnormSrgb => seq![8, 8, 8, 8],
        TextureFormat::R8Unorm => seq![8],
        TextureFormat::Depth32Float => seq![32],
    }
}

/// The sum of numbers.
pub open spec fn total(values: Seq<nat>) -> nat
    decreases values.len(),
{
    if values.len() == 0 {
        0
    } else {
        total(values.drop_last()) + values.last()
    }
}

/// A pixel has room for its components and for nothing else.
pub proof fn law_pixels_hold_their_components(format: TextureFormat)
    ensures
        8 * format.bytes_per_pixel() == total(component_bits(format)),
{
    reveal_with_fuel(total, 5);
}

/// Level zero of a mip chain has the sides of the texture. Every further level has
/// half the sides of the level before it, rounded down, but never less than one.
pub proof fn law_mip_levels_halve(side: u32, level: nat)
    requires
        side > 0,
    ensures
        crate::ir::resource::mip_side(side, 0) == side,
        crate::ir::resource::mip_side(side, level) >= 1,
        crate::ir::resource::mip_side(side, level + 1) == (if crate::ir::resource::mip_side(
            side,
            level,
        ) == 1 {
            1
        } else {
            crate::ir::resource::mip_side(side, level) / 2
        }),
{
    vstd::arithmetic::power2::lemma2_to64();
    vstd::arithmetic::power2::lemma_pow2_pos(level);
    vstd::arithmetic::power2::lemma_pow2_unfold(level + 1);
    let power = vstd::arithmetic::power2::pow2(level) as int;
    vstd::arithmetic::div_mod::lemma_div_denominator(side as int, power, 2);
    vstd::arithmetic::div_mod::lemma_div_is_ordered_by_denominator(side as int, 1, power);
    vstd::arithmetic::div_mod::lemma_div_pos_is_pos(side as int, power);
    assert(power * 2 == 2 * power);
}

/// A number halved as often as its binary logarithm says is one, and not before.
proof fn lemma_halved_to_one(number: nat, level: nat)
    requires
        number > 0,
    ensures
        number as int / vstd::arithmetic::power2::pow2(level) as int <= 1
            <==> vstd::arithmetic::logarithm::log(2, number as int) <= level,
    decreases number,
{
    vstd::arithmetic::power2::lemma2_to64();
    vstd::arithmetic::power2::lemma_pow2_pos(level);
    vstd::arithmetic::logarithm::lemma_log_nonnegative(2, number as int);
    let power = vstd::arithmetic::power2::pow2(level) as int;
    if number < 2 {
        vstd::arithmetic::logarithm::lemma_log0(2, number as int);
        vstd::arithmetic::div_mod::lemma_div_is_ordered_by_denominator(number as int, 1, power);
        assert(number as int / 1 == number);
    } else {
        vstd::arithmetic::logarithm::lemma_log_s(2, number as int);
        vstd::arithmetic::logarithm::lemma_log_nonnegative(2, number as int / 2);
        if level > 0 {
            let below = (level - 1) as nat;
            vstd::arithmetic::power2::lemma_pow2_unfold(level);
            vstd::arithmetic::power2::lemma_pow2_pos(below);
            vstd::arithmetic::div_mod::lemma_div_denominator(
                number as int,
                2,
                vstd::arithmetic::power2::pow2(below) as int,
            );
            lemma_halved_to_one(number / 2, below);
            let half = vstd::arithmetic::power2::pow2(below) as int;
            assert(power == 2 * half);
            assert(number as int / power == (number / 2) as int / half);
        } else {
            assert(power == 1);
            assert(number as int / 1 == number);
        }
    }
}

/// A complete mip chain ends with the first level that is a single pixel.
pub proof fn law_complete_chains_end_at_one_pixel(desc: TextureDescView, level: nat)
    requires
        desc.extent.width > 0,
        desc.extent.height > 0,
    ensures
        desc.mip_extent(level) == (ExtentView { width: 1, height: 1 }) <==> level + 1
            >= crate::ir::resource::complete_mip_levels(desc.extent),
{
    let width = desc.extent.width;
    let height = desc.extent.height;
    let power = vstd::arithmetic::power2::pow2(level) as int;
    vstd::arithmetic::power2::lemma_pow2_pos(level);
    lemma_halved_to_one(crate::ir::resource::longest_side(desc.extent), level);
    vstd::arithmetic::logarithm::lemma_log_nonnegative(
        2,
        crate::ir::resource::longest_side(desc.extent) as int,
    );
    vstd::arithmetic::div_mod::lemma_div_is_ordered_by_denominator(width as int, 1, power);
    vstd::arithmetic::div_mod::lemma_div_is_ordered_by_denominator(height as int, 1, power);
    vstd::arithmetic::div_mod::lemma_div_pos_is_pos(width as int, power);
    vstd::arithmetic::div_mod::lemma_div_pos_is_pos(height as int, power);
    if width >= height {
        vstd::arithmetic::div_mod::lemma_div_is_ordered(height as int, width as int, power);
    } else {
        vstd::arithmetic::div_mod::lemma_div_is_ordered(width as int, height as int, power);
    }
}

/// A texture of one level and one layer holds one pixel per position. One more level
/// adds the pixels of that level in every layer, and layers are equally large.
pub proof fn law_textures_hold_every_level(desc: TextureDescView)
    requires
        desc.extent.width > 0,
        desc.extent.height > 0,
        desc.mip_level_count < u32::MAX,
        desc.array_layer_count < u32::MAX,
    ensures
        desc.mip_level_count == 1 && desc.array_layer_count == 1 ==> desc.total_bytes()
            == desc.extent.width * desc.extent.height * desc.format.bytes_per_pixel(),
        (TextureDescView {
            mip_level_count: (desc.mip_level_count + 1) as u32,
            ..desc
        }).total_bytes() == desc.total_bytes() + desc.mip_extent(
            desc.mip_level_count as nat,
        ).width * desc.mip_extent(desc.mip_level_count as nat).height
            * desc.format.bytes_per_pixel() * desc.array_layer_count,
        (TextureDescView {
            array_layer_count: (desc.array_layer_count + 1) as u32,
            ..desc
        }).total_bytes() == desc.total_bytes() + (TextureDescView {
            array_layer_count: 1,
            ..desc
        }).total_bytes(),
{
    let levels = desc.mip_level_count as nat;
    let layers = desc.array_layer_count as nat;
    let longer = TextureDescView { mip_level_count: (desc.mip_level_count + 1) as u32, ..desc };
    let deeper = TextureDescView { array_layer_count: (desc.array_layer_count + 1) as u32, ..desc };
    let single = TextureDescView { array_layer_count: 1, ..desc };
    law_mip_levels_halve(desc.extent.width, 0);
    law_mip_levels_halve(desc.extent.height, 0);
    lemma_same_chain(desc, longer, levels);
    lemma_same_chain(desc, deeper, levels);
    lemma_same_chain(desc, single, levels);
    assert(longer.chain_bytes(levels + 1) == desc.chain_bytes(levels) + desc.level_bytes(levels));
    reveal_with_fuel(TextureDescView::chain_bytes, 2);
    let chain = desc.chain_bytes(levels) as int;
    let level = desc.level_bytes(levels) as int;
    assert((chain + level) * layers == chain * layers + level * layers) by (nonlinear_arith);
    assert(chain * (layers + 1) == chain * layers + chain * 1) by (nonlinear_arith);
}

/// The bytes of a chain depend on the extent and the format alone.
proof fn lemma_same_chain(left: TextureDescView, right: TextureDescView, levels: nat)
    requires
        left.extent == right.extent,
        left.format == right.format,
    ensures
        left.chain_bytes(levels) == right.chain_bytes(levels),
        left.level_bytes(levels) == right.level_bytes(levels),
    decreases levels,
{
    if levels > 0 {
        lemma_same_chain(left, right, (levels - 1) as nat);
    }
}

/// Whether a byte lies within a buffer of some size.
pub open spec fn byte_exists(size: int, at: int) -> bool {
    0 <= at < size
}

/// Whether a texel lies within an extent placed at the origin.
pub open spec fn texel_exists(extent: ExtentView, x: int, y: int) -> bool {
    0 <= x < extent.width && 0 <= y < extent.height
}

/// Whether all bytes of one uploaded texel are among the source bytes. Rows follow each
/// other at the stride, and texels of a row follow each other without gaps.
pub open spec fn source_exists(write: TextureWriteView, texel: int, x: int, y: int) -> bool {
    let start = (y - write.destination@.y) * write.bytes_per_row + (x - write.destination@.x)
        * texel;
    0 <= start && start + texel <= write.data.len()
}

/// An upload is recorded exactly when every byte that it writes lies within a buffer of the
/// table that copies may go to, there is a byte to write, no pass is open, the access is
/// admitted, and there is room for the command.
pub proof fn law_uploads_lie_within_their_buffer(
    encoder: EncoderView,
    buffer: BufferRef,
    offset: u64,
    data: Seq<u8>,
)
    ensures
        encoder.write_buffer(buffer, offset, data) is Ok <==> {
            &&& !encoder.pass_open
            &&& encoder.commands.len() < MAX_COMMANDS
            &&& data.len() > 0
            &&& encoder.resources.buffer(buffer) is Ok
            &&& encoder.resources.buffer(buffer)->Ok_0@.usage.allows(BufferUsage::COPY_DST_BIT)
            &&& forall|at: int|
                offset <= at < offset + data.len() ==> #[trigger] byte_exists(
                    encoder.resources.buffer(buffer)->Ok_0@.size as int,
                    at,
                )
            &&& encoder.access.check(
                seq![ResourcePart::Buffer(buffer.id())],
                Access::Buffer(BufferAccess::CopyDestination),
            ) is Ok
        },
{
    if encoder.resources.buffer(buffer) is Ok {
        let size = encoder.resources.buffer(buffer)->Ok_0@.size as int;
        if data.len() > 0 && !byte_exists(size, offset + data.len() - 1) {
            assert(offset + data.len() > size);
        }
    }
}

/// An upload of texels is recorded exactly when its level and layer exist, every texel that
/// it writes lies within the level, every texel that it reads lies within the source bytes,
/// and no row runs into the next one.
pub proof fn law_texel_uploads_lie_within_their_level(
    encoder: EncoderView,
    texture: TextureRef,
    write: TextureWriteView,
)
    requires
        write.destination@.valid(),
    ensures
        encoder.write_texture(texture, write) is Ok <==> {
            let desc = encoder.resources.texture(texture)->Ok_0@;
            let texel = desc.format.bytes_per_pixel() as int;
            &&& !encoder.pass_open
            &&& encoder.commands.len() < MAX_COMMANDS
            &&& encoder.resources.texture(texture) is Ok
            &&& desc.usage.allows(TextureUsage::COPY_DST_BIT)
            &&& write.mip_level < desc.mip_level_count
            &&& write.array_layer < desc.array_layer_count
            &&& forall|x: int, y: int| #[trigger]
                write.destination@.contains(x, y) ==> texel_exists(
                    desc.mip_extent(write.mip_level as nat),
                    x,
                    y,
                ) && source_exists(write, texel, x, y)
            &&& write.destination@.width * texel <= write.bytes_per_row
            &&& encoder.access.check(
                seq![ResourcePart::TextureMip(texture.id(), write.mip_level)],
                Access::Texture(TextureAccess::CopyDestination),
            ) is Ok
        },
{
    if encoder.resources.texture(texture) is Ok {
        let desc = encoder.resources.texture(texture)->Ok_0@;
        let texel = desc.format.bytes_per_pixel() as int;
        let area = write.destination@;
        crate::ir::types::law_within_is_every_pixel(area, desc.mip_extent(write.mip_level as nat));
        let stride = write.bytes_per_row as int;
        let last = (area.height - 1) * stride + (area.width - 1) * texel;
        assert(stride * (area.height - 1) + area.width * texel == last + texel)
            by (nonlinear_arith)
            requires
                last == (area.height - 1) * stride + (area.width - 1) * texel,
        ;
        assert(area.contains(area.right() - 1, area.bottom() - 1));
        assert(0 <= last) by (nonlinear_arith)
            requires
                last == (area.height - 1) * stride + (area.width - 1) * texel,
                area.height > 0,
                area.width > 0,
                stride >= 0,
                texel >= 0,
        ;
        assert forall|x: int, y: int| #[trigger] area.contains(x, y) implies 0 <= (y - area.y)
            * stride + (x - area.x) * texel <= last by {
            let row = y - area.y;
            let column = x - area.x;
            assert(0 <= row * stride + column * texel <= last) by (nonlinear_arith)
                requires
                    last == (area.height - 1) * stride + (area.width - 1) * texel,
                    0 <= row <= area.height - 1,
                    0 <= column <= area.width - 1,
                    stride >= 0,
                    texel >= 0,
            ;
        }
        if crate::ir::command::upload_bytes(write, desc.format.bytes_per_pixel())
            > write.data.len() {
            assert(!source_exists(write, texel, area.right() - 1, area.bottom() - 1));
        }
    }
}

/// A copy between buffers is recorded exactly when every byte that it reads and every byte
/// that it writes lies within its buffer, the buffers are two, and offsets and size are
/// whole words.
pub proof fn law_copies_lie_within_their_buffers(
    encoder: EncoderView,
    source: BufferRef,
    source_offset: u64,
    destination: BufferRef,
    destination_offset: u64,
    size: u64,
)
    ensures
        encoder.copy_buffer_to_buffer(
            source,
            source_offset,
            destination,
            destination_offset,
            size,
        ) is Ok <==> {
            let from = encoder.resources.buffer(source)->Ok_0@;
            let to = encoder.resources.buffer(destination)->Ok_0@;
            &&& !encoder.pass_open
            &&& encoder.commands.len() < MAX_COMMANDS
            &&& encoder.resources.buffer(source) is Ok
            &&& encoder.resources.buffer(destination) is Ok
            &&& source != destination
            &&& from.usage.allows(BufferUsage::COPY_SRC_BIT)
            &&& to.usage.allows(BufferUsage::COPY_DST_BIT)
            &&& size > 0
            &&& size % 4 == 0
            &&& source_offset % 4 == 0
            &&& destination_offset % 4 == 0
            &&& forall|at: int|
                source_offset <= at < source_offset + size ==> #[trigger] byte_exists(
                    from.size as int,
                    at,
                )
            &&& forall|at: int|
                destination_offset <= at < destination_offset + size
                    ==> #[trigger] byte_exists(to.size as int, at)
            &&& encoder.access.check(
                seq![ResourcePart::Buffer(source.id())],
                Access::Buffer(BufferAccess::CopySource),
            ) is Ok
            &&& encoder.access.check(
                seq![ResourcePart::Buffer(destination.id())],
                Access::Buffer(BufferAccess::CopyDestination),
            ) is Ok
        },
{
    if encoder.resources.buffer(source) is Ok && encoder.resources.buffer(destination) is Ok
        && size > 0 {
        let from = encoder.resources.buffer(source)->Ok_0@.size as int;
        let to = encoder.resources.buffer(destination)->Ok_0@.size as int;
        assert(byte_exists(from, source_offset + size - 1) <==> source_offset + size <= from);
        assert(byte_exists(to, destination_offset + size - 1) <==> destination_offset + size
            <= to);
    }
}

/// A copy between textures is recorded exactly when every texel that it reads and every
/// texel that it writes exists, both regions have one shape and both textures one format,
/// and no texel is both read and written.
pub proof fn law_copies_lie_within_their_textures(
    encoder: EncoderView,
    source: TextureRef,
    source_rect: PixelRect,
    destination: TextureRef,
    destination_rect: PixelRect,
)
    requires
        source_rect@.valid(),
        destination_rect@.valid(),
    ensures
        encoder.copy_texture_to_texture(source, source_rect, destination, destination_rect) is Ok
            <==> {
            let from = encoder.resources.texture(source)->Ok_0@;
            let to = encoder.resources.texture(destination)->Ok_0@;
            &&& !encoder.pass_open
            &&& encoder.commands.len() < MAX_COMMANDS
            &&& encoder.resources.texture(source) is Ok
            &&& encoder.resources.texture(destination) is Ok
            &&& from.usage.allows(TextureUsage::COPY_SRC_BIT)
            &&& to.usage.allows(TextureUsage::COPY_DST_BIT)
            &&& from.format == to.format
            &&& source_rect@.width == destination_rect@.width
            &&& source_rect@.height == destination_rect@.height
            &&& forall|x: int, y: int| #[trigger]
                source_rect@.contains(x, y) ==> texel_exists(from.extent, x, y)
            &&& forall|x: int, y: int| #[trigger]
                destination_rect@.contains(x, y) ==> texel_exists(to.extent, x, y)
            &&& source@ == destination@ ==> forall|x: int, y: int|
                source_rect@.contains(x, y) ==> !(#[trigger] destination_rect@.contains(x, y))
            &&& encoder.access.check(
                seq![ResourcePart::TextureMip(source.id(), 0)],
                Access::Texture(TextureAccess::CopySource),
            ) is Ok
            &&& encoder.access.check(
                seq![ResourcePart::TextureMip(destination.id(), 0)],
                Access::Texture(TextureAccess::CopyDestination),
            ) is Ok
        },
{
    if encoder.resources.texture(source) is Ok && encoder.resources.texture(destination) is Ok {
        let from = encoder.resources.texture(source)->Ok_0@;
        let to = encoder.resources.texture(destination)->Ok_0@;
        crate::ir::types::law_within_is_every_pixel(source_rect@, from.extent);
        crate::ir::types::law_within_is_every_pixel(destination_rect@, to.extent);
        crate::ir::types::law_overlap_is_a_common_pixel(source_rect@, destination_rect@);
        assert(source@ == destination@ <==> source@.index == destination@.index);
        if source_rect@.overlaps(destination_rect@) {
            let (x, y) = choose|x: int, y: int| #[trigger]
                source_rect@.contains(x, y) && destination_rect@.contains(x, y);
            assert(source_rect@.contains(x, y) && destination_rect@.contains(x, y));
        }
    }
}

/// Whether a view selects a layer of a level.
pub open spec fn selects(view: TextureViewView, level: int, layer: int) -> bool {
    view.base_mip_level <= level < view.base_mip_level + view.mip_level_count
        && view.base_array_layer <= layer < view.base_array_layer + view.array_layer_count
}

/// A view suits a texture exactly when it selects something, everything that it selects
/// exists, its format has equal pixels, and its layers are one for flat coordinates or the
/// six square faces of a cube.
pub proof fn law_views_select_what_exists(view: TextureViewView, texture: TextureDescView)
    ensures
        view.check(texture) is Ok <==> {
            &&& texture.format.view_compatible(view.format)
            &&& exists|level: int, layer: int| selects(view, level, layer)
            &&& forall|level: int, layer: int| #[trigger]
                selects(view, level, layer) ==> level < texture.mip_level_count && layer
                    < texture.array_layer_count
            &&& match view.dimension {
                TextureViewDimension::D2 => view.array_layer_count == 1,
                TextureViewDimension::D2Array => true,
                TextureViewDimension::Cube => view.array_layer_count == 6
                    && texture.extent.width == texture.extent.height,
            }
        },
{
    if view.mip_level_count > 0 && view.array_layer_count > 0 {
        assert(selects(view, view.base_mip_level as int, view.base_array_layer as int));
        assert(selects(
            view,
            view.base_mip_level + view.mip_level_count - 1,
            view.base_array_layer + view.array_layer_count - 1,
        ));
    }
}

/// Whether record number `k` of a buffer, from an offset on, lies within the buffer.
pub open spec fn record_exists(size: int, offset: int, stride: int, k: int) -> bool {
    0 <= offset + k * stride && offset + (k + 1) * stride <= size
}

/// All records up to the last exist exactly when the last one ends within the buffer.
proof fn lemma_records(size: int, offset: int, stride: int, first: int, count: int)
    requires
        0 <= offset,
        0 <= stride,
        0 <= first,
        count > 0,
    ensures
        offset + (first + count) * stride <= size <==> forall|k: int|
            first <= k < first + count ==> #[trigger] record_exists(size, offset, stride, k),
{
    if offset + (first + count) * stride <= size {
        assert forall|k: int| first <= k < first + count implies #[trigger] record_exists(
            size,
            offset,
            stride,
            k,
        ) by {
            assert(0 <= k * stride && (k + 1) * stride <= (first + count) * stride)
                by (nonlinear_arith)
                requires
                    0 <= k,
                    k + 1 <= first + count,
                    0 <= stride,
            ;
        }
    } else {
        assert(!record_exists(size, offset, stride, first + count - 1));
    }
}

/// Whether a draw finds what it fetches from a vertex slot: a buffer is bound from a
/// multiple of `alignment`, and it holds every vertex of the draw, or one vertex where
/// indices select them.
pub open spec fn slot_ready(
    state: RenderStateView,
    encoder: EncoderView,
    shape: DrawShape,
    slot: int,
    alignment: int,
    stride: int,
) -> bool {
    let (buffer, offset) = state.vertex_buffers[slot]->0;
    let size = encoder.resources.buffer(buffer)->Ok_0@.size as int;
    &&& state.vertex_buffers[slot] is Some
    &&& encoder.resources.buffer(buffer) is Ok
    &&& offset as int % alignment == 0
    &&& if shape.indexed {
        record_exists(size, offset as int, stride, 0)
    } else {
        forall|k: int|
            shape.first <= k < shape.first + shape.count ==> #[trigger] record_exists(
                size,
                offset as int,
                stride,
                k,
            )
    }
    &&& encoder.access.check(
        seq![ResourcePart::Buffer(buffer.id())],
        Access::Buffer(BufferAccess::Vertex),
    ) is Ok
}

/// Whether a draw finds its indices: none are needed, or a buffer is bound that holds
/// every index of the draw.
pub open spec fn indices_ready(
    state: RenderStateView,
    encoder: EncoderView,
    shape: DrawShape,
) -> bool {
    let (buffer, offset, format) = state.index_buffer->0;
    let size = encoder.resources.buffer(buffer)->Ok_0@.size as int;
    shape.indexed ==> {
        &&& state.index_buffer is Some
        &&& encoder.resources.buffer(buffer) is Ok
        &&& forall|k: int|
            shape.first <= k < shape.first + shape.count ==> #[trigger] record_exists(
                size,
                offset as int,
                crate::ir_execute::vertices::index_width(format),
                k,
            )
        &&& encoder.access.check(
            seq![ResourcePart::Buffer(buffer.id())],
            Access::Buffer(BufferAccess::Index),
        ) is Ok
    }
}

proof fn lemma_slot(
    state: RenderStateView,
    encoder: EncoderView,
    shape: DrawShape,
    slot: int,
    alignment: int,
    stride: u32,
)
    requires
        shape.count > 0,
    ensures
        state.check_vertex_slot(
            encoder,
            slot,
            alignment,
            RenderStateView::vertex_bytes(shape, stride),
        ) is Ok <==> slot_ready(state, encoder, shape, slot, alignment, stride as int),
{
    if state.vertex_buffers[slot] is Some {
        let (buffer, offset) = state.vertex_buffers[slot]->0;
        if encoder.resources.buffer(buffer) is Ok {
            let size = encoder.resources.buffer(buffer)->Ok_0@.size as int;
            lemma_records(
                size,
                offset as int,
                stride as int,
                shape.first as int,
                shape.count as int,
            );
            assert(0 * (stride as int) == 0 && (0 + 1) * (stride as int) == stride)
                by (nonlinear_arith);
            assert((shape.first + shape.count) * stride >= 0) by (nonlinear_arith)
                requires
                    shape.first + shape.count >= 0,
                    stride >= 0,
            ;
        }
    }
}

proof fn lemma_indices(state: RenderStateView, encoder: EncoderView, shape: DrawShape)
    requires
        shape.count > 0,
    ensures
        state.check_indices(encoder, shape) is Ok <==> indices_ready(state, encoder, shape),
{
    if shape.indexed && state.index_buffer is Some {
        let (buffer, offset, format) = state.index_buffer->0;
        if encoder.resources.buffer(buffer) is Ok {
            let size = encoder.resources.buffer(buffer)->Ok_0@.size as int;
            lemma_records(
                size,
                offset as int,
                crate::ir_execute::vertices::index_width(format),
                shape.first as int,
                shape.count as int,
            );
        }
    }
}

/// A draw with a fixed pipeline is recorded exactly when it makes whole triangles, its
/// pipeline and uniforms are bound, a texture and a sampler are where the fragment program
/// samples, every vertex and every index that it fetches lies within its buffer, and there
/// is room for the command.
pub proof fn law_fixed_draws_fetch_within_their_buffers(
    state: RenderStateView,
    encoder: EncoderView,
    shape: DrawShape,
    command: CommandView,
)
    requires
        state.programmable_pipeline is None,
    ensures
        state.draw(encoder, shape, command) is Ok <==> {
            let desc = encoder.resources.render_pipeline(state.pipeline->0)->Ok_0;
            let stride = desc.vertex_buffer.stride as int;
            &&& shape.count > 0
            &&& shape.count % 3 == 0
            &&& state.pipeline is Some
            &&& encoder.resources.render_pipeline(state.pipeline->0) is Ok
            &&& state.uniforms is Some
            &&& desc.fragment.is_textured() ==> {
                &&& state.texture is Some
                &&& state.sampler is Some
                &&& encoder.access.check(
                    state.sampled_parts(encoder.resources),
                    Access::Texture(TextureAccess::Sampled),
                ) is Ok
            }
            &&& slot_ready(state, encoder, shape, 0, stride, stride)
            &&& indices_ready(state, encoder, shape)
            &&& encoder.commands.len() < encoder.capacity()
        },
{
    if shape.count > 0 && state.pipeline is Some && encoder.resources.render_pipeline(
        state.pipeline->0,
    ) is Ok {
        let stride = encoder.resources.render_pipeline(
            state.pipeline->0,
        )->Ok_0.vertex_buffer.stride;
        lemma_slot(state, encoder, shape, 0, stride as int, stride);
        lemma_indices(state, encoder, shape);
    }
}

proof fn lemma_slots(
    state: RenderStateView,
    encoder: EncoderView,
    buffers: Seq<crate::ir::pipeline::VertexBufferLayoutView>,
    shape: DrawShape,
    count: nat,
)
    requires
        shape.count > 0,
    ensures
        state.check_vertex_slots(encoder, buffers, shape, count) is Ok <==> forall|slot: int|
            0 <= slot < count ==> slot_ready(
                state,
                encoder,
                shape,
                slot,
                4,
                (#[trigger] buffers[slot]).stride as int,
            ),
    decreases count,
{
    if count > 0 {
        lemma_slots(state, encoder, buffers, shape, (count - 1) as nat);
        lemma_slot(state, encoder, shape, count - 1, 4, buffers[count - 1].stride);
        if state.check_vertex_slots(encoder, buffers, shape, count) is Ok {
            assert forall|slot: int| 0 <= slot < count implies slot_ready(
                state,
                encoder,
                shape,
                slot,
                4,
                (#[trigger] buffers[slot]).stride as int,
            ) by {}
        }
    }
}

/// A recorded draw with a programmable pipeline makes whole triangles, and every vertex of
/// every slot of the pipeline and every index that it fetches lies within its buffer.
pub proof fn law_programmable_draws_fetch_within_their_buffers(
    state: RenderStateView,
    encoder: EncoderView,
    shape: DrawShape,
    command: CommandView,
)
    requires
        state.programmable_pipeline is Some,
        state.draw(encoder, shape, command) is Ok,
    ensures
        ({
            let pipeline = encoder.resources.programmable_render_pipeline(
                state.programmable_pipeline->0,
            );
            &&& pipeline is Ok
            &&& shape.count > 0
            &&& shape.count % 3 == 0
            &&& shape.first + shape.count <= u32::MAX
            &&& forall|slot: int|
                0 <= slot < pipeline->Ok_0.vertex_buffers.len() ==> slot_ready(
                    state,
                    encoder,
                    shape,
                    slot,
                    4,
                    (#[trigger] pipeline->Ok_0.vertex_buffers[slot]).stride as int,
                )
            &&& indices_ready(state, encoder, shape)
        }),
{
    let desc = encoder.resources.programmable_render_pipeline(
        state.programmable_pipeline->0,
    )->Ok_0;
    lemma_slots(state, encoder, desc.vertex_buffers, shape, desc.vertex_buffers.len());
    lemma_indices(state, encoder, shape);
}

/// Instances are drawn exactly when there are some, their numbers do not run over, and
/// one of them could be drawn.
pub proof fn law_instances_are_drawn_alike(
    state: RenderStateView,
    encoder: EncoderView,
    shape: DrawShape,
    instance_count: u32,
    first_instance: u32,
    command: CommandView,
)
    ensures
        state.draw_instances(encoder, shape, instance_count, first_instance, command) is Ok <==> (
        instance_count >= 1 && first_instance + instance_count <= u32::MAX && state.draw(
            encoder,
            shape,
            command,
        ) is Ok),
        state.draw_instances(encoder, shape, instance_count, first_instance, command) is Ok
            ==> state.draw_instances(encoder, shape, instance_count, first_instance, command)
            == state.draw(encoder, shape, command),
{
}

} // verus!
