//! What commands leave at its default, and how viewports map clip space.

use crate::driver::IrRect;
use vstd::prelude::*;

verus! {

/// One of the four channels that a swizzle names.
pub open spec fn channel_of(swizzle: u32, channel: u32) -> u32 {
    (swizzle >> (3 * channel) as u32) & 7
}

/// Surfaces and views show the first level and layer of blue, green, red and alpha, and
/// views show every channel as itself.
pub proof fn law_surfaces_and_views_show_all_channels(handle: u32, resource_id: u32)
    ensures
        ({
            let surface = crate::virgl::protocol::surface_words(handle, resource_id);
            let view = crate::virgl::protocol::sampler_view_words(handle, resource_id);
            &&& surface[3] == 1 && surface[4] == 0 && surface[5] == 0
            &&& view[3] == 1 && view[4] == 0 && view[5] == 0
            &&& channel_of(view[6], 0) == 0
            &&& channel_of(view[6], 1) == 1
            &&& channel_of(view[6], 2) == 2
            &&& channel_of(view[6], 3) == 3
        }),
{
    assert((0x688u32 >> 0u32) & 7 == 0 && (0x688u32 >> 3u32) & 7 == 1 && (0x688u32 >> 6u32) & 7 == 2
        && (0x688u32 >> 9u32) & 7 == 3) by (bit_vector);
}

/// Views and samplers are bound to the first slot of fragment shaders, one surface and no
/// depth is rendered to, vertices start with the first byte and are not instanced, and
/// scissors and constants take the first slot.
pub proof fn law_bindings_take_the_first_slot(
    handle: u32,
    resource_id: u32,
    stride: u32,
    format: u32,
    stage: u32,
    values: Seq<u32>,
    clip: IrRect,
)
    ensures
        ({
            let view = crate::virgl::protocol::sampler_view_binding_words(handle);
            let sampler = crate::virgl::protocol::sampler_state_binding_words(handle);
            let surfaces = crate::virgl::protocol::framebuffer_words(handle);
            let buffer = crate::virgl::protocol::vertex_buffer_words(stride, resource_id);
            let two = crate::virgl::protocol::two_vertex_elements_words(handle, format);
            let three = crate::virgl::protocol::composition_vertex_elements_words(handle);
            &&& view[1] == 1 && view[2] == 0
            &&& sampler[1] == 1 && sampler[2] == 0
            &&& surfaces[1] == 1 && surfaces[2] == 0
            &&& buffer[2] == 0
            &&& forall|i: int| 0 <= i < 2 ==> #[trigger] is_plain(two, i)
            &&& forall|i: int| 0 <= i < 3 ==> #[trigger] is_plain(three, i)
            &&& crate::virgl::protocol::constant_buffer_words(stage, values)[1] == stage
            &&& crate::virgl::protocol::constant_buffer_words(stage, values)[2] == 0
            &&& crate::virgl::protocol::scissor_words(clip)[1] == 0
        }),
{
}

/// Whether a vertex input is fetched anew for every vertex, from the first buffer.
pub open spec fn is_plain(words: Seq<u32>, input: int) -> bool {
    words[3 + 4 * input] == 0 && words[4 + 4 * input] == 0
}

/// Draws are of one instance of triangles without indices. Copies are between the first
/// levels and layers, one layer deep. Writes fill the resource from its first byte on, in
/// one row.
pub proof fn law_work_is_plain(
    first: u32,
    count: u32,
    destination: u32,
    to: IrRect,
    source: u32,
    from: IrRect,
    data: Seq<u32>,
)
    requires
        4 * data.len() <= u32::MAX,
    ensures
        ({
            let draw = crate::virgl::protocol::draw_vbo_words(first, count);
            let copy = crate::virgl::protocol::resource_copy_words(destination, to, source, from);
            let write = crate::virgl::protocol::inline_write_words(destination, data);
            &&& draw[3] == 4 && draw[4] == 0 && draw[5] == 1
            &&& forall|i: int| 6 <= i <= 10 ==> (#[trigger] draw[i]) == 0
            &&& draw[11] == u32::MAX && draw[12] == 0
            &&& copy[2] == 0 && copy[5] == 0 && copy[7] == 0 && copy[10] == 0 && copy[13] == 1
            &&& forall|i: int| 2 <= i <= 8 ==> (#[trigger] write[i]) == 0
            &&& write[9] == 4 * data.len() && write[10] == 1 && write[11] == 1
        }),
{
}

/// Clears change color, and where they clear a whole surface they name the farthest depth
/// and no stencil. Blending has no logic, lines and points are one pixel wide, and samplers
/// take the first level.
pub proof fn law_states_are_plain(handle: u32, state: u32, color: Seq<u32>, area: IrRect)
    ensures
        ({
            let clear = crate::virgl::protocol::clear_words(color);
            let part = crate::virgl::protocol::clear_surface_words(handle, area, color);
            let blend = crate::virgl::protocol::blend_words(handle, state);
            let raster = crate::virgl::protocol::rasterizer_words(handle, state);
            let sampler = crate::virgl::protocol::sampler_state_words(handle, state);
            &&& clear[1] == 4 && clear[6] == 0 && clear[7] == 0x3ff0_0000 && clear[8] == 0
            &&& part[1] == 8
            &&& blend[2] == 0 && blend[3] == 0
            &&& forall|i: int| 5 <= i < blend.len() ==> (#[trigger] blend[i]) == 0
            &&& raster[3] == 0x3f80_0000 && raster[6] == 0x3f80_0000
            &&& raster[4] == 0 && raster[5] == 0 && raster[7] == 0 && raster[8] == 0 && raster[9]
                == 0
            &&& forall|i: int| 3 <= i < sampler.len() ==> (#[trigger] sampler[i]) == 0
        }),
{
}

/// A viewport maps the left edge of clip space to the first column and its right edge to
/// the width, the upper edge to the first row and the lower edge to the height, and depths
/// to the unit interval: columns and depths are scaled and moved by the same half, rows by
/// opposite halves. A half has the pattern of the whole, one binade lower.
pub proof fn law_viewports_map_clip_space(width: u32, height: u32)
    requires
        width > 0,
        height > 0,
    ensures
        ({
            let words = crate::virgl::protocol::viewport_words(width, height);
            &&& words.len() == 8
            &&& words[1] == 0
            &&& words[2] == words[5]
            &&& words[3] == words[6] | 0x8000_0000
            &&& words[4] == 0x3f00_0000
            &&& words[7] == 0x3f00_0000
            &&& words[2] == (crate::ir::rounding::nearest(width as nat, 1) - 0x80_0000) as u32
            &&& words[6] == (crate::ir::rounding::nearest(height as nat, 1) - 0x80_0000) as u32
        }),
{
    lemma_half(width as nat);
    lemma_half(height as nat);
}

/// Half of a number is one binade lower and has the same significand.
proof fn lemma_half(number: nat)
    requires
        number > 0,
    ensures
        crate::ir::rounding::nearest(number, 2) + 0x80_0000 == crate::ir::rounding::nearest(
            number,
            1,
        ),
{
    crate::ir::numbers::lemma_binade_exists(number);
    let biased = crate::ir::rounding::binade(number, 1);
    let lower = (biased - 1) as nat;
    vstd::arithmetic::power2::lemma_pow2_unfold(biased);
    vstd::arithmetic::power2::lemma_pow2_unfold(biased + 1);
    vstd::arithmetic::power2::lemma_pow2_unfold((biased - 23) as nat);
    assert(crate::ir::rounding::in_binade(number, 2, lower));
    crate::ir::rounding::lemma_binade(number, 2, lower);
    assert(2 * vstd::arithmetic::power2::pow2((lower - 23) as nat) == 1
        * vstd::arithmetic::power2::pow2((biased - 23) as nat));
}

} // verus!
