//! What descriptors and recorded draws keep to.

use crate::ir::access::ResourcePart;
use crate::ir::command::{CommandView, EncoderView};
use crate::ir::pipeline::{FragmentProgram, VertexAttribute, VertexBufferLayoutView};
use crate::ir::render_pass_encoder::{DrawShape, RenderStateView};
use crate::ir::resource::{TextureDescView, TextureUsage};
use crate::ir::types::ExtentView;
use vstd::prelude::*;

verus! {

/// A texture can have a number of levels exactly when no level follows one of a single
/// pixel, and further levels are of color that is not presented. It can have several layers
/// exactly when it is not presented.
pub proof fn law_levels_and_layers_fit(desc: TextureDescView, count: u32)
    requires
        desc.extent.width > 0,
        desc.extent.height > 0,
    ensures
        desc.mip_levels_fit(count) <==> {
            &&& count >= 1
            &&& forall|level: nat|
                level + 1 < count ==> (#[trigger] desc.mip_extent(level)) != (ExtentView {
                    width: 1,
                    height: 1,
                })
            &&& count > 1 ==> !(desc.format is Depth32Float) && !desc.usage.allows(
                TextureUsage::PRESENT_BIT,
            )
        },
        desc.array_layers_fit(count) <==> count == 1 || (count > 1 && !desc.usage.allows(
            TextureUsage::PRESENT_BIT,
        )),
{
    assert forall|level: nat|
        (#[trigger] desc.mip_extent(level)) == (ExtentView { width: 1, height: 1 }) <==> level + 1
            >= crate::ir::resource::complete_mip_levels(desc.extent) by {
        crate::ir::bounds::law_complete_chains_end_at_one_pixel(desc, level);
    }
    let complete = crate::ir::resource::complete_mip_levels(desc.extent);
    vstd::arithmetic::logarithm::lemma_log_nonnegative(
        2,
        crate::ir::resource::longest_side(desc.extent) as int,
    );
    if count > complete {
        let last = (complete - 1) as nat;
        assert(desc.mip_extent(last) == (ExtentView { width: 1, height: 1 }));
    }
}

/// Whether an attribute at a location has some number of floating-point components.
pub open spec fn holds_numbers(
    layout: VertexBufferLayoutView,
    location: u32,
    least: int,
    most: int,
) -> bool {
    exists|i: int|
        0 <= i < layout.attributes.len() && #[trigger] numbers_at(
            layout.attributes[i],
            location,
            least,
            most,
        )
}

/// Whether an attribute is at a location and has some number of components.
pub open spec fn numbers_at(attribute: VertexAttribute, location: u32, least: int, most: int) -> bool {
    &&& attribute.location == location
    &&& !(attribute.format is Unorm8x4)
    &&& !(attribute.format is Sint32)
    &&& least <= crate::ir_execute::vertices::component_count(attribute.format) <= most
}

/// Whether an attribute at a location holds normalized bytes.
pub open spec fn holds_bytes(layout: VertexBufferLayoutView, location: u32) -> bool {
    exists|i: int|
        0 <= i < layout.attributes.len() && (#[trigger] layout.attributes[i]).location == location
            && layout.attributes[i].format is Unorm8x4
}

/// A layout feeds a program exactly when it has two to four numbers of position at location
/// zero, the color of three or four numbers or of bytes at location one where the program
/// reads colors, and two coordinates at the next location where it samples.
pub proof fn law_layouts_feed_their_program(
    layout: VertexBufferLayoutView,
    fragment: FragmentProgram,
)
    ensures
        crate::ir::pipeline::layout_feeds(layout, fragment) <==> {
            let colored = holds_numbers(layout, 1, 3, 4) || holds_bytes(layout, 1);
            &&& holds_numbers(layout, 0, 2, 4)
            &&& match fragment {
                FragmentProgram::Solid => true,
                FragmentProgram::VertexColor => colored,
                FragmentProgram::Texture(_) => holds_numbers(layout, 1, 2, 2),
                FragmentProgram::TextureVertexColor(_) => colored && holds_numbers(layout, 2, 2, 2),
            }
        },
{
    lemma_numbers(layout, 0);
    lemma_numbers(layout, 1);
    lemma_numbers(layout, 2);
}

proof fn lemma_numbers(layout: VertexBufferLayoutView, location: u32)
    ensures
        ({
            let two = layout.locates(location, crate::ir::pipeline::VertexFormat::Float32x2);
            let three = layout.locates(location, crate::ir::pipeline::VertexFormat::Float32x3);
            let four = layout.locates(location, crate::ir::pipeline::VertexFormat::Float32x4);
            &&& holds_numbers(layout, location, 2, 4) <==> two || three || four
            &&& holds_numbers(layout, location, 3, 4) <==> three || four
            &&& holds_numbers(layout, location, 2, 2) <==> two
            &&& holds_bytes(layout, location) <==> layout.locates(
                location,
                crate::ir::pipeline::VertexFormat::Unorm8x4,
            )
        }),
{
    let list = layout.attributes;
    assert forall|i: int| 0 <= i < list.len() implies ({
        let attribute = #[trigger] list[i];
        &&& numbers_at(attribute, location, 2, 4) <==> attribute.location == location && (
        attribute.format is Float32x2 || attribute.format is Float32x3 || attribute.format
            is Float32x4)
        &&& numbers_at(attribute, location, 3, 4) <==> attribute.location == location && (
        attribute.format is Float32x3 || attribute.format is Float32x4)
        &&& numbers_at(attribute, location, 2, 2) <==> attribute.location == location
            && attribute.format is Float32x2
    }) by {}
}

/// A recorded draw with a fixed pipeline uses its vertices, its indices where it has some,
/// and every level of its texture where it samples. What was used before stays used, and
/// the draw writes nothing that awaits a barrier.
pub proof fn law_fixed_draws_use_their_parts(
    encoder: EncoderView,
    state: RenderStateView,
    shape: DrawShape,
    command: CommandView,
    level: u32,
)
    requires
        state.programmable_pipeline is None,
        state.draw(encoder, shape, command) is Ok,
    ensures
        ({
            let (next, after) = state.draw(encoder, shape, command)->Ok_0;
            let desc = encoder.resources.render_pipeline(state.pipeline->0)->Ok_0;
            let vertices = ResourcePart::Buffer((state.vertex_buffers[0]->0).0.id());
            &&& after.used.contains(vertices)
            &&& !next.access.announced.dom().contains(vertices)
            &&& shape.indexed ==> {
                let indices = ResourcePart::Buffer((state.index_buffer->0).0.id());
                after.used.contains(indices) && !next.access.announced.dom().contains(indices)
            }
            &&& (desc.fragment is Texture || desc.fragment is TextureVertexColor)
                && encoder.resources.texture(state.texture->0) is Ok && level
                < encoder.resources.texture(state.texture->0)->Ok_0@.mip_level_count ==> {
                let sampled = ResourcePart::TextureMip(state.texture->0.id(), level);
                after.used.contains(sampled) && !next.access.announced.dom().contains(sampled)
            }
            &&& forall|part: ResourcePart|
                state.used.contains(part) ==> #[trigger] after.used.contains(part)
            &&& next.access.pending == encoder.access.pending
        }),
{
    let (next, after) = state.draw(encoder, shape, command)->Ok_0;
    let desc = encoder.resources.render_pipeline(state.pipeline->0)->Ok_0;
    let textured = desc.fragment.is_textured();
    let parts = state.fixed_parts(encoder.resources, textured, shape.indexed);
    let sampled = if textured {
        state.sampled_parts(encoder.resources)
    } else {
        Seq::empty()
    };
    let vertices = ResourcePart::Buffer((state.vertex_buffers[0]->0).0.id());
    assert(parts[sampled.len() as int] == vertices);
    assert(parts.to_set().contains(vertices));
    if shape.indexed {
        let indices = ResourcePart::Buffer((state.index_buffer->0).0.id());
        assert(parts[sampled.len() as int + 1] == indices);
        assert(parts.to_set().contains(indices));
    }
    if textured && encoder.resources.texture(state.texture->0) is Ok && level
        < encoder.resources.texture(state.texture->0)->Ok_0@.mip_level_count {
        let part = ResourcePart::TextureMip(state.texture->0.id(), level);
        assert(sampled[level as int] == part);
        assert(parts[level as int] == part);
        assert(parts.to_set().contains(part));
    }
    assert(next.access.pending =~= encoder.access.pending);
}

/// A module has a known header exactly when it starts with the number of the format, in its
/// own byte order, a version from one point zero to one point six, a bound of identifiers
/// below two to the power of 22, and no schema.
pub proof fn law_headers_are_known(words: Seq<u32>)
    ensures
        crate::ir::shader::spirv_header_valid(words) <==> {
            &&& words.len() >= 5
            &&& words[0] == 0x0723_0203
            &&& exists|minor: u32| 0 <= minor <= 6 && words[1] == 0x1_0000 + #[trigger] (minor * 0x100)
            &&& 0 < words[3] < 0x40_0000
            &&& words[4] == 0
        },
{
    if words.len() >= 5 && 0x1_0000 <= words[1] <= 0x1_0600 && words[1] % 0x100 == 0 {
        let minor = ((words[1] - 0x1_0000) / 0x100) as u32;
        assert(words[1] == 0x1_0000 + minor * 0x100);
    }
}

} // verus!
