//! What plans keep of commands: passes and what is bound in them, the state of draws,
//! copies and uploads.

use crate::driver::{
    IrAddressMode, IrBlendComponent, IrBlendFactor, IrBlendOp, IrBlendState, IrCullMode, IrRect,
    IrFragmentProgram, IrFrontFace,
};
use crate::ir::command::CommandView;
use crate::ir::pipeline::{FragmentProgram, VertexAttribute};
use crate::ir::render_pass::LoadOp;
use crate::ir::resource::{
    SamplerDescView, TextureDescView, TextureFormat, TextureUsage, TextureWriteView,
};
use crate::ir::table::{RenderPipelineRef, TableView, TextureRef};
use crate::ir::types::PixelRect;
use crate::ir_execute::buffers::UpdateView;
use crate::ir_execute::draw::ActiveView;
use crate::ir_execute::plan::{EventView, ExecutionTarget, PlanView};
use crate::ir_execute::resources::ResourcesView;
use vstd::prelude::*;

verus! {

/// Whether a device rectangle covers the pixels of a pixel rectangle.
pub open spec fn same_area(area: IrRect, rectangle: PixelRect) -> bool {
    &&& area.x == rectangle@.x
    &&& area.y == rectangle@.y
    &&& area.width == rectangle@.width
    &&& area.height == rectangle@.height
}

/// A plan has a pass open exactly where the commands do. The open pass renders into the
/// attachment of its descriptor over its area, clears it to its color where it is
/// cleared, and has bound what the commands bound last since the pass began.
#[verifier::rlimit(60)]
pub proof fn law_open_passes_hold_what_was_bound(
    resources: ResourcesView,
    table: TableView,
    commands: Seq<CommandView>,
)
    ensures
        PlanView::after(resources, table, commands) matches Ok(plan) ==> {
            &&& plan.active is Some == crate::ir::meaning::open_pass(commands) is Some
            &&& plan.active matches Some(pass) ==> {
                let desc = crate::ir::meaning::open_pass(commands)->0;
                &&& pass.attachment == desc.colors[0].target
                &&& same_area(pass.submission.render_area, desc.area)
                &&& pass.submission.clear_color == (match desc.colors[0].load {
                    LoadOp::Clear(color) => Some(color@),
                    LoadOp::Load => None,
                    LoadOp::DontCare => None,
                })
                &&& pass.pipeline == crate::ir::meaning::bound_pipeline(commands)
                &&& pass.vertex_buffer == crate::ir::meaning::bound_vertex_buffer(commands)
                &&& pass.index_buffer == crate::ir::meaning::bound_index_buffer(commands)
                &&& pass.texture == crate::ir::meaning::bound_texture(commands)
                &&& pass.sampler == crate::ir::meaning::bound_sampler(commands)
                &&& pass.uniforms == crate::ir::meaning::bound_uniforms(commands)
                &&& pass.scissor == crate::ir::meaning::set_scissor(commands)
            }
        },
    decreases commands.len(),
{
    if commands.len() > 0 {
        let earlier = commands.drop_last();
        law_open_passes_hold_what_was_bound(resources, table, earlier);
        if PlanView::after(resources, table, commands) is Ok {
            let plan = PlanView::after(resources, table, earlier)->Ok_0;
            match commands.last() {
                CommandView::BeginRenderPass(_) => {},
                CommandView::EndRenderPass => {},
                CommandView::SetPipeline(_) => {},
                CommandView::SetVertexBuffer { .. } => {},
                CommandView::SetIndexBuffer { .. } => {},
                CommandView::SetTexture(_) => {},
                CommandView::SetSampler(_) => {},
                CommandView::SetUniforms(_) => {},
                CommandView::SetScissor(_) => {},
                CommandView::Draw { vertex_count, first_vertex } => {
                    law_draws_use_what_is_bound(
                        plan.active->0,
                        resources,
                        plan.updates,
                        table,
                        first_vertex,
                        vertex_count,
                    );
                },
                CommandView::DrawIndexed { index_count, first_index, base_vertex } => {
                    law_indexed_draws_use_what_is_bound(
                        plan.active->0,
                        resources,
                        plan.updates,
                        table,
                        first_index,
                        index_count,
                        base_vertex,
                    );
                },
                _ => {},
            }
        }
    }
}

/// Where an open pass renders: into the image that stands for its attachment, or into
/// the device texture at the place of the attachment.
pub proof fn law_passes_render_into_their_attachment(
    resources: ResourcesView,
    table: TableView,
    commands: Seq<CommandView>,
)
    ensures
        PlanView::after(resources, table, commands) matches Ok(plan) ==> (
        plan.active matches Some(pass) ==> match pass.target {
            ExecutionTarget::Mapped(image) => resources.image_of(pass.attachment.id()) == Some(
                image,
            ),
            ExecutionTarget::Internal(texture) => resources.image_of(pass.attachment.id()) is None
                && texture.slot == pass.attachment@.index && texture.render_attachment
                && !texture.present,
        }),
    decreases commands.len(),
{
    if commands.len() > 0 {
        law_passes_render_into_their_attachment(resources, table, commands.drop_last());
    }
}

/// What a pass is after one more draw of some vertices: everything is as before, but
/// for the vertices behind the earlier ones and a draw of them with the bound state,
/// over the scissor or else the render area.
pub open spec fn draws_more(
    pass: ActiveView,
    next: ActiveView,
    vertex_count: u32,
) -> bool {
    let before = pass.submission;
    let after = next.submission;
    let draw = after.draws.last();
    &&& after.vertices.len() == before.vertices.len() + vertex_count
    &&& after.vertices.take(before.vertices.len() as int) == before.vertices
    &&& after.draws.len() == before.draws.len() + 1
    &&& after.draws.take(before.draws.len() as int) == before.draws
    &&& draw.start_vertex == before.vertices.len()
    &&& draw.vertex_count == vertex_count
    &&& draw.pipeline.slot == pass.pipeline->0@.index
    &&& draw.uniforms.transform == pass.uniforms->0.transform@
    &&& draw.uniforms.color == pass.uniforms->0.color@
    &&& draw.texture matches Some(texture) ==> texture.slot == pass.texture->0@.index
    &&& draw.sampler matches Some(sampler) ==> sampler.slot == pass.sampler->0@.index
    &&& match pass.scissor {
        Some(scissor) => same_area(draw.scissor, scissor),
        None => draw.scissor == before.render_area,
    }
    &&& after.clear_color == before.clear_color
    &&& after.render_area == before.render_area
    &&& after.texture_uploads == before.texture_uploads
    &&& next == (ActiveView { submission: next.submission, ..pass })
}

/// A draw of consecutive vertices appends them, and a draw with the bound state.
pub proof fn law_draws_use_what_is_bound(
    pass: ActiveView,
    resources: ResourcesView,
    updates: Seq<UpdateView>,
    table: TableView,
    first_vertex: u32,
    vertex_count: u32,
)
    ensures
        pass.draw(resources, updates, table, first_vertex, vertex_count) matches Ok(next) ==> {
            &&& draws_more(pass, next, vertex_count)
            &&& pass.draw_state(table) matches Ok(state) && {
                &&& pass.vertex_buffer == Some((state.buffer, state.offset))
                &&& crate::ir_execute::state::spec_pipeline_info(table, pass.pipeline->0)
                    == Ok::<_, crate::ir_execute::IrSubmitError>(state.info)
                &&& crate::ir_execute::draw::spec_decode_vertices(
                    resources,
                    updates,
                    table,
                    state,
                    first_vertex,
                    vertex_count,
                ) == Ok::<_, crate::ir_execute::IrSubmitError>(
                    next.submission.vertices.skip(pass.submission.vertices.len() as int),
                )
                &&& next.submission.draws.last().pipeline == state.info.state
            }
        },
{
    if pass.draw(resources, updates, table, first_vertex, vertex_count) is Ok {
        let next = pass.draw(resources, updates, table, first_vertex, vertex_count)->Ok_0;
        let state = pass.draw_state(table)->Ok_0;
        let vertices = crate::ir_execute::draw::spec_decode_vertices(
            resources,
            updates,
            table,
            state,
            first_vertex,
            vertex_count,
        )->Ok_0;
        let at = pass.submission.vertices.len() as int;
        assert(next.submission.vertices.skip(at) =~= vertices);
        assert(next.submission.vertices.take(at) =~= pass.submission.vertices);
        assert(next.submission.draws.take(pass.submission.draws.len() as int)
            =~= pass.submission.draws);
    }
}

/// A draw of indexed vertices appends them, and a draw with the bound state.
pub proof fn law_indexed_draws_use_what_is_bound(
    pass: ActiveView,
    resources: ResourcesView,
    updates: Seq<UpdateView>,
    table: TableView,
    first_index: u32,
    index_count: u32,
    base_vertex: i32,
)
    ensures
        pass.draw_indexed(
            resources,
            updates,
            table,
            first_index,
            index_count,
            base_vertex,
        ) matches Ok(next) ==> {
            &&& draws_more(pass, next, index_count)
            &&& pass.draw_state(table) matches Ok(state) && {
                &&& pass.vertex_buffer == Some((state.buffer, state.offset))
                &&& crate::ir_execute::state::spec_pipeline_info(table, pass.pipeline->0)
                    == Ok::<_, crate::ir_execute::IrSubmitError>(state.info)
                &&& pass.index_buffer is Some
                &&& crate::ir_execute::draw::spec_decode_indexed(
                    resources,
                    updates,
                    table,
                    state,
                    pass.index_buffer->0,
                    first_index,
                    index_count,
                    base_vertex,
                ) == Ok::<_, crate::ir_execute::IrSubmitError>(
                    next.submission.vertices.skip(pass.submission.vertices.len() as int),
                )
                &&& next.submission.draws.last().pipeline == state.info.state
            }
        },
{
    if pass.draw_indexed(resources, updates, table, first_index, index_count, base_vertex) is Ok {
        let next = pass.draw_indexed(
            resources,
            updates,
            table,
            first_index,
            index_count,
            base_vertex,
        )->Ok_0;
        let state = pass.draw_state(table)->Ok_0;
        let vertices = crate::ir_execute::draw::spec_decode_indexed(
            resources,
            updates,
            table,
            state,
            pass.index_buffer->0,
            first_index,
            index_count,
            base_vertex,
        )->Ok_0;
        let at = pass.submission.vertices.len() as int;
        assert(next.submission.vertices.skip(at) =~= vertices);
        assert(next.submission.vertices.take(at) =~= pass.submission.vertices);
        assert(next.submission.draws.take(pass.submission.draws.len() as int)
            =~= pass.submission.draws);
    }
}

/// What the device takes from a texture for one component.
pub open spec fn device_shaded(
    program: IrFragmentProgram,
    vertex: Seq<int>,
    sample: Seq<int>,
    draw: Seq<int>,
) -> Seq<int> {
    match program {
        IrFragmentProgram::Solid => draw,
        IrFragmentProgram::VertexColor => Seq::new(4, |c: int| vertex[c] * draw[c]),
        IrFragmentProgram::TextureRgba => Seq::new(4, |c: int| sample[c] * draw[c]),
        IrFragmentProgram::TextureRgbIgnoreAlpha => seq![
            sample[0] * draw[0],
            sample[1] * draw[1],
            sample[2] * draw[2],
            draw[3],
        ],
        IrFragmentProgram::TextureAlphaMask => seq![
            draw[0],
            draw[1],
            draw[2],
            sample[3] * draw[3],
        ],
    }
}

/// A device program computes the color of the fragment program that it stands for, with
/// the alpha of a sample as coverage. The programs without one combine a texture with
/// vertex colors.
pub proof fn law_device_programs_compute_the_same_color(
    fragment: FragmentProgram,
    vertex: Seq<int>,
    sample: Seq<int>,
    draw: Seq<int>,
)
    requires
        vertex.len() == 4,
        sample.len() == 4,
        draw.len() == 4,
    ensures
        crate::ir_execute::state::spec_fragment_program(fragment) is None <==> fragment
            is TextureVertexColor,
        crate::ir_execute::state::spec_fragment_program(fragment) matches Some(program)
            ==> device_shaded(program, vertex, sample, draw) == crate::ir::meaning::shaded(
            fragment,
            vertex,
            sample,
            sample[3],
            draw,
        ) && program.samples() == fragment.is_textured(),
{
    if let Some(program) = crate::ir_execute::state::spec_fragment_program(fragment) {
        let color = crate::ir::meaning::shaded(fragment, vertex, sample, sample[3], draw);
        assert(device_shaded(program, vertex, sample, draw) =~= color);
    }
}

/// The number that a device blend factor stands for.
pub open spec fn device_factor(
    factor: IrBlendFactor,
    source_alpha: int,
    destination_alpha: int,
) -> int {
    match factor {
        IrBlendFactor::Zero => 0,
        IrBlendFactor::One => 1,
        IrBlendFactor::SourceAlpha => source_alpha,
        IrBlendFactor::OneMinusSourceAlpha => 1 - source_alpha,
        IrBlendFactor::DestinationAlpha => destination_alpha,
        IrBlendFactor::OneMinusDestinationAlpha => 1 - destination_alpha,
    }
}

/// One component of a color that a device blended.
pub open spec fn device_blended_component(
    blend: IrBlendComponent,
    source: int,
    destination: int,
    source_alpha: int,
    destination_alpha: int,
) -> int {
    let s = source * device_factor(blend.source_factor, source_alpha, destination_alpha);
    let d = destination * device_factor(blend.destination_factor, source_alpha, destination_alpha);
    match blend.operation {
        IrBlendOp::Add => s + d,
        IrBlendOp::Subtract => s - d,
        IrBlendOp::ReverseSubtract => d - s,
    }
}

/// The color that device blending leaves.
pub open spec fn device_blended(
    blend: IrBlendState,
    source: Seq<int>,
    destination: Seq<int>,
) -> Seq<int> {
    Seq::new(
        4,
        |c: int|
            device_blended_component(
                if c == 3 {
                    blend.alpha
                } else {
                    blend.color
                },
                source[c],
                destination[c],
                source[3],
                destination[3],
            ),
    )
}

/// Whether a device draws a triangle whose vertices run clockwise, or counter-clockwise.
pub open spec fn device_keeps(
    cull_mode: IrCullMode,
    front_face: IrFrontFace,
    clockwise: bool,
) -> bool {
    let front = clockwise == (front_face is Clockwise);
    match cull_mode {
        IrCullMode::Disabled => true,
        IrCullMode::Front => !front,
        IrCullMode::Back => front,
    }
}

/// Whether an attribute of a layout is the one at a location.
pub open spec fn located(
    attributes: Seq<VertexAttribute>,
    location: u32,
    attribute: VertexAttribute,
) -> bool {
    attribute.location == location && attributes.contains(attribute)
}

/// A search finds an attribute at the location, wherever there is one.
pub proof fn lemma_found_attribute(attributes: Seq<VertexAttribute>, location: u32)
    ensures
        match crate::ir::pipeline::spec_find_attribute(attributes, location) {
            Some(attribute) => located(attributes, location, attribute),
            None => forall|attribute: VertexAttribute|
                !(#[trigger] located(attributes, location, attribute)),
        },
    decreases attributes.len(),
{
    if attributes.len() > 0 && attributes[0].location != location {
        let rest = attributes.skip(1);
        lemma_found_attribute(rest, location);
        match crate::ir::pipeline::spec_find_attribute(attributes, location) {
            Some(attribute) => {
                let i = choose|i: int| 0 <= i < rest.len() && rest[i] == attribute;
                assert(attributes[i + 1] == attribute);
            },
            None => {
                assert forall|attribute: VertexAttribute| !(#[trigger] located(
                    attributes,
                    location,
                    attribute,
                )) by {
                    if located(attributes, location, attribute) {
                        let i = choose|i: int|
                            0 <= i < attributes.len() && attributes[i] == attribute;
                        assert(rest[i - 1] == attribute);
                        assert(located(rest, location, attribute));
                    }
                }
            },
        }
    }
}

/// Draws with a pipeline read its vertex layout, with the position at location zero and
/// the second input at location one, and color, blend and cull as it says.
pub proof fn law_pipelines_keep_their_state(
    table: TableView,
    reference: RenderPipelineRef,
    vertex: Seq<int>,
    sample: Seq<int>,
    draw: Seq<int>,
    destination: Seq<int>,
    clockwise: bool,
)
    requires
        vertex.len() == 4,
        sample.len() == 4,
        draw.len() == 4,
    ensures
        crate::ir_execute::state::spec_pipeline_info(table, reference) matches Ok(info) ==> {
            &&& table.render_pipeline(reference) matches Ok(pipeline) && {
                let attributes = pipeline.vertex_buffer.attributes;
                &&& info.state.slot == reference@.index
                &&& info.stride == pipeline.vertex_buffer.stride
                &&& located(attributes, 0, info.position)
                &&& match info.secondary {
                    Some(attribute) => located(attributes, 1, attribute),
                    None => forall|attribute: VertexAttribute|
                        !(#[trigger] located(attributes, 1, attribute)),
                }
                &&& device_shaded(info.state.fragment, vertex, sample, draw)
                    == crate::ir::meaning::shaded(
                    pipeline.fragment,
                    vertex,
                    sample,
                    sample[3],
                    draw,
                )
                &&& device_blended(info.state.blend, sample, destination)
                    == crate::ir::meaning::blended(pipeline.blend, sample, destination)
                &&& device_keeps(info.state.cull_mode, info.state.front_face, clockwise)
                    == crate::ir::meaning::keeps(pipeline.raster, clockwise)
            }
        },
{
    if crate::ir_execute::state::spec_pipeline_info(table, reference) is Ok {
        let info = crate::ir_execute::state::spec_pipeline_info(table, reference)->Ok_0;
        let pipeline = table.render_pipeline(reference)->Ok_0;
        lemma_found_attribute(pipeline.vertex_buffer.attributes, 0);
        lemma_found_attribute(pipeline.vertex_buffer.attributes, 1);
        law_device_programs_compute_the_same_color(pipeline.fragment, vertex, sample, draw);
        assert(device_blended(info.state.blend, sample, destination)
            =~= crate::ir::meaning::blended(pipeline.blend, sample, destination));
    }
}

/// The texel that a device addresses along an axis.
pub open spec fn device_addressed(mode: IrAddressMode, coordinate: int, length: int) -> int {
    match mode {
        IrAddressMode::ClampToEdge => if coordinate < 0 {
            0
        } else if coordinate >= length {
            length - 1
        } else {
            coordinate
        },
        IrAddressMode::Repeat => coordinate % length,
        IrAddressMode::MirrorRepeat => if coordinate % (2 * length) < length {
            coordinate % (2 * length)
        } else {
            2 * length - 1 - coordinate % (2 * length)
        },
    }
}

/// A device samples as the sampler says: filters, and addressing along each axis.
pub proof fn law_samplers_keep_their_state(
    desc: SamplerDescView,
    slot: usize,
    coordinate: int,
    length: int,
)
    ensures
        crate::ir_execute::state::spec_sampler_state(desc, slot) matches Ok(state) ==> {
            &&& desc.compare is None
            &&& state.slot == slot
            &&& (state.min_filter is Linear) == crate::ir::meaning::interpolates(desc.min_filter)
            &&& (state.mag_filter is Linear) == crate::ir::meaning::interpolates(desc.mag_filter)
            &&& device_addressed(state.address_u, coordinate, length)
                == crate::ir::meaning::addressed(desc.address_u, coordinate, length)
            &&& device_addressed(state.address_v, coordinate, length)
                == crate::ir::meaning::addressed(desc.address_v, coordinate, length)
        },
        desc.compare is None ==> crate::ir_execute::state::spec_sampler_state(desc, slot) is Ok,
{
}

/// A device texture has the size of its texture, and a usage exactly where that has it.
/// It stores one layer of a linear color format.
pub proof fn law_device_textures_keep_their_description(slot: usize, desc: TextureDescView)
    ensures
        crate::ir_execute::state::spec_texture_spec(slot, desc) matches Ok(spec) ==> {
            &&& spec.slot == slot
            &&& spec.width == desc.extent.width
            &&& spec.height == desc.extent.height
            &&& spec.sampled == desc.usage.allows(TextureUsage::SAMPLED_BIT)
            &&& spec.render_attachment == desc.usage.allows(TextureUsage::RENDER_ATTACHMENT_BIT)
            &&& spec.copy_destination == desc.usage.allows(TextureUsage::COPY_DST_BIT)
            &&& spec.present == desc.usage.allows(TextureUsage::PRESENT_BIT)
            &&& desc.array_layer_count == 1
            &&& (desc.format is Bgra8Unorm) == (spec.format is Bgra8)
            &&& (desc.format is Rgba8Unorm) == (spec.format is Rgba8)
            &&& (desc.format is R8Unorm) == (spec.format is R8)
        },
        crate::ir_execute::state::spec_texture_spec(slot, desc) is Ok <==> desc.array_layer_count
            == 1 && (desc.format is Bgra8Unorm || desc.format is Rgba8Unorm || desc.format
            is R8Unorm),
{
}

/// A copy becomes one step between the same textures and the same regions.
pub proof fn law_copies_keep_their_regions(
    plan: PlanView,
    resources: ResourcesView,
    table: TableView,
    source: TextureRef,
    source_rect: PixelRect,
    destination: TextureRef,
    destination_rect: PixelRect,
)
    ensures
        plan.step(
            resources,
            table,
            CommandView::CopyTextureToTexture { source, source_rect, destination, destination_rect },
        ) matches Ok(next) ==> {
            &&& next.events.len() == plan.events.len() + 1
            &&& next.events.last() matches EventView::Copy(copy) && {
                &&& copy.source.slot == source@.index
                &&& copy.destination.slot == destination@.index
                &&& same_area(copy.source_rect, source_rect)
                &&& same_area(copy.destination_rect, destination_rect)
            }
            &&& next.updates == plan.updates
            &&& next.active == plan.active
        },
{
}

/// One channel of an uploaded texel, blue, green, red, alpha from zero on. Coverage is
/// alpha over black.
pub open spec fn uploaded_channel(
    format: TextureFormat,
    write: TextureWriteView,
    x: int,
    y: int,
    channel: int,
) -> int {
    let row = y * write.bytes_per_row;
    match format {
        TextureFormat::Bgra8Unorm => write.data[row + 4 * x + channel] as int,
        TextureFormat::Rgba8Unorm => write.data[row + 4 * x + (if channel < 3 {
            2 - channel
        } else {
            3
        })] as int,
        _ => if channel < 3 {
            0
        } else {
            write.data[row + x] as int
        },
    }
}

/// A texture upload becomes one step into the same texture and region, with every texel
/// in blue, green, red, alpha order and rows without padding.
pub proof fn law_uploads_keep_their_texels(
    plan: PlanView,
    resources: ResourcesView,
    table: TableView,
    texture: TextureRef,
    write: TextureWriteView,
    x: nat,
    y: nat,
    channel: nat,
)
    requires
        x < write.destination@.width,
        y < write.destination@.height,
        channel < 4,
    ensures
        plan.step(
            resources,
            table,
            CommandView::WriteTexture { texture, write },
        ) matches Ok(next) ==> {
            let width = write.destination@.width;
            &&& next.events.len() == plan.events.len() + 1
            &&& next.events.last() matches EventView::Upload(spec, upload) && {
                &&& spec.slot == texture@.index
                &&& upload.texture == spec
                &&& same_area(upload.destination, write.destination)
                &&& upload.pixels.len() == 4 * width * write.destination@.height
                &&& upload.pixels[4 * (y * width + x) + channel] == uploaded_channel(
                    table.texture(texture)->Ok_0@.format,
                    write,
                    x as int,
                    y as int,
                    channel as int,
                )
            }
            &&& next.updates == plan.updates
        },
{
    let command = CommandView::WriteTexture { texture, write };
    if plan.step(resources, table, command) is Ok {
        let next = plan.step(resources, table, command)->Ok_0;
        let desc = table.texture(texture)->Ok_0;
        law_device_textures_keep_their_description(texture@.index, desc@);
        let spec = crate::ir_execute::state::spec_texture_spec(texture@.index, desc@)->Ok_0;
        crate::ir_execute::upload::law_converted_pixels(
            write.data,
            write.bytes_per_row as nat,
            spec.format,
            write.destination@.width as nat,
            write.destination@.height as nat,
            x,
            y,
            channel,
        );
    }
}

/// A finished pass becomes one step with everything that was drawn in it.
pub proof fn law_finished_passes_are_steps(
    plan: PlanView,
    resources: ResourcesView,
    table: TableView,
)
    ensures
        plan.step(resources, table, CommandView::EndRenderPass) matches Ok(next) ==> {
            &&& plan.active matches Some(pass) && next.events == plan.events.push(
                EventView::Pass(pass.target, pass.submission),
            ) && pass.submission.draws.len() != 0
            &&& next.active is None
            &&& next.updates == plan.updates
        },
{
}

} // verus!
