//! Which pipelines devices can draw with, and which vertices they take.

use crate::driver::{IrFragmentProgram, MAX_IR_VERTICES};
use crate::ir::pipeline::{PrimitiveTopology, RenderPipelineView, VertexFormat};
use crate::ir::resource::{BufferUsage, TextureUsage};
use crate::ir::table::{SamplerRef, TableView, TextureRef};
use crate::ir::types::Error;
use crate::ir_execute::buffers::UpdateView;
use crate::ir_execute::draw::ActiveView;
use crate::ir_execute::resources::ResourcesView;
use crate::ir_execute::state::PipelineInfo;
use crate::ir_execute::{IrSubmitError, UnsupportedIrFeature};
use vstd::prelude::*;

verus! {

/// A valid pipeline is described exactly when it renders blue, green, red and alpha, draws
/// lists of triangles, and does not combine a texture with vertex colors. Otherwise the
/// first of these that fails is named.
pub proof fn law_valid_pipelines_are_described(slot: usize, pipeline: RenderPipelineView)
    requires
        pipeline.valid(),
    ensures
        ({
            let found = crate::ir_execute::state::spec_describe_pipeline(slot, pipeline);
            let listed = pipeline.topology == PrimitiveTopology::TriangleList;
            &&& found is Ok <==> pipeline.target_format is Bgra8Unorm && listed && !(
            pipeline.fragment is TextureVertexColor)
            &&& !(pipeline.target_format is Bgra8Unorm)
                ==> crate::ir_execute::planning::unsupported(
                found,
                UnsupportedIrFeature::PipelineTargetFormat,
            )
            &&& pipeline.target_format is Bgra8Unorm && !listed
                ==> crate::ir_execute::planning::unsupported(
                found,
                UnsupportedIrFeature::PrimitiveTopology,
            )
            &&& pipeline.target_format is Bgra8Unorm && listed && pipeline.fragment
                is TextureVertexColor ==> crate::ir_execute::planning::unsupported(
                found,
                UnsupportedIrFeature::FragmentProgram,
            )
        }),
{
    lemma_located(pipeline, 0);
    lemma_located(pipeline, 1);
}

/// The attribute that is found at a location is the one that the layout locates there.
proof fn lemma_located(pipeline: RenderPipelineView, location: u32)
    requires
        pipeline.valid(),
    ensures
        forall|format: VertexFormat| #[trigger]
            pipeline.vertex_buffer.locates(location, format) ==> (
            crate::ir::pipeline::spec_find_attribute(
                pipeline.vertex_buffer.attributes,
                location,
            ) matches Some(attribute) && attribute.format == format),
{
    let attributes = pipeline.vertex_buffer.attributes;
    crate::ir_execute::bindings::lemma_found_attribute(attributes, location);
    assert forall|format: VertexFormat| #[trigger]
        pipeline.vertex_buffer.locates(location, format) implies (
    crate::ir::pipeline::spec_find_attribute(attributes, location) matches Some(attribute)
        && attribute.format == format) by {
        let i = choose|i: int|
            0 <= i < attributes.len() && (#[trigger] attributes[i]).location == location
                && attributes[i].format == format;
        assert(crate::ir_execute::bindings::located(attributes, location, attributes[i]));
        let found = crate::ir::pipeline::spec_find_attribute(attributes, location);
        assert(found is Some);
        let j = choose|j: int| 0 <= j < attributes.len() && attributes[j] == found->0;
        assert(attributes[j].location == location);
        if i < j {
            assert(attributes[i].location != attributes[j].location);
        } else if j < i {
            assert(attributes[j].location != attributes[i].location);
        }
    }
}

/// A vertex is taken only where its record lies within the buffer, its position is finite,
/// its texture coordinates are finite, and its color lies between zero and one.
pub proof fn law_taken_vertices_are_proper(
    bytes: Seq<u8>,
    offset: u64,
    index: int,
    info: PipelineInfo,
)
    requires
        crate::ir_execute::decode::spec_decode_vertex(bytes, offset, index, info) is Some,
    ensures
        ({
            let vertex = crate::ir_execute::decode::spec_decode_vertex(
                bytes,
                offset,
                index,
                info,
            )->0;
            &&& index >= 0
            &&& offset + (index + 1) * info.stride <= bytes.len()
            &&& forall|c: int|
                0 <= c < 4 ==> crate::ir::float::finite(#[trigger] vertex.position[c])
            &&& info.state.fragment is VertexColor && info.secondary is Some && !(
            info.secondary->0.format is Unorm8x4) ==> forall|c: int|
                0 <= c < 4 ==> crate::virgl::accepting::proper(#[trigger] vertex.secondary[c])
            &&& !(info.state.fragment is Solid) && !(info.state.fragment is VertexColor)
                && info.secondary is Some ==> forall|c: int|
                0 <= c < 4 ==> crate::ir::float::finite(#[trigger] vertex.secondary[c])
        }),
{
    crate::ir::numbers::law_patterns_denote_numbers(0);
    crate::ir::numbers::law_patterns_denote_numbers(crate::ir::float::ONE_BITS);
    assert((index + 1) * info.stride == index * info.stride + info.stride) by (nonlinear_arith);
    let start = offset + index * info.stride;
    let record = bytes.subrange(start, start + info.stride);
    lemma_completed(
        crate::ir_execute::decode::floats(
            record,
            info.position.offset as int,
            crate::ir_execute::decode::float_count(info.position.format),
        ),
    );
    if info.secondary is Some {
        lemma_completed(
            crate::ir_execute::decode::floats(
                record,
                info.secondary->0.offset as int,
                crate::ir_execute::decode::float_count(info.secondary->0.format),
            ),
        );
    }
}

/// Completing numbers adds only zero and one.
proof fn lemma_completed(values: Seq<u32>)
    ensures
        ({
            let all = crate::ir_execute::decode::completed(values);
            &&& all.len() == 4
            &&& crate::ir_execute::decode::all_finite(values) ==> forall|c: int|
                0 <= c < 4 ==> crate::ir::float::finite(#[trigger] all[c])
            &&& crate::ir_execute::decode::all_in_unit_interval(values) ==> forall|c: int|
                0 <= c < 4 ==> crate::virgl::accepting::proper(#[trigger] all[c])
        }),
{
    crate::ir::numbers::law_patterns_denote_numbers(0);
    crate::ir::numbers::law_patterns_denote_numbers(crate::ir::float::ONE_BITS);
    vstd::arithmetic::power2::lemma_pow2_pos(149);
    let all = crate::ir_execute::decode::completed(values);
    assert forall|c: int| 0 <= c < 4 implies ({
        &&& crate::ir_execute::decode::all_finite(values) ==> crate::ir::float::finite(
            #[trigger] all[c],
        )
        &&& crate::ir_execute::decode::all_in_unit_interval(values)
            ==> crate::virgl::accepting::proper(all[c])
    }) by {
        if c < values.len() {
            assert(all[c] == values[c]);
        }
    }
}

/// A draw is refused for what is not bound: the pipeline, then the vertices, then the
/// uniforms, then the texture and the sampler where the program samples. It is refused for
/// sampling the attachment of its pass.
pub proof fn law_planned_draws_are_complete(pass: ActiveView, table: TableView)
    ensures
        ({
            let found = pass.draw_state(table);
            let info = crate::ir_execute::state::spec_pipeline_info(table, pass.pipeline->0);
            let binding = crate::ir_execute::state::spec_texture_binding(
                table,
                info->Ok_0,
                pass.texture,
                pass.sampler,
            );
            &&& found is Ok <==> pass.pipeline is Some && info is Ok && pass.vertex_buffer is Some
                && pass.uniforms is Some && binding is Ok && pass.texture != Some(pass.attachment)
            &&& pass.pipeline is None ==> names(found, Error::PipelineNotSet)
            &&& pass.pipeline is Some && info is Ok && pass.vertex_buffer is None ==> names(
                found,
                Error::VertexBufferNotSet,
            )
            &&& pass.pipeline is Some && info is Ok && pass.vertex_buffer is Some && pass.uniforms
                is None ==> names(found, Error::UniformsNotSet)
            &&& pass.pipeline is Some && info is Ok && pass.vertex_buffer is Some && pass.uniforms
                is Some && binding is Ok && pass.texture == Some(pass.attachment) ==> names(
                found,
                Error::AttachmentFeedback,
            )
        }),
{
}

/// Whether planning was refused for a reason of recording.
pub open spec fn names<T>(result: Result<T, IrSubmitError>, error: Error) -> bool {
    result matches Err(IrSubmitError::InvalidIr(named)) && named == error
}

/// A program that samples takes a texture and a sampler that are bound, where devices can
/// hold the texture, it can be sampled, and one channel is used as a mask alone. A program
/// that does not sample takes neither, whatever is bound.
pub proof fn law_sampled_textures_suit_their_program(
    table: TableView,
    info: PipelineInfo,
    texture: Option<TextureRef>,
    sampler: Option<SamplerRef>,
)
    ensures
        ({
            let found = crate::ir_execute::state::spec_texture_binding(
                table,
                info,
                texture,
                sampler,
            );
            let desc = table.texture(texture->0)->Ok_0@;
            let sampling = table.sampler(sampler->0)->Ok_0@;
            match info.state.fragment {
                IrFragmentProgram::Solid => found is Ok && found->Ok_0.0 is None && found->Ok_0.1
                    is None,
                IrFragmentProgram::VertexColor => found is Ok && found->Ok_0.0 is None
                    && found->Ok_0.1 is None,
                _ => {
                    &&& found is Ok <==> {
                        &&& texture is Some && sampler is Some
                        &&& table.texture(texture->0) is Ok && table.sampler(sampler->0) is Ok
                        &&& desc.usage.allows(TextureUsage::SAMPLED_BIT)
                        &&& crate::ir_execute::planning::holdable(desc)
                        &&& desc.format is R8Unorm ==> info.state.fragment is TextureAlphaMask
                        &&& sampling.compare is None
                    }
                    &&& texture is None || sampler is None ==> names(
                        found,
                        Error::TextureBindingNotSet,
                    )
                    &&& found matches Ok((Some(spec), Some(state))) ==> spec.slot
                        == texture->0@.index && state.slot == sampler->0@.index
                    &&& found is Ok ==> found->Ok_0.0 is Some && found->Ok_0.1 is Some
                },
            }
        }),
{
}

/// Vertices are drawn exactly when they make whole triangles, their buffer holds vertices
/// and its contents are known, each of them is there and well formed, and the pass has room
/// for them.
pub proof fn law_planned_draws_have_their_vertices(
    pass: ActiveView,
    resources: ResourcesView,
    updates: Seq<UpdateView>,
    table: TableView,
    first_vertex: u32,
    vertex_count: u32,
)
    requires
        pass.draw_state(table) is Ok,
    ensures
        ({
            let state = pass.draw_state(table)->Ok_0;
            let bytes = crate::ir_execute::buffers::contents(
                updates,
                resources,
                state.buffer@.index,
            );
            pass.draw(resources, updates, table, first_vertex, vertex_count) is Ok <==> {
                &&& vertex_count > 0
                &&& vertex_count % 3 == 0
                &&& table.buffer(state.buffer) is Ok
                &&& table.buffer(state.buffer)->Ok_0@.usage.allows(BufferUsage::VERTEX_BIT)
                &&& bytes is Some
                &&& forall|v: int|
                    first_vertex <= v < first_vertex + vertex_count
                        ==> (#[trigger] crate::ir_execute::decode::spec_decode_vertex(
                        bytes->0,
                        state.offset,
                        v,
                        state.info,
                    )) is Some
                &&& pass.submission.vertices.len() + vertex_count <= MAX_IR_VERTICES
            }
        }),
{
    let state = pass.draw_state(table)->Ok_0;
    let bytes = crate::ir_execute::buffers::contents(updates, resources, state.buffer@.index);
    let run = crate::ir_execute::draw::consecutive(first_vertex, vertex_count);
    if bytes is Some {
        if crate::ir_execute::draw::decoded(bytes->0, state.offset, run, state.info) is Some {
            assert forall|v: int|
                first_vertex <= v < first_vertex + vertex_count implies (
            #[trigger] crate::ir_execute::decode::spec_decode_vertex(
                bytes->0,
                state.offset,
                v,
                state.info,
            )) is Some by {
                assert(run[v - first_vertex] == v);
            }
        } else {
            let i = choose|i: int|
                0 <= i < run.len() && crate::ir_execute::decode::spec_decode_vertex(
                    bytes->0,
                    state.offset,
                    #[trigger] run[i],
                    state.info,
                ) is None;
            assert(crate::ir_execute::decode::spec_decode_vertex(
                bytes->0,
                state.offset,
                first_vertex + i,
                state.info,
            ) is None);
        }
    }
}

} // verus!
