//! What cannot be planned for the GPU, and what is asked for first.

use crate::ir::command::CommandView;
use crate::ir::pipeline::{FragmentProgram, PrimitiveTopology, TextureSampleMode};
use crate::ir::render_pass::RenderPassView;
use crate::ir::resource::TextureFormat;
use crate::ir::table::{RenderPipelineRef, TableView};
use crate::wgpu_backend::format::{ColorLoadView, DepthLoad, SurfaceFormat};
use crate::wgpu_backend::queue::{PassFrame, PassStateView};
use crate::wgpu_backend::resources::{CacheView, Creation, Interruption};
use crate::wgpu_backend::{Error, UnsupportedFeature};
use vstd::prelude::*;

verus! {

/// Whether planning failed with an error.
pub open spec fn fails_with<T>(result: Result<T, Interruption>, error: Error) -> bool {
    result matches Err(Interruption::Failed(named)) && named == error
}

/// A pass is planned only with one color attachment and without depth that is kept
/// unchanged, and part of a depth attachment is never cleared. Contents that do not matter
/// become transparent black and the farthest depth where the whole attachment is covered,
/// and stay as they are where it is not.
pub proof fn law_refused_passes(
    cache: CacheView,
    table: TableView,
    desc: RenderPassView,
    commands: Seq<CommandView>,
)
    ensures
        ({
            let found = crate::wgpu_backend::queue::spec_encode_render_pass(
                cache,
                table,
                desc,
                commands,
            );
            let frame = crate::wgpu_backend::queue::pass_frame(cache, table, desc);
            let full = frame is Ok && desc.area@.x == 0 && desc.area@.y == 0 && desc.area@.width
                == frame->Ok_0.target.width && desc.area@.height == frame->Ok_0.target.height;
            &&& desc.colors.len() != 1 ==> fails_with(
                found,
                Error::Unsupported(UnsupportedFeature::Pipeline),
            )
            &&& desc.depth matches Some(depth) ==> (depth.read_only ==> fails_with(
                found,
                Error::Unsupported(UnsupportedFeature::Pipeline),
            ))
            &&& frame is Ok && !full ==> (desc.depth matches Some(depth) ==> (depth.load is Clear
                ==> fails_with(found, Error::Unsupported(UnsupportedFeature::PartialDepthClear))))
            &&& found matches Ok(plan) ==> {
                &&& desc.colors[0].load is DontCare ==> plan.color_load == (if full {
                    ColorLoadView::Clear(seq![0u32, 0u32, 0u32, 0u32])
                } else {
                    ColorLoadView::Load
                }) && plan.partial_clear is None
                &&& desc.depth matches Some(depth) ==> (depth.load is DontCare ==> (
                plan.depth_operations->0).0 == (if full {
                    DepthLoad::Clear(crate::ir::float::ONE_BITS)
                } else {
                    DepthLoad::Load
                }))
            }
        }),
{
}

/// A draw is planned exactly when a pipeline, vertices and uniforms are bound, a texture
/// and a sampler are where the pipeline samples, single-channel textures are used as masks
/// alone, and its range can be counted.
pub proof fn law_planned_draws_are_bound(state: PassStateView, first: u32, count: u32)
    ensures
        ({
            let found = state.draw(first, count);
            let bound = state.pipeline is Some && state.vertex_buffer is Some && state.uniforms
                is Some && ((state.pipeline->0).1.requires_texture ==> state.texture is Some
                && state.sampler is Some);
            let masked = (state.pipeline->0).1.requires_texture && state.texture->0.format
                is R8Unorm ==> (state.pipeline->0).1.sample_mode == Some(
                TextureSampleMode::AlphaMask,
            );
            &&& found is Ok <==> bound && masked && first + count <= u32::MAX
            &&& !bound ==> fails_with(found, Error::InvalidState)
            &&& bound && !masked ==> fails_with(
                found,
                Error::Unsupported(UnsupportedFeature::TextureFormat),
            )
            &&& bound && masked && first + count > u32::MAX ==> fails_with(
                found,
                Error::InvalidState,
            )
        }),
{
}

/// An indexed draw is planned exactly when a draw of as many vertices would be and indices
/// are bound.
pub proof fn law_planned_indexed_draws_are_bound(
    state: PassStateView,
    first: u32,
    count: u32,
    base_vertex: i32,
)
    ensures
        state.draw_indexed(first, count, base_vertex) is Ok <==> state.draw(first, count) is Ok
            && state.index_buffer is Some,
        state.index_buffer is None ==> fails_with(
            state.draw_indexed(first, count, base_vertex),
            Error::InvalidState,
        ),
        state.index_buffer is Some && state.draw(first, count) is Err ==> state.draw_indexed(
            first,
            count,
            base_vertex,
        ) == state.draw(first, count),
{
}

/// A pipeline is used only in passes that have depth exactly where it tests depth, and
/// commands that belong to no fixed pass are refused.
pub proof fn law_used_pipelines_suit_the_pass(
    state: PassStateView,
    cache: CacheView,
    table: TableView,
    frame: PassFrame,
    reference: RenderPipelineRef,
    command: CommandView,
)
    ensures
        state.step(cache, table, frame, CommandView::SetPipeline(reference)) is Ok ==> {
            &&& table.render_pipeline(reference) is Ok
            &&& table.render_pipeline(reference)->Ok_0.depth is Some <==> frame.depth is Some
        },
        command is SetProgrammablePipeline || command is SetBindGroup || command is SetPushConstants
            || command is SetVertexBufferSlot || command is SetViewport || command is DrawInstanced
            || command is DrawIndexedInstanced || command is Dispatch || command is WriteBuffer
            || command is WriteTexture || command is BeginRenderPass || command is EndRenderPass
            ==> fails_with(state.step(cache, table, frame, command), Error::InvalidState),
{
}

/// A pipeline that is not there is asked for by what it is made for: the logical pipeline,
/// the format of the attachment, and the sampled format where it samples. It cannot be made
/// for depth alone, for other primitives than lists of triangles, or without a shader.
pub proof fn law_missing_pipelines_are_asked_for(
    cache: CacheView,
    table: TableView,
    reference: RenderPipelineRef,
    target_format: SurfaceFormat,
    sample_format: Option<TextureFormat>,
)
    ensures
        cache.pipeline(table, reference, target_format, sample_format) matches Err(
            Interruption::Create(creation),
        ) ==> {
            &&& table.render_pipeline(reference) is Ok
            &&& !(table.render_pipeline(reference)->Ok_0.target_format is Depth32Float)
            &&& table.render_pipeline(reference)->Ok_0.topology == PrimitiveTopology::TriangleList
            &&& crate::wgpu_backend::shader::generates(table.render_pipeline(reference)->Ok_0)
            &&& creation matches Creation::Pipeline(key) && {
                &&& key.pipeline == reference.id()
                &&& key.target_format == target_format
                &&& match table.render_pipeline(reference)->Ok_0.fragment {
                    FragmentProgram::Solid => key.sample_format is None,
                    FragmentProgram::VertexColor => key.sample_format is None,
                    _ => key.sample_format == sample_format,
                }
                &&& !cache.pipelines.contains(key)
            }
        },
        cache.pipeline(table, reference, target_format, sample_format) matches Err(
            Interruption::Failed(error),
        ) ==> (table.render_pipeline(reference) is Ok ==> error == Error::Unsupported(
            UnsupportedFeature::Pipeline,
        )),
        forall|has_depth: bool|
            (#[trigger] cache.clear_pipeline(target_format, has_depth)) matches Err(interruption)
                ==> (interruption matches Interruption::Create(Creation::ClearPipeline(key))
                && key.target_format == target_format && key.has_depth == has_depth),
{
    if table.render_pipeline(reference) is Ok {
        let desc = table.render_pipeline(reference)->Ok_0;
        let key = crate::wgpu_backend::resources::PipelineKey {
            pipeline: reference.id(),
            target_format,
            sample_format: if desc.fragment.is_textured() {
                sample_format
            } else {
                None
            },
        };
        lemma_absent(cache.pipelines, key);
    }
}

/// A value that is found nowhere is not in a list.
proof fn lemma_absent<T>(list: Seq<T>, value: T)
    ensures
        crate::wgpu_backend::resources::place_of(list, value) >= list.len() ==> !list.contains(
            value,
        ),
    decreases list.len(),
{
    if list.len() > 0 && list[0] != value {
        lemma_absent(list.skip(1), value);
        if list.contains(value) {
            let i = choose|i: int| 0 <= i < list.len() && list[i] == value;
            assert(list.skip(1)[i - 1] == value);
        }
    }
}

} // verus!
