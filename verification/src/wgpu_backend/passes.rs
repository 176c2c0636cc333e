//! What planned GPU work keeps of commands.

use crate::ir::command::CommandView;
use crate::ir::pipeline::FragmentProgram;
use crate::ir::render_pass::{DepthLoadOp, LoadOp, RenderPassView};
use crate::ir::resource::{TextureFormat, TextureUsage};
use crate::ir::table::{BufferRef, RenderPipelineRef, SamplerRef, TableView, TextureRef};
use crate::wgpu_backend::format::{ColorLoadView, DepthLoad};
use crate::wgpu_backend::queue::{
    EncoderOperationView, PassFrame, PassOperation, PassStateView, SubmissionPlanView,
};
use crate::wgpu_backend::resources::{CacheView, TexturePlace};
use vstd::prelude::*;

verus! {

/// The pipeline that the operations of a pass use last.
pub open spec fn pipeline_in_use(operations: Seq<PassOperation>) -> Option<usize>
    decreases operations.len(),
{
    if operations.len() == 0 {
        None
    } else {
        match operations.last() {
            PassOperation::SetPipeline(place) => Some(place),
            _ => pipeline_in_use(operations.drop_last()),
        }
    }
}

/// What a state has bound after the commands of a pass: the GPU objects of what the
/// commands bound last, and the pipeline that the operations use.
pub open spec fn holds_bound(
    state: PassStateView,
    cache: CacheView,
    table: TableView,
    frame: PassFrame,
    commands: Seq<CommandView>,
) -> bool {
    &&& match crate::ir::meaning::bound_vertex_buffer(commands) {
        None => state.vertex_buffer is None,
        Some((buffer, offset)) => state.vertex_buffer matches Some(bound) && bound.1 == offset
            && cache.buffer(table, buffer) == Ok::<_, crate::wgpu_backend::resources::Interruption>(
            bound.0,
        ),
    }
    &&& match crate::ir::meaning::bound_index_buffer(commands) {
        None => state.index_buffer is None,
        Some((buffer, offset, format)) => state.index_buffer matches Some(bound) && bound.1
            == offset && bound.2 == format && cache.buffer(table, buffer) == Ok::<
            _,
            crate::wgpu_backend::resources::Interruption,
        >(bound.0),
    }
    &&& match crate::ir::meaning::bound_texture(commands) {
        None => state.texture is None,
        Some(reference) => state.texture matches Some(bound) && cache.texture(table, reference)
            == Ok::<_, crate::wgpu_backend::resources::Interruption>(bound),
    }
    &&& match crate::ir::meaning::bound_sampler(commands) {
        None => state.sampler is None,
        Some(reference) => state.sampler matches Some(bound) && cache.sampler(table, reference)
            == Ok::<_, crate::wgpu_backend::resources::Interruption>(bound),
    }
    &&& state.uniforms == crate::ir::meaning::bound_uniforms(commands)
    &&& match crate::ir::meaning::bound_pipeline(commands) {
        None => state.pipeline is None,
        Some(reference) => state.pipeline matches Some(bound) && bound.0 == reference
            && pipeline_in_use(state.operations) == Some(bound.1.place) && bound.1.has_depth
            == frame.depth is Some && (bound.1.requires_texture ==> cache.pipeline(
            table,
            reference,
            frame.target.raw_format,
            match state.texture {
                Some(texture) => Some(texture.format),
                None => None,
            },
        ) == Ok::<_, crate::wgpu_backend::resources::Interruption>(bound.1)),
    }
}

/// Whether commands stay within a pass.
pub open spec fn inside_pass(commands: Seq<CommandView>) -> bool {
    forall|i: int| 0 <= i < commands.len() ==> !((#[trigger] commands[i]) is BeginRenderPass)
}

/// After every command of a pass, the GPU objects of what was bound last are bound.
#[verifier::rlimit(60)]
pub proof fn law_passes_hold_what_was_bound(
    cache: CacheView,
    table: TableView,
    frame: PassFrame,
    commands: Seq<CommandView>,
)
    ensures
        PassStateView::after(cache, table, frame, commands) matches Ok(state) ==> holds_bound(
            state,
            cache,
            table,
            frame,
            commands,
        ) && inside_pass(commands),
    decreases commands.len(),
{
    if commands.len() > 0 {
        let earlier = commands.drop_last();
        law_passes_hold_what_was_bound(cache, table, frame, earlier);
        if PassStateView::after(cache, table, frame, commands) is Ok {
            let before = PassStateView::after(cache, table, frame, earlier)->Ok_0;
            let state = PassStateView::after(cache, table, frame, commands)->Ok_0;
            assert forall|i: int| 0 <= i < commands.len() implies !((#[trigger] commands[i])
                is BeginRenderPass) by {
                if i < earlier.len() {
                    assert(earlier[i] == commands[i]);
                }
            }
            assert(state.operations.len() > before.operations.len()
                ==> state.operations.drop_last() =~= before.operations);
            match commands.last() {
                CommandView::SetPipeline(_) => {},
                CommandView::SetVertexBuffer { .. } => {},
                CommandView::SetIndexBuffer { .. } => {},
                CommandView::SetTexture(_) => {},
                CommandView::SetSampler(_) => {},
                CommandView::SetUniforms(_) => {},
                CommandView::SetScissor(_) => {},
                CommandView::Draw { .. } => {},
                CommandView::DrawIndexed { .. } => {},
                _ => {},
            }
        }
    }
}

/// Whether a binding is what a state has bound. A texture and a sampler are bound
/// exactly where the pipeline samples.
pub open spec fn binds(
    state: PassStateView,
    binding: crate::wgpu_backend::queue::DrawBinding,
) -> bool {
    &&& state.pipeline matches Some(pipeline) && binding.pipeline == pipeline.1.place
        && match binding.sampled {
        Some((texture, sampler)) => pipeline.1.requires_texture && (
        state.texture matches Some(bound) && bound.place == texture) && state.sampler == Some(
            sampler,
        ),
        None => !pipeline.1.requires_texture,
    }
    &&& state.uniforms == Some(binding.uniforms)
    &&& state.vertex_buffer == Some((binding.vertex_buffer, binding.vertex_offset))
}

/// A planned draw covers as many vertices as its command asked for, from its first
/// vertex on, with everything that is bound. It fails where the range cannot be
/// counted.
pub proof fn law_draws_cover_their_vertices(
    state: PassStateView,
    cache: CacheView,
    table: TableView,
    frame: PassFrame,
    vertex_count: u32,
    first_vertex: u32,
)
    ensures
        state.step(
            cache,
            table,
            frame,
            CommandView::Draw { vertex_count, first_vertex },
        ) matches Ok(next) ==> {
            &&& next == (PassStateView { operations: next.operations, ..state })
            &&& next.operations.len() == state.operations.len() + 1
            &&& next.operations.take(state.operations.len() as int) == state.operations
            &&& next.operations.last() matches PassOperation::Draw { binding, first, end }
                && first == first_vertex && end - first == vertex_count && binds(state, binding)
        },
        first_vertex + vertex_count > u32::MAX ==> state.step(
            cache,
            table,
            frame,
            CommandView::Draw { vertex_count, first_vertex },
        ) is Err,
{
    let command = CommandView::Draw { vertex_count, first_vertex };
    if state.step(cache, table, frame, command) is Ok {
        let next = state.step(cache, table, frame, command)->Ok_0;
        assert(next.operations.take(state.operations.len() as int) =~= state.operations);
    }
}

/// A planned indexed draw covers as many indices as its command asked for, from its
/// first index on, with its base vertex, the bound index buffer and everything else
/// that is bound.
pub proof fn law_indexed_draws_cover_their_indices(
    state: PassStateView,
    cache: CacheView,
    table: TableView,
    frame: PassFrame,
    index_count: u32,
    first_index: u32,
    base_vertex: i32,
)
    ensures
        state.step(
            cache,
            table,
            frame,
            CommandView::DrawIndexed { index_count, first_index, base_vertex },
        ) matches Ok(next) ==> {
            &&& next == (PassStateView { operations: next.operations, ..state })
            &&& next.operations.len() == state.operations.len() + 1
            &&& next.operations.take(state.operations.len() as int) == state.operations
            &&& next.operations.last() matches PassOperation::DrawIndexed {
                binding,
                index_buffer,
                index_offset,
                index_format,
                first,
                end,
                base_vertex: base,
            } && first == first_index && end - first == index_count && base == base_vertex
                && state.index_buffer == Some((index_buffer, index_offset, index_format)) && binds(
                state,
                binding,
            )
        },
        first_index + index_count > u32::MAX ==> state.step(
            cache,
            table,
            frame,
            CommandView::DrawIndexed { index_count, first_index, base_vertex },
        ) is Err,
{
    let command = CommandView::DrawIndexed { index_count, first_index, base_vertex };
    if state.step(cache, table, frame, command) is Ok {
        let next = state.step(cache, table, frame, command)->Ok_0;
        assert(next.operations.take(state.operations.len() as int) =~= state.operations);
    }
}

/// Whether an operation draws.
pub open spec fn is_draw_operation(operation: PassOperation) -> bool {
    operation is Draw || operation is DrawIndexed
}

/// Whether a command draws.
pub open spec fn is_draw_command(command: CommandView) -> bool {
    command is Draw || command is DrawIndexed
}

/// The operations that draw, in order.
pub open spec fn draw_operations(operations: Seq<PassOperation>) -> Seq<PassOperation>
    decreases operations.len(),
{
    if operations.len() == 0 {
        Seq::empty()
    } else {
        let earlier = draw_operations(operations.drop_last());
        if is_draw_operation(operations.last()) {
            earlier.push(operations.last())
        } else {
            earlier
        }
    }
}

/// The commands that draw, in order.
pub open spec fn draw_commands(commands: Seq<CommandView>) -> Seq<CommandView>
    decreases commands.len(),
{
    if commands.len() == 0 {
        Seq::empty()
    } else {
        let earlier = draw_commands(commands.drop_last());
        if is_draw_command(commands.last()) {
            earlier.push(commands.last())
        } else {
            earlier
        }
    }
}

/// Whether an operation draws the range of a command.
pub open spec fn draws_range(operation: PassOperation, command: CommandView) -> bool {
    match command {
        CommandView::Draw { vertex_count, first_vertex } =>
            operation matches PassOperation::Draw { first, end, .. } && first == first_vertex && end
            - first == vertex_count,
        CommandView::DrawIndexed { index_count, first_index, base_vertex } =>
            operation matches PassOperation::DrawIndexed { first, end, base_vertex: base, .. }
            && first == first_index && end - first == index_count && base == base_vertex,
        _ => false,
    }
}

/// A planned pass has one draw for each drawing command, in the same order and over the
/// same range.
#[verifier::rlimit(60)]
pub proof fn law_passes_draw_every_range(
    cache: CacheView,
    table: TableView,
    frame: PassFrame,
    commands: Seq<CommandView>,
)
    ensures
        PassStateView::after(cache, table, frame, commands) matches Ok(state) ==> {
            let operations = draw_operations(state.operations);
            let asked = draw_commands(commands);
            &&& operations.len() == asked.len()
            &&& forall|i: int|
                0 <= i < asked.len() ==> draws_range(#[trigger] operations[i], asked[i])
        },
    decreases commands.len(),
{
    if commands.len() > 0 {
        let earlier = commands.drop_last();
        law_passes_draw_every_range(cache, table, frame, earlier);
        if PassStateView::after(cache, table, frame, commands) is Ok {
            let before = PassStateView::after(cache, table, frame, earlier)->Ok_0;
            let state = PassStateView::after(cache, table, frame, commands)->Ok_0;
            assert(state.operations.len() > before.operations.len()
                ==> state.operations.drop_last() =~= before.operations);
            match commands.last() {
                CommandView::Draw { vertex_count, first_vertex } => {
                    law_draws_cover_their_vertices(
                        before,
                        cache,
                        table,
                        frame,
                        vertex_count,
                        first_vertex,
                    );
                },
                CommandView::DrawIndexed { index_count, first_index, base_vertex } => {
                    law_indexed_draws_cover_their_indices(
                        before,
                        cache,
                        table,
                        frame,
                        index_count,
                        first_index,
                        base_vertex,
                    );
                },
                CommandView::SetPipeline(_) => {},
                CommandView::SetTexture(_) => {},
                CommandView::SetScissor(_) => {},
                _ => {},
            }
        }
    }
}

/// The scissor that operations leave set.
pub open spec fn scissor_in_use(operations: Seq<PassOperation>) -> Option<
    crate::ir::types::PixelRect,
>
    decreases operations.len(),
{
    if operations.len() == 0 {
        None
    } else {
        match operations.last() {
            PassOperation::SetScissor(rectangle) => Some(rectangle),
            _ => scissor_in_use(operations.drop_last()),
        }
    }
}

/// Drawing is restricted to the scissor that was set last, and to the whole render area
/// where it was reset.
#[verifier::rlimit(60)]
pub proof fn law_passes_apply_the_scissor(
    cache: CacheView,
    table: TableView,
    frame: PassFrame,
    commands: Seq<CommandView>,
)
    ensures
        PassStateView::after(cache, table, frame, commands) matches Ok(state) ==> match (
            crate::ir::meaning::set_scissor(commands),
            scissor_in_use(state.operations),
        ) {
            (Some(asked), Some(used)) => used == asked,
            (Some(_), None) => false,
            (None, Some(used)) => used == frame.area,
            (None, None) => true,
        },
    decreases commands.len(),
{
    if commands.len() > 0 {
        let earlier = commands.drop_last();
        law_passes_apply_the_scissor(cache, table, frame, earlier);
        if PassStateView::after(cache, table, frame, commands) is Ok {
            let before = PassStateView::after(cache, table, frame, earlier)->Ok_0;
            let state = PassStateView::after(cache, table, frame, commands)->Ok_0;
            assert(state.operations.len() > before.operations.len()
                ==> state.operations.drop_last() =~= before.operations);
            match commands.last() {
                CommandView::Draw { .. } => {},
                CommandView::DrawIndexed { .. } => {},
                CommandView::SetPipeline(_) => {},
                CommandView::SetTexture(_) => {},
                CommandView::SetScissor(_) => {},
                _ => {},
            }
        }
    }
}

proof fn lemma_place<T>(list: Seq<T>, value: T)
    ensures
        0 <= crate::wgpu_backend::resources::place_of(list, value) <= list.len(),
        crate::wgpu_backend::resources::place_of(list, value) < list.len()
            ==> list[crate::wgpu_backend::resources::place_of(list, value)] == value,
    decreases list.len(),
{
    if list.len() > 0 && list[0] != value {
        lemma_place(list.skip(1), value);
    }
}

proof fn lemma_image(
    images: Seq<crate::wgpu_backend::resources::MappedImage>,
    texture: crate::ir::table::TextureId,
)
    ensures
        0 <= crate::wgpu_backend::resources::image_place(images, texture) <= images.len(),
        crate::wgpu_backend::resources::image_place(images, texture) < images.len()
            ==> images[crate::wgpu_backend::resources::image_place(images, texture)].texture
            == texture,
    decreases images.len(),
{
    if images.len() > 0 && images[0].texture != texture {
        lemma_image(images.skip(1), texture);
    }
}

/// The GPU objects that are used were made for the resources that commands name: the
/// buffer, the sampler, the image or texture with its size and format, and the pipeline
/// for the attachment and, where it samples, for the sampled format.
pub proof fn law_objects_belong_to_their_resources(
    cache: CacheView,
    table: TableView,
    buffer: BufferRef,
    sampler: SamplerRef,
    texture: TextureRef,
    pipeline: RenderPipelineRef,
    target_format: crate::wgpu_backend::format::SurfaceFormat,
    sample_format: Option<TextureFormat>,
)
    requires
        cache.buffers.len() <= usize::MAX,
        cache.samplers.len() <= usize::MAX,
        cache.textures.len() <= usize::MAX,
        cache.pipelines.len() <= usize::MAX,
        cache.mapped_images.len() <= usize::MAX,
    ensures
        cache.buffer(table, buffer) matches Ok(place) ==> place < cache.buffers.len()
            && cache.buffers[place as int] == buffer.id(),
        cache.sampler(table, sampler) matches Ok(place) ==> place < cache.samplers.len()
            && cache.samplers[place as int] == sampler.id(),
        cache.texture(table, texture) matches Ok(found) ==> (match found.place {
            TexturePlace::Mapped(place) => place < cache.mapped_images.len() && {
                let mapped = cache.mapped_images[place as int];
                &&& mapped.texture == texture.id()
                &&& found.width == mapped.image.width
                &&& found.height == mapped.image.height
                &&& found.format == mapped.image.format
                &&& found.raw_format == mapped.image.raw_format
            },
            TexturePlace::Owned(place) => place < cache.textures.len()
                && cache.textures[place as int] == texture.id() && (
            table.texture(texture) matches Ok(desc) && {
                &&& !desc@.usage.allows(TextureUsage::PRESENT_BIT)
                &&& found.width == desc@.extent.width
                &&& found.height == desc@.extent.height
                &&& found.format == desc@.format
            }),
        }),
        cache.pipeline(table, pipeline, target_format, sample_format) matches Ok(found) ==> {
            &&& found.place < cache.pipelines.len()
            &&& cache.pipelines[found.place as int].pipeline == pipeline.id()
            &&& cache.pipelines[found.place as int].target_format == target_format
            &&& found.requires_texture ==> cache.pipelines[found.place as int].sample_format
                == sample_format
            &&& table.render_pipeline(pipeline) matches Ok(desc) && {
                &&& found.has_depth == desc.depth is Some
                &&& match desc.fragment {
                    FragmentProgram::Solid => !found.requires_texture && found.sample_mode is None,
                    FragmentProgram::VertexColor => !found.requires_texture && found.sample_mode
                        is None,
                    FragmentProgram::Texture(mode) => found.requires_texture && found.sample_mode
                        == Some(mode),
                    FragmentProgram::TextureVertexColor(mode) => found.requires_texture
                        && found.sample_mode == Some(mode),
                }
            }
        },
{
    lemma_place(cache.buffers, buffer.id());
    lemma_place(cache.samplers, sampler.id());
    lemma_place(cache.textures, texture.id());
    lemma_image(cache.mapped_images, texture.id());
    if cache.pipeline(table, pipeline, target_format, sample_format) is Ok {
        let desc = table.render_pipeline(pipeline)->Ok_0;
        lemma_place(
            cache.pipelines,
            crate::wgpu_backend::resources::PipelineKey {
                pipeline: pipeline.id(),
                target_format,
                sample_format: if desc.fragment.is_textured() {
                    sample_format
                } else {
                    None
                },
            },
        );
    }
}

/// A planned pass renders into the attachments of its descriptor over its area, keeps
/// what is to be kept afterwards, and starts from the contents that it asks for: loaded,
/// cleared to its color and depth, or anything where nothing is asked.
pub proof fn law_passes_keep_their_attachments(
    cache: CacheView,
    table: TableView,
    desc: RenderPassView,
    commands: Seq<CommandView>,
)
    ensures
        crate::wgpu_backend::queue::spec_encode_render_pass(
            cache,
            table,
            desc,
            commands,
        ) matches Ok(plan) ==> {
            &&& desc.colors.len() == 1
            &&& cache.texture(table, desc.colors[0].target) == Ok::<
                _,
                crate::wgpu_backend::resources::Interruption,
            >(plan.frame.target)
            &&& plan.frame.area == desc.area
            &&& plan.color_store == desc.colors[0].store
            &&& plan.frame.depth is Some == desc.depth is Some
            &&& plan.depth_operations is Some == desc.depth is Some
            &&& desc.depth matches Some(depth) ==> {
                &&& !depth.read_only
                &&& cache.texture(table, depth.target) == Ok::<
                    _,
                    crate::wgpu_backend::resources::Interruption,
                >(plan.frame.depth->0)
                &&& (plan.depth_operations->0).1 == depth.store
                &&& depth.load is Load ==> (plan.depth_operations->0).0 is Load
                &&& depth.load matches DepthLoadOp::Clear(value) ==> (plan.depth_operations->0).0
                    == DepthLoad::Clear(value)
            }
            &&& desc.colors[0].load is Load ==> plan.color_load is Load && plan.partial_clear
                is None
            &&& desc.colors[0].load matches LoadOp::Clear(color) ==> match plan.partial_clear {
                Some(clear) => plan.color_load is Load && clear.1 == color
                    && cache.clear_pipelines.len() > 0,
                None => plan.color_load == ColorLoadView::Clear(color@),
            }
            &&& plan.partial_clear is Some ==> !(desc.area@.x == 0 && desc.area@.y == 0
                && desc.area@.width == plan.frame.target.width && desc.area@.height
                == plan.frame.target.height)
            &&& plan.color_load is Clear ==> desc.area@.x == 0 && desc.area@.y == 0
                && desc.area@.width == plan.frame.target.width && desc.area@.height
                == plan.frame.target.height
        },
{
    if crate::wgpu_backend::queue::spec_encode_render_pass(cache, table, desc, commands) is Ok {
        let frame = crate::wgpu_backend::queue::pass_frame(cache, table, desc)->Ok_0;
        lemma_place(
            cache.clear_pipelines,
            crate::wgpu_backend::resources::ClearKey {
                target_format: frame.target.raw_format,
                has_depth: frame.depth is Some,
            },
        );
    }
}

/// How many of the first commands write buffers.
pub open spec fn buffer_writes(commands: Seq<CommandView>, count: int) -> int
    decreases count,
{
    if count <= 0 {
        0
    } else {
        buffer_writes(commands, count - 1) + if commands[count - 1] is WriteBuffer {
            1int
        } else {
            0
        }
    }
}

/// How many of the first commands write textures.
pub open spec fn texture_writes(commands: Seq<CommandView>, count: int) -> int
    decreases count,
{
    if count <= 0 {
        0
    } else {
        texture_writes(commands, count - 1) + if commands[count - 1] is WriteTexture {
            1int
        } else {
            0
        }
    }
}

/// How many of the first commands copy textures or begin passes.
pub open spec fn encoded(commands: Seq<CommandView>, count: int) -> int
    decreases count,
{
    if count <= 0 {
        0
    } else {
        encoded(commands, count - 1) + if commands[count - 1] is CopyTextureToTexture
            || commands[count - 1] is BeginRenderPass {
            1int
        } else {
            0
        }
    }
}

/// Whether a plan holds what a command asks for, at the place of the command among its
/// kind.
pub open spec fn performs(
    plan: SubmissionPlanView,
    cache: CacheView,
    table: TableView,
    commands: Seq<CommandView>,
    index: int,
) -> bool {
    match commands[index] {
        CommandView::WriteBuffer { buffer, offset, data } => {
            let at = buffer_writes(commands, index);
            &&& at < plan.buffer_writes.len()
            &&& cache.buffer(table, buffer) == Ok::<
                _,
                crate::wgpu_backend::resources::Interruption,
            >(plan.buffer_writes[at].buffer)
            &&& plan.buffer_writes[at].offset == offset
            &&& plan.buffer_writes[at].data == data
        },
        CommandView::WriteTexture { texture, write } => {
            let at = texture_writes(commands, index);
            &&& at < plan.texture_writes.len()
            &&& cache.texture(table, texture) matches Ok(found)
                && plan.texture_writes[at].texture == found.place
            &&& plan.texture_writes[at].destination == write.destination
            &&& plan.texture_writes[at].bytes_per_row == write.bytes_per_row
            &&& plan.texture_writes[at].data == write.data
        },
        CommandView::CopyTextureToTexture {
            source,
            source_rect,
            destination,
            destination_rect,
        } => {
            let at = encoded(commands, index);
            &&& at < plan.operations.len()
            &&& plan.operations[at] matches EncoderOperationView::CopyTexture {
                source: from,
                source_rect: from_rect,
                destination: to,
                destination_rect: to_rect,
            } && (cache.texture(table, source) matches Ok(read) && read.place == from) && (
            cache.texture(table, destination) matches Ok(written) && written.place == to)
                && from_rect == source_rect && to_rect == destination_rect
        },
        CommandView::BeginRenderPass(desc) => {
            let at = encoded(commands, index);
            let end = crate::wgpu_backend::queue::pass_end(commands, index + 1);
            &&& at < plan.operations.len()
            &&& end < commands.len()
            &&& plan.operations[at] matches EncoderOperationView::RenderPass(pass)
                && crate::wgpu_backend::queue::spec_encode_render_pass(
                cache,
                table,
                desc,
                commands.subrange(index + 1, end),
            ) == Ok::<_, crate::wgpu_backend::resources::Interruption>(pass)
        },
        _ => true,
    }
}

/// Whether plan lists grew from others.
pub open spec fn grows(earlier: SubmissionPlanView, later: SubmissionPlanView) -> bool {
    &&& earlier.buffer_writes.is_prefix_of(later.buffer_writes)
    &&& earlier.texture_writes.is_prefix_of(later.texture_writes)
    &&& earlier.operations.is_prefix_of(later.operations)
}

/// Whether a plan has as many entries as the first commands ask for.
pub open spec fn counts(plan: SubmissionPlanView, commands: Seq<CommandView>, count: int) -> bool {
    &&& plan.buffer_writes.len() == buffer_writes(commands, count)
    &&& plan.texture_writes.len() == texture_writes(commands, count)
    &&& plan.operations.len() == encoded(commands, count)
}

proof fn lemma_pass_commands(
    cache: CacheView,
    table: TableView,
    frame: PassFrame,
    commands: Seq<CommandView>,
    at: int,
)
    requires
        0 <= at < commands.len(),
        PassStateView::after(cache, table, frame, commands) is Ok,
    ensures
        !(commands[at] is WriteBuffer),
        !(commands[at] is WriteTexture),
        !(commands[at] is CopyTextureToTexture),
        !(commands[at] is BeginRenderPass),
    decreases commands.len(),
{
    if at < commands.len() - 1 {
        assert(commands.drop_last()[at] == commands[at]);
        lemma_pass_commands(cache, table, frame, commands.drop_last(), at);
    }
}

/// Commands of a pass add nothing to the counts.
proof fn lemma_pass_counts(
    cache: CacheView,
    table: TableView,
    frame: PassFrame,
    commands: Seq<CommandView>,
    from: int,
    end: int,
    to: int,
)
    requires
        0 <= from <= to <= end <= commands.len(),
        PassStateView::after(cache, table, frame, commands.subrange(from, end)) is Ok,
    ensures
        buffer_writes(commands, to) == buffer_writes(commands, from),
        texture_writes(commands, to) == texture_writes(commands, from),
        encoded(commands, to) == encoded(commands, from),
    decreases to,
{
    if from < to {
        lemma_pass_counts(cache, table, frame, commands, from, end, to - 1);
        let inner = commands.subrange(from, end);
        assert(inner[to - 1 - from] == commands[to - 1]);
        lemma_pass_commands(cache, table, frame, inner, to - 1 - from);
    }
}

#[verifier::rlimit(80)]
proof fn lemma_extended(
    plan: SubmissionPlanView,
    cache: CacheView,
    table: TableView,
    commands: Seq<CommandView>,
    index: int,
    upload_phase: bool,
)
    requires
        0 <= index <= commands.len(),
        counts(plan, commands, index),
        plan.extended(cache, table, commands, index, upload_phase) is Ok,
    ensures
        ({
            let done = plan.extended(cache, table, commands, index, upload_phase)->Ok_0;
            &&& grows(plan, done)
            &&& counts(done, commands, commands.len() as int)
            &&& forall|i: int|
                index <= i < commands.len() ==> #[trigger] performs(
                    done,
                    cache,
                    table,
                    commands,
                    i,
                )
        }),
    decreases commands.len() - index,
{
    let done = plan.extended(cache, table, commands, index, upload_phase)->Ok_0;
    if index < commands.len() {
        match commands[index] {
            CommandView::WriteBuffer { buffer, offset, data } => {
                let next = SubmissionPlanView {
                    buffer_writes: plan.buffer_writes.push(
                        crate::wgpu_backend::queue::BufferWriteView {
                            buffer: cache.buffer(table, buffer)->Ok_0,
                            offset,
                            data,
                        },
                    ),
                    ..plan
                };
                lemma_extended(next, cache, table, commands, index + 1, true);
                assert(done.buffer_writes[plan.buffer_writes.len() as int]
                    == next.buffer_writes.last());
            },
            CommandView::WriteTexture { texture, write } => {
                let next = SubmissionPlanView {
                    texture_writes: plan.texture_writes.push(
                        crate::wgpu_backend::queue::TextureUploadView {
                            texture: cache.texture(table, texture)->Ok_0.place,
                            destination: write.destination,
                            bytes_per_row: write.bytes_per_row,
                            data: write.data,
                        },
                    ),
                    ..plan
                };
                lemma_extended(next, cache, table, commands, index + 1, true);
                assert(done.texture_writes[plan.texture_writes.len() as int]
                    == next.texture_writes.last());
            },
            CommandView::CopyTextureToTexture {
                source,
                source_rect,
                destination,
                destination_rect,
            } => {
                let next = SubmissionPlanView {
                    operations: plan.operations.push(
                        EncoderOperationView::CopyTexture {
                            source: cache.texture(table, source)->Ok_0.place,
                            source_rect,
                            destination: cache.texture(table, destination)->Ok_0.place,
                            destination_rect,
                        },
                    ),
                    ..plan
                };
                lemma_extended(next, cache, table, commands, index + 1, false);
                assert(done.operations[plan.operations.len() as int] == next.operations.last());
            },
            CommandView::BeginRenderPass(desc) => {
                let end = crate::wgpu_backend::queue::pass_end(commands, index + 1);
                crate::wgpu_backend::queue::lemma_pass_end(commands, index + 1);
                let inner = commands.subrange(index + 1, end);
                let pass = crate::wgpu_backend::queue::spec_encode_render_pass(
                    cache,
                    table,
                    desc,
                    inner,
                )->Ok_0;
                let frame = crate::wgpu_backend::queue::pass_frame(cache, table, desc)->Ok_0;
                let next = SubmissionPlanView {
                    operations: plan.operations.push(EncoderOperationView::RenderPass(pass)),
                    ..plan
                };
                lemma_pass_counts(cache, table, frame, commands, index + 1, end, end);
                lemma_extended(next, cache, table, commands, end + 1, false);
                assert(done.operations[plan.operations.len() as int] == next.operations.last());
                assert forall|i: int| index <= i < commands.len() implies #[trigger] performs(
                    done,
                    cache,
                    table,
                    commands,
                    i,
                ) by {
                    if index < i < end {
                        assert(inner[i - index - 1] == commands[i]);
                        lemma_pass_commands(cache, table, frame, inner, i - index - 1);
                    }
                }
            },
            _ => {},
        }
    }
}

/// A planned command buffer holds every buffer write, every texture write, every copy
/// and every pass once, in the order of the commands and with what they ask for.
pub proof fn law_submissions_perform_every_command(
    cache: CacheView,
    table: TableView,
    commands: Seq<CommandView>,
    index: int,
)
    requires
        0 <= index < commands.len(),
    ensures
        SubmissionPlanView::initial().extended(cache, table, commands, 0, true) matches Ok(plan)
            ==> performs(plan, cache, table, commands, index) && counts(
            plan,
            commands,
            commands.len() as int,
        ),
{
    if SubmissionPlanView::initial().extended(cache, table, commands, 0, true) is Ok {
        lemma_extended(SubmissionPlanView::initial(), cache, table, commands, 0, true);
    }
}

} // verus!
