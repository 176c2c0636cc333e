//! Recordings and tables that grow.
//!
//! Definitions are only ever added to a table, so what was recorded against it can
//! be recorded again later.

use crate::ir::access::ResourcePart;
use crate::ir::command::{CommandBufferView, CommandView, EncoderView};
use crate::ir::compute_pass_encoder::ComputeStateView;
use crate::ir::groups::{DrawScope, GroupUse};
use crate::ir::owned::{
    OwnedColorAttachment, OwnedCommand, OwnedRenderPassDesc, OwnedResourceBarrier, ReplayView,
};
use crate::ir::pipeline::{IndexFormat, VertexBufferLayoutView};
use crate::ir::programmable::{
    BindGroupEntry, BindGroupLayoutEntry, BindingResource, ResourceBarrier,
};
use crate::ir::render_pass::RenderPassView;
use crate::ir::render_pass_encoder::{DrawShape, RenderStateView};
use crate::ir::resource::TextureWriteView;
use crate::ir::shader::ShaderStages;
use crate::ir::table::{
    BindGroupId, BindGroupRef, BufferId, BufferRef, ProgrammableRenderPipelineId,
    ProgrammableRenderPipelineRef, RenderPipelineId, RenderPipelineRef, SamplerId, SamplerRef,
    TableView, TextureId, TextureRef,
};
use crate::ir::types::{Error, PixelRect};
use crate::ir::viewport::Viewport;
use vstd::prelude::*;

verus! {

/// Whether a table holds the definitions of an earlier one at their places.
#[verifier::opaque]
spec fn grows(earlier: TableView, later: TableView) -> bool {
    later.extends(earlier)
}

impl EncoderView {
    /// The same recording against another table.
    pub open spec fn against(self, table: TableView) -> Self {
        EncoderView { resources: table, ..self }
    }
}

/// The same place of a replay against another table.
pub open spec fn replay_against(at: ReplayView, table: TableView) -> ReplayView {
    match at {
        ReplayView::Outside(encoder) => ReplayView::Outside(encoder.against(table)),
        ReplayView::Render(encoder, state) => ReplayView::Render(encoder.against(table), state),
        ReplayView::Compute(encoder, state) => ReplayView::Compute(encoder.against(table), state),
    }
}

proof fn lemma_colors_grow(
    earlier: TableView,
    later: TableView,
    desc: RenderPassView,
    colors: Seq<OwnedColorAttachment>,
    count: nat,
)
    requires
        later.extends(earlier),
        crate::ir::owned::with_colors(earlier, desc, colors, count) is Ok,
    ensures
        crate::ir::owned::with_colors(later, desc, colors, count) == crate::ir::owned::with_colors(
            earlier,
            desc,
            colors,
            count,
        ),
    decreases count,
{
    if count > 0 {
        lemma_colors_grow(earlier, later, desc, colors, (count - 1) as nat);
        crate::ir::table::law_growth_keeps_definitions(earlier, later);
    }
}

/// A pass descriptor that resolves in a table resolves to the same as it grows.
pub proof fn law_pass_descriptors_survive_growth(
    earlier: TableView,
    later: TableView,
    desc: OwnedRenderPassDesc,
    colors: Seq<OwnedColorAttachment>,
    read_only_depth: bool,
)
    requires
        later.extends(earlier),
    ensures
        desc.resolved(earlier) is Ok ==> desc.resolved(later) == desc.resolved(earlier),
        crate::ir::owned::resolved_attachments(earlier, desc, colors, read_only_depth) is Ok
            ==> crate::ir::owned::resolved_attachments(later, desc, colors, read_only_depth)
            == crate::ir::owned::resolved_attachments(earlier, desc, colors, read_only_depth),
{
    crate::ir::table::law_growth_keeps_definitions(earlier, later);
    if desc.resolved(earlier) is Ok {
        let first = desc.resolved(earlier)->Ok_0;
        if crate::ir::owned::with_colors(earlier, first, colors, colors.len()) is Ok {
            lemma_colors_grow(earlier, later, first, colors, colors.len());
        }
    }
}

proof fn lemma_descriptor_grows(
    earlier: TableView,
    later: TableView,
    desc: OwnedRenderPassDesc,
    colors: Seq<OwnedColorAttachment>,
    read_only_depth: bool,
)
    requires
        grows(earlier, later),
    ensures
        desc.resolved(earlier) is Ok ==> desc.resolved(later) == desc.resolved(earlier),
        crate::ir::owned::resolved_attachments(earlier, desc, colors, read_only_depth) is Ok
            ==> crate::ir::owned::resolved_attachments(later, desc, colors, read_only_depth)
            == crate::ir::owned::resolved_attachments(earlier, desc, colors, read_only_depth),
{
    reveal(grows);
    law_pass_descriptors_survive_growth(earlier, later, desc, colors, read_only_depth);
}

proof fn lemma_checked_colors_grow(
    encoder: EncoderView,
    later: TableView,
    desc: RenderPassView,
    count: nat,
)
    requires
        later.extends(encoder.resources),
        count <= desc.colors.len(),
        encoder.check_colors(desc, count) is Ok,
    ensures
        encoder.against(later).check_colors(desc, count) == encoder.check_colors(desc, count),
        forall|i: int|
            0 <= i < count ==> later.texture((#[trigger] desc.colors[i]).target)
                == encoder.resources.texture(desc.colors[i].target)
                && encoder.resources.texture(desc.colors[i].target) is Ok,
    decreases count,
{
    if count > 0 {
        lemma_checked_colors_grow(encoder, later, desc, (count - 1) as nat);
        crate::ir::table::law_growth_keeps_definitions(encoder.resources, later);
    }
}

proof fn lemma_begin_grows(encoder: EncoderView, later: TableView, desc: RenderPassView)
    requires
        grows(encoder.resources, later),
    ensures
        render_alike(
            encoder.begin_render_pass(desc),
            encoder.against(later).begin_render_pass(desc),
            later,
        ),
{
    reveal(grows);
    if encoder.begin_render_pass(desc) is Ok {
        let (next, state) = encoder.begin_render_pass(desc)->Ok_0;
        crate::ir::table::law_growth_keeps_definitions(encoder.resources, later);
        lemma_checked_colors_grow(encoder, later, desc, desc.colors.len());
        let grown = RenderStateView::initial(later, desc);
        assert(grown.color_formats =~= state.color_formats);
        assert(grown =~= state);
    }
}

proof fn lemma_texture_grows(earlier: TableView, later: TableView, reference: TextureRef)
    requires
        grows(earlier, later),
    ensures
        earlier.texture(reference) is Ok ==> later.texture(reference) == earlier.texture(reference),
{
    reveal(grows);
}

proof fn lemma_texture_ref_grows(earlier: TableView, later: TableView, id: TextureId)
    requires
        grows(earlier, later),
    ensures
        earlier.texture_ref(id) is Ok ==> later.texture_ref(id) == earlier.texture_ref(id),
{
    reveal(grows);
}

proof fn lemma_buffer_grows(earlier: TableView, later: TableView, reference: BufferRef)
    requires
        grows(earlier, later),
    ensures
        earlier.buffer(reference) is Ok ==> later.buffer(reference) == earlier.buffer(reference),
{
    reveal(grows);
}

proof fn lemma_buffer_ref_grows(earlier: TableView, later: TableView, id: BufferId)
    requires
        grows(earlier, later),
    ensures
        earlier.buffer_ref(id) is Ok ==> later.buffer_ref(id) == earlier.buffer_ref(id),
{
    reveal(grows);
}

proof fn lemma_sampler_grows(earlier: TableView, later: TableView, reference: SamplerRef)
    requires
        grows(earlier, later),
    ensures
        earlier.sampler(reference) is Ok ==> later.sampler(reference) == earlier.sampler(reference),
{
    reveal(grows);
}

proof fn lemma_sampler_ref_grows(earlier: TableView, later: TableView, id: SamplerId)
    requires
        grows(earlier, later),
    ensures
        earlier.sampler_ref(id) is Ok ==> later.sampler_ref(id) == earlier.sampler_ref(id),
{
    reveal(grows);
}

proof fn lemma_render_pipeline_grows(
    earlier: TableView,
    later: TableView,
    reference: RenderPipelineRef,
)
    requires
        grows(earlier, later),
    ensures
        earlier.render_pipeline(reference) is Ok ==> later.render_pipeline(reference)
            == earlier.render_pipeline(reference),
{
    reveal(grows);
}

proof fn lemma_render_pipeline_ref_grows(earlier: TableView, later: TableView, id: RenderPipelineId)
    requires
        grows(earlier, later),
    ensures
        earlier.render_pipeline_ref(id) is Ok ==> later.render_pipeline_ref(id)
            == earlier.render_pipeline_ref(id),
{
    reveal(grows);
}

proof fn lemma_programmable_render_pipeline_grows(
    earlier: TableView,
    later: TableView,
    reference: ProgrammableRenderPipelineRef,
)
    requires
        grows(earlier, later),
    ensures
        earlier.programmable_render_pipeline(reference) is Ok
            ==> later.programmable_render_pipeline(reference)
            == earlier.programmable_render_pipeline(reference),
{
    reveal(grows);
}

proof fn lemma_programmable_render_pipeline_ref_grows(
    earlier: TableView,
    later: TableView,
    id: ProgrammableRenderPipelineId,
)
    requires
        grows(earlier, later),
    ensures
        earlier.programmable_render_pipeline_ref(id) is Ok
            ==> later.programmable_render_pipeline_ref(id)
            == earlier.programmable_render_pipeline_ref(id),
{
    reveal(grows);
}

proof fn lemma_bind_group_grows(earlier: TableView, later: TableView, reference: BindGroupRef)
    requires
        grows(earlier, later),
    ensures
        earlier.bind_group(reference) is Ok ==> later.bind_group(reference)
            == earlier.bind_group(reference),
{
    reveal(grows);
}

proof fn lemma_bind_group_ref_grows(earlier: TableView, later: TableView, id: BindGroupId)
    requires
        grows(earlier, later),
    ensures
        earlier.bind_group_ref(id) is Ok ==> later.bind_group_ref(id) == earlier.bind_group_ref(id),
{
    reveal(grows);
}

/// Whether a call that succeeds against a table succeeds alike against another.
spec fn alike(
    result: Result<EncoderView, Error>,
    grown: Result<EncoderView, Error>,
    later: TableView,
) -> bool {
    match result {
        Ok(next) => grown == Ok::<EncoderView, Error>(next.against(later)),
        Err(_) => true,
    }
}

/// Whether a call in a render pass that succeeds against a table succeeds alike
/// against another.
spec fn render_alike(
    result: Result<(EncoderView, RenderStateView), Error>,
    grown: Result<(EncoderView, RenderStateView), Error>,
    later: TableView,
) -> bool {
    match result {
        Ok((next, state)) => grown == Ok::<(EncoderView, RenderStateView), Error>(
            (next.against(later), state),
        ),
        Err(_) => true,
    }
}

/// Whether a replayed command that succeeds against a table succeeds alike against
/// another.
spec fn replay_alike(
    result: Result<ReplayView, Error>,
    grown: Result<ReplayView, Error>,
    later: TableView,
) -> bool {
    match result {
        Ok(at) => grown == Ok::<ReplayView, Error>(replay_against(at, later)),
        Err(_) => true,
    }
}

proof fn lemma_write_buffer_grows_alike(
    encoder: EncoderView,
    later: TableView,
    buffer: BufferRef,
    offset: u64,
    data: Seq<u8>,
)
    requires
        grows(encoder.resources, later),
    ensures
        alike(
            encoder.write_buffer(buffer, offset, data),
            encoder.against(later).write_buffer(buffer, offset, data),
            later,
        ),
{
    lemma_buffer_grows(encoder.resources, later, buffer);
}

proof fn lemma_write_texture_grows_alike(
    encoder: EncoderView,
    later: TableView,
    texture: TextureRef,
    write: TextureWriteView,
)
    requires
        grows(encoder.resources, later),
    ensures
        alike(
            encoder.write_texture(texture, write),
            encoder.against(later).write_texture(texture, write),
            later,
        ),
{
    lemma_texture_grows(encoder.resources, later, texture);
}

proof fn lemma_copy_buffer_to_buffer_grows_alike(
    encoder: EncoderView,
    later: TableView,
    source: BufferRef,
    source_offset: u64,
    destination: BufferRef,
    destination_offset: u64,
    size: u64,
)
    requires
        grows(encoder.resources, later),
    ensures
        alike(
            encoder.copy_buffer_to_buffer(
                source,
                source_offset,
                destination,
                destination_offset,
                size,
            ),
            encoder.against(later).copy_buffer_to_buffer(
                source,
                source_offset,
                destination,
                destination_offset,
                size,
            ),
            later,
        ),
{
    lemma_buffer_grows(encoder.resources, later, source);
    lemma_buffer_grows(encoder.resources, later, destination);
}

proof fn lemma_copy_texture_to_texture_grows_alike(
    encoder: EncoderView,
    later: TableView,
    source: TextureRef,
    source_rect: PixelRect,
    destination: TextureRef,
    destination_rect: PixelRect,
)
    requires
        grows(encoder.resources, later),
    ensures
        alike(
            encoder.copy_texture_to_texture(source, source_rect, destination, destination_rect),
            encoder.against(later).copy_texture_to_texture(
                source,
                source_rect,
                destination,
                destination_rect,
            ),
            later,
        ),
{
    lemma_texture_grows(encoder.resources, later, source);
    lemma_texture_grows(encoder.resources, later, destination);
}

proof fn lemma_resource_barrier_grows_alike(
    encoder: EncoderView,
    later: TableView,
    barrier: ResourceBarrier,
)
    requires
        grows(encoder.resources, later),
    ensures
        alike(
            encoder.resource_barrier(barrier),
            encoder.against(later).resource_barrier(barrier),
            later,
        ),
{
    match barrier {
        ResourceBarrier::Buffer { buffer, .. } => {
            lemma_buffer_grows(encoder.resources, later, buffer);
        },
        ResourceBarrier::Texture { texture, .. } => {
            lemma_texture_grows(encoder.resources, later, texture);
        },
        ResourceBarrier::TextureMip { texture, .. } => {
            lemma_texture_grows(encoder.resources, later, texture);
        },
    }
}

proof fn lemma_texture_write_grows(
    encoder: EncoderView,
    later: TableView,
    texture: TextureId,
    write: TextureWriteView,
)
    requires
        grows(encoder.resources, later),
    ensures
        alike(
            crate::ir::owned::replay_texture_write(encoder, texture, write),
            crate::ir::owned::replay_texture_write(encoder.against(later), texture, write),
            later,
        ),
{
    lemma_texture_ref_grows(encoder.resources, later, texture);
    if encoder.resources.texture_ref(texture) is Ok {
        lemma_write_texture_grows_alike(
            encoder,
            later,
            encoder.resources.texture_ref(texture)->Ok_0,
            write,
        );
    }
}

proof fn lemma_barrier_resolves_alike(
    earlier: TableView,
    later: TableView,
    barrier: OwnedResourceBarrier,
)
    requires
        grows(earlier, later),
    ensures
        barrier.resolved(earlier) is Ok ==> barrier.resolved(later) == barrier.resolved(earlier),
{
    match barrier {
        OwnedResourceBarrier::Buffer { buffer, .. } => {
            lemma_buffer_ref_grows(earlier, later, buffer);
        },
        OwnedResourceBarrier::Texture { texture, .. } => {
            lemma_texture_ref_grows(earlier, later, texture);
        },
        OwnedResourceBarrier::TextureMip { texture, .. } => {
            lemma_texture_ref_grows(earlier, later, texture);
        },
    }
}

proof fn lemma_outside_grows(encoder: EncoderView, later: TableView, command: OwnedCommand)
    requires
        grows(encoder.resources, later),
    ensures
        replay_alike(
            crate::ir::owned::replay_outside(encoder, command),
            crate::ir::owned::replay_outside(encoder.against(later), command),
            later,
        ),
{
    reveal(crate::ir::owned::replay_outside);
    let table = encoder.resources;
    match command {
        OwnedCommand::WriteBuffer { buffer, offset, data } => {
            lemma_buffer_ref_grows(table, later, buffer);
            if table.buffer_ref(buffer) is Ok {
                let found = table.buffer_ref(buffer)->Ok_0;
                lemma_write_buffer_grows_alike(encoder, later, found, offset, data@);
            }
        },
        OwnedCommand::WriteTexture { texture, destination, bytes_per_row, data } => {
            lemma_texture_write_grows(
                encoder,
                later,
                texture,
                TextureWriteView {
                    destination,
                    bytes_per_row,
                    data: data@,
                    mip_level: 0,
                    array_layer: 0,
                },
            );
        },
        OwnedCommand::WriteTextureLayer {
            texture,
            mip_level,
            array_layer,
            destination,
            bytes_per_row,
            data,
        } => {
            lemma_texture_write_grows(
                encoder,
                later,
                texture,
                TextureWriteView {
                    destination,
                    bytes_per_row,
                    data: data@,
                    mip_level,
                    array_layer,
                },
            );
        },
        OwnedCommand::CopyBufferToBuffer {
            source,
            source_offset,
            destination,
            destination_offset,
            size,
        } => {
            lemma_buffer_ref_grows(table, later, source);
            lemma_buffer_ref_grows(table, later, destination);
            if table.buffer_ref(source) is Ok && table.buffer_ref(destination) is Ok {
                lemma_copy_buffer_to_buffer_grows_alike(
                    encoder,
                    later,
                    table.buffer_ref(source)->Ok_0,
                    source_offset,
                    table.buffer_ref(destination)->Ok_0,
                    destination_offset,
                    size,
                );
            }
        },
        OwnedCommand::CopyTextureToTexture {
            source,
            source_rect,
            destination,
            destination_rect,
        } => {
            lemma_texture_ref_grows(table, later, source);
            lemma_texture_ref_grows(table, later, destination);
            if table.texture_ref(source) is Ok && table.texture_ref(destination) is Ok {
                lemma_copy_texture_to_texture_grows_alike(
                    encoder,
                    later,
                    table.texture_ref(source)->Ok_0,
                    source_rect,
                    table.texture_ref(destination)->Ok_0,
                    destination_rect,
                );
            }
        },
        OwnedCommand::ResourceBarrier(barrier) => {
            lemma_barrier_resolves_alike(table, later, barrier);
            if barrier.resolved(table) is Ok {
                lemma_resource_barrier_grows_alike(
                    encoder,
                    later,
                    barrier.resolved(table)->Ok_0,
                );
            }
        },
        OwnedCommand::BeginRenderPass(desc) => {
            lemma_descriptor_grows(table, later, desc, Seq::empty(), false);
            if desc.resolved(table) is Ok {
                lemma_begin_grows(encoder, later, desc.resolved(table)->Ok_0);
            }
        },
        OwnedCommand::BeginRenderPassWithAttachments { desc, colors, read_only_depth } => {
            lemma_descriptor_grows(table, later, desc, colors@, read_only_depth);
            let resolved = crate::ir::owned::resolved_attachments(
                table,
                desc,
                colors@,
                read_only_depth,
            );
            if resolved is Ok {
                lemma_begin_grows(encoder, later, resolved->Ok_0);
            }
        },
        _ => {},
    }
}

/// Whether a resource covers the same parts in both tables.
spec fn same_parts(earlier: TableView, later: TableView, resource: BindingResource) -> bool {
    crate::ir::groups::resource_parts(later, resource) == crate::ir::groups::resource_parts(
        earlier,
        resource,
    )
}

proof fn lemma_binding_grows(
    encoder: EncoderView,
    later: TableView,
    uses: Seq<GroupUse>,
    resource: BindingResource,
    ty: crate::ir::programmable::BindingType,
    scope: DrawScope,
)
    requires
        later.extends(encoder.resources),
        crate::ir::groups::use_binding(encoder, uses, resource, ty, scope) is Ok,
    ensures
        crate::ir::groups::use_binding(encoder.against(later), uses, resource, ty, scope)
            == crate::ir::groups::use_binding(encoder, uses, resource, ty, scope),
        same_parts(encoder.resources, later, resource),
{
    crate::ir::table::law_growth_keeps_definitions(encoder.resources, later);
    match resource {
        BindingResource::Texture(texture) => {
            crate::ir::table::lemma_texture_reference(texture);
        },
        _ => {},
    }
}

proof fn lemma_bindings_grow(
    encoder: EncoderView,
    later: TableView,
    uses: Seq<GroupUse>,
    entries: Seq<BindGroupEntry>,
    layout: Seq<BindGroupLayoutEntry>,
    scope: DrawScope,
    count: nat,
)
    requires
        later.extends(encoder.resources),
        crate::ir::groups::use_bindings(encoder, uses, entries, layout, scope, count) is Ok,
        forall|i: int|
            0 <= i < uses.len() ==> same_parts(
                encoder.resources,
                later,
                (#[trigger] uses[i]).resource,
            ),
    ensures
        crate::ir::groups::use_bindings(
            encoder.against(later),
            uses,
            entries,
            layout,
            scope,
            count,
        ) == crate::ir::groups::use_bindings(encoder, uses, entries, layout, scope, count),
        ({
            let after = crate::ir::groups::use_bindings(
                encoder,
                uses,
                entries,
                layout,
                scope,
                count,
            )->Ok_0;
            forall|i: int|
                0 <= i < after.len() ==> same_parts(
                    encoder.resources,
                    later,
                    (#[trigger] after[i]).resource,
                )
        }),
    decreases count,
{
    if count > 0 {
        lemma_bindings_grow(encoder, later, uses, entries, layout, scope, (count - 1) as nat);
        let before = crate::ir::groups::use_bindings(
            encoder,
            uses,
            entries,
            layout,
            scope,
            (count - 1) as nat,
        )->Ok_0;
        lemma_binding_grows(
            encoder,
            later,
            before,
            entries[count - 1].resource,
            layout[count - 1].ty,
            scope,
        );
    }
}

proof fn lemma_groups_grow(
    encoder: EncoderView,
    later: TableView,
    layout: Seq<Seq<BindGroupLayoutEntry>>,
    bound: Seq<Option<BindGroupRef>>,
    scope: DrawScope,
    count: nat,
)
    requires
        later.extends(encoder.resources),
        crate::ir::groups::use_groups(encoder, layout, bound, scope, count) is Ok,
    ensures
        crate::ir::groups::use_groups(encoder.against(later), layout, bound, scope, count)
            == crate::ir::groups::use_groups(encoder, layout, bound, scope, count),
        ({
            let after = crate::ir::groups::use_groups(encoder, layout, bound, scope, count)->Ok_0;
            forall|i: int|
                0 <= i < after.len() ==> same_parts(
                    encoder.resources,
                    later,
                    (#[trigger] after[i]).resource,
                )
        }),
    decreases count,
{
    if count > 0 {
        lemma_groups_grow(encoder, later, layout, bound, scope, (count - 1) as nat);
        crate::ir::table::law_growth_keeps_definitions(encoder.resources, later);
        let before = crate::ir::groups::use_groups(
            encoder,
            layout,
            bound,
            scope,
            (count - 1) as nat,
        )->Ok_0;
        match bound[count - 1] {
            Some(reference) => {
                let group = encoder.resources.bind_group(reference)->Ok_0;
                lemma_bindings_grow(
                    encoder,
                    later,
                    before,
                    group.entries,
                    layout[count - 1],
                    scope,
                    crate::ir::groups::paired(group, layout[count - 1]),
                );
            },
            None => {},
        }
    }
}

proof fn lemma_group_accesses_grow(
    encoder: EncoderView,
    later: TableView,
    layout: Seq<Seq<BindGroupLayoutEntry>>,
    bound: Seq<Option<BindGroupRef>>,
    scope: DrawScope,
)
    requires
        later.extends(encoder.resources),
        crate::ir::groups::group_accesses(encoder, layout, bound, scope) is Ok,
    ensures
        crate::ir::groups::group_accesses(encoder.against(later), layout, bound, scope)
            == crate::ir::groups::group_accesses(encoder, layout, bound, scope),
{
    lemma_groups_grow(encoder, later, layout, bound, scope, layout.len());
    let uses = crate::ir::groups::use_groups(encoder, layout, bound, scope, layout.len())->Ok_0;
    let earlier = encoder.resources;
    let before = crate::ir::groups::accesses_of(earlier, uses, scope.fetched);
    let after = crate::ir::groups::accesses_of(later, uses, scope.fetched);
    assert forall|i: int, part: ResourcePart| 0 <= i < uses.len() implies (
    #[trigger] crate::ir::groups::use_covers(later, uses[i], part))
        == crate::ir::groups::use_covers(earlier, uses[i], part) by {
        assert(same_parts(earlier, later, uses[i].resource));
    }
    assert forall|part: ResourcePart| before.used.contains(part) == after.used.contains(part) by {
        if before.used.contains(part) && !(exists|i: int|
            0 <= i < scope.fetched.len() && part == ResourcePart::Buffer(
                (#[trigger] scope.fetched[i]).id(),
            )) {
            let i = choose|i: int|
                0 <= i < uses.len() && crate::ir::groups::use_covers(
                    earlier,
                    #[trigger] uses[i],
                    part,
                );
            assert(crate::ir::groups::use_covers(later, uses[i], part));
        }
        if after.used.contains(part) && !(exists|i: int|
            0 <= i < scope.fetched.len() && part == ResourcePart::Buffer(
                (#[trigger] scope.fetched[i]).id(),
            )) {
            let i = choose|i: int|
                0 <= i < uses.len() && crate::ir::groups::use_covers(
                    later,
                    #[trigger] uses[i],
                    part,
                );
            assert(crate::ir::groups::use_covers(earlier, uses[i], part));
        }
    }
    assert forall|part: ResourcePart| before.writes.contains(part) == after.writes.contains(
        part,
    ) by {
        if before.writes.contains(part) {
            let i = choose|i: int|
                0 <= i < uses.len() && (#[trigger] uses[i]).writes
                    && crate::ir::groups::use_covers(earlier, uses[i], part);
            assert(crate::ir::groups::use_covers(later, uses[i], part));
        }
        if after.writes.contains(part) {
            let i = choose|i: int|
                0 <= i < uses.len() && (#[trigger] uses[i]).writes
                    && crate::ir::groups::use_covers(later, uses[i], part);
            assert(crate::ir::groups::use_covers(earlier, uses[i], part));
        }
    }
    assert(before.used =~= after.used);
    assert(before.writes =~= after.writes);
}

proof fn lemma_vertex_slots_grow(
    state: RenderStateView,
    encoder: EncoderView,
    later: TableView,
    buffers: Seq<VertexBufferLayoutView>,
    shape: DrawShape,
    count: nat,
)
    requires
        later.extends(encoder.resources),
        state.check_vertex_slots(encoder, buffers, shape, count) is Ok,
    ensures
        state.check_vertex_slots(encoder.against(later), buffers, shape, count) is Ok,
    decreases count,
{
    if count > 0 {
        lemma_vertex_slots_grow(state, encoder, later, buffers, shape, (count - 1) as nat);
        crate::ir::table::law_growth_keeps_definitions(encoder.resources, later);
    }
}

proof fn lemma_draw_grows(
    encoder: EncoderView,
    state: RenderStateView,
    later: TableView,
    shape: DrawShape,
    command: CommandView,
)
    requires
        grows(encoder.resources, later),
        state.consistent(encoder.resources),
    ensures
        render_alike(
            state.draw(encoder, shape, command),
            state.draw(encoder.against(later), shape, command),
            later,
        ),
{
    reveal(grows);
    crate::ir::table::law_growth_keeps_definitions(encoder.resources, later);
    if state.draw(encoder, shape, command) is Ok {
        match state.programmable_pipeline {
            Some(pipeline) => {
                let desc = encoder.resources.programmable_render_pipeline(pipeline)->Ok_0;
                let slots = desc.vertex_buffers.len();
                lemma_vertex_slots_grow(
                    state,
                    encoder,
                    later,
                    desc.vertex_buffers,
                    shape,
                    slots,
                );
                lemma_group_accesses_grow(
                    encoder,
                    later,
                    desc.layout.bind_groups,
                    state.bind_groups,
                    DrawScope {
                        attachments: state.unsampled_attachments(),
                        fetched: state.fetched_buffers(slots, shape.indexed),
                    },
                );
            },
            None => {
                assert(state.sampled_parts(later) == state.sampled_parts(encoder.resources));
            },
        }
    }
}

proof fn lemma_set_pipeline_grows_alike(
    encoder: EncoderView,
    state: RenderStateView,
    later: TableView,
    pipeline: RenderPipelineRef,
)
    requires
        grows(encoder.resources, later),
    ensures
        render_alike(
            state.set_pipeline(encoder, pipeline),
            state.set_pipeline(encoder.against(later), pipeline),
            later,
        ),
{
    lemma_render_pipeline_grows(encoder.resources, later, pipeline);
}

proof fn lemma_set_programmable_pipeline_grows_alike(
    encoder: EncoderView,
    state: RenderStateView,
    later: TableView,
    pipeline: ProgrammableRenderPipelineRef,
)
    requires
        grows(encoder.resources, later),
    ensures
        render_alike(
            state.set_programmable_pipeline(encoder, pipeline),
            state.set_programmable_pipeline(encoder.against(later), pipeline),
            later,
        ),
{
    lemma_programmable_render_pipeline_grows(encoder.resources, later, pipeline);
}

proof fn lemma_set_bind_group_grows_alike(
    encoder: EncoderView,
    state: RenderStateView,
    later: TableView,
    index: u32,
    bind_group: BindGroupRef,
)
    requires
        grows(encoder.resources, later),
    ensures
        render_alike(
            state.set_bind_group(encoder, index, bind_group),
            state.set_bind_group(encoder.against(later), index, bind_group),
            later,
        ),
{
    lemma_bind_group_grows(encoder.resources, later, bind_group);
}

proof fn lemma_bind_vertex_buffer_grows_alike(
    encoder: EncoderView,
    state: RenderStateView,
    later: TableView,
    slot: u32,
    buffer: BufferRef,
    offset: u64,
    command: CommandView,
)
    requires
        grows(encoder.resources, later),
    ensures
        render_alike(
            state.bind_vertex_buffer(encoder, slot, buffer, offset, command),
            state.bind_vertex_buffer(encoder.against(later), slot, buffer, offset, command),
            later,
        ),
{
    lemma_buffer_grows(encoder.resources, later, buffer);
}

proof fn lemma_set_index_buffer_grows_alike(
    encoder: EncoderView,
    state: RenderStateView,
    later: TableView,
    buffer: BufferRef,
    offset: u64,
    format: IndexFormat,
)
    requires
        grows(encoder.resources, later),
    ensures
        render_alike(
            state.set_index_buffer(encoder, buffer, offset, format),
            state.set_index_buffer(encoder.against(later), buffer, offset, format),
            later,
        ),
{
    lemma_buffer_grows(encoder.resources, later, buffer);
}

proof fn lemma_set_texture_grows_alike(
    encoder: EncoderView,
    state: RenderStateView,
    later: TableView,
    texture: TextureRef,
)
    requires
        grows(encoder.resources, later),
    ensures
        render_alike(
            state.set_texture(encoder, texture),
            state.set_texture(encoder.against(later), texture),
            later,
        ),
{
    lemma_texture_grows(encoder.resources, later, texture);
}

proof fn lemma_set_sampler_grows_alike(
    encoder: EncoderView,
    state: RenderStateView,
    later: TableView,
    sampler: SamplerRef,
)
    requires
        grows(encoder.resources, later),
    ensures
        render_alike(
            state.set_sampler(encoder, sampler),
            state.set_sampler(encoder.against(later), sampler),
            later,
        ),
{
    lemma_sampler_grows(encoder.resources, later, sampler);
}

proof fn lemma_set_push_constants_grows_alike(
    encoder: EncoderView,
    state: RenderStateView,
    later: TableView,
    stages: ShaderStages,
    offset: u32,
    data: Seq<u8>,
)
    requires
        grows(encoder.resources, later),
    ensures
        render_alike(
            state.set_push_constants(encoder, stages, offset, data),
            state.set_push_constants(encoder.against(later), stages, offset, data),
            later,
        ),
{
    if state.programmable_pipeline is Some {
        lemma_programmable_render_pipeline_grows(
            encoder.resources,
            later,
            state.programmable_pipeline->0,
        );
    }
}

proof fn lemma_set_viewport_grows_alike(
    encoder: EncoderView,
    state: RenderStateView,
    later: TableView,
    viewport: Viewport,
)
    requires
        grows(encoder.resources, later),
    ensures
        render_alike(
            state.set_viewport(encoder, viewport),
            state.set_viewport(encoder.against(later), viewport),
            later,
        ),
{
    lemma_texture_grows(encoder.resources, later, state.desc.colors[0].target);
}

proof fn lemma_bindings_replay_alike(
    encoder: EncoderView,
    state: RenderStateView,
    later: TableView,
    command: OwnedCommand,
)
    requires
        grows(encoder.resources, later),
        !draws(command),
    ensures
        replay_alike(
            crate::ir::owned::replay_render(encoder, state, command),
            crate::ir::owned::replay_render(encoder.against(later), state, command),
            later,
        ),
{
    reveal(crate::ir::owned::replay_render);
    let table = encoder.resources;
    match command {
        OwnedCommand::SetPipeline(pipeline) => {
            lemma_render_pipeline_ref_grows(table, later, pipeline);
            if table.render_pipeline_ref(pipeline) is Ok {
                let found = table.render_pipeline_ref(pipeline)->Ok_0;
                lemma_set_pipeline_grows_alike(encoder, state, later, found);
            }
        },
        OwnedCommand::SetProgrammablePipeline(pipeline) => {
            lemma_programmable_render_pipeline_ref_grows(table, later, pipeline);
            if table.programmable_render_pipeline_ref(pipeline) is Ok {
                let found = table.programmable_render_pipeline_ref(pipeline)->Ok_0;
                lemma_set_programmable_pipeline_grows_alike(encoder, state, later, found);
            }
        },
        OwnedCommand::SetBindGroup { index, bind_group } => {
            lemma_bind_group_ref_grows(table, later, bind_group);
            if table.bind_group_ref(bind_group) is Ok {
                let found = table.bind_group_ref(bind_group)->Ok_0;
                lemma_set_bind_group_grows_alike(encoder, state, later, index, found);
            }
        },
        OwnedCommand::SetVertexBuffer { buffer, offset } => {
            lemma_buffer_ref_grows(table, later, buffer);
            if table.buffer_ref(buffer) is Ok {
                let found = table.buffer_ref(buffer)->Ok_0;
                lemma_bind_vertex_buffer_grows_alike(
                    encoder,
                    state,
                    later,
                    0,
                    found,
                    offset,
                    CommandView::SetVertexBuffer { buffer: found, offset },
                );
            }
        },
        OwnedCommand::SetVertexBufferSlot { slot, buffer, offset } => {
            lemma_buffer_ref_grows(table, later, buffer);
            if table.buffer_ref(buffer) is Ok {
                let found = table.buffer_ref(buffer)->Ok_0;
                lemma_bind_vertex_buffer_grows_alike(
                    encoder,
                    state,
                    later,
                    slot,
                    found,
                    offset,
                    CommandView::SetVertexBufferSlot { slot, buffer: found, offset },
                );
            }
        },
        OwnedCommand::SetIndexBuffer { buffer, offset, format } => {
            lemma_buffer_ref_grows(table, later, buffer);
            if table.buffer_ref(buffer) is Ok {
                let found = table.buffer_ref(buffer)->Ok_0;
                lemma_set_index_buffer_grows_alike(encoder, state, later, found, offset, format);
            }
        },
        OwnedCommand::SetTexture(texture) => {
            lemma_texture_ref_grows(table, later, texture);
            if table.texture_ref(texture) is Ok {
                let found = table.texture_ref(texture)->Ok_0;
                lemma_set_texture_grows_alike(encoder, state, later, found);
            }
        },
        OwnedCommand::SetSampler(sampler) => {
            lemma_sampler_ref_grows(table, later, sampler);
            if table.sampler_ref(sampler) is Ok {
                let found = table.sampler_ref(sampler)->Ok_0;
                lemma_set_sampler_grows_alike(encoder, state, later, found);
            }
        },
        OwnedCommand::SetPushConstants { stages, offset, data } => {
            lemma_set_push_constants_grows_alike(encoder, state, later, stages, offset, data@);
        },
        OwnedCommand::SetViewport(viewport) => {
            lemma_set_viewport_grows_alike(encoder, state, later, viewport);
        },
        _ => {},
    }
}

/// Whether a command draws.
spec fn draws(command: OwnedCommand) -> bool {
    command is Draw || command is DrawInstanced || command is DrawIndexed
        || command is DrawIndexedInstanced
}

proof fn lemma_render_grows(
    encoder: EncoderView,
    state: RenderStateView,
    later: TableView,
    command: OwnedCommand,
)
    requires
        grows(encoder.resources, later),
        state.consistent(encoder.resources),
    ensures
        replay_alike(
            crate::ir::owned::replay_render(encoder, state, command),
            crate::ir::owned::replay_render(encoder.against(later), state, command),
            later,
        ),
{
    if !draws(command) {
        lemma_bindings_replay_alike(encoder, state, later, command);
    } else {
        lemma_draws_replay_alike(encoder, state, later, command);
    }
}

proof fn lemma_draws_replay_alike(
    encoder: EncoderView,
    state: RenderStateView,
    later: TableView,
    command: OwnedCommand,
)
    requires
        grows(encoder.resources, later),
        state.consistent(encoder.resources),
        draws(command),
    ensures
        replay_alike(
            crate::ir::owned::replay_render(encoder, state, command),
            crate::ir::owned::replay_render(encoder.against(later), state, command),
            later,
        ),
{
    reveal(crate::ir::owned::replay_render);
    match command {
        OwnedCommand::Draw { vertex_count, first_vertex } => {
            lemma_draw_grows(
                encoder,
                state,
                later,
                DrawShape { count: vertex_count, first: first_vertex, indexed: false },
                CommandView::Draw { vertex_count, first_vertex },
            );
        },
        OwnedCommand::DrawInstanced {
            vertex_count,
            first_vertex,
            instance_count,
            first_instance,
        } => {
            lemma_draw_grows(
                encoder,
                state,
                later,
                DrawShape { count: vertex_count, first: first_vertex, indexed: false },
                CommandView::DrawInstanced {
                    vertex_count,
                    first_vertex,
                    instance_count,
                    first_instance,
                },
            );
        },
        OwnedCommand::DrawIndexed { index_count, first_index, base_vertex } => {
            lemma_draw_grows(
                encoder,
                state,
                later,
                DrawShape { count: index_count, first: first_index, indexed: true },
                CommandView::DrawIndexed { index_count, first_index, base_vertex },
            );
        },
        OwnedCommand::DrawIndexedInstanced {
            index_count,
            first_index,
            base_vertex,
            instance_count,
            first_instance,
        } => {
            lemma_draw_grows(
                encoder,
                state,
                later,
                DrawShape { count: index_count, first: first_index, indexed: true },
                CommandView::DrawIndexedInstanced {
                    index_count,
                    first_index,
                    base_vertex,
                    instance_count,
                    first_instance,
                },
            );
        },
        _ => {},
    }
}

proof fn lemma_compute_grows(
    encoder: EncoderView,
    state: ComputeStateView,
    later: TableView,
    command: OwnedCommand,
)
    requires
        grows(encoder.resources, later),
    ensures
        replay_alike(
            crate::ir::owned::replay_compute(encoder, state, command),
            crate::ir::owned::replay_compute(encoder.against(later), state, command),
            later,
        ),
{
    reveal(grows);
    reveal(crate::ir::owned::replay_compute);
    crate::ir::table::law_growth_keeps_definitions(encoder.resources, later);
    if crate::ir::owned::replay_compute(encoder, state, command) is Ok {
        match command {
            OwnedCommand::Dispatch { x, y, z } => {
                let desc = encoder.resources.compute_pipeline(state.pipeline->0)->Ok_0;
                lemma_group_accesses_grow(
                    encoder,
                    later,
                    desc.layout.bind_groups,
                    state.bind_groups,
                    DrawScope { attachments: Seq::empty(), fetched: Seq::empty() },
                );
            },
            _ => {},
        }
    }
}

proof fn lemma_replay_grows(
    earlier: TableView,
    later: TableView,
    commands: Seq<OwnedCommand>,
    count: nat,
)
    requires
        grows(earlier, later),
    ensures
        replay_alike(
            crate::ir::owned::replay(earlier, commands, count),
            crate::ir::owned::replay(later, commands, count),
            later,
        ),
    decreases count,
{
    if count > 0 {
        let before = crate::ir::owned::replay(earlier, commands, (count - 1) as nat);
        lemma_replay_grows(earlier, later, commands, (count - 1) as nat);
        crate::ir::recording::law_replays_are_consistent(earlier, commands, (count - 1) as nat);
        if before is Ok {
            match before->Ok_0 {
                ReplayView::Outside(encoder) => {
                    lemma_outside_grows(encoder, later, commands[count - 1]);
                },
                ReplayView::Render(encoder, state) => {
                    lemma_render_grows(encoder, state, later, commands[count - 1]);
                },
                ReplayView::Compute(encoder, state) => {
                    lemma_compute_grows(encoder, state, later, commands[count - 1]);
                },
            }
        }
    }
}

/// A recording that is valid against a table stays valid as the table grows, and
/// becomes the same commands.
pub proof fn law_recordings_survive_growth(
    earlier: TableView,
    later: TableView,
    commands: Seq<OwnedCommand>,
)
    requires
        later.extends(earlier),
    ensures
        crate::ir::owned::replayed(earlier, commands) matches Ok(buffer)
            ==> crate::ir::owned::replayed(later, commands) == Ok::<CommandBufferView, Error>(
            CommandBufferView { resources: later, commands: buffer.commands },
        ),
{
    reveal(grows);
    lemma_replay_grows(earlier, later, commands, commands.len());
    crate::ir::recording::law_replays_are_consistent(earlier, commands, commands.len());
}

} // verus!
