//! What holds of every plan and of everything that is retained.

use crate::driver::{DrawView, IrRect, SubmissionView, VertexView, MAX_IR_VERTICES};
use crate::ir::command::CommandView;
use crate::ir::table::{TableView, TextureId};
use crate::ir_execute::buffers::UpdateView;
use crate::ir_execute::draw::{ActiveView, DrawState};
use crate::ir_execute::plan::{EventView, ExecutionTarget, PlanView};
use crate::ir_execute::resources::{Image, ResourcesView};
use vstd::prelude::*;

verus! {

/// Whether a rectangle lies within another.
pub open spec fn rect_inside(inner: IrRect, outer: IrRect) -> bool {
    &&& outer.x <= inner.x
    &&& outer.y <= inner.y
    &&& inner.right() <= outer.right()
    &&& inner.bottom() <= outer.bottom()
}

/// Whether draws take the vertices in order, whole triangles at a time, without a
/// gap and without an overlap.
pub open spec fn draws_partition(draws: Seq<DrawView>, vertex_count: nat) -> bool
    decreases draws.len(),
{
    if draws.len() == 0 {
        vertex_count == 0
    } else {
        let last = draws.last();
        &&& last.vertex_count != 0
        &&& last.vertex_count % 3 == 0
        &&& last.start_vertex + last.vertex_count == vertex_count
        &&& draws_partition(draws.drop_last(), last.start_vertex)
    }
}

/// Whether a draw stays within an area and has what its fragment program samples.
pub open spec fn draw_fits(draw: DrawView, area: IrRect) -> bool {
    &&& rect_inside(draw.scissor, area)
    &&& draw.texture is Some == draw.pipeline.fragment.samples()
    &&& draw.sampler is Some == draw.pipeline.fragment.samples()
    &&& draw.texture matches Some(texture) ==> texture.sampled
}

/// Whether an area lies within a target.
pub open spec fn area_fits(target: ExecutionTarget, area: IrRect) -> bool {
    match target {
        ExecutionTarget::Mapped(image) => area.right() <= image.width && area.bottom()
            <= image.height,
        ExecutionTarget::Internal(texture) => area.right() <= texture.width && area.bottom()
            <= texture.height,
    }
}

/// What every planned pass keeps.
pub open spec fn pass_fits(target: ExecutionTarget, submission: SubmissionView) -> bool {
    &&& submission.vertices.len() <= MAX_IR_VERTICES
    &&& draws_partition(submission.draws, submission.vertices.len())
    &&& area_fits(target, submission.render_area)
    &&& forall|i: int|
        0 <= i < submission.draws.len() ==> draw_fits(
            #[trigger] submission.draws[i],
            submission.render_area,
        )
}

/// What every step of a plan keeps.
pub open spec fn event_fits(event: EventView) -> bool {
    match event {
        EventView::Pass(target, submission) => submission.draws.len() != 0 && pass_fits(
            target,
            submission,
        ),
        EventView::Upload(texture, _) => texture.is_materializable(),
        EventView::Copy(copy) => copy.source.is_materializable()
            && copy.destination.is_materializable() && copy.source_rect.width
            == copy.destination_rect.width && copy.source_rect.height
            == copy.destination_rect.height && copy.source_rect.right() <= copy.source.width
            && copy.source_rect.bottom() <= copy.source.height && copy.destination_rect.right()
            <= copy.destination.width && copy.destination_rect.bottom() <= copy.destination.height,
    }
}

/// What every open pass keeps.
pub open spec fn active_fits(active: ActiveView) -> bool {
    &&& pass_fits(active.target, active.submission)
    &&& rect_inside(active.draw_area(), active.submission.render_area)
}

/// Whether no buffer is rewritten twice.
pub open spec fn distinct_updates(updates: Seq<UpdateView>) -> bool {
    forall|i: int, j: int|
        0 <= i < j < updates.len() ==> (#[trigger] updates[i]).slot != (#[trigger] updates[j]).slot
}

/// What every plan in the making keeps.
pub open spec fn plan_fits(plan: PlanView) -> bool {
    &&& forall|i: int| 0 <= i < plan.events.len() ==> event_fits(#[trigger] plan.events[i])
    &&& plan.active matches Some(active) ==> active_fits(active)
    &&& plan.active is Some ==> plan.seen_pass
    &&& distinct_updates(plan.updates)
}

/// Whether a command becomes a step of a plan.
pub open spec fn is_step(command: CommandView) -> bool {
    command is CopyTextureToTexture || command is WriteTexture || command is EndRenderPass
}

/// How many commands become steps.
pub open spec fn step_count(commands: Seq<CommandView>) -> nat
    decreases commands.len(),
{
    if commands.len() == 0 {
        0
    } else {
        step_count(commands.drop_last()) + if is_step(commands.last()) {
            1nat
        } else {
            0nat
        }
    }
}

proof fn lemma_find_update(updates: Seq<UpdateView>, slot: usize)
    ensures
        0 <= crate::ir_execute::buffers::find_update(updates, slot) <= updates.len(),
        forall|i: int|
            0 <= i < crate::ir_execute::buffers::find_update(updates, slot) ==> (
            #[trigger] updates[i]).slot != slot,
        crate::ir_execute::buffers::find_update(updates, slot) < updates.len()
            ==> updates[crate::ir_execute::buffers::find_update(updates, slot)].slot == slot,
    decreases updates.len(),
{
    if updates.len() > 0 && updates[0].slot != slot {
        lemma_find_update(updates.skip(1), slot);
        let at = crate::ir_execute::buffers::find_update(updates, slot);
        assert forall|i: int| 0 <= i < at implies (#[trigger] updates[i]).slot != slot by {
            if i > 0 {
                assert(updates[i] == updates.skip(1)[i - 1]);
            }
        }
    }
}

proof fn lemma_found_update(updates: Seq<UpdateView>, slot: usize, at: int)
    requires
        0 <= at < updates.len(),
        updates[at].slot == slot,
        distinct_updates(updates),
    ensures
        crate::ir_execute::buffers::find_update(updates, slot) == at,
{
    lemma_find_update(updates, slot);
    let found = crate::ir_execute::buffers::find_update(updates, slot);
    if found < at {
        assert(updates[found].slot != updates[at].slot);
    }
}

proof fn lemma_missing_update(updates: Seq<UpdateView>, slot: usize)
    requires
        forall|i: int| 0 <= i < updates.len() ==> (#[trigger] updates[i]).slot != slot,
    ensures
        crate::ir_execute::buffers::find_update(updates, slot) == updates.len(),
{
    lemma_find_update(updates, slot);
}

/// A write keeps one update for each buffer. Reading its buffer gives the written
/// bytes and the earlier ones around them, with zeros in a gap. Every other buffer
/// reads as before.
pub proof fn law_written_bytes_are_read(
    updates: Seq<UpdateView>,
    resources: ResourcesView,
    slot: usize,
    offset: int,
    data: Seq<u8>,
    other: usize,
)
    requires
        distinct_updates(updates),
        0 <= offset,
    ensures
        ({
            let after = crate::ir_execute::buffers::updated(updates, resources, slot, offset, data);
            let earlier = crate::ir_execute::buffers::contents(updates, resources, slot);
            &&& distinct_updates(after)
            &&& crate::ir_execute::buffers::contents(after, resources, slot) matches Some(bytes) && {
                &&& bytes.len() >= offset + data.len()
                &&& bytes.subrange(offset, offset + data.len()) == data
                &&& forall|i: int|
                    0 <= i < bytes.len() && !(offset <= i < offset + data.len()) ==> (
                    #[trigger] bytes[i]) == (if earlier is Some && i < earlier->0.len() {
                        earlier->0[i]
                    } else {
                        0
                    })
            }
            &&& other != slot ==> crate::ir_execute::buffers::contents(after, resources, other)
                == crate::ir_execute::buffers::contents(updates, resources, other)
        }),
{
    let after = crate::ir_execute::buffers::updated(updates, resources, slot, offset, data);
    let at = crate::ir_execute::buffers::find_update(updates, slot);
    lemma_find_update(updates, slot);
    lemma_found_update(after, slot, at);
    let bytes = crate::ir_execute::buffers::contents(after, resources, slot)->0;
    assert(bytes.subrange(offset, offset + data.len()) =~= data);
    if other != slot {
        let place = crate::ir_execute::buffers::find_update(updates, other);
        lemma_find_update(updates, other);
        if place < updates.len() {
            assert(after[place] == updates[place]);
            lemma_found_update(after, other, place);
        } else {
            lemma_missing_update(after, other);
        }
    }
}

/// Once all updates are kept, every buffer that has a place reads as the plan read it.
pub proof fn law_committed_updates_are_retained(
    resources: ResourcesView,
    updates: Seq<UpdateView>,
    slot: usize,
)
    requires
        distinct_updates(updates),
        slot < resources.shadows.len(),
    ensures
        resources.commit(updates).shadow(slot) == crate::ir_execute::buffers::contents(
            updates,
            resources,
            slot,
        ),
        resources.commit(updates).shadows.len() == resources.shadows.len(),
        resources.commit(updates).images == resources.images,
    decreases updates.len(),
{
    if updates.len() > 0 {
        let earlier = updates.drop_last();
        law_committed_updates_are_retained(resources, earlier, slot);
        lemma_find_update(updates, slot);
        lemma_find_update(earlier, slot);
        let at = crate::ir_execute::buffers::find_update(earlier, slot);
        if updates.last().slot == slot {
            lemma_found_update(updates, slot, updates.len() - 1);
        } else if at < earlier.len() {
            assert(updates[at] == earlier[at]);
            lemma_found_update(updates, slot, at);
        } else {
            assert forall|i: int| 0 <= i < updates.len() implies (#[trigger] updates[i]).slot
                != slot by {
                if i < earlier.len() {
                    assert(updates[i] == earlier[i]);
                }
            }
            lemma_missing_update(updates, slot);
        }
    }
}

/// A mapped image stands for its texture and for no other, and every other texture
/// keeps its image.
pub proof fn law_mapped_images_stand_for_their_textures(
    resources: ResourcesView,
    table: TableView,
    texture: TextureId,
    image: Image,
    other: TextureId,
)
    requires
        resources.valid(),
    ensures
        resources.map_image(table, texture, image) matches Ok(next) ==> next.valid()
            && next.image_of(texture) == Some(image) && (other != texture ==> next.image_of(other)
            == resources.image_of(other)),
{
    if resources.map_image(table, texture, image) is Ok {
        let next = resources.map_image(table, texture, image)->Ok_0;
        let last = resources.images.len() as int;
        assert(next.images[last].texture == texture);
        assert forall|i: int, j: int| 0 <= i < j < next.images.len() implies (
        #[trigger] next.images[i]).texture != (#[trigger] next.images[j]).texture by {
            assert(next.images[i] == resources.images[i]);
            if j < last {
                assert(next.images[j] == resources.images[j]);
            }
        }
        assert forall|i: int, j: int| 0 <= i < j < next.images.len() implies (
        #[trigger] next.images[i]).image != (#[trigger] next.images[j]).image by {
            assert(next.images[i] == resources.images[i]);
            if j < last {
                assert(next.images[j] == resources.images[j]);
            }
        }
        if other != texture {
            if resources.maps(other) {
                let i = choose|i: int|
                    0 <= i < resources.images.len() && (#[trigger] resources.images[i]).texture
                        == other;
                assert(next.images[i] == resources.images[i]);
                let j = choose|j: int|
                    0 <= j < next.images.len() && (#[trigger] next.images[j]).texture == other;
                assert(next.images[j].texture == other);
                assert(i == j);
            } else if next.maps(other) {
                let j = choose|j: int|
                    0 <= j < next.images.len() && (#[trigger] next.images[j]).texture == other;
                assert(next.images[j] == resources.images[j]);
            }
        }
    }
}

proof fn lemma_appended_draw(active: ActiveView, state: DrawState, vertices: Seq<VertexView>)
    requires
        active_fits(active),
        vertices.len() != 0,
        vertices.len() % 3 == 0,
        state.texture is Some == state.info.state.fragment.samples(),
        state.sampler is Some == state.info.state.fragment.samples(),
        state.texture matches Some(texture) ==> texture.sampled,
    ensures
        active.append_draw(state, vertices) matches Ok(next) ==> active_fits(next),
{
    if active.append_draw(state, vertices) is Ok {
        let next = active.append_draw(state, vertices)->Ok_0;
        assert(next.submission.draws.drop_last() =~= active.submission.draws);
        assert forall|i: int| 0 <= i < next.submission.draws.len() implies draw_fits(
            #[trigger] next.submission.draws[i],
            next.submission.render_area,
        ) by {
            if i < active.submission.draws.len() {
                assert(next.submission.draws[i] == active.submission.draws[i]);
            }
        }
    }
}

proof fn lemma_step_keeps_plans(
    plan: PlanView,
    resources: ResourcesView,
    table: TableView,
    command: CommandView,
)
    requires
        plan_fits(plan),
    ensures
        plan.step(resources, table, command) matches Ok(next) ==> plan_fits(next)
            && next.events.len() == plan.events.len() + (if is_step(command) {
            1int
        } else {
            0
        }) && plan.events.is_prefix_of(next.events),
{
    if plan.step(resources, table, command) is Ok {
        let next = plan.step(resources, table, command)->Ok_0;
        assert forall|i: int| 0 <= i < next.events.len() implies event_fits(
            #[trigger] next.events[i],
        ) by {
            if i < plan.events.len() {
                assert(next.events[i] == plan.events[i]);
            }
        }
        match plan.active {
            None => {
                match command {
                    CommandView::WriteBuffer { buffer, offset, data } => {
                        law_written_bytes_are_read(
                            plan.updates,
                            resources,
                            buffer@.index,
                            offset as int,
                            data,
                            0,
                        );
                    },
                    _ => {},
                }
            },
            Some(pass) => {
                match command {
                    CommandView::Draw { vertex_count, first_vertex } => {
                        let state = pass.draw_state(table)->Ok_0;
                        let vertices = crate::ir_execute::draw::spec_decode_vertices(
                            resources,
                            plan.updates,
                            table,
                            state,
                            first_vertex,
                            vertex_count,
                        )->Ok_0;
                        lemma_appended_draw(pass, state, vertices);
                    },
                    CommandView::DrawIndexed { index_count, first_index, base_vertex } => {
                        let state = pass.draw_state(table)->Ok_0;
                        let vertices = crate::ir_execute::draw::spec_decode_indexed(
                            resources,
                            plan.updates,
                            table,
                            state,
                            pass.index_buffer->0,
                            first_index,
                            index_count,
                            base_vertex,
                        )->Ok_0;
                        lemma_appended_draw(pass, state, vertices);
                    },
                    _ => {},
                }
            },
        }
    }
}

/// Plans in the making keep their invariant and have one step for each copy, each
/// texture upload and each finished pass.
pub proof fn law_plans_have_one_step_per_command(
    resources: ResourcesView,
    table: TableView,
    commands: Seq<CommandView>,
)
    ensures
        PlanView::after(resources, table, commands) matches Ok(plan) ==> plan_fits(plan)
            && plan.events.len() == step_count(commands),
    decreases commands.len(),
{
    if commands.len() > 0 {
        law_plans_have_one_step_per_command(resources, table, commands.drop_last());
        let before = PlanView::after(resources, table, commands.drop_last());
        if before is Ok {
            lemma_step_keeps_plans(before->Ok_0, resources, table, commands.last());
        }
    }
}

/// The steps of the first commands are the first steps.
pub proof fn law_steps_keep_command_order(
    resources: ResourcesView,
    table: TableView,
    commands: Seq<CommandView>,
    count: int,
)
    requires
        0 <= count <= commands.len(),
    ensures
        PlanView::after(resources, table, commands) matches Ok(plan) ==> (PlanView::after(
            resources,
            table,
            commands.take(count),
        ) matches Ok(earlier) && earlier.events.is_prefix_of(plan.events)),
    decreases commands.len(),
{
    if count == commands.len() {
        assert(commands.take(count) =~= commands);
    } else {
        law_steps_keep_command_order(resources, table, commands.drop_last(), count);
        assert(commands.drop_last().take(count) =~= commands.take(count));
        law_plans_have_one_step_per_command(resources, table, commands.drop_last());
        let before = PlanView::after(resources, table, commands.drop_last());
        if before is Ok {
            lemma_step_keeps_plans(before->Ok_0, resources, table, commands.last());
        }
    }
}

/// Every pass of a plan draws something and stays within its target and its area,
/// its draws take its vertices in order and whole, and copies stay within their
/// textures.
pub proof fn law_planned_steps_fit(
    resources: ResourcesView,
    table: TableView,
    commands: Seq<CommandView>,
)
    ensures
        crate::ir_execute::plan::spec_plan(resources, table, commands) matches Ok(plan)
            ==> plan.events.len() == step_count(commands) && plan.events.len() != 0
            && distinct_updates(plan.buffer_updates) && forall|i: int|
            0 <= i < plan.events.len() ==> event_fits(#[trigger] plan.events[i]),
{
    law_plans_have_one_step_per_command(resources, table, commands);
}

} // verus!
