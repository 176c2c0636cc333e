//! What the stream of a pass creates before it draws, and what it draws as a whole.

use crate::driver::{DrawView, IrPipelineState, IrSamplerState, IrTextureSpec, SubmissionView, UploadView};
use crate::virgl::device::Device;
use crate::virgl::resources::{DeviceView, IrPipeline, PassInterruption};
use crate::virgl::state::Context;
use crate::virgl::target::{IrPassTarget, PreparationView, PreparedPass};
use vstd::prelude::*;

verus! {

/// Whether no two pipelines, no two samplers and no two textures share the handle of an
/// object, and all handles of pipelines and samplers were handed out.
pub open spec fn handles_kept(context: Context, resources: DeviceView) -> bool {
    &&& forall|i: int|
        0 <= i < resources.pipelines.len() && (#[trigger] resources.pipelines[i]) is Some
            ==> resources.pipelines[i]->0.blend_handle < context.next_object_handle
            && resources.pipelines[i]->0.rasterizer_handle < context.next_object_handle
    &&& forall|i: int, j: int|
        0 <= i < j < resources.pipelines.len() && (#[trigger] resources.pipelines[i]) is Some && (
        #[trigger] resources.pipelines[j]) is Some ==> resources.pipelines[i]->0.blend_handle
            != resources.pipelines[j]->0.blend_handle && resources.pipelines[i]->0.rasterizer_handle
            != resources.pipelines[j]->0.rasterizer_handle
    &&& forall|i: int|
        0 <= i < resources.samplers.len() && (#[trigger] resources.samplers[i]) is Some
            ==> resources.samplers[i]->0.handle < context.next_object_handle
    &&& forall|i: int, j: int|
        0 <= i < j < resources.samplers.len() && (#[trigger] resources.samplers[i]) is Some && (
        #[trigger] resources.samplers[j]) is Some ==> resources.samplers[i]->0.handle
            != resources.samplers[j]->0.handle
    &&& forall|i: int, j: int|
        0 <= i < j < resources.textures.len() && (#[trigger] resources.textures[i]) is Some && (
        #[trigger] resources.textures[j]) is Some
            ==> resources.textures[i]->0.sampler_view_handle()
            != resources.textures[j]->0.sampler_view_handle()
}

/// Whether a device has the objects of a pipeline.
pub open spec fn pipeline_exists(device: Device, pipeline: IrPipeline) -> bool {
    &&& device.blends[pipeline.blend_handle] == crate::virgl::encoding::blend_word(
        pipeline.state.blend,
    )
    &&& device.rasterizers[pipeline.rasterizer_handle]
        == crate::virgl::encoding::ir_rasterizer_flags(
        pipeline.state.cull_mode,
        pipeline.state.front_face,
    )
}

/// Whether a device has the objects of resources that are noted as existing, and of
/// those in some lists.
pub open spec fn objects_exist(
    device: Device,
    resources: DeviceView,
    pipelines: Seq<usize>,
    samplers: Seq<usize>,
    views: Seq<usize>,
) -> bool {
    &&& forall|i: int|
        0 <= i < resources.pipelines.len() && i <= usize::MAX && (
        #[trigger] resources.pipelines[i]) is Some && (resources.pipelines[i]->0.initialized
            || pipelines.contains(i as usize)) ==> pipeline_exists(
            device,
            resources.pipelines[i]->0,
        )
    &&& forall|i: int|
        0 <= i < resources.samplers.len() && i <= usize::MAX && (
        #[trigger] resources.samplers[i]) is Some && (resources.samplers[i]->0.initialized
            || samplers.contains(i as usize))
            ==> device.samplers[resources.samplers[i]->0.handle]
            == crate::virgl::encoding::sampler_word(resources.samplers[i]->0.state)
    &&& forall|i: int|
        0 <= i < resources.textures.len() && i <= usize::MAX && (
        #[trigger] resources.textures[i]) is Some && (
        resources.textures[i]->0.sampler_view_initialized() || views.contains(i as usize))
            ==> device.views[resources.textures[i]->0.sampler_view_handle()]
            == resources.textures[i]->0.resource_id()
}

/// What a preparation keeps on a device that obeyed its words.
spec fn ready(device: Device, target: IrPassTarget, preparation: PreparationView) -> bool {
    let after = device.run(preparation.words);
    &&& crate::virgl::protocol::framed(preparation.words)
    &&& after.work == device.work
    &&& after.surfaces[target.surface_handle] == target.resource_id
    &&& crate::virgl::drawing::programs_exist(after, preparation.resources.programs)
    &&& handles_kept(preparation.context, preparation.resources)
    &&& objects_exist(
        after,
        preparation.resources,
        preparation.pipelines,
        preparation.samplers,
        preparation.views,
    )
    &&& forall|slot: usize| #[trigger]
        preparation.pipelines.contains(slot) ==> crate::virgl::resources::in_slot(
            preparation.resources.pipelines,
            slot,
        ) is Some
    &&& forall|slot: usize| #[trigger]
        preparation.samplers.contains(slot) ==> crate::virgl::resources::in_slot(
            preparation.resources.samplers,
            slot,
        ) is Some
}

/// What later preparations keep of earlier ones.
spec fn extends(earlier: PreparationView, later: PreparationView) -> bool {
    &&& later.resources.textures == earlier.resources.textures
    &&& later.resources.programs == earlier.resources.programs
    &&& later.resources.vertex_resource_id == earlier.resources.vertex_resource_id
    &&& later.resources.pipelines.len() == earlier.resources.pipelines.len()
    &&& later.resources.samplers.len() == earlier.resources.samplers.len()
    &&& forall|i: int|
        0 <= i < earlier.resources.pipelines.len() && (#[trigger] earlier.resources.pipelines[i])
            is Some ==> later.resources.pipelines[i] == earlier.resources.pipelines[i]
    &&& forall|i: int|
        0 <= i < earlier.resources.samplers.len() && (#[trigger] earlier.resources.samplers[i])
            is Some ==> later.resources.samplers[i] == earlier.resources.samplers[i]
    &&& forall|slot: usize|
        #[trigger] earlier.pipelines.contains(slot) ==> later.pipelines.contains(slot)
    &&& forall|slot: usize|
        #[trigger] earlier.samplers.contains(slot) ==> later.samplers.contains(slot)
    &&& forall|slot: usize| #[trigger] earlier.views.contains(slot) ==> later.views.contains(slot)
}

/// Whether a preparation covers what a draw uses.
spec fn served(preparation: PreparationView, draw: DrawView) -> bool {
    let resources = preparation.resources;
    &&& crate::virgl::resources::in_slot(
        resources.pipelines,
        draw.pipeline.slot,
    ) matches Some(pipeline) && pipeline.state == draw.pipeline && (pipeline.initialized
        || preparation.pipelines.contains(draw.pipeline.slot))
    &&& draw.texture is Some && draw.sampler is Some ==> {
        &&& crate::virgl::resources::in_slot(
            resources.textures,
            draw.texture->0.slot,
        ) matches Some(texture) && (texture.sampler_view_initialized()
            || preparation.views.contains(draw.texture->0.slot))
        &&& crate::virgl::resources::in_slot(
            resources.samplers,
            draw.sampler->0.slot,
        ) matches Some(sampler) && sampler.state == draw.sampler->0 && (sampler.initialized
            || preparation.samplers.contains(draw.sampler->0.slot))
    }
}

proof fn lemma_contains_push(list: Seq<usize>, slot: usize)
    ensures
        forall|other: usize| #[trigger]
            list.push(slot).contains(other) <==> list.contains(other) || other == slot,
{
    let longer = list.push(slot);
    assert forall|other: usize| #[trigger] longer.contains(other) <==> list.contains(other) || other
        == slot by {
        if longer.contains(other) {
            let i = choose|i: int| 0 <= i < longer.len() && longer[i] == other;
            if i < list.len() {
                assert(list[i] == other);
            }
        }
        if list.contains(other) {
            let i = choose|i: int| 0 <= i < list.len() && list[i] == other;
            assert(longer[i] == other);
        }
        if other == slot {
            assert(longer[list.len() as int] == other);
        }
    }
}

proof fn lemma_extends_again(
    first: PreparationView,
    second: PreparationView,
    third: PreparationView,
)
    requires
        extends(first, second),
        extends(second, third),
    ensures
        extends(first, third),
{
    assert forall|i: int|
        0 <= i < first.resources.pipelines.len() && (#[trigger] first.resources.pipelines[i])
            is Some implies third.resources.pipelines[i] == first.resources.pipelines[i] by {
        assert(second.resources.pipelines[i] is Some);
    }
    assert forall|i: int|
        0 <= i < first.resources.samplers.len() && (#[trigger] first.resources.samplers[i])
            is Some implies third.resources.samplers[i] == first.resources.samplers[i] by {
        assert(second.resources.samplers[i] is Some);
    }
}

proof fn lemma_served_still(earlier: PreparationView, later: PreparationView, draw: DrawView)
    requires
        extends(earlier, later),
        served(earlier, draw),
    ensures
        served(later, draw),
{
    assert(earlier.resources.pipelines[draw.pipeline.slot as int] is Some);
    if draw.texture is Some && draw.sampler is Some {
        assert(earlier.resources.samplers[draw.sampler->0.slot as int] is Some);
    }
}

/// A texture that was found has its view.
proof fn lemma_texture(
    device: Device,
    target: IrPassTarget,
    preparation: PreparationView,
    spec: IrTextureSpec,
)
    requires
        ready(device, target, preparation),
    ensures
        ready(device, target, preparation.texture(spec).0),
        extends(preparation, preparation.texture(spec).0),
        preparation.texture(spec).1 is Ok ==> {
            let next = preparation.texture(spec).0;
            crate::virgl::resources::in_slot(next.resources.textures, spec.slot) matches Some(
                texture,
            ) && (texture.sampler_view_initialized() || next.views.contains(spec.slot))
        },
{
    let found = preparation.resources.ir_texture(spec);
    let middle = PreparationView { resources: found.0, ..preparation };
    let next = preparation.texture(spec).0;
    if let Ok(texture) = found.1 {
        if !(texture.sampler_view_initialized() || preparation.views.contains(spec.slot)) {
            let handle = texture.sampler_view_handle();
            let words = crate::virgl::protocol::sampler_view_words(handle, texture.resource_id());
            let before = device.run(preparation.words);
            crate::virgl::device::lemma_sampler_view(before, handle, texture.resource_id());
            crate::virgl::device::lemma_in_order(device, preparation.words, words);
            lemma_contains_push(preparation.views, spec.slot);
            let after = before.run(words);
            let textures = next.resources.textures;
            assert forall|i: int|
                0 <= i < textures.len() && i <= usize::MAX && (#[trigger] textures[i]) is Some && (
                textures[i]->0.sampler_view_initialized() || next.views.contains(
                    i as usize,
                )) implies after.views[textures[i]->0.sampler_view_handle()]
                == textures[i]->0.resource_id() by {
                if i != spec.slot {
                    assert(textures[i]->0.sampler_view_handle() != handle) by {
                        assert(textures[spec.slot as int] is Some);
                    }
                }
            }
        }
    }
}

/// A pipeline that was found or made has its objects.
#[verifier::rlimit(40)]
proof fn lemma_pipeline(
    device: Device,
    target: IrPassTarget,
    preparation: PreparationView,
    state: IrPipelineState,
)
    requires
        ready(device, target, preparation),
    ensures
        ready(device, target, preparation.pipeline(state).0),
        extends(preparation, preparation.pipeline(state).0),
        preparation.pipeline(state).1 is Ok ==> {
            let next = preparation.pipeline(state).0;
            crate::virgl::resources::in_slot(next.resources.pipelines, state.slot) matches Some(
                pipeline,
            ) && pipeline.state == state && (pipeline.initialized || next.pipelines.contains(
                state.slot,
            ))
        },
{
    let found = preparation.resources.ir_pipeline(preparation.context, state);
    let middle = PreparationView { resources: found.0, context: found.1, ..preparation };
    let next = preparation.pipeline(state).0;
    let before = device.run(preparation.words);
    let pipelines = found.0.pipelines;
    assert(handles_kept(found.1, found.0)) by {
        let earlier = preparation.resources.pipelines;
        assert forall|i: int, j: int|
            0 <= i < j < pipelines.len() && (#[trigger] pipelines[i]) is Some && (
            #[trigger] pipelines[j]) is Some implies pipelines[i]->0.blend_handle
            != pipelines[j]->0.blend_handle && pipelines[i]->0.rasterizer_handle
            != pipelines[j]->0.rasterizer_handle by {
            if i != state.slot {
                assert(earlier[i] == pipelines[i]);
            }
            if j != state.slot {
                assert(earlier[j] == pipelines[j]);
            }
            if i == state.slot || j == state.slot {
                assert(earlier[state.slot as int] is Some || found.2 is Ok);
            }
        }
    }
    if let Ok(pipeline) = found.2 {
        if pipeline.initialized || preparation.pipelines.contains(state.slot) {
            assert(objects_exist(
                before,
                next.resources,
                next.pipelines,
                next.samplers,
                next.views,
            ));
        } else {
            let blend = crate::virgl::encoding::blend_word(pipeline.state.blend);
            let flags = crate::virgl::encoding::ir_rasterizer_flags(
                pipeline.state.cull_mode,
                pipeline.state.front_face,
            );
            let first = crate::virgl::protocol::blend_words(pipeline.blend_handle, blend);
            let second = crate::virgl::protocol::rasterizer_words(
                pipeline.rasterizer_handle,
                flags,
            );
            crate::virgl::device::lemma_blend(before, pipeline.blend_handle, blend);
            let between = before.run(first);
            crate::virgl::device::lemma_rasterizer(between, pipeline.rasterizer_handle, flags);
            let after = between.run(second);
            crate::virgl::device::lemma_in_order(before, first, second);
            crate::virgl::device::lemma_in_order(device, preparation.words, first + second);
            lemma_contains_push(preparation.pipelines, state.slot);
            assert forall|i: int|
                0 <= i < pipelines.len() && i <= usize::MAX && (#[trigger] pipelines[i]) is Some && (
                pipelines[i]->0.initialized || next.pipelines.contains(
                    i as usize,
                )) implies pipeline_exists(after, pipelines[i]->0) by {
                if i != state.slot {
                    assert(preparation.resources.pipelines[i] == pipelines[i]);
                    assert(pipelines[state.slot as int] is Some);
                    assert(pipelines[i]->0.blend_handle != pipeline.blend_handle);
                    assert(pipelines[i]->0.rasterizer_handle != pipeline.rasterizer_handle);
                }
            }
        }
    }
}

/// A sampler that was found or made has its object.
#[verifier::rlimit(40)]
proof fn lemma_sampler(
    device: Device,
    target: IrPassTarget,
    preparation: PreparationView,
    state: IrSamplerState,
)
    requires
        ready(device, target, preparation),
    ensures
        ready(device, target, preparation.sampler(state).0),
        extends(preparation, preparation.sampler(state).0),
        preparation.sampler(state).1 is Ok ==> {
            let next = preparation.sampler(state).0;
            crate::virgl::resources::in_slot(next.resources.samplers, state.slot) matches Some(
                sampler,
            ) && sampler.state == state && (sampler.initialized || next.samplers.contains(
                state.slot,
            ))
        },
{
    let found = preparation.resources.ir_sampler(preparation.context, state);
    let next = preparation.sampler(state).0;
    let before = device.run(preparation.words);
    let samplers = found.0.samplers;
    assert(handles_kept(found.1, found.0)) by {
        let earlier = preparation.resources.samplers;
        assert forall|i: int, j: int|
            0 <= i < j < samplers.len() && (#[trigger] samplers[i]) is Some && (
            #[trigger] samplers[j]) is Some implies samplers[i]->0.handle
            != samplers[j]->0.handle by {
            if i != state.slot {
                assert(earlier[i] == samplers[i]);
            }
            if j != state.slot {
                assert(earlier[j] == samplers[j]);
            }
            if i == state.slot || j == state.slot {
                assert(earlier[state.slot as int] is Some || found.2 is Ok);
            }
        }
    }
    if let Ok(sampler) = found.2 {
        if sampler.initialized || preparation.samplers.contains(state.slot) {
            assert(objects_exist(
                before,
                next.resources,
                next.pipelines,
                next.samplers,
                next.views,
            ));
        } else {
            let word = crate::virgl::encoding::sampler_word(sampler.state);
            let words = crate::virgl::protocol::sampler_state_words(sampler.handle, word);
            crate::virgl::device::lemma_sampler_state(before, sampler.handle, word);
            let after = before.run(words);
            crate::virgl::device::lemma_in_order(device, preparation.words, words);
            lemma_contains_push(preparation.samplers, state.slot);
            assert forall|i: int|
                0 <= i < samplers.len() && i <= usize::MAX && (#[trigger] samplers[i]) is Some && (
                samplers[i]->0.initialized || next.samplers.contains(
                    i as usize,
                )) implies after.samplers[samplers[i]->0.handle]
                == crate::virgl::encoding::sampler_word(samplers[i]->0.state) by {
                if i != state.slot {
                    assert(preparation.resources.samplers[i] == samplers[i]);
                    assert(samplers[state.slot as int] is Some);
                    assert(samplers[i]->0.handle != sampler.handle);
                }
            }
        }
    }
}

proof fn lemma_draw(
    device: Device,
    target: IrPassTarget,
    preparation: PreparationView,
    draw: DrawView,
    vertex_count: nat,
)
    requires
        ready(device, target, preparation),
    ensures
        ({
            let next = preparation.draw(target.width, target.height, draw, vertex_count);
            &&& ready(device, target, next.0)
            &&& extends(preparation, next.0)
            &&& next.1 is Ok ==> served(next.0, draw)
        }),
{
    lemma_pipeline(device, target, preparation, draw.pipeline);
    let first = preparation.pipeline(draw.pipeline);
    if draw.texture is Some && draw.sampler is Some {
        lemma_texture(device, target, first.0, draw.texture->0);
        let second = first.0.texture(draw.texture->0);
        lemma_sampler(device, target, second.0, draw.sampler->0);
        let third = second.0.sampler(draw.sampler->0);
        lemma_extends_again(preparation, first.0, second.0);
        lemma_extends_again(preparation, second.0, third.0);
        lemma_extends_again(first.0, second.0, third.0);
        if first.1 is Ok {
            assert(first.0.resources.pipelines[draw.pipeline.slot as int] is Some);
        }
    }
}

proof fn lemma_draws(
    device: Device,
    target: IrPassTarget,
    preparation: PreparationView,
    draws: Seq<DrawView>,
    vertex_count: nat,
)
    requires
        ready(device, target, preparation),
    ensures
        ({
            let next = preparation.draws(target.width, target.height, draws, vertex_count);
            &&& ready(device, target, next.0)
            &&& next.1 is Ok ==> forall|i: int|
                0 <= i < draws.len() ==> served(next.0, #[trigger] draws[i])
        }),
    decreases draws.len(),
{
    if draws.len() > 0 {
        let shorter = draws.drop_last();
        lemma_draws(device, target, preparation, shorter, vertex_count);
        let earlier = preparation.draws(target.width, target.height, shorter, vertex_count);
        if earlier.1 is Ok {
            lemma_draw(device, target, earlier.0, draws.last(), vertex_count);
            let next = earlier.0.draw(target.width, target.height, draws.last(), vertex_count);
            if next.1 is Ok {
                assert forall|i: int| 0 <= i < draws.len() implies served(
                    next.0,
                    #[trigger] draws[i],
                ) by {
                    if i < shorter.len() {
                        assert(shorter[i] == draws[i]);
                        lemma_served_still(earlier.0, next.0, draws[i]);
                    }
                }
            }
        }
    }
}

proof fn lemma_uploads(
    device: Device,
    target: IrPassTarget,
    preparation: PreparationView,
    uploads: Seq<UploadView>,
)
    requires
        ready(device, target, preparation),
    ensures
        ready(device, target, preparation.uploads(uploads).0),
    decreases uploads.len(),
{
    if uploads.len() > 0 {
        lemma_uploads(device, target, preparation, uploads.drop_last());
        let earlier = preparation.uploads(uploads.drop_last());
        if earlier.1 is Ok {
            lemma_texture(device, target, earlier.0, uploads.last().texture);
        }
    }
}

proof fn lemma_start(
    device: Device,
    context: Context,
    resources: DeviceView,
    target: IrPassTarget,
)
    requires
        crate::virgl::drawing::programs_distinct(resources.programs),
        handles_kept(context, resources),
        resources.initialized ==> crate::virgl::drawing::programs_exist(device, resources.programs),
        target.surface_initialized ==> device.surfaces[target.surface_handle]
            == target.resource_id,
        objects_exist(device, resources, Seq::empty(), Seq::empty(), Seq::empty()),
    ensures
        ready(device, target, crate::virgl::target::preparation(context, resources, target)),
{
    let nothing = Seq::<u32>::empty();
    let part0 = if resources.initialized {
        nothing
    } else {
        crate::virgl::target::ir_setup_words(resources.programs)
    };
    crate::virgl::drawing::law_passes_create_their_programs(device, resources.programs);
    assert(device.run(nothing) == device);
    let device0 = device.run(part0);
    assert(crate::virgl::protocol::framed(part0));
    let part1 = if target.surface_initialized {
        nothing
    } else {
        crate::virgl::protocol::surface_words(target.surface_handle, target.resource_id)
    };
    crate::virgl::device::lemma_surface(device0, target.surface_handle, target.resource_id);
    assert(device0.run(nothing) == device0);
    assert(crate::virgl::protocol::framed(part1));
    let device1 = device0.run(part1);
    crate::virgl::device::lemma_in_order(device, part0, part1);
    assert(objects_exist(device1, resources, Seq::empty(), Seq::empty(), Seq::empty()));
}

/// Whether a device has the objects that are noted as existing: those of resources, the
/// programs of passes and the surface of a target. No two objects share a handle.
pub open spec fn notes_hold(
    device: Device,
    context: Context,
    resources: DeviceView,
    target: IrPassTarget,
) -> bool {
    &&& crate::virgl::drawing::programs_distinct(resources.programs)
    &&& handles_kept(context, resources)
    &&& resources.initialized ==> crate::virgl::drawing::programs_exist(device, resources.programs)
    &&& target.surface_initialized ==> device.surfaces[target.surface_handle] == target.resource_id
    &&& objects_exist(device, resources, Seq::empty(), Seq::empty(), Seq::empty())
}

proof fn lemma_stream(
    device: Device,
    context: Context,
    resources: DeviceView,
    target: IrPassTarget,
    submission: SubmissionView,
    max_command_bytes: u32,
    r: Result<PreparedPass, PassInterruption>,
)
    requires
        crate::virgl::drawing::submission_shaped(submission),
        notes_hold(device, context, resources, target),
        crate::virgl::target::prepared_pass(context, resources, target, submission).1 is Ok,
        crate::virgl::target::pass_encoded(
            crate::virgl::target::prepared_pass(context, resources, target, submission).0,
            target,
            submission,
            max_command_bytes,
            r,
        ),
        r is Ok,
    ensures
        ({
            let prepared = crate::virgl::target::prepared_pass(
                context,
                resources,
                target,
                submission,
            ).0;
            let middle = device.run(prepared.words);
            let after = device.run(r->Ok_0.commands@);
            &&& ready(device, target, prepared)
            &&& after == (Device {
                bound: after.bound,
                buffers: after.buffers,
                work: after.work,
                ..middle
            })
            &&& crate::virgl::drawing::performs_pass(
                device.work,
                after.work,
                prepared.resources,
                target,
                submission,
            )
            &&& crate::virgl::protocol::framed(r->Ok_0.commands@)
        }),
{
    let start = crate::virgl::target::preparation(context, resources, target);
    lemma_start(device, context, resources, target);
    lemma_uploads(device, target, start, submission.texture_uploads);
    let middle = start.uploads(submission.texture_uploads).0;
    lemma_draws(device, target, middle, submission.draws, submission.vertices.len());
    let prepared = crate::virgl::target::prepared_pass(context, resources, target, submission).0;
    let after = device.run(prepared.words);
    assert forall|i: int| 0 <= i < submission.draws.len() implies crate::virgl::drawing::draw_objects(
        after,
        prepared.resources,
        #[trigger] submission.draws[i],
    ) && crate::virgl::protocol::scissor_fits(submission.draws[i].scissor) by {
        let draw = submission.draws[i];
        assert(served(prepared, draw));
        assert(crate::virgl::target::encodable_draw(prepared.resources, draw));
        assert(prepared.resources.pipelines[draw.pipeline.slot as int] is Some);
        if draw.texture is Some && draw.sampler is Some {
            assert(prepared.resources.textures[draw.texture->0.slot as int] is Some);
            assert(prepared.resources.samplers[draw.sampler->0.slot as int] is Some);
        }
    }
    crate::virgl::drawing::law_pass_words_draw_what_was_planned(
        after,
        prepared.resources,
        target,
        submission,
    );
    let words = crate::virgl::target::ir_pass_words(prepared.resources, target, submission);
    crate::virgl::device::lemma_in_order(device, prepared.words, words);
}

/// The stream of a pass, on a device that has the objects noted as existing, clears and
/// draws what was planned, with everything that the draws use created first.
pub proof fn law_pass_streams_draw_what_was_planned(
    device: Device,
    context: Context,
    resources: DeviceView,
    target: IrPassTarget,
    submission: SubmissionView,
    max_command_bytes: u32,
    r: Result<PreparedPass, PassInterruption>,
)
    requires
        crate::virgl::drawing::submission_shaped(submission),
        notes_hold(device, context, resources, target),
        crate::virgl::target::prepared_pass(context, resources, target, submission).1 is Ok,
        crate::virgl::target::pass_encoded(
            crate::virgl::target::prepared_pass(context, resources, target, submission).0,
            target,
            submission,
            max_command_bytes,
            r,
        ),
        r is Ok,
    ensures
        crate::virgl::drawing::performs_pass(
            device.work,
            device.run(r->Ok_0.commands@).work,
            crate::virgl::target::prepared_pass(
                context,
                resources,
                target,
                submission,
            ).0.resources,
            target,
            submission,
        ),
{
    lemma_stream(device, context, resources, target, submission, max_command_bytes, r);
}

/// Once a pass was submitted, everything that is noted as existing exists on the device,
/// with the surface of the target noted as well.
pub proof fn law_completed_passes_note_what_exists(
    device: Device,
    context: Context,
    resources: DeviceView,
    target: IrPassTarget,
    submission: SubmissionView,
    max_command_bytes: u32,
    r: Result<PreparedPass, PassInterruption>,
)
    requires
        crate::virgl::drawing::submission_shaped(submission),
        notes_hold(device, context, resources, target),
        crate::virgl::target::prepared_pass(context, resources, target, submission).1 is Ok,
        crate::virgl::target::pass_encoded(
            crate::virgl::target::prepared_pass(context, resources, target, submission).0,
            target,
            submission,
            max_command_bytes,
            r,
        ),
        r is Ok,
    ensures
        ({
            let prepared = crate::virgl::target::prepared_pass(
                context,
                resources,
                target,
                submission,
            ).0;
            let done = crate::virgl::pass::spec_complete_pass(prepared.resources, r->Ok_0);
            &&& done.initialized
            &&& notes_hold(
                device.run(r->Ok_0.commands@),
                prepared.context,
                done,
                IrPassTarget { surface_initialized: true, ..target },
            )
        }),
{
    lemma_stream(device, context, resources, target, submission, max_command_bytes, r);
    let prepared = crate::virgl::target::prepared_pass(context, resources, target, submission).0;
    let done = crate::virgl::pass::spec_complete_pass(prepared.resources, r->Ok_0);
    let after = device.run(r->Ok_0.commands@);
    lemma_programs_kept(context, resources, target, submission);
    assert forall|i: int|
        0 <= i < done.pipelines.len() && i <= usize::MAX && (#[trigger] done.pipelines[i]) is Some
            && done.pipelines[i]->0.initialized implies pipeline_exists(
        after,
        done.pipelines[i]->0,
    ) by {
        assert(prepared.resources.pipelines[i] is Some);
    }
    assert forall|i: int|
        0 <= i < done.samplers.len() && i <= usize::MAX && (#[trigger] done.samplers[i]) is Some
            && done.samplers[i]->0.initialized implies after.samplers[done.samplers[i]->0.handle]
        == crate::virgl::encoding::sampler_word(done.samplers[i]->0.state) by {
        assert(prepared.resources.samplers[i] is Some);
    }
    assert forall|i: int|
        0 <= i < done.textures.len() && i <= usize::MAX && (#[trigger] done.textures[i]) is Some
            && done.textures[i]->0.sampler_view_initialized() implies after.views[
        done.textures[i]->0.sampler_view_handle()] == done.textures[i]->0.resource_id() by {
        assert(prepared.resources.textures[i] is Some);
    }
    assert(objects_exist(after, done, Seq::empty(), Seq::empty(), Seq::empty()));
    assert(handles_kept(prepared.context, done)) by {
        assert forall|i: int|
            0 <= i < done.pipelines.len() && (#[trigger] done.pipelines[i])
                is Some implies done.pipelines[i]->0.blend_handle
            < prepared.context.next_object_handle && done.pipelines[i]->0.rasterizer_handle
            < prepared.context.next_object_handle by {
            assert(prepared.resources.pipelines[i] is Some);
        }
        assert forall|i: int, j: int|
            0 <= i < j < done.pipelines.len() && (#[trigger] done.pipelines[i]) is Some && (
            #[trigger] done.pipelines[j]) is Some implies done.pipelines[i]->0.blend_handle
            != done.pipelines[j]->0.blend_handle && done.pipelines[i]->0.rasterizer_handle
            != done.pipelines[j]->0.rasterizer_handle by {
            assert(prepared.resources.pipelines[i] is Some);
            assert(prepared.resources.pipelines[j] is Some);
        }
        assert forall|i: int|
            0 <= i < done.samplers.len() && (#[trigger] done.samplers[i])
                is Some implies done.samplers[i]->0.handle
            < prepared.context.next_object_handle by {
            assert(prepared.resources.samplers[i] is Some);
        }
        assert forall|i: int, j: int|
            0 <= i < j < done.samplers.len() && (#[trigger] done.samplers[i]) is Some && (
            #[trigger] done.samplers[j]) is Some implies done.samplers[i]->0.handle
            != done.samplers[j]->0.handle by {
            assert(prepared.resources.samplers[i] is Some);
            assert(prepared.resources.samplers[j] is Some);
        }
        assert forall|i: int, j: int|
            0 <= i < j < done.textures.len() && (#[trigger] done.textures[i]) is Some && (
            #[trigger] done.textures[j]) is Some
                implies done.textures[i]->0.sampler_view_handle()
            != done.textures[j]->0.sampler_view_handle() by {
            assert(prepared.resources.textures[i] is Some);
            assert(prepared.resources.textures[j] is Some);
        }
    }
}

proof fn lemma_upload_programs(preparation: PreparationView, uploads: Seq<UploadView>)
    ensures
        preparation.uploads(uploads).0.resources.programs == preparation.resources.programs,
    decreases uploads.len(),
{
    if uploads.len() > 0 {
        lemma_upload_programs(preparation, uploads.drop_last());
    }
}

proof fn lemma_draw_programs(
    preparation: PreparationView,
    width: u32,
    height: u32,
    draws: Seq<DrawView>,
    vertex_count: nat,
)
    ensures
        preparation.draws(width, height, draws, vertex_count).0.resources.programs
            == preparation.resources.programs,
    decreases draws.len(),
{
    if draws.len() > 0 {
        lemma_draw_programs(preparation, width, height, draws.drop_last(), vertex_count);
    }
}

proof fn lemma_programs_kept(
    context: Context,
    resources: DeviceView,
    target: IrPassTarget,
    submission: SubmissionView,
)
    ensures
        crate::virgl::target::prepared_pass(
            context,
            resources,
            target,
            submission,
        ).0.resources.programs == resources.programs,
{
    let start = crate::virgl::target::preparation(context, resources, target);
    lemma_upload_programs(start, submission.texture_uploads);
    let middle = start.uploads(submission.texture_uploads).0;
    lemma_draw_programs(
        middle,
        target.width,
        target.height,
        submission.draws,
        submission.vertices.len(),
    );
}

} // verus!
