//! Targets of passes, and what exists once a pass was submitted.

use crate::driver::{HandleError, IrTextureSpec};
use crate::virgl::resources::{
    DeviceView, IrPipeline, IrResources, IrSampler, IrTexture, PassInterruption,
};
use crate::virgl::state::{Context, Image, Queue};
use crate::virgl::target::{IrPassTarget, PreparedPass};
use vstd::prelude::*;

verus! {

/// The target that an image is.
pub open spec fn spec_image_target(image: Image) -> IrPassTarget {
    IrPassTarget {
        resource_id: image.resource_id,
        surface_handle: image.ir_surface_handle,
        surface_initialized: image.ir_surface_initialized,
        width: image.width,
        height: image.height,
    }
}

/// Return the target that an image is.
pub fn image_target(image: &Image) -> (r: IrPassTarget)
    ensures
        r == spec_image_target(*image),
{
    IrPassTarget {
        resource_id: image.resource_id,
        surface_handle: image.ir_surface_handle,
        surface_initialized: image.ir_surface_initialized,
        width: image.width,
        height: image.height,
    }
}

/// The target that a texture of the table is, or why it cannot be one.
pub open spec fn spec_internal_target(
    queue: Queue,
    context: Context,
    resources: DeviceView,
    target: IrTextureSpec,
) -> (DeviceView, Result<IrPassTarget, PassInterruption>) {
    let found = resources.ir_texture(target);
    if !target.render_attachment || queue.context_handle != context.handle
        || resources.context_handle != context.handle {
        (resources, Err(PassInterruption::Failed(HandleError::InvalidParameter)))
    } else {
        (
            found.0,
            match found.1 {
                Err(interruption) => Err(interruption),
                Ok(texture) => if texture is Mapped {
                    Err(PassInterruption::Failed(HandleError::InvalidParameter))
                } else {
                    Ok(
                        IrPassTarget {
                            resource_id: texture.resource_id(),
                            surface_handle: texture.surface_handle(),
                            surface_initialized: texture.surface_initialized(),
                            width: target.width,
                            height: target.height,
                        },
                    )
                },
            },
        )
    }
}

impl Queue {
    /// Return the target that a texture of the table is.
    ///
    /// Fails with `HandleError::InvalidParameter` for a texture that is no render
    /// attachment, for another context and for a mapped image, and asks for a
    /// texture that does not exist yet.
    pub fn internal_target(
        &self,
        context: &Context,
        resources: &mut IrResources,
        target: IrTextureSpec,
    ) -> (r: Result<IrPassTarget, PassInterruption>)
        ensures
            (final(resources)@, r) == spec_internal_target(
                *self,
                *context,
                old(resources)@,
                target,
            ),
    {
        if !target.render_attachment || self.context_handle != context.handle
            || resources.context_handle != context.handle {
            return Err(PassInterruption::Failed(HandleError::InvalidParameter));
        }
        let texture: IrTexture = match resources.ir_texture(target) {
            Ok(texture) => texture,
            Err(interruption) => {
                return Err(interruption);
            },
        };
        match texture {
            IrTexture::Mapped(_) => {
                return Err(PassInterruption::Failed(HandleError::InvalidParameter));
            },
            IrTexture::Internal(_) => {},
        }
        let (width, height) = texture.dimensions();
        Ok(
            IrPassTarget {
                resource_id: texture.resource_id(),
                surface_handle: texture.surface_handle(),
                surface_initialized: texture.surface_initialized(),
                width,
                height,
            },
        )
    }
}

/// Samplers after the objects of some exist.
pub open spec fn with_samplers(list: Seq<Option<IrSampler>>, slots: Seq<usize>) -> Seq<
    Option<IrSampler>,
> {
    Seq::new(
        list.len(),
        |i: int|
            if list[i] is Some && slots.contains(i as usize) {
                Some(IrSampler { initialized: true, ..list[i]->0 })
            } else {
                list[i]
            },
    )
}

/// Pipelines after the objects of some exist.
pub open spec fn with_pipelines(list: Seq<Option<IrPipeline>>, slots: Seq<usize>) -> Seq<
    Option<IrPipeline>,
> {
    Seq::new(
        list.len(),
        |i: int|
            if list[i] is Some && slots.contains(i as usize) {
                Some(IrPipeline { initialized: true, ..list[i]->0 })
            } else {
                list[i]
            },
    )
}

/// Textures after the views of some exist.
pub open spec fn with_views(list: Seq<Option<IrTexture>>, slots: Seq<usize>) -> Seq<
    Option<IrTexture>,
> {
    Seq::new(
        list.len(),
        |i: int|
            if list[i] is Some && slots.contains(i as usize) {
                Some(list[i]->0.with_sampler_view())
            } else {
                list[i]
            },
    )
}

fn mark_samplers(list: &mut Vec<Option<IrSampler>>, slots: &Vec<usize>)
    ensures
        final(list)@ == with_samplers(old(list)@, slots@),
{
    let ghost before = list@;
    let mut k: usize = 0;
    assert(list@ =~= with_samplers(before, slots@.take(0)));
    while k < slots.len()
        invariant
            k <= slots@.len(),
            list@ == with_samplers(before, slots@.take(k as int)),
        decreases slots.len() - k,
    {
        let slot: usize = slots[k];
        let ghost earlier = list@;
        proof {
            lemma_contains_push(slots@, k as int);
        }
        if slot < list.len() {
            match list[slot] {
                Some(sampler) => {
                    let marked = IrSampler {
                        handle: sampler.handle,
                        state: sampler.state,
                        initialized: true,
                    };
                    list.set(slot, Some(marked));
                },
                None => {},
            }
        }
        assert(list@ =~= with_samplers(before, slots@.take(k + 1)));
        k = k + 1;
    }
    assert(slots@.take(k as int) =~= slots@);
}

fn mark_pipelines(list: &mut Vec<Option<IrPipeline>>, slots: &Vec<usize>)
    ensures
        final(list)@ == with_pipelines(old(list)@, slots@),
{
    let ghost before = list@;
    let mut k: usize = 0;
    assert(list@ =~= with_pipelines(before, slots@.take(0)));
    while k < slots.len()
        invariant
            k <= slots@.len(),
            list@ == with_pipelines(before, slots@.take(k as int)),
        decreases slots.len() - k,
    {
        let slot: usize = slots[k];
        proof {
            lemma_contains_push(slots@, k as int);
        }
        if slot < list.len() {
            match list[slot] {
                Some(pipeline) => {
                    let marked = IrPipeline {
                        blend_handle: pipeline.blend_handle,
                        rasterizer_handle: pipeline.rasterizer_handle,
                        state: pipeline.state,
                        initialized: true,
                    };
                    list.set(slot, Some(marked));
                },
                None => {},
            }
        }
        assert(list@ =~= with_pipelines(before, slots@.take(k + 1)));
        k = k + 1;
    }
    assert(slots@.take(k as int) =~= slots@);
}

fn mark_views(list: &mut Vec<Option<IrTexture>>, slots: &Vec<usize>)
    ensures
        final(list)@ == with_views(old(list)@, slots@),
{
    let ghost before = list@;
    let mut k: usize = 0;
    assert(list@ =~= with_views(before, slots@.take(0)));
    while k < slots.len()
        invariant
            k <= slots@.len(),
            list@ == with_views(before, slots@.take(k as int)),
        decreases slots.len() - k,
    {
        let slot: usize = slots[k];
        proof {
            lemma_contains_push(slots@, k as int);
        }
        if slot < list.len() {
            match list[slot] {
                Some(texture) => {
                    list.set(slot, Some(texture.with_sampler_view()));
                },
                None => {},
            }
        }
        assert(list@ =~= with_views(before, slots@.take(k + 1)));
        k = k + 1;
    }
    assert(slots@.take(k as int) =~= slots@);
}

proof fn lemma_contains_push(slots: Seq<usize>, k: int)
    requires
        0 <= k < slots.len(),
    ensures
        forall|slot: usize| #[trigger]
            slots.take(k + 1).contains(slot) <==> slots.take(k).contains(slot) || slot == slots[k],
{
    let shorter = slots.take(k);
    let longer = slots.take(k + 1);
    assert forall|slot: usize| #[trigger] longer.contains(slot) <==> shorter.contains(slot) || slot
        == slots[k] by {
        if longer.contains(slot) {
            let i = choose|i: int| 0 <= i < longer.len() && longer[i] == slot;
            if i < k {
                assert(shorter[i] == slot);
            }
        }
        if shorter.contains(slot) {
            let i = choose|i: int| 0 <= i < shorter.len() && shorter[i] == slot;
            assert(longer[i] == slot);
        }
        if slot == slots[k] {
            assert(longer[k] == slot);
        }
    }
}

/// The resources after a pass was submitted.
pub open spec fn spec_complete_pass(resources: DeviceView, prepared: PreparedPass) -> DeviceView {
    DeviceView {
        initialized: true,
        samplers: with_samplers(resources.samplers, prepared.initialized_samplers@),
        pipelines: with_pipelines(resources.pipelines, prepared.initialized_pipelines@),
        textures: with_views(resources.textures, prepared.initialized_views@),
        ..resources
    }
}

/// The resources after a pass into a texture, or why there is none.
pub open spec fn spec_complete_internal_target(resources: DeviceView, target: IrTextureSpec) -> (
    DeviceView,
    Result<(), HandleError>,
) {
    match crate::virgl::resources::in_slot(resources.textures, target.slot) {
        None => (resources, Err(HandleError::InvalidParameter)),
        Some(texture) => (
            DeviceView {
                textures: resources.textures.update(
                    target.slot as int,
                    Some(texture.with_surface()),
                ),
                ..resources
            },
            Ok(()),
        ),
    }
}

impl IrResources {
    /// Note what exists after a pass was submitted.
    pub fn complete_pass(&mut self, prepared: &PreparedPass)
        ensures
            final(self)@ == spec_complete_pass(old(self)@, *prepared),
    {
        self.initialized = true;
        mark_samplers(&mut self.samplers, &prepared.initialized_samplers);
        mark_pipelines(&mut self.pipelines, &prepared.initialized_pipelines);
        mark_views(&mut self.textures, &prepared.initialized_views);
    }

    /// Note that the surface of a texture exists after a pass into it.
    ///
    /// Fails with `HandleError::InvalidParameter` when there is no texture.
    pub fn complete_internal_target(&mut self, target: IrTextureSpec) -> (r: Result<
        (),
        HandleError,
    >)
        ensures
            (final(self)@, r) == spec_complete_internal_target(old(self)@, target),
    {
        if target.slot >= self.textures.len() {
            return Err(HandleError::InvalidParameter);
        }
        match self.textures[target.slot] {
            None => Err(HandleError::InvalidParameter),
            Some(texture) => {
                self.textures.set(target.slot, Some(texture.with_surface()));
                Ok(())
            },
        }
    }
}

} // verus!
