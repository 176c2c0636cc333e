//! What images and textures stand for on the device, and what is noted of them.

use crate::driver::{HandleError, IrRect, IrTextureSpec, SubmissionView};
use crate::ir::resource::TextureUsage;
use crate::ir::table::TableView;
use crate::ir_execute::IrSubmitError;
use crate::ir_execute::plan::{EventView, ExecutionTarget};
use crate::virgl::execute::{EventWork, RegistrationView};
use crate::virgl::resources::DeviceView;
use crate::virgl::state::{Context, Image};
use crate::virgl::target::PreparedPass;
use vstd::prelude::*;

verus! {

/// A rectangle lies within a surface exactly when it has a pixel and every pixel of it is
/// one of the surface.
pub proof fn law_rectangles_lie_within_surfaces(area: IrRect, width: u32, height: u32)
    ensures
        area.is_within(width, height) <==> {
            &&& exists|x: int, y: int| covers(area, x, y)
            &&& forall|x: int, y: int| #[trigger] covers(area, x, y) ==> x < width && y < height
        },
        area.is_within(width, height) ==> area.is_valid(),
{
    if area.width > 0 && area.height > 0 {
        assert(covers(area, area.x as int, area.y as int));
        assert(covers(area, area.x + area.width - 1, area.y + area.height - 1));
    }
}

/// Whether a rectangle has a pixel.
pub open spec fn covers(area: IrRect, x: int, y: int) -> bool {
    area.x <= x < area.x + area.width && area.y <= y < area.y + area.height
}

/// Registering an image that the device does not know lets the image with the mapped
/// resource stand for the texture, with a view of its own, and touches no other texture.
/// An image that the device knows is left alone.
pub proof fn law_registered_images_stand_for_their_textures(
    start: RegistrationView,
    table: TableView,
    images: Seq<Image>,
    index: int,
)
    requires
        0 <= index < start.retained.images.len(),
        start.register(table, images, index).1 is Ok,
    ensures
        ({
            let after = start.register(table, images, index).0;
            let mapping = start.retained.images[index];
            let slot = mapping.texture@.index;
            if mapping.backend_registered {
                after == start
            } else {
                &&& after.retained.images.len() == start.retained.images.len()
                &&& after.retained.images[index].backend_registered
                &&& after.retained.images[index].texture == mapping.texture
                &&& after.retained.images[index].image == mapping.image
                &&& forall|other: int|
                    0 <= other < start.retained.images.len() && other != index ==> (
                    #[trigger] after.retained.images[other]) == start.retained.images[other]
                &&& after.retained.shadows == start.retained.shadows
                &&& slot < after.device.textures.len()
                &&& start.device.textures[slot as int] is None
                &&& after.device.textures[slot as int] matches Some(texture) && {
                    &&& texture.resource_id() == mapping.image.resource_id
                    &&& images.contains(image_of(images, mapping.image.resource_id))
                    &&& texture.dimensions() == (
                        image_of(images, mapping.image.resource_id).width,
                        image_of(images, mapping.image.resource_id).height,
                    )
                    &&& texture.surface_handle() == image_of(
                        images,
                        mapping.image.resource_id,
                    ).ir_surface_handle
                    &&& texture.surface_initialized() == image_of(
                        images,
                        mapping.image.resource_id,
                    ).ir_surface_initialized
                    &&& texture.sampler_view_handle() == start.context.next_object_handle
                    &&& !texture.sampler_view_initialized()
                }
                &&& forall|other: int|
                    0 <= other < start.device.textures.len() && other != slot ==> (
                    #[trigger] after.device.textures[other]) == start.device.textures[other]
                &&& after.context.handle == start.context.handle
                &&& after.context.next_object_handle == start.context.next_object_handle + 1
            }
        }),
{
    let mapping = start.retained.images[index];
    crate::virgl::triangles::law_found_images_have_their_resource(
        images,
        mapping.image.resource_id,
    );
}

/// An image that the device does not know is registered exactly when its texture is defined
/// and can be held, the image is there, image and texture agree in context and sides, the
/// texture is rendered to and presented, its place is free, and a handle is left. The first
/// of these that fails is named.
pub proof fn law_refused_registrations_name_their_reason(
    start: RegistrationView,
    table: TableView,
    images: Seq<Image>,
    index: int,
)
    requires
        0 <= index < start.retained.images.len(),
        !start.retained.images[index].backend_registered,
        table.texture(start.retained.images[index].texture.reference()) is Ok,
    ensures
        ({
            let mapping = start.retained.images[index];
            let desc = table.texture(mapping.texture.reference())->Ok_0@;
            let slot = mapping.texture@.index;
            let image = image_of(images, mapping.image.resource_id);
            let known = exists|i: int|
                0 <= i < images.len() && (#[trigger] images[i]).resource_id
                    == mapping.image.resource_id;
            let agrees = start.device.context_handle == start.context.handle && image.context_handle
                == start.context.handle && desc.extent.width == image.width && desc.extent.height
                == image.height && desc.usage.allows(TextureUsage::RENDER_ATTACHMENT_BIT)
                && desc.usage.allows(TextureUsage::PRESENT_BIT) && slot
                < start.device.textures.len() && start.device.textures[slot as int] is None;
            let handles = 0 < start.context.next_object_handle < u32::MAX;
            let (after, found) = start.register(table, images, index);
            &&& found is Err ==> after == start
            &&& found is Ok <==> crate::ir_execute::planning::holdable(desc) && known && agrees
                && handles
            &&& crate::ir_execute::planning::holdable(desc) && !known ==> found == Err::<
                (),
                IrSubmitError,
            >(IrSubmitError::ImageNotMapped)
            &&& crate::ir_execute::planning::holdable(desc) && known && !agrees ==> found == Err::<
                (),
                IrSubmitError,
            >(IrSubmitError::Backend(HandleError::InvalidParameter))
            &&& crate::ir_execute::planning::holdable(desc) && known && agrees && !handles
                ==> found == Err::<(), IrSubmitError>(
                IrSubmitError::Backend(HandleError::OutOfResources),
            )
        }),
{
    let mapping = start.retained.images[index];
    crate::virgl::triangles::law_found_images_have_their_resource(
        images,
        mapping.image.resource_id,
    );
}

/// The image that is found for a resource.
pub open spec fn image_of(images: Seq<Image>, resource_id: u32) -> Image {
    images[crate::virgl::execute::find_image(images, resource_id)]
}

/// Once all images were registered, the device knows each of them, and registering them
/// again changes nothing.
pub proof fn law_images_are_registered_once(
    start: RegistrationView,
    table: TableView,
    images: Seq<Image>,
    count: nat,
)
    requires
        count <= start.retained.images.len(),
        start.register_all(table, images, count).1 is Ok,
    ensures
        ({
            let after = start.register_all(table, images, count).0;
            &&& after.retained.images.len() == start.retained.images.len()
            &&& forall|i: int|
                0 <= i < count ==> (#[trigger] after.retained.images[i]).backend_registered
            &&& forall|i: int|
                0 <= i < start.retained.images.len() ==> (
                #[trigger] after.retained.images[i]).texture == start.retained.images[i].texture
                    && after.retained.images[i].image == start.retained.images[i].image
            &&& after.register_all(table, images, count) == (after, Ok::<(), IrSubmitError>(()))
        }),
    decreases count,
{
    if count > 0 {
        let fewer = (count - 1) as nat;
        law_images_are_registered_once(start, table, images, fewer);
        let earlier = start.register_all(table, images, fewer).0;
        let after = start.register_all(table, images, count).0;
        law_registered_images_stand_for_their_textures(earlier, table, images, fewer as int);
        assert forall|i: int| 0 <= i < count implies (
        #[trigger] after.retained.images[i]).backend_registered by {
            if i < fewer {
                assert(after.retained.images[i] == earlier.retained.images[i]);
            }
        }
        assert forall|i: int| 0 <= i < start.retained.images.len() implies (
        #[trigger] after.retained.images[i]).texture == start.retained.images[i].texture
            && after.retained.images[i].image == start.retained.images[i].image by {
            if i != fewer {
                assert(after.retained.images[i] == earlier.retained.images[i]);
            }
        }
        lemma_known_images_stay(after, table, images, count);
    }
}

/// Registering images that the device knows changes nothing.
proof fn lemma_known_images_stay(
    start: RegistrationView,
    table: TableView,
    images: Seq<Image>,
    count: nat,
)
    requires
        forall|i: int|
            0 <= i < count ==> (#[trigger] start.retained.images[i]).backend_registered,
    ensures
        start.register_all(table, images, count) == (start, Ok::<(), IrSubmitError>(())),
    decreases count,
{
    if count > 0 {
        lemma_known_images_stay(start, table, images, (count - 1) as nat);
    }
}

/// A performed pass into an image leaves the surface of that image noted as existing, and
/// nothing else of any image changes. Other steps change no image.
pub proof fn law_performed_passes_note_their_surface(
    device: DeviceView,
    images: Seq<Image>,
    event: EventView,
    work: EventWork,
)
    ensures
        ({
            let after = crate::virgl::execute::spec_complete_event(device, images, event, work).1;
            &&& after.len() == images.len()
            &&& forall|i: int|
                0 <= i < images.len() ==> (#[trigger] after[i]) == (Image {
                    ir_surface_initialized: after[i].ir_surface_initialized,
                    ..images[i]
                }) && (images[i].ir_surface_initialized ==> after[i].ir_surface_initialized)
            &&& match (event, work) {
                (EventView::Pass(ExecutionTarget::Mapped(image), _), EventWork::Pass { .. }) => {
                    &&& (exists|i: int|
                        0 <= i < images.len() && (#[trigger] images[i]).resource_id
                            == image.resource_id) ==> image_of(
                        after,
                        image.resource_id,
                    ).ir_surface_initialized && image_of(after, image.resource_id).resource_id
                        == image.resource_id
                    &&& forall|i: int|
                        0 <= i < images.len() && images[i].resource_id != image.resource_id ==> (
                        #[trigger] after[i]) == images[i]
                },
                _ => after == images,
            }
        }),
{
    if let EventView::Pass(ExecutionTarget::Mapped(image), _) = event {
        crate::virgl::triangles::law_found_images_have_their_resource(images, image.resource_id);
        let after = crate::virgl::execute::spec_complete_image(images, image.resource_id);
        assert forall|i: int| 0 <= i < images.len() implies (#[trigger] after[i]).resource_id
            == images[i].resource_id by {}
        lemma_same_place(images, after, image.resource_id);
    }
}

/// A pass into an image renders into its resource, whole and through its own surface.
pub proof fn law_image_targets_are_their_image(image: Image)
    ensures
        ({
            let target = crate::virgl::pass::spec_image_target(image);
            &&& target.resource_id == image.resource_id
            &&& target.surface_handle == image.ir_surface_handle
            &&& target.surface_initialized == image.ir_surface_initialized
            &&& target.width == image.width
            &&& target.height == image.height
        }),
{
}

/// A performed pass into a texture leaves the surface of that texture noted as existing.
/// Nothing else that is known of any texture is forgotten, and no handle changes.
pub proof fn law_performed_passes_note_their_texture(
    device: DeviceView,
    images: Seq<Image>,
    spec: IrTextureSpec,
    submission: SubmissionView,
    prepared: PreparedPass,
    slot: int,
)
    requires
        0 <= slot < device.textures.len(),
    ensures
        ({
            let (after, _, found) = crate::virgl::execute::spec_complete_event(
                device,
                images,
                EventView::Pass(ExecutionTarget::Internal(spec), submission),
                EventWork::Pass { prepared },
            );
            let there = spec.slot < device.textures.len() && device.textures[spec.slot as int]
                is Some;
            &&& found is Ok <==> there
            &&& after.textures.len() == device.textures.len()
            &&& after.textures[slot] is Some <==> device.textures[slot] is Some
            &&& device.textures[slot] matches Some(texture) ==> {
                let noted = after.textures[slot]->0;
                &&& noted.resource_id() == texture.resource_id()
                &&& noted.dimensions() == texture.dimensions()
                &&& noted.sampler_view_handle() == texture.sampler_view_handle()
                &&& noted.surface_handle() == texture.surface_handle()
                &&& noted.surface_initialized() <==> texture.surface_initialized() || slot
                    == spec.slot
                &&& noted.sampler_view_initialized() <==> texture.sampler_view_initialized()
                    || prepared.initialized_views@.contains(slot as usize)
            }
        }),
{
}

/// Images with the same resources are found in the same place.
proof fn lemma_same_place(left: Seq<Image>, right: Seq<Image>, resource_id: u32)
    requires
        left.len() == right.len(),
        forall|i: int|
            0 <= i < left.len() ==> (#[trigger] right[i]).resource_id == left[i].resource_id,
    ensures
        crate::virgl::execute::find_image(left, resource_id) == crate::virgl::execute::find_image(
            right,
            resource_id,
        ),
    decreases left.len(),
{
    if left.len() > 0 {
        assert(right[0].resource_id == left[0].resource_id);
        let fewer = left.skip(1);
        let others = right.skip(1);
        assert forall|i: int| 0 <= i < fewer.len() implies (#[trigger] others[i]).resource_id
            == fewer[i].resource_id by {
            assert(others[i] == right[i + 1]);
        }
        lemma_same_place(fewer, others, resource_id);
    }
}

/// A texture is attached under the resource that its token holds, with the given sides and
/// two handles that nothing else has. Tokens that hold no resource are refused.
pub proof fn law_attached_textures_have_their_resource(
    context: Context,
    token: u64,
    width: u32,
    height: u32,
)
    ensures
        ({
            let (next, result) = crate::virgl::state::spec_register_texture(
                context,
                token,
                width,
                height,
            );
            &&& result matches Ok(texture) ==> {
                &&& texture.resource_id as int == token as int
                &&& texture.resource_id != 0
                &&& texture.width == width
                &&& texture.height == height
                &&& texture.context_handle == context.handle
                &&& texture.sampler_view_handle != texture.ir_surface_handle
                &&& context.next_object_handle <= texture.sampler_view_handle
                    < next.next_object_handle
                &&& context.next_object_handle <= texture.ir_surface_handle
                    < next.next_object_handle
                &&& !texture.sampler_view_initialized
                &&& !texture.ir_surface_initialized
                &&& next.handle == context.handle
            }
            &&& token == 0 || token > u32::MAX ==> result is Err && next == context
            &&& 0 < token <= u32::MAX && context.next_object_handle > 0
                && context.next_object_handle < u32::MAX - 1 ==> result is Ok
        }),
{
}

} // verus!
