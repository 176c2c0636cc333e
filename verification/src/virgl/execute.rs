//! Execution of planned steps.
//!
//! A step is prepared, performed by the device, and then noted as done. While a
//! texture is missing, preparing a step asks for it.

use crate::driver::{HandleError, IrTextureSpec};
use crate::ir::resource::TextureDesc;
use crate::ir::table::{ResourceTable, TableView, TextureRef};
use crate::ir_execute::plan::{EventView, ExecutionEvent, ExecutionPass, ExecutionTarget};
use crate::ir_execute::resources::{ImageMapping, ResourcesView};
use crate::ir_execute::state::texture_spec;
use crate::ir_execute::IrSubmitError;
use crate::virgl::pass::image_target;
use crate::virgl::resources::{DeviceView, IrResources, PassInterruption};
use crate::virgl::state::{Context, Image, Queue, Texture};
use crate::virgl::target::{IrPassTarget, PreparedPass};
use crate::memory::Memory;
use vstd::prelude::*;

verus! {

/// The place of the image with a resource identity, or the end.
pub open spec fn find_image(images: Seq<Image>, resource_id: u32) -> int
    decreases images.len(),
{
    if images.len() == 0 || images[0].resource_id == resource_id {
        0
    } else {
        1 + find_image(images.skip(1), resource_id)
    }
}

proof fn lemma_find_image(images: Seq<Image>, resource_id: u32, at: int)
    requires
        0 <= at <= images.len(),
        forall|i: int| 0 <= i < at ==> (#[trigger] images[i]).resource_id != resource_id,
        at < images.len() ==> images[at].resource_id == resource_id,
    ensures
        find_image(images, resource_id) == at,
    decreases images.len(),
{
    if at > 0 {
        assert(images[0].resource_id != resource_id);
        let rest = images.skip(1);
        assert forall|i: int| 0 <= i < at - 1 implies (#[trigger] rest[i]).resource_id
            != resource_id by {
            assert(rest[i] == images[i + 1]);
        }
        lemma_find_image(rest, resource_id, at - 1);
    }
}

fn position_of(images: &Vec<Image>, resource_id: u32) -> (r: usize)
    ensures
        r == find_image(images@, resource_id),
        r <= images@.len(),
{
    let mut at: usize = 0;
    while at < images.len()
        invariant
            at <= images@.len(),
            forall|i: int| 0 <= i < at ==> (#[trigger] images@[i]).resource_id != resource_id,
        decreases images.len() - at,
    {
        if images[at].resource_id == resource_id {
            proof {
                lemma_find_image(images@, resource_id, at as int);
            }
            return at;
        }
        at = at + 1;
    }
    proof {
        lemma_find_image(images@, resource_id, at as int);
    }
    at
}

/// Everything that registering images changes.
#[verifier::ext_equal]
pub struct RegistrationView {
    pub context: Context,
    pub device: DeviceView,
    pub retained: ResourcesView,
}

impl RegistrationView {
    /// Register the image at a place, unless the device knows it.
    pub open spec fn register(self, table: TableView, images: Seq<Image>, index: int) -> (
        Self,
        Result<(), IrSubmitError>,
    ) {
        let mapping = self.retained.images[index];
        let at = find_image(images, mapping.image.resource_id);
        if mapping.backend_registered {
            (self, Ok(()))
        } else {
            match table.texture(mapping.texture.reference()) {
                Err(error) => (self, Err(IrSubmitError::InvalidIr(error))),
                Ok(desc) => match crate::ir_execute::state::spec_texture_spec(
                    mapping.texture@.index,
                    desc@,
                ) {
                    Err(error) => (self, Err(error)),
                    Ok(spec) => if at >= images.len() {
                        (self, Err(IrSubmitError::ImageNotMapped))
                    } else if !crate::virgl::resources::mappable(
                        self.context,
                        self.device,
                        spec,
                        images[at],
                    ) {
                        (self, Err(IrSubmitError::Backend(HandleError::InvalidParameter)))
                    } else {
                        self.map(spec, images[at], index)
                    },
                },
            }
        }
    }

    /// Map an image that suits its texture.
    pub open spec fn map(self, spec: IrTextureSpec, image: Image, index: int) -> (
        Self,
        Result<(), IrSubmitError>,
    ) {
        match crate::virgl::state::spec_allocate(self.context) {
            Err(error) => (self, Err(IrSubmitError::Backend(error))),
            Ok((next, handle)) => (
                RegistrationView {
                    context: next,
                    device: crate::virgl::resources::spec_mapped(self.device, spec, image, handle),
                    retained: ResourcesView {
                        images: self.retained.images.update(
                            index,
                            ImageMapping {
                                backend_registered: true,
                                ..self.retained.images[index]
                            },
                        ),
                        ..self.retained
                    },
                },
                Ok(()),
            ),
        }
    }

    /// Register the first images, up to the first failure.
    pub open spec fn register_all(self, table: TableView, images: Seq<Image>, count: nat) -> (
        Self,
        Result<(), IrSubmitError>,
    )
        decreases count,
    {
        if count == 0 {
            (self, Ok(()))
        } else {
            let earlier = self.register_all(table, images, (count - 1) as nat);
            if earlier.1 is Err {
                earlier
            } else {
                earlier.0.register(table, images, count - 1)
            }
        }
    }
}

/// Registering stops at the first failure.
proof fn lemma_registration_failure_is_final(
    start: RegistrationView,
    table: TableView,
    images: Seq<Image>,
    count: nat,
    total: nat,
)
    requires
        count <= total,
        start.register_all(table, images, count).1 is Err,
    ensures
        start.register_all(table, images, total) == start.register_all(table, images, count),
    decreases total,
{
    if count < total {
        lemma_registration_failure_is_final(start, table, images, count, (total - 1) as nat);
    }
}

/// Registering keeps the number of mapped images.
proof fn lemma_registration_keeps_length(
    start: RegistrationView,
    table: TableView,
    images: Seq<Image>,
    count: nat,
)
    requires
        count <= start.retained.images.len(),
    ensures
        start.register_all(table, images, count).0.retained.images.len()
            == start.retained.images.len(),
    decreases count,
{
    if count > 0 {
        lemma_registration_keeps_length(start, table, images, (count - 1) as nat);
    }
}

fn register_image(
    context: &mut Context,
    device: &mut IrResources,
    retained: &mut crate::ir_execute::resources::IrResources,
    table: &ResourceTable,
    images: &Vec<Image>,
    index: usize,
) -> (r: Result<(), IrSubmitError>)
    requires
        index < old(retained)@.images.len(),
    ensures
        (
            RegistrationView {
                context: *final(context),
                device: final(device)@,
                retained: final(retained)@,
            },
            r,
        ) == (RegistrationView {
            context: *old(context),
            device: old(device)@,
            retained: old(retained)@,
        }).register(table@, images@, index as int),
{
    let mapping: ImageMapping = retained.images()[index];
    if mapping.backend_registered {
        return Ok(());
    }
    proof {
        crate::ir::table::lemma_texture_reference(mapping.texture);
    }
    let reference: TextureRef = match table.texture_ref(mapping.texture) {
        Ok(reference) => reference,
        Err(error) => {
            return Err(IrSubmitError::InvalidIr(error));
        },
    };
    let descriptor: TextureDesc = match table.texture(reference) {
        Ok(descriptor) => descriptor,
        Err(error) => {
            return Err(IrSubmitError::InvalidIr(error));
        },
    };
    let spec: IrTextureSpec = match texture_spec(reference, descriptor) {
        Ok(spec) => spec,
        Err(error) => {
            return Err(error);
        },
    };
    let at: usize = position_of(images, mapping.image.resource_id);
    if at >= images.len() {
        return Err(IrSubmitError::ImageNotMapped);
    }
    let image: Image = images[at];
    match device.map_ir_image(context, spec, &image) {
        Ok(()) => {
            retained.mark_registered(index);
            Ok(())
        },
        Err(error) => Err(IrSubmitError::Backend(error)),
    }
}

/// Tell the device of every mapped image that it does not know.
///
/// Stops at the first image that fails: as looking up its texture does, with
/// `IrSubmitError::ImageNotMapped` when the image is gone, or as the device does.
/// Images before it stay registered.
pub fn register_mapped_images(
    context: &mut Context,
    device: &mut IrResources,
    retained: &mut crate::ir_execute::resources::IrResources,
    table: &ResourceTable,
    images: &Vec<Image>,
) -> (r: Result<(), IrSubmitError>)
    ensures
        (
            RegistrationView {
                context: *final(context),
                device: final(device)@,
                retained: final(retained)@,
            },
            r,
        ) == (RegistrationView {
            context: *old(context),
            device: old(device)@,
            retained: old(retained)@,
        }).register_all(table@, images@, old(retained)@.images.len()),
{
    let ghost start = RegistrationView {
        context: *context,
        device: device@,
        retained: retained@,
    };
    let count: usize = retained.images().len();
    let mut index: usize = 0;
    while index < count
        invariant
            index <= count,
            count == start.retained.images.len(),
            start == (RegistrationView {
                context: *old(context),
                device: old(device)@,
                retained: old(retained)@,
            }),
            start.register_all(table@, images@, index as nat) == (
                RegistrationView { context: *context, device: device@, retained: retained@ },
                Ok::<(), IrSubmitError>(()),
            ),
        decreases count - index,
    {
        proof {
            lemma_registration_keeps_length(start, table@, images@, index as nat);
        }
        match register_image(context, device, retained, table, images, index) {
            Ok(()) => {},
            Err(error) => {
                proof {
                    lemma_registration_failure_is_final(
                        start,
                        table@,
                        images@,
                        (index + 1) as nat,
                        count as nat,
                    );
                }
                return Err(error);
            },
        }
        index = index + 1;
    }
    Ok(())
}

/// Work that the device performs for one step.
#[derive(Debug)]
pub enum EventWork {
    /// Upload pixels into a texture.
    Upload {
        /// Written texture.
        texture: Texture,
        /// Bytes of one row of pixels.
        stride: u32,
    },
    /// Submit a copy.
    Copy {
        /// Words to submit.
        commands: Vec<u32>,
    },
    /// Submit a pass.
    Pass {
        /// Encoded pass.
        prepared: PreparedPass,
    },
}

/// Whether preparing a pass into a target ended as it should.
pub open spec fn pass_prepared(
    queue: Queue,
    context: Context,
    device: DeviceView,
    images: Seq<Image>,
    target: ExecutionTarget,
    submission: crate::driver::SubmissionView,
    max_command_bytes: u32,
    memory: Memory,
    next_context: Context,
    next_device: DeviceView,
    r: Result<PreparedPass, PassInterruption>,
) -> bool {
    match target {
        ExecutionTarget::Mapped(image) => {
            let at = find_image(images, image.resource_id);
            if at >= images.len() {
                &&& r == Err::<PreparedPass, PassInterruption>(
                    PassInterruption::Failed(HandleError::InvalidParameter),
                )
                &&& next_context == context
                &&& next_device == device
            } else {
                crate::virgl::target::pass_submitted(
                    queue,
                    context,
                    device,
                    crate::virgl::pass::spec_image_target(images[at]),
                    submission,
                    max_command_bytes,
                    memory,
                    next_context,
                    next_device,
                    r,
                )
            }
        },
        ExecutionTarget::Internal(spec) => {
            let found = crate::virgl::pass::spec_internal_target(queue, context, device, spec);
            match found.1 {
                Err(interruption) => {
                    &&& r == Err::<PreparedPass, PassInterruption>(interruption)
                    &&& next_context == context
                    &&& next_device == found.0
                },
                Ok(pass_target) => crate::virgl::target::pass_submitted(
                    queue,
                    context,
                    found.0,
                    pass_target,
                    submission,
                    max_command_bytes,
                    memory,
                    next_context,
                    next_device,
                    r,
                ),
            }
        },
    }
}

/// Whether preparing a step ended as it should.
pub open spec fn event_prepared(
    queue: Queue,
    context: Context,
    device: DeviceView,
    images: Seq<Image>,
    event: EventView,
    max_command_bytes: u32,
    memory: Memory,
    next_context: Context,
    next_device: DeviceView,
    r: Result<EventWork, PassInterruption>,
) -> bool {
    match event {
        EventView::Upload(spec, upload) => {
            let wanted = crate::virgl::resources::spec_upload_ir_texture(
                queue,
                context,
                device,
                spec,
                upload,
            );
            &&& next_context == context
            &&& next_device == wanted.0
            &&& match (r, wanted.1) {
                (Ok(EventWork::Upload { texture, stride }), Ok(destination)) => destination == (
                    texture,
                    stride,
                ),
                (Err(interruption), Err(expected)) => interruption == expected,
                _ => false,
            }
        },
        EventView::Copy(copy) => {
            let wanted = crate::virgl::resources::spec_copy_ir_texture(
                queue,
                context,
                device,
                copy,
            );
            &&& next_context == context
            &&& next_device == wanted.0
            &&& match r {
                Ok(EventWork::Copy { commands }) => crate::virgl::resources::words_produced(
                    Ok(commands),
                    wanted.1,
                    memory,
                ),
                Err(interruption) => crate::virgl::resources::words_produced(
                    Err(interruption),
                    wanted.1,
                    memory,
                ),
                _ => false,
            }
        },
        EventView::Pass(target, submission) => match r {
            Ok(EventWork::Pass { prepared }) => pass_prepared(
                queue,
                context,
                device,
                images,
                target,
                submission,
                max_command_bytes,
                memory,
                next_context,
                next_device,
                Ok(prepared),
            ),
            Err(interruption) => pass_prepared(
                queue,
                context,
                device,
                images,
                target,
                submission,
                max_command_bytes,
                memory,
                next_context,
                next_device,
                Err(interruption),
            ),
            _ => false,
        },
    }
}

impl Queue {
    fn prepare_pass(
        &self,
        context: &mut Context,
        device: &mut IrResources,
        images: &Vec<Image>,
        pass: &ExecutionPass,
        max_command_bytes: u32,
        memory: Memory,
    ) -> (r: Result<PreparedPass, PassInterruption>)
        ensures
            pass_prepared(
                *self,
                *old(context),
                old(device)@,
                images@,
                pass.target,
                pass.submission@,
                max_command_bytes,
                memory,
                *final(context),
                final(device)@,
                r,
            ),
    {
        let target: IrPassTarget = match pass.target {
            ExecutionTarget::Mapped(image) => {
                let at: usize = position_of(images, image.resource_id);
                if at >= images.len() {
                    return Err(PassInterruption::Failed(HandleError::InvalidParameter));
                }
                image_target(&images[at])
            },
            ExecutionTarget::Internal(spec) => match self.internal_target(context, device, spec) {
                Ok(target) => target,
                Err(interruption) => {
                    return Err(interruption);
                },
            },
        };
        self.submit_ir_target(
            context,
            device,
            target,
            &pass.submission,
            max_command_bytes,
            memory,
        )
    }

    /// Prepare one step of a plan for the device.
    ///
    /// Asks for a texture that does not exist yet: the caller creates it, installs
    /// it and prepares the step again.
    pub fn prepare_event(
        &self,
        context: &mut Context,
        device: &mut IrResources,
        images: &Vec<Image>,
        event: &ExecutionEvent,
        max_command_bytes: u32,
        memory: Memory,
    ) -> (r: Result<EventWork, PassInterruption>)
        ensures
            event_prepared(
                *self,
                *old(context),
                old(device)@,
                images@,
                event@,
                max_command_bytes,
                memory,
                *final(context),
                final(device)@,
                r,
            ),
    {
        match event {
            ExecutionEvent::Upload(spec, upload) => {
                match self.upload_ir_texture(context, device, *spec, upload) {
                    Ok((texture, stride)) => Ok(EventWork::Upload { texture, stride }),
                    Err(interruption) => Err(interruption),
                }
            },
            ExecutionEvent::Copy(copy) => {
                match self.copy_ir_texture(context, device, *copy, memory) {
                    Ok(commands) => Ok(EventWork::Copy { commands }),
                    Err(interruption) => Err(interruption),
                }
            },
            ExecutionEvent::Pass(pass) => {
                match self.prepare_pass(context, device, images, pass, max_command_bytes, memory) {
                    Ok(prepared) => Ok(EventWork::Pass { prepared }),
                    Err(interruption) => Err(interruption),
                }
            },
        }
    }
}

/// The images after a pass into one of them.
pub open spec fn spec_complete_image(images: Seq<Image>, resource_id: u32) -> Seq<Image> {
    let at = find_image(images, resource_id);
    if at < images.len() {
        images.update(at, Image { ir_surface_initialized: true, ..images[at] })
    } else {
        images
    }
}

/// What exists after a step was performed: objects of a pass, and its surface.
pub open spec fn spec_complete_event(
    device: DeviceView,
    images: Seq<Image>,
    event: EventView,
    work: EventWork,
) -> (DeviceView, Seq<Image>, Result<(), HandleError>) {
    match (event, work) {
        (EventView::Pass(target, _), EventWork::Pass { prepared }) => {
            let completed = crate::virgl::pass::spec_complete_pass(device, prepared);
            match target {
                ExecutionTarget::Mapped(image) => (
                    completed,
                    spec_complete_image(images, image.resource_id),
                    Ok(()),
                ),
                ExecutionTarget::Internal(spec) => {
                    let last = crate::virgl::pass::spec_complete_internal_target(completed, spec);
                    (last.0, images, last.1)
                },
            }
        },
        _ => (device, images, Ok(())),
    }
}

/// Note what exists after the device performed a step.
///
/// Fails with `HandleError::InvalidParameter` when the texture that a pass
/// rendered into is gone.
pub fn complete_event(
    device: &mut IrResources,
    images: &mut Vec<Image>,
    event: &ExecutionEvent,
    work: &EventWork,
) -> (r: Result<(), HandleError>)
    ensures
        (final(device)@, final(images)@, r) == spec_complete_event(
            old(device)@,
            old(images)@,
            event@,
            *work,
        ),
{
    match (event, work) {
        (ExecutionEvent::Pass(pass), EventWork::Pass { prepared }) => {
            device.complete_pass(prepared);
            match pass.target {
                ExecutionTarget::Mapped(image) => {
                    let at: usize = position_of(images, image.resource_id);
                    if at < images.len() {
                        let mut submitted: Image = images[at];
                        submitted.ir_surface_initialized = true;
                        images.set(at, submitted);
                    }
                    Ok(())
                },
                ExecutionTarget::Internal(spec) => device.complete_internal_target(spec),
            }
        },
        _ => Ok(()),
    }
}

} // verus!
