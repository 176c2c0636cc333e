//! Device state as plain values.

use crate::driver::HandleError;
use vstd::prelude::*;

verus! {

/// First object handle that contexts hand out. Lower ones are fixed.
pub const FIRST_DYNAMIC_OBJECT_HANDLE: u32 = 64;

/// What a device can do.
#[derive(Debug, Clone, Copy, PartialEq, Eq, Structural)]
pub struct Capabilities {
    /// Whether it executes queues.
    pub rendering: bool,
    /// Whether it presents images.
    pub presentation: bool,
    /// Whether images can be uploaded.
    pub image_upload: bool,
}

impl Capabilities {
    /// Accept what a device reports.
    ///
    /// Fails with `HandleError::Unsupported` for a device that is not ready or
    /// does not execute queues.
    pub fn of_device(ready: bool, rendering: bool, presentation: bool, image_upload: bool) -> (r:
        Result<Self, HandleError>)
        ensures
            r == (if ready && rendering {
                Ok(Capabilities { rendering, presentation, image_upload })
            } else {
                Err(HandleError::Unsupported)
            }),
    {
        if !ready || !rendering {
            return Err(HandleError::Unsupported);
        }
        Ok(Capabilities { rendering, presentation, image_upload })
    }
}

/// A device context: its identity and the next object handle.
#[derive(Debug, Clone, Copy, PartialEq, Eq, Structural)]
pub struct Context {
    /// Identity of the context.
    pub handle: i32,
    /// Handle of the next object.
    pub next_object_handle: u32,
}

/// The handle that a context hands out next and the context afterwards.
pub open spec fn spec_allocate(context: Context) -> Result<(Context, u32), HandleError> {
    let handle = context.next_object_handle;
    if handle == 0 || handle == u32::MAX {
        Err(HandleError::OutOfResources)
    } else {
        Ok((Context { next_object_handle: (handle + 1) as u32, ..context }, handle))
    }
}

impl Context {
    /// A context without objects.
    pub fn new(handle: i32) -> (r: Self)
        ensures
            r == (Context { handle, next_object_handle: FIRST_DYNAMIC_OBJECT_HANDLE }),
    {
        Context { handle, next_object_handle: FIRST_DYNAMIC_OBJECT_HANDLE }
    }

    /// Hand out an object handle.
    ///
    /// Fails with `HandleError::OutOfResources` when all were handed out, and
    /// changes nothing.
    pub fn allocate_object_handle(&mut self) -> (r: Result<u32, HandleError>)
        ensures
            match spec_allocate(*old(self)) {
                Ok((next, handle)) => r == Ok::<u32, HandleError>(handle) && *final(self) == next,
                Err(error) => r == Err::<u32, HandleError>(error) && *final(self) == *old(self),
            },
    {
        let handle: u32 = self.next_object_handle;
        if handle == 0 || handle == u32::MAX {
            return Err(HandleError::OutOfResources);
        }
        self.next_object_handle = handle + 1;
        Ok(handle)
    }
}

/// Handles of a context are never zero and never repeat: each is below all that
/// come after it.
pub proof fn law_handles_are_distinct(context: Context)
    ensures
        match spec_allocate(context) {
            Ok((next, handle)) => handle != 0 && handle < next.next_object_handle
                && next.handle == context.handle,
            Err(_) => true,
        },
{
}

/// The resource identity that an attachment token holds, if it is one.
pub open spec fn spec_resource_id(token: u64) -> Result<u32, HandleError> {
    if 0 < token <= u32::MAX {
        Ok(token as u32)
    } else {
        Err(HandleError::SystemError((-1) as i32))
    }
}

/// Return the resource identity that an attachment token holds.
///
/// Fails with `HandleError::SystemError` for zero and for more than 32 bits.
pub fn resource_id_from_token(token: u64) -> (r: Result<u32, HandleError>)
    ensures
        r == spec_resource_id(token),
{
    if token == 0 || token > u32::MAX as u64 {
        return Err(HandleError::SystemError(-1));
    }
    Ok(token as u32)
}

/// A presentable device image. Its rows run from the upper edge down.
#[derive(Debug, Clone, Copy, PartialEq, Eq, Structural)]
pub struct Image {
    /// Resource identity.
    pub resource_id: u32,
    /// Context that it is attached to.
    pub context_handle: i32,
    /// Width in pixels.
    pub width: u32,
    /// Height in pixels.
    pub height: u32,
    /// Surface for compositions.
    pub composition_surface_handle: u32,
    /// Whether that surface exists.
    pub composition_surface_initialized: bool,
    /// Surface for passes.
    pub ir_surface_handle: u32,
    /// Whether that surface exists.
    pub ir_surface_initialized: bool,
}

/// A device texture.
#[derive(Debug, Clone, Copy, PartialEq, Eq, Structural)]
pub struct Texture {
    /// Resource identity.
    pub resource_id: u32,
    /// Width in texels.
    pub width: u32,
    /// Height in texels.
    pub height: u32,
    /// Context that it is attached to.
    pub context_handle: i32,
    /// View for sampling.
    pub sampler_view_handle: u32,
    /// Whether that view exists.
    pub sampler_view_initialized: bool,
    /// Surface for passes.
    pub ir_surface_handle: u32,
    /// Whether that surface exists.
    pub ir_surface_initialized: bool,
}

/// Two handles from a context, in order.
pub open spec fn spec_allocate_pair(context: Context) -> (Context, Result<(u32, u32), HandleError>) {
    match spec_allocate(context) {
        Err(error) => (context, Err(error)),
        Ok((next, first)) => match spec_allocate(next) {
            Err(error) => (next, Err(error)),
            Ok((last, second)) => (last, Ok((first, second))),
        },
    }
}

impl Context {
    /// Hand out two object handles. The first one stays taken when the second fails.
    pub fn allocate_pair(&mut self) -> (r: Result<(u32, u32), HandleError>)
        ensures
            (*final(self), r) == spec_allocate_pair(*old(self)),
    {
        let first: u32 = match self.allocate_object_handle() {
            Ok(first) => first,
            Err(error) => {
                return Err(error);
            },
        };
        match self.allocate_object_handle() {
            Ok(second) => Ok((first, second)),
            Err(error) => Err(error),
        }
    }

    /// Return whether an image of an extent can be created.
    ///
    /// Fails with `HandleError::InvalidParameter` for an empty extent.
    pub fn check_extent(width: u32, height: u32) -> (r: Result<(), HandleError>)
        ensures
            r == (if width == 0 || height == 0 {
                Err(HandleError::InvalidParameter)
            } else {
                Ok(())
            }),
    {
        if width == 0 || height == 0 {
            return Err(HandleError::InvalidParameter);
        }
        Ok(())
    }

    /// Return whether a sampled texture of an extent can be created and uploaded.
    ///
    /// Fails with `HandleError::InvalidParameter` for an empty extent, and with
    /// `HandleError::Unsupported` when images cannot be uploaded.
    pub fn check_sampled_texture(capabilities: Capabilities, width: u32, height: u32) -> (r: Result<
        (),
        HandleError,
    >)
        ensures
            r == (if width == 0 || height == 0 {
                Err(HandleError::InvalidParameter)
            } else if !capabilities.image_upload {
                Err(HandleError::Unsupported)
            } else {
                Ok(())
            }),
    {
        if width == 0 || height == 0 {
            return Err(HandleError::InvalidParameter);
        }
        if !capabilities.image_upload {
            return Err(HandleError::Unsupported);
        }
        Ok(())
    }

    /// Return whether shared memory of an extent can be imported.
    ///
    /// Fails with `HandleError::InvalidParameter` for an empty extent or when
    /// images cannot be uploaded.
    pub fn check_imported_texture(capabilities: Capabilities, width: u32, height: u32) -> (r:
        Result<(), HandleError>)
        ensures
            r == (if width == 0 || height == 0 || !capabilities.image_upload {
                Err(HandleError::InvalidParameter)
            } else {
                Ok(())
            }),
    {
        if width == 0 || height == 0 || !capabilities.image_upload {
            return Err(HandleError::InvalidParameter);
        }
        Ok(())
    }

    /// Return whether an image that another process shares can be sampled.
    ///
    /// Fails with `HandleError::InvalidParameter` for a format other than BGRA, an
    /// image that is not for sampling, or an empty extent.
    pub fn check_shared_texture(bgra: bool, sampled: bool, width: u32, height: u32) -> (r: Result<
        (),
        HandleError,
    >)
        ensures
            r == (if !bgra || !sampled || width == 0 || height == 0 {
                Err(HandleError::InvalidParameter)
            } else {
                Ok(())
            }),
    {
        if !bgra || !sampled || width == 0 || height == 0 {
            return Err(HandleError::InvalidParameter);
        }
        Ok(())
    }

    /// Describe an image that was attached under a token.
    pub fn register_image(&mut self, token: u64, width: u32, height: u32) -> (r: Result<
        Image,
        HandleError,
    >)
        ensures
            match spec_resource_id(token) {
                Err(error) => r == Err::<Image, HandleError>(error) && *final(self) == *old(self),
                Ok(resource_id) => {
                    let allocated = spec_allocate_pair(*old(self));
                    *final(self) == allocated.0 && r == (match allocated.1 {
                        Err(error) => Err(error),
                        Ok((composition, surface)) => Ok(
                            Image {
                                resource_id,
                                context_handle: old(self).handle,
                                width,
                                height,
                                composition_surface_handle: composition,
                                composition_surface_initialized: false,
                                ir_surface_handle: surface,
                                ir_surface_initialized: false,
                            },
                        ),
                    })
                },
            },
    {
        let context_handle: i32 = self.handle;
        let resource_id: u32 = match resource_id_from_token(token) {
            Ok(resource_id) => resource_id,
            Err(error) => {
                return Err(error);
            },
        };
        match self.allocate_pair() {
            Ok((composition, surface)) => Ok(
                Image {
                    resource_id,
                    context_handle,
                    width,
                    height,
                    composition_surface_handle: composition,
                    composition_surface_initialized: false,
                    ir_surface_handle: surface,
                    ir_surface_initialized: false,
                },
            ),
            Err(error) => Err(error),
        }
    }
}

/// The texture that was attached under a token, and the context afterwards.
pub open spec fn spec_register_texture(context: Context, token: u64, width: u32, height: u32) -> (
    Context,
    Result<Texture, HandleError>,
) {
    match spec_resource_id(token) {
        Err(error) => (context, Err(error)),
        Ok(resource_id) => {
            let allocated = spec_allocate_pair(context);
            (
                allocated.0,
                match allocated.1 {
                    Err(error) => Err(error),
                    Ok((view, surface)) => Ok(
                        Texture {
                            resource_id,
                            width,
                            height,
                            context_handle: context.handle,
                            sampler_view_handle: view,
                            sampler_view_initialized: false,
                            ir_surface_handle: surface,
                            ir_surface_initialized: false,
                        },
                    ),
                },
            )
        },
    }
}

impl Context {
    /// Describe a texture that was attached under a token.
    pub fn register_texture(&mut self, token: u64, width: u32, height: u32) -> (r: Result<
        Texture,
        HandleError,
    >)
        ensures
            (*final(self), r) == spec_register_texture(*old(self), token, width, height),
    {
        let context_handle: i32 = self.handle;
        let resource_id: u32 = match resource_id_from_token(token) {
            Ok(resource_id) => resource_id,
            Err(error) => {
                return Err(error);
            },
        };
        match self.allocate_pair() {
            Ok((view, surface)) => Ok(
                Texture {
                    resource_id,
                    width,
                    height,
                    context_handle,
                    sampler_view_handle: view,
                    sampler_view_initialized: false,
                    ir_surface_handle: surface,
                    ir_surface_initialized: false,
                },
            ),
            Err(error) => Err(error),
        }
    }

    /// Return whether a region of a texture can be uploaded.
    ///
    /// Fails with `HandleError::InvalidParameter` for a texture of another context
    /// and for a region that is empty or not within the texture.
    pub fn check_upload(&self, texture: &Texture, damage: crate::driver::IrRect) -> (r: Result<
        (),
        HandleError,
    >)
        ensures
            r == (if texture.context_handle != self.handle || !damage.is_within(
                texture.width,
                texture.height,
            ) {
                Err(HandleError::InvalidParameter)
            } else {
                Ok(())
            }),
    {
        if texture.context_handle != self.handle || !damage.is_within(
            texture.width,
            texture.height,
        ) {
            return Err(HandleError::InvalidParameter);
        }
        Ok(())
    }

    /// Return whether something of a context can be released through this one.
    ///
    /// Fails with `HandleError::InvalidParameter` for another context.
    pub fn check_release(&self, context_handle: i32) -> (r: Result<(), HandleError>)
        ensures
            r == (if context_handle != self.handle {
                Err(HandleError::InvalidParameter)
            } else {
                Ok(())
            }),
    {
        if context_handle != self.handle {
            return Err(HandleError::InvalidParameter);
        }
        Ok(())
    }
}

/// The state of a queue.
#[derive(Debug, Clone, Copy, PartialEq, Eq, Structural)]
pub struct Queue {
    /// Context that it belongs to.
    pub context_handle: i32,
    /// Buffer for the vertices of compositions.
    pub composition_vertex_resource_id: u32,
    /// Whether the objects of compositions exist.
    pub composition_initialized: bool,
}

} // verus!
