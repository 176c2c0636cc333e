//! Objects that a device keeps for the resources of one table.

use crate::driver::{
    HandleError, IrPipelineState, IrRect, IrSamplerState, IrTextureCopy, IrTextureSpec,
    IrTextureUpload, UploadView, MAX_IR_VERTICES,
};
use crate::virgl::protocol::push_resource_copy;
use crate::virgl::state::{resource_id_from_token, Context, Image, Queue, Texture};
use crate::memory::Memory;
use vstd::prelude::*;

verus! {

pub const IR_TEXTURE_SLOTS: usize = 1_024;
pub const IR_SAMPLER_SLOTS: usize = 256;
pub const IR_PIPELINE_SLOTS: usize = 256;

/// Bytes of the buffer for the vertices of one pass.
pub const IR_VERTEX_BUFFER_BYTES: usize = MAX_IR_VERTICES * 32;

/// A sampler and its object.
#[derive(Debug, Clone, Copy, PartialEq, Eq, Structural)]
pub struct IrSampler {
    /// Object handle.
    pub handle: u32,
    /// Sampling.
    pub state: IrSamplerState,
    /// Whether the object exists.
    pub initialized: bool,
}

/// A pipeline and its objects.
#[derive(Debug, Clone, Copy, PartialEq, Eq, Structural)]
pub struct IrPipeline {
    /// Blend object.
    pub blend_handle: u32,
    /// Rasterizer object.
    pub rasterizer_handle: u32,
    /// Fixed state.
    pub state: IrPipelineState,
    /// Whether the objects exist.
    pub initialized: bool,
}

/// An image that stands for a texture.
#[derive(Debug, Clone, Copy, PartialEq, Eq, Structural)]
pub struct MappedIrTexture {
    /// Resource identity.
    pub resource_id: u32,
    /// Width in pixels.
    pub width: u32,
    /// Height in pixels.
    pub height: u32,
    /// View for sampling.
    pub sampler_view_handle: u32,
    /// Whether that view exists.
    pub sampler_view_initialized: bool,
    /// Surface for passes.
    pub surface_handle: u32,
    /// Whether that surface exists.
    pub surface_initialized: bool,
}

/// A texture of the device.
#[derive(Debug, Clone, Copy, PartialEq, Eq, Structural)]
pub enum IrTexture {
    /// Created for the table.
    Internal(Texture),
    /// A mapped image.
    Mapped(MappedIrTexture),
}

impl IrTexture {
    /// Resource identity.
    pub open spec fn spec_resource_id(self) -> u32 {
        match self {
            IrTexture::Internal(texture) => texture.resource_id,
            IrTexture::Mapped(texture) => texture.resource_id,
        }
    }

    /// Return the resource identity.
    #[verifier::when_used_as_spec(spec_resource_id)]
    pub fn resource_id(self) -> (r: u32)
        ensures
            r == self.spec_resource_id(),
    {
        match self {
            IrTexture::Internal(texture) => texture.resource_id,
            IrTexture::Mapped(texture) => texture.resource_id,
        }
    }

    /// Width and height.
    pub open spec fn spec_dimensions(self) -> (u32, u32) {
        match self {
            IrTexture::Internal(texture) => (texture.width, texture.height),
            IrTexture::Mapped(texture) => (texture.width, texture.height),
        }
    }

    /// Return width and height.
    #[verifier::when_used_as_spec(spec_dimensions)]
    pub fn dimensions(self) -> (r: (u32, u32))
        ensures
            r == self.spec_dimensions(),
    {
        match self {
            IrTexture::Internal(texture) => (texture.width, texture.height),
            IrTexture::Mapped(texture) => (texture.width, texture.height),
        }
    }

    /// View for sampling.
    pub open spec fn spec_sampler_view_handle(self) -> u32 {
        match self {
            IrTexture::Internal(texture) => texture.sampler_view_handle,
            IrTexture::Mapped(texture) => texture.sampler_view_handle,
        }
    }

    /// Return the view for sampling.
    #[verifier::when_used_as_spec(spec_sampler_view_handle)]
    pub fn sampler_view_handle(self) -> (r: u32)
        ensures
            r == self.spec_sampler_view_handle(),
    {
        match self {
            IrTexture::Internal(texture) => texture.sampler_view_handle,
            IrTexture::Mapped(texture) => texture.sampler_view_handle,
        }
    }

    /// Whether the view for sampling exists.
    pub open spec fn spec_sampler_view_initialized(self) -> bool {
        match self {
            IrTexture::Internal(texture) => texture.sampler_view_initialized,
            IrTexture::Mapped(texture) => texture.sampler_view_initialized,
        }
    }

    /// Return whether the view for sampling exists.
    #[verifier::when_used_as_spec(spec_sampler_view_initialized)]
    pub fn sampler_view_initialized(self) -> (r: bool)
        ensures
            r == self.spec_sampler_view_initialized(),
    {
        match self {
            IrTexture::Internal(texture) => texture.sampler_view_initialized,
            IrTexture::Mapped(texture) => texture.sampler_view_initialized,
        }
    }

    /// The texture once its view for sampling exists.
    pub open spec fn spec_with_sampler_view(self) -> Self {
        match self {
            IrTexture::Internal(texture) => IrTexture::Internal(
                Texture { sampler_view_initialized: true, ..texture },
            ),
            IrTexture::Mapped(texture) => IrTexture::Mapped(
                MappedIrTexture { sampler_view_initialized: true, ..texture },
            ),
        }
    }

    /// Return the texture with its view for sampling.
    #[verifier::when_used_as_spec(spec_with_sampler_view)]
    pub fn with_sampler_view(self) -> (r: Self)
        ensures
            r == self.spec_with_sampler_view(),
    {
        match self {
            IrTexture::Internal(texture) => {
                let mut texture: Texture = texture;
                texture.sampler_view_initialized = true;
                IrTexture::Internal(texture)
            },
            IrTexture::Mapped(texture) => {
                let mut texture: MappedIrTexture = texture;
                texture.sampler_view_initialized = true;
                IrTexture::Mapped(texture)
            },
        }
    }

    /// Surface for passes.
    pub open spec fn spec_surface_handle(self) -> u32 {
        match self {
            IrTexture::Internal(texture) => texture.ir_surface_handle,
            IrTexture::Mapped(texture) => texture.surface_handle,
        }
    }

    /// Return the surface for passes.
    #[verifier::when_used_as_spec(spec_surface_handle)]
    pub fn surface_handle(self) -> (r: u32)
        ensures
            r == self.spec_surface_handle(),
    {
        match self {
            IrTexture::Internal(texture) => texture.ir_surface_handle,
            IrTexture::Mapped(texture) => texture.surface_handle,
        }
    }

    /// Whether the surface for passes exists.
    pub open spec fn spec_surface_initialized(self) -> bool {
        match self {
            IrTexture::Internal(texture) => texture.ir_surface_initialized,
            IrTexture::Mapped(texture) => texture.surface_initialized,
        }
    }

    /// Return whether the surface for passes exists.
    #[verifier::when_used_as_spec(spec_surface_initialized)]
    pub fn surface_initialized(self) -> (r: bool)
        ensures
            r == self.spec_surface_initialized(),
    {
        match self {
            IrTexture::Internal(texture) => texture.ir_surface_initialized,
            IrTexture::Mapped(texture) => texture.surface_initialized,
        }
    }

    /// The texture once its surface for passes exists.
    pub open spec fn spec_with_surface(self) -> Self {
        match self {
            IrTexture::Internal(texture) => IrTexture::Internal(
                Texture { ir_surface_initialized: true, ..texture },
            ),
            IrTexture::Mapped(texture) => IrTexture::Mapped(
                MappedIrTexture { surface_initialized: true, ..texture },
            ),
        }
    }

    /// Return the texture with its surface for passes.
    #[verifier::when_used_as_spec(spec_with_surface)]
    pub fn with_surface(self) -> (r: Self)
        ensures
            r == self.spec_with_surface(),
    {
        match self {
            IrTexture::Internal(texture) => {
                let mut texture: Texture = texture;
                texture.ir_surface_initialized = true;
                IrTexture::Internal(texture)
            },
            IrTexture::Mapped(texture) => {
                let mut texture: MappedIrTexture = texture;
                texture.surface_initialized = true;
                IrTexture::Mapped(texture)
            },
        }
    }
}

/// Why a submission stopped: it failed, or a texture has to be created first.
#[derive(Debug, Clone, Copy, PartialEq, Eq, Structural)]
pub enum PassInterruption {
    /// The submission failed.
    Failed(HandleError),
    /// Create this texture, install it, and submit again.
    CreateTexture(IrTextureSpec),
}

/// Handles of the programs that all passes share.
#[derive(Debug, Clone, Copy, PartialEq, Eq, Structural)]
pub struct ProgramHandles {
    /// Vertex shader.
    pub vertex_shader: u32,
    /// Fragment shader of `IrFragmentProgram::Solid`.
    pub solid_fragment_shader: u32,
    /// Fragment shader of `IrFragmentProgram::VertexColor`.
    pub vertex_color_fragment_shader: u32,
    /// Fragment shader of `IrFragmentProgram::TextureRgba`.
    pub texture_rgba_fragment_shader: u32,
    /// Fragment shader of `IrFragmentProgram::TextureRgbIgnoreAlpha`.
    pub texture_rgb_ignore_alpha_fragment_shader: u32,
    /// Fragment shader of `IrFragmentProgram::TextureAlphaMask`.
    pub texture_alpha_mask_fragment_shader: u32,
    /// Vertex layout.
    pub vertex_elements: u32,
}

/// Objects that a device keeps for the resources of one table.
#[derive(Debug)]
pub struct IrResources {
    /// Context of all objects.
    pub context_handle: i32,
    /// Buffer for the vertices of passes.
    pub vertex_resource_id: u32,
    /// Textures by table position.
    pub textures: Vec<Option<IrTexture>>,
    /// Descriptions that the textures were first used with.
    pub texture_specs: Vec<Option<IrTextureSpec>>,
    /// Samplers by table position.
    pub samplers: Vec<Option<IrSampler>>,
    /// Pipelines by table position.
    pub pipelines: Vec<Option<IrPipeline>>,
    /// Programs.
    pub programs: ProgramHandles,
    /// Whether the programs exist.
    pub initialized: bool,
}

/// The contents of device resources.
#[verifier::ext_equal]
pub struct DeviceView {
    pub context_handle: i32,
    pub vertex_resource_id: u32,
    pub textures: Seq<Option<IrTexture>>,
    pub texture_specs: Seq<Option<IrTextureSpec>>,
    pub samplers: Seq<Option<IrSampler>>,
    pub pipelines: Seq<Option<IrPipeline>>,
    pub programs: ProgramHandles,
    pub initialized: bool,
}

impl View for IrResources {
    type V = DeviceView;

    open spec fn view(&self) -> DeviceView {
        DeviceView {
            context_handle: self.context_handle,
            vertex_resource_id: self.vertex_resource_id,
            textures: self.textures@,
            texture_specs: self.texture_specs@,
            samplers: self.samplers@,
            pipelines: self.pipelines@,
            programs: self.programs,
            initialized: self.initialized,
        }
    }
}

/// What is in a place of a list.
pub open spec fn in_slot<T>(list: Seq<Option<T>>, slot: usize) -> Option<T> {
    if slot < list.len() {
        list[slot as int]
    } else {
        None
    }
}

/// Whether a device image can be created for a description: not empty, not
/// presented, with a usage.
pub open spec fn spec_creatable(spec: IrTextureSpec) -> bool {
    spec.width != 0 && spec.height != 0 && !spec.present && (spec.render_attachment
        || spec.sampled || spec.copy_destination)
}

/// Return whether a device image can be created for a description.
#[verifier::when_used_as_spec(spec_creatable)]
pub fn creatable(spec: IrTextureSpec) -> (r: bool)
    ensures
        r == spec_creatable(spec),
{
    spec.width != 0 && spec.height != 0 && !spec.present && (spec.render_attachment
        || spec.sampled || spec.copy_destination)
}

impl DeviceView {
    /// The resources once a texture description is known.
    pub open spec fn with_spec(self, spec: IrTextureSpec) -> Self {
        if spec.slot < self.texture_specs.len() {
            DeviceView {
                texture_specs: self.texture_specs.update(spec.slot as int, Some(spec)),
                ..self
            }
        } else {
            self
        }
    }

    /// Find the texture of a description. One description belongs to each place.
    pub open spec fn ir_texture(self, spec: IrTextureSpec) -> (
        Self,
        Result<IrTexture, PassInterruption>,
    ) {
        let known = in_slot(self.texture_specs, spec.slot);
        let next = self.with_spec(spec);
        let invalid = Err(PassInterruption::Failed(HandleError::InvalidParameter));
        if known is Some && known->0 != spec {
            (self, invalid)
        } else if spec.slot >= self.textures.len() {
            (next, invalid)
        } else {
            match self.textures[spec.slot as int] {
                None => if creatable(spec) {
                    (next, Err(PassInterruption::CreateTexture(spec)))
                } else {
                    (next, invalid)
                },
                Some(texture) => if texture.dimensions() != (spec.width, spec.height) {
                    (next, invalid)
                } else {
                    (next, Ok(texture))
                },
            }
        }
    }

    /// Find or make the sampler of a state.
    pub open spec fn ir_sampler(self, context: Context, state: IrSamplerState) -> (
        Self,
        Context,
        Result<IrSampler, PassInterruption>,
    ) {
        if state.slot >= self.samplers.len() {
            (self, context, Err(PassInterruption::Failed(HandleError::InvalidParameter)))
        } else {
            match self.samplers[state.slot as int] {
                Some(sampler) => if sampler.state != state {
                    (self, context, Err(PassInterruption::Failed(HandleError::InvalidParameter)))
                } else {
                    (self, context, Ok(sampler))
                },
                None => match crate::virgl::state::spec_allocate(context) {
                    Err(error) => (self, context, Err(PassInterruption::Failed(error))),
                    Ok((next, handle)) => {
                        let sampler = IrSampler { handle, state, initialized: false };
                        (
                            DeviceView {
                                samplers: self.samplers.update(state.slot as int, Some(sampler)),
                                ..self
                            },
                            next,
                            Ok(sampler),
                        )
                    },
                },
            }
        }
    }

    /// Find or make the pipeline of a state.
    pub open spec fn ir_pipeline(self, context: Context, state: IrPipelineState) -> (
        Self,
        Context,
        Result<IrPipeline, PassInterruption>,
    ) {
        if state.slot >= self.pipelines.len() {
            (self, context, Err(PassInterruption::Failed(HandleError::InvalidParameter)))
        } else {
            match self.pipelines[state.slot as int] {
                Some(pipeline) => if pipeline.state != state {
                    (self, context, Err(PassInterruption::Failed(HandleError::InvalidParameter)))
                } else {
                    (self, context, Ok(pipeline))
                },
                None => {
                    let allocated = crate::virgl::state::spec_allocate_pair(context);
                    match allocated.1 {
                        Err(error) => (self, allocated.0, Err(PassInterruption::Failed(error))),
                        Ok((blend_handle, rasterizer_handle)) => {
                            let pipeline = IrPipeline {
                                blend_handle,
                                rasterizer_handle,
                                state,
                                initialized: false,
                            };
                            (
                                DeviceView {
                                    pipelines: self.pipelines.update(
                                        state.slot as int,
                                        Some(pipeline),
                                    ),
                                    ..self
                                },
                                allocated.0,
                                Ok(pipeline),
                            )
                        },
                    }
                },
            }
        }
    }
}

fn empty_slots<T>(count: usize, memory: Memory) -> (r: Result<Vec<Option<T>>, HandleError>)
    ensures
        match r {
            Ok(slots) => memory.may(true) && slots@ == Seq::new(count as nat, |i: int| None::<T>),
            Err(error) => memory.may(false) && error == HandleError::OutOfResources,
        },
{
    let mut slots: Vec<Option<T>> = Vec::new();
    if !memory.reserve(&mut slots, count) {
        return Err(HandleError::OutOfResources);
    }
    let mut i: usize = 0;
    while i < count
        invariant
            memory.may(true),
            i <= count,
            slots@ == Seq::new(i as nat, |i: int| None::<T>),
        decreases count - i,
    {
        slots.push(None);
        assert(slots@ =~= Seq::new((i + 1) as nat, |i: int| None::<T>));
        i = i + 1;
    }
    Ok(slots)
}

/// Device resources without objects, with programs at consecutive handles.
pub open spec fn spec_create_ir_resources(context: Context, vertex_resource_id: u32) -> DeviceView {
    let first = context.next_object_handle;
    DeviceView {
        context_handle: context.handle,
        vertex_resource_id,
        textures: Seq::new(IR_TEXTURE_SLOTS as nat, |i: int| None),
        texture_specs: Seq::new(IR_TEXTURE_SLOTS as nat, |i: int| None),
        samplers: Seq::new(IR_SAMPLER_SLOTS as nat, |i: int| None),
        pipelines: Seq::new(IR_PIPELINE_SLOTS as nat, |i: int| None),
        programs: ProgramHandles {
            vertex_shader: first,
            solid_fragment_shader: (first + 1) as u32,
            vertex_color_fragment_shader: (first + 2) as u32,
            texture_rgba_fragment_shader: (first + 3) as u32,
            texture_rgb_ignore_alpha_fragment_shader: (first + 4) as u32,
            texture_alpha_mask_fragment_shader: (first + 5) as u32,
            vertex_elements: (first + 6) as u32,
        },
        initialized: false,
    }
}

/// Whether a context has handles left for the programs of passes.
pub open spec fn has_program_handles(context: Context) -> bool {
    context.next_object_handle != 0 && context.next_object_handle + 7 <= u32::MAX
}

/// Keep objects for the resources of one table. The vertex buffer of passes was
/// attached under a token.
///
/// Fails as the token does, and with `HandleError::OutOfResources` when storage
/// could not be reserved or too few handles are left. On any failure the context
/// is unchanged.
pub fn create_ir_resources(context: &mut Context, token: u64) -> (r: Result<
    IrResources,
    HandleError,
>)
    ensures
        match r {
            Ok(resources) => {
                &&& crate::virgl::state::spec_resource_id(token) is Ok
                &&& has_program_handles(*old(context))
                &&& resources@ == spec_create_ir_resources(
                    *old(context),
                    crate::virgl::state::spec_resource_id(token)->Ok_0,
                )
                &&& *final(context) == (Context {
                    next_object_handle: (old(context).next_object_handle + 7) as u32,
                    ..*old(context)
                })
            },
            Err(error) => {
                &&& *final(context) == *old(context)
                &&& match crate::virgl::state::spec_resource_id(token) {
                    Err(expected) => error == expected,
                    Ok(_) => error == HandleError::OutOfResources,
                }
            },
        },
{
    create_ir_resources_with(context, token, Memory::System)
}

/// Keep objects for the resources of one table as `create_ir_resources` does, where
/// requests for room are answered as given.
pub fn create_ir_resources_with(context: &mut Context, token: u64, memory: Memory) -> (r: Result<
    IrResources,
    HandleError,
>)
    ensures
        match r {
            Ok(resources) => {
                &&& memory.may(true)
                &&& crate::virgl::state::spec_resource_id(token) is Ok
                &&& has_program_handles(*old(context))
                &&& resources@ == spec_create_ir_resources(
                    *old(context),
                    crate::virgl::state::spec_resource_id(token)->Ok_0,
                )
                &&& *final(context) == (Context {
                    next_object_handle: (old(context).next_object_handle + 7) as u32,
                    ..*old(context)
                })
            },
            Err(error) => {
                &&& *final(context) == *old(context)
                &&& match crate::virgl::state::spec_resource_id(token) {
                    Err(expected) => error == expected,
                    Ok(_) => error == HandleError::OutOfResources && (memory.may(false)
                        || !has_program_handles(*old(context))),
                }
            },
        },
{
    let vertex_resource_id: u32 = match resource_id_from_token(token) {
        Ok(id) => id,
        Err(error) => {
            return Err(error);
        },
    };
    let textures: Vec<Option<IrTexture>> = match empty_slots(IR_TEXTURE_SLOTS, memory) {
        Ok(slots) => slots,
        Err(error) => {
            return Err(error);
        },
    };
    let texture_specs: Vec<Option<IrTextureSpec>> = match empty_slots(IR_TEXTURE_SLOTS, memory) {
        Ok(slots) => slots,
        Err(error) => {
            return Err(error);
        },
    };
    let samplers: Vec<Option<IrSampler>> = match empty_slots(IR_SAMPLER_SLOTS, memory) {
        Ok(slots) => slots,
        Err(error) => {
            return Err(error);
        },
    };
    let pipelines: Vec<Option<IrPipeline>> = match empty_slots(IR_PIPELINE_SLOTS, memory) {
        Ok(slots) => slots,
        Err(error) => {
            return Err(error);
        },
    };
    let first: u32 = context.next_object_handle;
    if first == 0 || first > u32::MAX - 7 {
        return Err(HandleError::OutOfResources);
    }
    context.next_object_handle = first + 7;
    Ok(
        IrResources {
            context_handle: context.handle,
            vertex_resource_id,
            textures,
            texture_specs,
            samplers,
            pipelines,
            programs: ProgramHandles {
                vertex_shader: first,
                solid_fragment_shader: first + 1,
                vertex_color_fragment_shader: first + 2,
                texture_rgba_fragment_shader: first + 3,
                texture_rgb_ignore_alpha_fragment_shader: first + 4,
                texture_alpha_mask_fragment_shader: first + 5,
                vertex_elements: first + 6,
            },
            initialized: false,
        },
    )
}

/// Whether an image can stand for a texture of the device resources.
pub open spec fn mappable(
    context: Context,
    resources: DeviceView,
    texture: IrTextureSpec,
    image: Image,
) -> bool {
    &&& resources.context_handle == context.handle
    &&& image.context_handle == context.handle
    &&& texture.slot < resources.textures.len()
    &&& texture.width == image.width
    &&& texture.height == image.height
    &&& texture.render_attachment
    &&& texture.present
    &&& resources.textures[texture.slot as int] is None
}

/// The resources once an image stands for a texture.
pub open spec fn spec_mapped(
    resources: DeviceView,
    texture: IrTextureSpec,
    image: Image,
    handle: u32,
) -> DeviceView {
    DeviceView {
        textures: resources.textures.update(
            texture.slot as int,
            Some(
                IrTexture::Mapped(
                    MappedIrTexture {
                        resource_id: image.resource_id,
                        width: image.width,
                        height: image.height,
                        sampler_view_handle: handle,
                        sampler_view_initialized: false,
                        surface_handle: image.ir_surface_handle,
                        surface_initialized: image.ir_surface_initialized,
                    },
                ),
            ),
        ),
        ..resources
    }.with_spec(texture)
}

impl IrResources {
    /// Let an image stand for a texture.
    ///
    /// Fails with `HandleError::InvalidParameter` for another context, another
    /// extent, a texture that is not a presented attachment, or a place that is
    /// taken, and with `HandleError::OutOfResources` when no handle is left.
    pub fn map_ir_image(&mut self, context: &mut Context, texture: IrTextureSpec, image: &Image)
        -> (r: Result<(), HandleError>)
        ensures
            if !mappable(*old(context), old(self)@, texture, *image) {
                r == Err::<(), HandleError>(HandleError::InvalidParameter) && final(self)@ == old(
                    self,
                )@ && *final(context) == *old(context)
            } else {
                match crate::virgl::state::spec_allocate(*old(context)) {
                    Err(error) => r == Err::<(), HandleError>(error) && final(self)@ == old(self)@
                        && *final(context) == *old(context),
                    Ok((next, handle)) => {
                        &&& r == Ok::<(), HandleError>(())
                        &&& *final(context) == next
                        &&& final(self)@ == spec_mapped(old(self)@, texture, *image, handle)
                    },
                }
            },
    {
        if self.context_handle != context.handle || image.context_handle != context.handle
            || texture.slot >= self.textures.len() || texture.width != image.width
            || texture.height != image.height || !texture.render_attachment || !texture.present {
            return Err(HandleError::InvalidParameter);
        }
        if self.textures[texture.slot].is_some() {
            return Err(HandleError::InvalidParameter);
        }
        let handle: u32 = match context.allocate_object_handle() {
            Ok(handle) => handle,
            Err(error) => {
                return Err(error);
            },
        };
        self.textures.set(
            texture.slot,
            Some(
                IrTexture::Mapped(
                    MappedIrTexture {
                        resource_id: image.resource_id,
                        width: image.width,
                        height: image.height,
                        sampler_view_handle: handle,
                        sampler_view_initialized: false,
                        surface_handle: image.ir_surface_handle,
                        surface_initialized: image.ir_surface_initialized,
                    },
                ),
            ),
        );
        if texture.slot < self.texture_specs.len() {
            self.texture_specs.set(texture.slot, Some(texture));
        }
        Ok(())
    }

    /// Put a created texture in its place.
    pub fn install_texture(&mut self, spec: IrTextureSpec, texture: Texture)
        requires
            spec.slot < old(self)@.textures.len(),
        ensures
            final(self)@ == (DeviceView {
                textures: old(self)@.textures.update(
                    spec.slot as int,
                    Some(IrTexture::Internal(texture)),
                ),
                ..old(self)@
            }),
    {
        self.textures.set(spec.slot, Some(IrTexture::Internal(texture)));
    }

    /// Find the texture of a description.
    ///
    /// Fails with `HandleError::InvalidParameter` for a place that was used with
    /// another description or holds another extent, and asks for a texture that
    /// does not exist yet.
    pub fn ir_texture(&mut self, spec: IrTextureSpec) -> (r: Result<IrTexture, PassInterruption>)
        ensures
            (final(self)@, r) == old(self)@.ir_texture(spec),
    {
        if spec.slot < self.texture_specs.len() {
            match self.texture_specs[spec.slot] {
                Some(known) => {
                    if known != spec {
                        return Err(PassInterruption::Failed(HandleError::InvalidParameter));
                    }
                    assert(self@.texture_specs.update(spec.slot as int, Some(spec))
                        =~= self@.texture_specs);
                },
                None => {
                    self.texture_specs.set(spec.slot, Some(spec));
                },
            }
        }
        if spec.slot >= self.textures.len() {
            return Err(PassInterruption::Failed(HandleError::InvalidParameter));
        }
        match self.textures[spec.slot] {
            None => if creatable(spec) {
                Err(PassInterruption::CreateTexture(spec))
            } else {
                Err(PassInterruption::Failed(HandleError::InvalidParameter))
            },
            Some(texture) => {
                let (width, height) = texture.dimensions();
                if width != spec.width || height != spec.height {
                    return Err(PassInterruption::Failed(HandleError::InvalidParameter));
                }
                Ok(texture)
            },
        }
    }

    /// Find or make the sampler of a state.
    ///
    /// Fails with `HandleError::InvalidParameter` for a place that holds another
    /// state, and with `HandleError::OutOfResources` when no handle is left.
    pub fn ir_sampler(&mut self, context: &mut Context, state: IrSamplerState) -> (r: Result<
        IrSampler,
        PassInterruption,
    >)
        ensures
            (final(self)@, *final(context), r) == old(self)@.ir_sampler(*old(context), state),
    {
        if state.slot >= self.samplers.len() {
            return Err(PassInterruption::Failed(HandleError::InvalidParameter));
        }
        match self.samplers[state.slot] {
            Some(sampler) => {
                if sampler.state != state {
                    return Err(PassInterruption::Failed(HandleError::InvalidParameter));
                }
                Ok(sampler)
            },
            None => {
                let handle: u32 = match context.allocate_object_handle() {
                    Ok(handle) => handle,
                    Err(error) => {
                        return Err(PassInterruption::Failed(error));
                    },
                };
                let sampler = IrSampler { handle, state, initialized: false };
                self.samplers.set(state.slot, Some(sampler));
                Ok(sampler)
            },
        }
    }

    /// Find or make the pipeline of a state.
    ///
    /// Fails with `HandleError::InvalidParameter` for a place that holds another
    /// state, and with `HandleError::OutOfResources` when no handle is left.
    pub fn ir_pipeline(&mut self, context: &mut Context, state: IrPipelineState) -> (r: Result<
        IrPipeline,
        PassInterruption,
    >)
        ensures
            (final(self)@, *final(context), r) == old(self)@.ir_pipeline(*old(context), state),
    {
        if state.slot >= self.pipelines.len() {
            return Err(PassInterruption::Failed(HandleError::InvalidParameter));
        }
        match self.pipelines[state.slot] {
            Some(pipeline) => {
                if pipeline.state != state {
                    return Err(PassInterruption::Failed(HandleError::InvalidParameter));
                }
                Ok(pipeline)
            },
            None => {
                let (blend_handle, rasterizer_handle) = match context.allocate_pair() {
                    Ok(pair) => pair,
                    Err(error) => {
                        return Err(PassInterruption::Failed(error));
                    },
                };
                let pipeline = IrPipeline {
                    blend_handle,
                    rasterizer_handle,
                    state,
                    initialized: false,
                };
                self.pipelines.set(state.slot, Some(pipeline));
                Ok(pipeline)
            },
        }
    }
}

/// Where an upload goes: the texture and the bytes of one row.
pub open spec fn spec_upload_destination(
    textures: Seq<Option<IrTexture>>,
    upload: UploadView,
) -> Result<(Texture, u32), HandleError> {
    match in_slot(textures, upload.texture.slot) {
        Some(IrTexture::Internal(texture)) => if upload.destination.width * 4 > u32::MAX
            || !upload.destination.is_valid() {
            Err(HandleError::InvalidParameter)
        } else {
            Ok((texture, (upload.destination.width * 4) as u32))
        },
        _ => Err(HandleError::InvalidParameter),
    }
}

impl IrResources {
    /// Return where an upload goes: the texture and the bytes of one row.
    ///
    /// Fails with `HandleError::InvalidParameter` for a place without a texture of
    /// the table and for a region that cannot be addressed.
    pub fn upload_destination(&self, upload: &IrTextureUpload) -> (r: Result<
        (Texture, u32),
        HandleError,
    >)
        ensures
            r == spec_upload_destination(self@.textures, upload@),
    {
        if upload.texture.slot >= self.textures.len() {
            return Err(HandleError::InvalidParameter);
        }
        match self.textures[upload.texture.slot] {
            Some(IrTexture::Internal(texture)) => {
                if upload.destination.width > u32::MAX / 4 || !upload.destination.is_valid() {
                    return Err(HandleError::InvalidParameter);
                }
                Ok((texture, upload.destination.width * 4))
            },
            _ => Err(HandleError::InvalidParameter),
        }
    }
}

/// Where an upload into a texture goes, and the resources afterwards.
pub open spec fn spec_upload_ir_texture(
    queue: Queue,
    context: Context,
    resources: DeviceView,
    spec: IrTextureSpec,
    upload: UploadView,
) -> (DeviceView, Result<(Texture, u32), PassInterruption>) {
    if queue.context_handle != context.handle || resources.context_handle != context.handle
        || upload.texture.slot != spec.slot || upload.texture.width != spec.width
        || upload.texture.height != spec.height {
        (resources, Err(PassInterruption::Failed(HandleError::InvalidParameter)))
    } else {
        let found = resources.ir_texture(spec);
        (
            found.0,
            match found.1 {
                Err(interruption) => Err(interruption),
                Ok(_) => match spec_upload_destination(found.0.textures, upload) {
                    Ok(destination) => Ok(destination),
                    Err(error) => Err(PassInterruption::Failed(error)),
                },
            },
        )
    }
}

/// The words of a copy between textures, and the resources afterwards.
pub open spec fn spec_copy_ir_texture(
    queue: Queue,
    context: Context,
    resources: DeviceView,
    copy: IrTextureCopy,
) -> (DeviceView, Result<Seq<u32>, PassInterruption>) {
    if queue.context_handle != context.handle || resources.context_handle != context.handle
        || !copy_fits(copy) {
        (resources, Err(PassInterruption::Failed(HandleError::InvalidParameter)))
    } else {
        let source = resources.ir_texture(copy.source);
        match source.1 {
            Err(interruption) => (source.0, Err(interruption)),
            Ok(from) => {
                let destination = source.0.ir_texture(copy.destination);
                (
                    destination.0,
                    match destination.1 {
                        Err(interruption) => Err(interruption),
                        Ok(to) => Ok(
                            crate::virgl::protocol::resource_copy_words(
                                to.resource_id(),
                                copy.destination_rect,
                                from.resource_id(),
                                copy.source_rect,
                            ),
                        ),
                    },
                )
            },
        }
    }
}

/// Whether a result holds the wanted words where room for them may be granted, fails
/// as wanted, or lacks storage for the words where room may be refused.
pub open spec fn words_produced(
    r: Result<Vec<u32>, PassInterruption>,
    wanted: Result<Seq<u32>, PassInterruption>,
    memory: Memory,
) -> bool {
    match wanted {
        Err(interruption) => r == Err::<Vec<u32>, PassInterruption>(interruption),
        Ok(words) => match r {
            Ok(produced) => memory.may(true) && produced@ == words,
            Err(interruption) => memory.may(false) && interruption == PassInterruption::Failed(
                HandleError::OutOfResources,
            ),
        },
    }
}

impl Queue {
    /// Prepare an upload into a texture: the texture and the bytes of one row.
    ///
    /// Fails with `HandleError::InvalidParameter` for another context, for an
    /// upload of another texture, and for a mapped image, and asks for a texture
    /// that does not exist yet.
    pub fn upload_ir_texture(
        &self,
        context: &Context,
        resources: &mut IrResources,
        spec: IrTextureSpec,
        upload: &IrTextureUpload,
    ) -> (r: Result<(Texture, u32), PassInterruption>)
        ensures
            (final(resources)@, r) == spec_upload_ir_texture(
                *self,
                *context,
                old(resources)@,
                spec,
                upload@,
            ),
    {
        if self.context_handle != context.handle || resources.context_handle != context.handle
            || upload.texture.slot != spec.slot || upload.texture.width != spec.width
            || upload.texture.height != spec.height {
            return Err(PassInterruption::Failed(HandleError::InvalidParameter));
        }
        match resources.ir_texture(spec) {
            Err(interruption) => Err(interruption),
            Ok(_) => match resources.upload_destination(upload) {
                Ok(destination) => Ok(destination),
                Err(error) => Err(PassInterruption::Failed(error)),
            },
        }
    }

    /// Encode a copy between textures.
    ///
    /// Fails with `HandleError::InvalidParameter` for another context and for
    /// regions that differ in size or do not fit, and with
    /// `HandleError::OutOfResources` when storage could not be reserved, and asks for
    /// a texture that does not exist yet.
    pub fn copy_ir_texture(
        &self,
        context: &Context,
        resources: &mut IrResources,
        copy: IrTextureCopy,
        memory: Memory,
    ) -> (r: Result<Vec<u32>, PassInterruption>)
        ensures
            final(resources)@ == spec_copy_ir_texture(*self, *context, old(resources)@, copy).0,
            words_produced(
                r,
                spec_copy_ir_texture(*self, *context, old(resources)@, copy).1,
                memory,
            ),
    {
        if self.context_handle != context.handle || resources.context_handle != context.handle
            || !copy.source_rect.is_within(copy.source.width, copy.source.height)
            || !copy.destination_rect.is_within(copy.destination.width, copy.destination.height)
            || copy.source_rect.width != copy.destination_rect.width || copy.source_rect.height
            != copy.destination_rect.height {
            return Err(PassInterruption::Failed(HandleError::InvalidParameter));
        }
        let source: IrTexture = match resources.ir_texture(copy.source) {
            Ok(texture) => texture,
            Err(interruption) => {
                return Err(interruption);
            },
        };
        let destination: IrTexture = match resources.ir_texture(copy.destination) {
            Ok(texture) => texture,
            Err(interruption) => {
                return Err(interruption);
            },
        };
        let mut commands: Vec<u32> = Vec::new();
        if !memory.reserve(&mut commands, 14) {
            return Err(PassInterruption::Failed(HandleError::OutOfResources));
        }
        push_resource_copy(
            &mut commands,
            destination.resource_id(),
            copy.destination_rect,
            source.resource_id(),
            copy.source_rect,
        );
        assert(commands@ =~= crate::virgl::protocol::resource_copy_words(
            destination.resource_id(),
            copy.destination_rect,
            source.resource_id(),
            copy.source_rect,
        ));
        Ok(commands)
    }
}

/// Whether both regions of a copy fit and have one size.
pub open spec fn copy_fits(copy: IrTextureCopy) -> bool {
    &&& copy.source_rect.is_within(copy.source.width, copy.source.height)
    &&& copy.destination_rect.is_within(copy.destination.width, copy.destination.height)
    &&& copy.source_rect.width == copy.destination_rect.width
    &&& copy.source_rect.height == copy.destination_rect.height
}

} // verus!
