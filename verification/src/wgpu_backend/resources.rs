//! Caches of GPU objects.
//!
//! A cache lists what its GPU objects were made for. The objects themselves are
//! kept at the same places by whoever makes them.

use crate::ir::pipeline::{
    FragmentProgram, PrimitiveTopology, RenderPipelineDesc, RenderPipelineView, TextureSampleMode,
};
use crate::ir::resource::{
    BufferDesc, FilterMode, SamplerDesc, SamplerDescView, TextureDesc, TextureDescView,
    TextureFormat, TextureUsage,
};
use crate::ir::table::{
    BufferId, BufferRef, RenderPipelineId, RenderPipelineRef, ResourceTable, SamplerId, SamplerRef,
    TableView, TextureId, TextureRef,
};
use crate::wgpu_backend::format::{
    buffer_usage, raw_format, texture_usage, GpuBufferUsage, GpuTextureUsage, SurfaceFormat,
};
use crate::wgpu_backend::shader::shader_source;
use crate::wgpu_backend::{Error, UnsupportedFeature};
use vstd::prelude::*;

verus! {

/// An image that can stand for a presented texture.
#[derive(Debug, Clone, Copy, PartialEq, Eq, Structural)]
pub struct Image {
    /// Identity of the image.
    pub id: u64,
    /// Device that the image belongs to.
    pub device: u64,
    /// Width in pixels.
    pub width: u32,
    /// Height in pixels.
    pub height: u32,
    /// GPU format.
    pub raw_format: SurfaceFormat,
    /// Logical format.
    pub format: TextureFormat,
}

impl Image {
    /// Return whether an image of an extent and format can be created.
    ///
    /// Fails with `Error::InvalidState` for an empty extent and for formats other
    /// than linear color.
    pub fn check_new(width: u32, height: u32, format: TextureFormat) -> (r: Result<(), Error>)
        ensures
            r == (if width == 0 || height == 0 || !(format == TextureFormat::Bgra8Unorm || format
                == TextureFormat::Rgba8Unorm || format == TextureFormat::R8Unorm) {
                Err(Error::InvalidState)
            } else {
                Ok(())
            }),
    {
        let renderable: bool = match format {
            TextureFormat::Bgra8Unorm | TextureFormat::Rgba8Unorm | TextureFormat::R8Unorm => true,
            _ => false,
        };
        if width == 0 || height == 0 || !renderable {
            return Err(Error::InvalidState);
        }
        Ok(())
    }
}

/// An image that stands for a texture.
#[derive(Debug, Clone, Copy, PartialEq, Eq, Structural)]
pub struct MappedImage {
    /// Logical texture.
    pub texture: TextureId,
    /// Image.
    pub image: Image,
}

/// What a GPU pipeline was made for.
#[derive(Debug, Clone, Copy, PartialEq, Eq, Structural)]
pub struct PipelineKey {
    /// Logical pipeline.
    pub pipeline: RenderPipelineId,
    /// Format of the attachment.
    pub target_format: SurfaceFormat,
    /// Format of the sampled texture, where one is sampled.
    pub sample_format: Option<TextureFormat>,
}

/// What a clearing pipeline was made for.
#[derive(Debug, Clone, Copy, PartialEq, Eq, Structural)]
pub struct ClearKey {
    /// Format of the attachment.
    pub target_format: SurfaceFormat,
    /// Whether there is a depth attachment.
    pub has_depth: bool,
}

/// A GPU object to make.
#[allow(inconsistent_fields)]
#[derive(Debug, Clone, Copy, PartialEq, Eq, Structural)]
pub enum Creation {
    /// A texture.
    Texture {
        /// Logical texture.
        texture: TextureId,
        /// Width in texels.
        width: u32,
        /// Height in texels.
        height: u32,
        /// Format.
        format: SurfaceFormat,
        /// Usage.
        usage: GpuTextureUsage,
    },
    /// A buffer.
    Buffer {
        /// Logical buffer.
        buffer: BufferId,
        /// Size in bytes.
        size: u64,
        /// Usage.
        usage: GpuBufferUsage,
    },
    /// A sampler.
    Sampler {
        /// Logical sampler.
        sampler: SamplerId,
        /// Sampling.
        descriptor: SamplerDesc,
    },
    /// A pipeline.
    Pipeline(PipelineKey),
    /// A clearing pipeline.
    ClearPipeline(ClearKey),
}

/// Why planning stopped: it failed, or a GPU object has to be made first.
#[derive(Debug, Clone, Copy, PartialEq, Eq, Structural)]
pub enum Interruption {
    /// Planning failed.
    Failed(Error),
    /// Make this object, install it, and plan again.
    Create(Creation),
}

/// Where the GPU texture of a logical texture is.
#[derive(Debug, Clone, Copy, PartialEq, Eq, Structural)]
pub enum TexturePlace {
    /// The mapped image at a place.
    Mapped(usize),
    /// The made texture at a place.
    Owned(usize),
}

/// A GPU texture in use.
#[derive(Debug, Clone, Copy, PartialEq, Eq, Structural)]
pub struct TextureUse {
    /// Where it is.
    pub place: TexturePlace,
    /// GPU format.
    pub raw_format: SurfaceFormat,
    /// Logical format.
    pub format: TextureFormat,
    /// Width in texels.
    pub width: u32,
    /// Height in texels.
    pub height: u32,
}

/// A GPU pipeline in use.
#[derive(Debug, Clone, Copy, PartialEq, Eq, Structural)]
pub struct PipelineUse {
    /// Where it is.
    pub place: usize,
    /// Whether it samples a texture.
    pub requires_texture: bool,
    /// Whether it tests depth.
    pub has_depth: bool,
    /// How it samples.
    pub sample_mode: Option<TextureSampleMode>,
}

/// The contents of caches.
#[verifier::ext_equal]
pub struct CacheView {
    pub device: u64,
    pub table: usize,
    pub textures: Seq<TextureId>,
    pub buffers: Seq<BufferId>,
    pub samplers: Seq<SamplerId>,
    pub pipelines: Seq<PipelineKey>,
    pub clear_pipelines: Seq<ClearKey>,
    pub mapped_images: Seq<MappedImage>,
}

/// The first place of a value in a list, or the end.
pub open spec fn place_of<T>(list: Seq<T>, value: T) -> int
    decreases list.len(),
{
    if list.len() == 0 || list[0] == value {
        0
    } else {
        1 + place_of(list.skip(1), value)
    }
}

proof fn lemma_place_of<T>(list: Seq<T>, value: T, at: int)
    requires
        0 <= at <= list.len(),
        forall|i: int| 0 <= i < at ==> #[trigger] list[i] != value,
        at < list.len() ==> list[at] == value,
    ensures
        place_of(list, value) == at,
    decreases list.len(),
{
    if at > 0 {
        assert(list[0] != value);
        let rest = list.skip(1);
        assert forall|i: int| 0 <= i < at - 1 implies #[trigger] rest[i] != value by {
            assert(rest[i] == list[i + 1]);
        }
        lemma_place_of(rest, value, at - 1);
    }
}

/// The first place of the image of a texture, or the end.
pub open spec fn image_place(images: Seq<MappedImage>, texture: TextureId) -> int
    decreases images.len(),
{
    if images.len() == 0 || images[0].texture == texture {
        0
    } else {
        1 + image_place(images.skip(1), texture)
    }
}

proof fn lemma_image_place(images: Seq<MappedImage>, texture: TextureId, at: int)
    requires
        0 <= at <= images.len(),
        forall|i: int| 0 <= i < at ==> (#[trigger] images[i]).texture != texture,
        at < images.len() ==> images[at].texture == texture,
    ensures
        image_place(images, texture) == at,
    decreases images.len(),
{
    if at > 0 {
        assert(images[0].texture != texture);
        let rest = images.skip(1);
        assert forall|i: int| 0 <= i < at - 1 implies (#[trigger] rest[i]).texture != texture by {
            assert(rest[i] == images[i + 1]);
        }
        lemma_image_place(rest, texture, at - 1);
    }
}

/// A failure.
pub open spec fn failed<T>(error: Error) -> Result<T, Interruption> {
    Err(Interruption::Failed(error))
}

/// How a fragment program samples.
pub open spec fn sample_mode(fragment: FragmentProgram) -> Option<TextureSampleMode> {
    match fragment {
        FragmentProgram::Texture(mode) => Some(mode),
        FragmentProgram::TextureVertexColor(mode) => Some(mode),
        _ => None,
    }
}

impl CacheView {
    /// Let an image stand for a texture, in place of an earlier one.
    pub open spec fn map_image(self, table: TableView, texture: TextureId, image: Image) -> Result<
        Self,
        Error,
    > {
        let at = image_place(self.mapped_images, texture);
        if self.device != image.device {
            Err(Error::InvalidState)
        } else if self.table != table.id {
            Err(Error::ResourceTableMismatch)
        } else {
            match table.texture(texture.reference()) {
                Err(error) => Err(Error::InvalidIr(error)),
                Ok(desc) => if !desc@.usage.allows(TextureUsage::RENDER_ATTACHMENT_BIT)
                    || !desc@.usage.allows(TextureUsage::PRESENT_BIT) || desc@.extent.width
                    != image.width || desc@.extent.height != image.height || desc@.format
                    != image.format {
                    Err(Error::InvalidState)
                } else if exists|i: int|
                    0 <= i < self.mapped_images.len() && (
                    #[trigger] self.mapped_images[i]).texture != texture
                        && self.mapped_images[i].image.id == image.id {
                    Err(Error::ImageAlreadyMapped)
                } else {
                    Ok(
                        CacheView {
                            mapped_images: if at < self.mapped_images.len() {
                                self.mapped_images.update(at, MappedImage { texture, image })
                            } else {
                                self.mapped_images.push(MappedImage { texture, image })
                            },
                            ..self
                        },
                    )
                },
            }
        }
    }

    /// The GPU texture of a logical texture. Presented textures are mapped images.
    pub open spec fn texture(self, table: TableView, reference: TextureRef) -> Result<
        TextureUse,
        Interruption,
    > {
        match table.texture(reference) {
            Err(error) => failed(Error::InvalidIr(error)),
            Ok(desc) => {
                let image = image_place(self.mapped_images, reference.id());
                let owned = place_of(self.textures, reference.id());
                if image < self.mapped_images.len() {
                    Ok(
                        TextureUse {
                            place: TexturePlace::Mapped(image as usize),
                            raw_format: self.mapped_images[image].image.raw_format,
                            format: self.mapped_images[image].image.format,
                            width: self.mapped_images[image].image.width,
                            height: self.mapped_images[image].image.height,
                        },
                    )
                } else if desc@.usage.allows(TextureUsage::PRESENT_BIT) {
                    failed(Error::ImageNotMapped)
                } else if owned < self.textures.len() {
                    Ok(
                        TextureUse {
                            place: TexturePlace::Owned(owned as usize),
                            raw_format: crate::wgpu_backend::format::spec_raw_format(desc@.format),
                            format: desc@.format,
                            width: desc@.extent.width,
                            height: desc@.extent.height,
                        },
                    )
                } else {
                    create_texture(reference.id(), desc@)
                }
            },
        }
    }

    /// The GPU buffer of a logical buffer.
    pub open spec fn buffer(self, table: TableView, reference: BufferRef) -> Result<
        usize,
        Interruption,
    > {
        match table.buffer(reference) {
            Err(error) => failed(Error::InvalidIr(error)),
            Ok(desc) => {
                let place = place_of(self.buffers, reference.id());
                if place < self.buffers.len() {
                    Ok(place as usize)
                } else {
                    Err(
                        Interruption::Create(
                            Creation::Buffer {
                                buffer: reference.id(),
                                size: desc@.size,
                                usage: crate::wgpu_backend::format::spec_buffer_usage(desc@.usage),
                            },
                        ),
                    )
                }
            },
        }
    }

    /// The GPU sampler of a logical sampler.
    pub open spec fn sampler(self, table: TableView, reference: SamplerRef) -> Result<
        usize,
        Interruption,
    > {
        match table.sampler(reference) {
            Err(error) => failed(Error::InvalidIr(error)),
            Ok(desc) => {
                let place = place_of(self.samplers, reference.id());
                if place < self.samplers.len() {
                    Ok(place as usize)
                } else if desc@.compare is Some {
                    failed(Error::Unsupported(UnsupportedFeature::Pipeline))
                } else {
                    Err(
                        Interruption::Create(
                            Creation::Sampler { sampler: reference.id(), descriptor: desc },
                        ),
                    )
                }
            },
        }
    }

    /// The GPU pipeline of a logical pipeline for an attachment and a sampled
    /// texture.
    pub open spec fn pipeline(
        self,
        table: TableView,
        reference: RenderPipelineRef,
        target_format: SurfaceFormat,
        sample_format: Option<TextureFormat>,
    ) -> Result<PipelineUse, Interruption> {
        match table.render_pipeline(reference) {
            Err(error) => failed(Error::InvalidIr(error)),
            Ok(desc) => {
                let key = PipelineKey {
                    pipeline: reference.id(),
                    target_format,
                    sample_format: if desc.fragment.is_textured() {
                        sample_format
                    } else {
                        None
                    },
                };
                let place = place_of(self.pipelines, key);
                if place < self.pipelines.len() {
                    Ok(
                        PipelineUse {
                            place: place as usize,
                            requires_texture: desc.fragment.is_textured(),
                            has_depth: desc.depth is Some,
                            sample_mode: sample_mode(desc.fragment),
                        },
                    )
                } else if desc.target_format == TextureFormat::Depth32Float || desc.topology
                    != PrimitiveTopology::TriangleList || !crate::wgpu_backend::shader::generates(
                    desc,
                ) {
                    failed(Error::Unsupported(UnsupportedFeature::Pipeline))
                } else {
                    Err(Interruption::Create(Creation::Pipeline(key)))
                }
            },
        }
    }

    /// The pipeline that clears part of an attachment.
    pub open spec fn clear_pipeline(self, target_format: SurfaceFormat, has_depth: bool) -> Result<
        usize,
        Interruption,
    > {
        let key = ClearKey { target_format, has_depth };
        let place = place_of(self.clear_pipelines, key);
        if place < self.clear_pipelines.len() {
            Ok(place as usize)
        } else {
            Err(Interruption::Create(Creation::ClearPipeline(key)))
        }
    }

    /// The caches with one more object.
    pub open spec fn install(self, creation: Creation) -> Self {
        match creation {
            Creation::Texture { texture, .. } => CacheView {
                textures: self.textures.push(texture),
                ..self
            },
            Creation::Buffer { buffer, .. } => CacheView {
                buffers: self.buffers.push(buffer),
                ..self
            },
            Creation::Sampler { sampler, .. } => CacheView {
                samplers: self.samplers.push(sampler),
                ..self
            },
            Creation::Pipeline(key) => CacheView { pipelines: self.pipelines.push(key), ..self },
            Creation::ClearPipeline(key) => CacheView {
                clear_pipelines: self.clear_pipelines.push(key),
                ..self
            },
        }
    }
}

/// The texture to make, or why none can be made. GPU textures hold the first level
/// of one layer.
pub open spec fn create_texture(texture: TextureId, desc: TextureDescView) -> Result<
    TextureUse,
    Interruption,
> {
    if desc.array_layer_count != 1 {
        failed(Error::Unsupported(UnsupportedFeature::TextureFormat))
    } else {
        match crate::wgpu_backend::format::spec_texture_usage(desc.usage) {
            Err(error) => failed(error),
            Ok(usage) => Err(
                Interruption::Create(
                    Creation::Texture {
                        texture,
                        width: desc.extent.width,
                        height: desc.extent.height,
                        format: crate::wgpu_backend::format::spec_raw_format(desc.format),
                        usage,
                    },
                ),
            ),
        }
    }
}

/// Caches of GPU objects for the resources of one table.
#[derive(Debug)]
pub struct Resources {
    device: u64,
    table: usize,
    textures: Vec<TextureId>,
    buffers: Vec<BufferId>,
    samplers: Vec<SamplerId>,
    pipelines: Vec<PipelineKey>,
    clear_pipelines: Vec<ClearKey>,
    mapped_images: Vec<MappedImage>,
}

impl View for Resources {
    type V = CacheView;

    closed spec fn view(&self) -> CacheView {
        CacheView {
            device: self.device,
            table: self.table,
            textures: self.textures@,
            buffers: self.buffers@,
            samplers: self.samplers@,
            pipelines: self.pipelines@,
            clear_pipelines: self.clear_pipelines@,
            mapped_images: self.mapped_images@,
        }
    }
}

fn texture_position(list: &Vec<TextureId>, value: TextureId) -> (r: usize)
    ensures
        r == place_of(list@, value),
        r <= list@.len(),
{
    let mut at: usize = 0;
    while at < list.len() && list[at] != value
        invariant
            at <= list@.len(),
            forall|i: int| 0 <= i < at ==> #[trigger] list@[i] != value,
        decreases list.len() - at,
    {
        at = at + 1;
    }
    proof {
        lemma_place_of(list@, value, at as int);
    }
    at
}

fn buffer_position(list: &Vec<BufferId>, value: BufferId) -> (r: usize)
    ensures
        r == place_of(list@, value),
        r <= list@.len(),
{
    let mut at: usize = 0;
    while at < list.len() && list[at] != value
        invariant
            at <= list@.len(),
            forall|i: int| 0 <= i < at ==> #[trigger] list@[i] != value,
        decreases list.len() - at,
    {
        at = at + 1;
    }
    proof {
        lemma_place_of(list@, value, at as int);
    }
    at
}

fn sampler_position(list: &Vec<SamplerId>, value: SamplerId) -> (r: usize)
    ensures
        r == place_of(list@, value),
        r <= list@.len(),
{
    let mut at: usize = 0;
    while at < list.len() && list[at] != value
        invariant
            at <= list@.len(),
            forall|i: int| 0 <= i < at ==> #[trigger] list@[i] != value,
        decreases list.len() - at,
    {
        at = at + 1;
    }
    proof {
        lemma_place_of(list@, value, at as int);
    }
    at
}

fn pipeline_position(list: &Vec<PipelineKey>, value: PipelineKey) -> (r: usize)
    ensures
        r == place_of(list@, value),
        r <= list@.len(),
{
    let mut at: usize = 0;
    while at < list.len() && list[at] != value
        invariant
            at <= list@.len(),
            forall|i: int| 0 <= i < at ==> #[trigger] list@[i] != value,
        decreases list.len() - at,
    {
        at = at + 1;
    }
    proof {
        lemma_place_of(list@, value, at as int);
    }
    at
}

fn clear_position(list: &Vec<ClearKey>, value: ClearKey) -> (r: usize)
    ensures
        r == place_of(list@, value),
        r <= list@.len(),
{
    let mut at: usize = 0;
    while at < list.len() && list[at] != value
        invariant
            at <= list@.len(),
            forall|i: int| 0 <= i < at ==> #[trigger] list@[i] != value,
        decreases list.len() - at,
    {
        at = at + 1;
    }
    proof {
        lemma_place_of(list@, value, at as int);
    }
    at
}

fn image_position(images: &Vec<MappedImage>, texture: TextureId) -> (r: usize)
    ensures
        r == image_place(images@, texture),
        r <= images@.len(),
{
    let mut at: usize = 0;
    while at < images.len() && images[at].texture != texture
        invariant
            at <= images@.len(),
            forall|i: int| 0 <= i < at ==> (#[trigger] images@[i]).texture != texture,
        decreases images.len() - at,
    {
        at = at + 1;
    }
    proof {
        lemma_image_place(images@, texture, at as int);
    }
    at
}

impl Resources {
    /// Empty caches for a table on a device.
    pub fn new(device: u64, resources: &ResourceTable) -> (r: Self)
        ensures
            r@ == (CacheView {
                device,
                table: resources@.id,
                textures: Seq::empty(),
                buffers: Seq::empty(),
                samplers: Seq::empty(),
                pipelines: Seq::empty(),
                clear_pipelines: Seq::empty(),
                mapped_images: Seq::empty(),
            }),
    {
        Self {
            device,
            table: resources.identity(),
            textures: Vec::new(),
            buffers: Vec::new(),
            samplers: Vec::new(),
            pipelines: Vec::new(),
            clear_pipelines: Vec::new(),
            mapped_images: Vec::new(),
        }
    }

    /// Return the device that the objects belong to.
    pub fn device(&self) -> (r: u64)
        ensures
            r == self@.device,
    {
        self.device
    }

    /// Return whether the objects were made for a table.
    pub fn belongs_to(&self, resources: &ResourceTable) -> (r: bool)
        ensures
            r == (self@.table == resources@.id),
    {
        self.table == resources.identity()
    }

    /// Return the place of the image of a texture, if one is mapped.
    pub fn mapped_place(&self, texture: TextureId) -> (r: Option<usize>)
        ensures
            r == (if image_place(self@.mapped_images, texture) < self@.mapped_images.len() {
                Some(image_place(self@.mapped_images, texture) as usize)
            } else {
                None
            }),
    {
        let at: usize = image_position(&self.mapped_images, texture);
        if at < self.mapped_images.len() {
            Some(at)
        } else {
            None
        }
    }

    fn maps_elsewhere(&self, texture: TextureId, image: Image) -> (r: bool)
        ensures
            r == exists|i: int|
                0 <= i < self@.mapped_images.len() && (
                #[trigger] self@.mapped_images[i]).texture != texture
                    && self@.mapped_images[i].image.id == image.id,
    {
        let mut at: usize = 0;
        while at < self.mapped_images.len()
            invariant
                at <= self.mapped_images@.len(),
                self@.mapped_images == self.mapped_images@,
                forall|i: int|
                    0 <= i < at ==> !((#[trigger] self.mapped_images@[i]).texture != texture
                        && self.mapped_images@[i].image.id == image.id),
            decreases self.mapped_images.len() - at,
        {
            let mapped: MappedImage = self.mapped_images[at];
            if mapped.texture != texture && mapped.image.id == image.id {
                assert(self@.mapped_images[at as int] == mapped);
                return true;
            }
            at = at + 1;
        }
        false
    }

    /// Let an image stand for a presented texture, in place of an earlier image.
    ///
    /// Fails with `Error::InvalidState` for an image of another device, extent or
    /// format and for a texture that is no presented attachment, as the lookup
    /// does, and with `Error::ImageAlreadyMapped` for an image that stands for
    /// another texture. On any failure nothing changes.
    pub fn map_image(&mut self, resources: &ResourceTable, texture: TextureId, image: Image) -> (r:
        Result<(), Error>)
        ensures
            match old(self)@.map_image(resources@, texture, image) {
                Ok(next) => r == Ok::<(), Error>(()) && final(self)@ == next,
                Err(error) => r == Err::<(), Error>(error) && final(self)@ == old(self)@,
            },
    {
        proof {
            crate::ir::table::lemma_texture_reference(texture);
        }
        if self.device != image.device {
            return Err(Error::InvalidState);
        }
        if self.table != resources.identity() {
            return Err(Error::ResourceTableMismatch);
        }
        let reference: TextureRef = match resources.texture_ref(texture) {
            Ok(reference) => reference,
            Err(error) => {
                return Err(Error::InvalidIr(error));
            },
        };
        let descriptor: TextureDesc = match resources.texture(reference) {
            Ok(descriptor) => descriptor,
            Err(error) => {
                return Err(Error::InvalidIr(error));
            },
        };
        if !descriptor.usage().contains(TextureUsage::render_attachment())
            || !descriptor.usage().contains(TextureUsage::present()) || descriptor.extent().width()
            != image.width || descriptor.extent().height() != image.height || descriptor.format()
            != image.format {
            return Err(Error::InvalidState);
        }
        if self.maps_elsewhere(texture, image) {
            return Err(Error::ImageAlreadyMapped);
        }
        let at: usize = image_position(&self.mapped_images, texture);
        if at < self.mapped_images.len() {
            self.mapped_images.set(at, MappedImage { texture, image });
        } else {
            self.mapped_images.push(MappedImage { texture, image });
        }
        Ok(())
    }

    /// Note that a GPU object was made. It is kept at the end of its cache.
    pub fn install(&mut self, creation: Creation)
        ensures
            final(self)@ == old(self)@.install(creation),
    {
        match creation {
            Creation::Texture { texture, .. } => {
                self.textures.push(texture);
            },
            Creation::Buffer { buffer, .. } => {
                self.buffers.push(buffer);
            },
            Creation::Sampler { sampler, .. } => {
                self.samplers.push(sampler);
            },
            Creation::Pipeline(key) => {
                self.pipelines.push(key);
            },
            Creation::ClearPipeline(key) => {
                self.clear_pipelines.push(key);
            },
        }
    }

    /// Return the GPU texture of a logical texture.
    ///
    /// Fails as the lookup does, with `Error::ImageNotMapped` for a presented
    /// texture without an image, and for a texture that no GPU texture can hold.
    pub fn texture(&self, table: &ResourceTable, reference: TextureRef) -> (r: Result<
        TextureUse,
        Interruption,
    >)
        ensures
            r == self@.texture(table@, reference),
    {
        let descriptor: TextureDesc = match table.texture(reference) {
            Ok(descriptor) => descriptor,
            Err(error) => {
                return Err(Interruption::Failed(Error::InvalidIr(error)));
            },
        };
        let id: TextureId = reference.id();
        let image: usize = image_position(&self.mapped_images, id);
        if image < self.mapped_images.len() {
            let mapped: Image = self.mapped_images[image].image;
            return Ok(
                TextureUse {
                    place: TexturePlace::Mapped(image),
                    raw_format: mapped.raw_format,
                    format: mapped.format,
                    width: mapped.width,
                    height: mapped.height,
                },
            );
        }
        if descriptor.usage().contains(TextureUsage::present()) {
            return Err(Interruption::Failed(Error::ImageNotMapped));
        }
        let owned: usize = texture_position(&self.textures, id);
        let format: SurfaceFormat = raw_format(descriptor.format());
        if owned < self.textures.len() {
            return Ok(
                TextureUse {
                    place: TexturePlace::Owned(owned),
                    raw_format: format,
                    format: descriptor.format(),
                    width: descriptor.extent().width(),
                    height: descriptor.extent().height(),
                },
            );
        }
        if descriptor.array_layer_count() != 1 {
            return Err(
                Interruption::Failed(Error::Unsupported(UnsupportedFeature::TextureFormat)),
            );
        }
        match texture_usage(descriptor) {
            Err(error) => Err(Interruption::Failed(error)),
            Ok(usage) => Err(
                Interruption::Create(
                    Creation::Texture {
                        texture: id,
                        width: descriptor.extent().width(),
                        height: descriptor.extent().height(),
                        format,
                        usage,
                    },
                ),
            ),
        }
    }

    /// Return the GPU buffer of a logical buffer.
    pub fn buffer(&self, table: &ResourceTable, reference: BufferRef) -> (r: Result<
        usize,
        Interruption,
    >)
        ensures
            r == self@.buffer(table@, reference),
    {
        let descriptor: BufferDesc = match table.buffer(reference) {
            Ok(descriptor) => descriptor,
            Err(error) => {
                return Err(Interruption::Failed(Error::InvalidIr(error)));
            },
        };
        let place: usize = buffer_position(&self.buffers, reference.id());
        if place < self.buffers.len() {
            return Ok(place);
        }
        Err(
            Interruption::Create(
                Creation::Buffer {
                    buffer: reference.id(),
                    size: descriptor.size(),
                    usage: buffer_usage(descriptor),
                },
            ),
        )
    }

    /// Return the GPU sampler of a logical sampler.
    ///
    /// Fails as the lookup does, and for a sampler that compares.
    pub fn sampler(&self, table: &ResourceTable, reference: SamplerRef) -> (r: Result<
        usize,
        Interruption,
    >)
        ensures
            r == self@.sampler(table@, reference),
    {
        let descriptor: SamplerDesc = match table.sampler(reference) {
            Ok(descriptor) => descriptor,
            Err(error) => {
                return Err(Interruption::Failed(Error::InvalidIr(error)));
            },
        };
        let place: usize = sampler_position(&self.samplers, reference.id());
        if place < self.samplers.len() {
            return Ok(place);
        }
        if descriptor.compare().is_some() {
            return Err(Interruption::Failed(Error::Unsupported(UnsupportedFeature::Pipeline)));
        }
        Err(Interruption::Create(Creation::Sampler { sampler: reference.id(), descriptor }))
    }

    /// Return the GPU pipeline of a logical pipeline for an attachment and a
    /// sampled texture.
    ///
    /// Fails as the lookup does, and for a pipeline whose shader cannot be
    /// generated.
    pub fn pipeline(
        &self,
        table: &ResourceTable,
        reference: RenderPipelineRef,
        target_format: SurfaceFormat,
        sample_format: Option<TextureFormat>,
    ) -> (r: Result<PipelineUse, Interruption>)
        ensures
            r == self@.pipeline(table@, reference, target_format, sample_format),
    {
        let descriptor: RenderPipelineDesc = match table.render_pipeline(reference) {
            Ok(descriptor) => descriptor,
            Err(error) => {
                return Err(Interruption::Failed(Error::InvalidIr(error)));
            },
        };
        let textured: bool = descriptor.fragment().is_textured();
        let key = PipelineKey {
            pipeline: reference.id(),
            target_format,
            sample_format: if textured {
                sample_format
            } else {
                None
            },
        };
        let place: usize = pipeline_position(&self.pipelines, key);
        if place < self.pipelines.len() {
            return Ok(
                PipelineUse {
                    place,
                    requires_texture: textured,
                    has_depth: descriptor.depth_state().is_some(),
                    sample_mode: match descriptor.fragment() {
                        FragmentProgram::Texture(mode) => Some(mode),
                        FragmentProgram::TextureVertexColor(mode) => Some(mode),
                        _ => None,
                    },
                },
            );
        }
        if descriptor.target_format() == TextureFormat::Depth32Float || descriptor.topology()
            != PrimitiveTopology::TriangleList {
            return Err(Interruption::Failed(Error::Unsupported(UnsupportedFeature::Pipeline)));
        }
        match shader_source(&descriptor, key.sample_format) {
            Ok(_) => Err(Interruption::Create(Creation::Pipeline(key))),
            Err(error) => Err(Interruption::Failed(error)),
        }
    }

    /// Return the pipeline that clears part of an attachment.
    pub fn clear_pipeline(&self, target_format: SurfaceFormat, has_depth: bool) -> (r: Result<
        usize,
        Interruption,
    >)
        ensures
            r == self@.clear_pipeline(target_format, has_depth),
    {
        let key = ClearKey { target_format, has_depth };
        let place: usize = clear_position(&self.clear_pipelines, key);
        if place < self.clear_pipelines.len() {
            return Ok(place);
        }
        Err(Interruption::Create(Creation::ClearPipeline(key)))
    }
}

} // verus!
