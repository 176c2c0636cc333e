//! Formats, usages and operations of GPU attachments.

use crate::ir::pipeline::DrawUniforms;
use crate::ir::render_pass::{DepthLoadOp, LoadOp};
use crate::ir::resource::{BufferDesc, BufferUsage, TextureDesc, TextureFormat, TextureUsage};
use crate::ir::types::{Color, PixelRect};
use crate::wgpu_backend::Error;
use vstd::prelude::*;

verus! {

/// Format of a GPU texture or surface.
#[derive(Debug, Clone, Copy, PartialEq, Eq, Structural)]
pub enum SurfaceFormat {
    /// Linear BGRA.
    Bgra8Unorm,
    /// BGRA with sRGB color.
    Bgra8UnormSrgb,
    /// Linear RGBA.
    Rgba8Unorm,
    /// RGBA with sRGB color.
    Rgba8UnormSrgb,
    /// One linear channel.
    R8Unorm,
    /// Single-precision depth.
    Depth32Float,
    /// Any other format.
    Other,
}

/// The logical format that a surface presents, if it can be rendered to.
pub open spec fn spec_logical_format(format: SurfaceFormat) -> Option<TextureFormat> {
    match format {
        SurfaceFormat::Bgra8Unorm | SurfaceFormat::Bgra8UnormSrgb => Some(
            TextureFormat::Bgra8Unorm,
        ),
        SurfaceFormat::Rgba8Unorm | SurfaceFormat::Rgba8UnormSrgb => Some(
            TextureFormat::Rgba8Unorm,
        ),
        _ => None,
    }
}

/// Return the logical format that a surface presents, if it can be rendered to.
/// Surfaces with sRGB color present the linear format of the same channels.
pub fn logical_format(format: SurfaceFormat) -> (r: Option<TextureFormat>)
    ensures
        r == spec_logical_format(format),
{
    match format {
        SurfaceFormat::Bgra8Unorm | SurfaceFormat::Bgra8UnormSrgb => Some(
            TextureFormat::Bgra8Unorm,
        ),
        SurfaceFormat::Rgba8Unorm | SurfaceFormat::Rgba8UnormSrgb => Some(
            TextureFormat::Rgba8Unorm,
        ),
        _ => None,
    }
}

/// The GPU format of a logical format.
pub open spec fn spec_raw_format(format: TextureFormat) -> SurfaceFormat {
    match format {
        TextureFormat::Bgra8Unorm => SurfaceFormat::Bgra8Unorm,
        TextureFormat::Rgba8Unorm => SurfaceFormat::Rgba8Unorm,
        TextureFormat::Rgba8UnormSrgb => SurfaceFormat::Rgba8UnormSrgb,
        TextureFormat::R8Unorm => SurfaceFormat::R8Unorm,
        TextureFormat::Depth32Float => SurfaceFormat::Depth32Float,
    }
}

/// Return the GPU format of a logical format.
pub fn raw_format(format: TextureFormat) -> (r: SurfaceFormat)
    ensures
        r == spec_raw_format(format),
{
    match format {
        TextureFormat::Bgra8Unorm => SurfaceFormat::Bgra8Unorm,
        TextureFormat::Rgba8Unorm => SurfaceFormat::Rgba8Unorm,
        TextureFormat::Rgba8UnormSrgb => SurfaceFormat::Rgba8UnormSrgb,
        TextureFormat::R8Unorm => SurfaceFormat::R8Unorm,
        TextureFormat::Depth32Float => SurfaceFormat::Depth32Float,
    }
}

/// A linear color format is its own surface format.
pub proof fn law_linear_color_formats_round_trip(format: TextureFormat)
    requires
        format == TextureFormat::Bgra8Unorm || format == TextureFormat::Rgba8Unorm,
    ensures
        spec_logical_format(spec_raw_format(format)) == Some(format),
{
}

/// What a GPU texture is used for.
#[derive(Debug, Clone, Copy, PartialEq, Eq, Structural)]
pub struct GpuTextureUsage {
    /// Bound for sampling.
    pub texture_binding: bool,
    /// Rendered into.
    pub render_attachment: bool,
    /// Copied from.
    pub copy_src: bool,
    /// Copied to.
    pub copy_dst: bool,
}

/// The GPU usage of a logical usage, if there is one.
pub open spec fn spec_texture_usage(usage: TextureUsage) -> Result<GpuTextureUsage, Error> {
    let gpu = GpuTextureUsage {
        texture_binding: usage.allows(TextureUsage::SAMPLED_BIT),
        render_attachment: usage.allows(TextureUsage::RENDER_ATTACHMENT_BIT),
        copy_src: usage.allows(TextureUsage::COPY_SRC_BIT),
        copy_dst: usage.allows(TextureUsage::COPY_DST_BIT),
    };
    if !gpu.texture_binding && !gpu.render_attachment && !gpu.copy_src && !gpu.copy_dst {
        Err(Error::InvalidState)
    } else {
        Ok(gpu)
    }
}

/// Return the GPU usage of a texture.
///
/// Fails with `Error::InvalidState` for a texture without any usage on the GPU.
pub fn texture_usage(descriptor: TextureDesc) -> (r: Result<GpuTextureUsage, Error>)
    ensures
        r == spec_texture_usage(descriptor@.usage),
{
    let usage: TextureUsage = descriptor.usage();
    let gpu = GpuTextureUsage {
        texture_binding: usage.contains(TextureUsage::sampled()),
        render_attachment: usage.contains(TextureUsage::render_attachment()),
        copy_src: usage.contains(TextureUsage::copy_src()),
        copy_dst: usage.contains(TextureUsage::copy_dst()),
    };
    if !gpu.texture_binding && !gpu.render_attachment && !gpu.copy_src && !gpu.copy_dst {
        Err(Error::InvalidState)
    } else {
        Ok(gpu)
    }
}

/// What a GPU buffer is used for.
#[derive(Debug, Clone, Copy, PartialEq, Eq, Structural)]
pub struct GpuBufferUsage {
    /// Read as vertices.
    pub vertex: bool,
    /// Read as indices.
    pub index: bool,
    /// Copied from.
    pub copy_src: bool,
    /// Copied to.
    pub copy_dst: bool,
}

/// The GPU usage of a logical buffer usage.
pub open spec fn spec_buffer_usage(usage: BufferUsage) -> GpuBufferUsage {
    GpuBufferUsage {
        vertex: usage.allows(BufferUsage::VERTEX_BIT),
        index: usage.allows(BufferUsage::INDEX_BIT),
        copy_src: usage.allows(BufferUsage::COPY_SRC_BIT),
        copy_dst: usage.allows(BufferUsage::COPY_DST_BIT),
    }
}

/// Return the GPU usage of a buffer.
pub fn buffer_usage(descriptor: BufferDesc) -> (r: GpuBufferUsage)
    ensures
        r == spec_buffer_usage(descriptor@.usage),
{
    let usage: BufferUsage = descriptor.usage();
    GpuBufferUsage {
        vertex: usage.contains(BufferUsage::vertex()),
        index: usage.contains(BufferUsage::index()),
        copy_src: usage.contains(BufferUsage::copy_src()),
        copy_dst: usage.contains(BufferUsage::copy_dst()),
    }
}

/// Initial contents of a color attachment.
#[derive(Debug, Clone, Copy, PartialEq, Eq)]
pub enum ColorLoad {
    /// Keep the contents.
    Load,
    /// Clear to a color.
    Clear([u32; 4]),
}

/// The contents of a color load.
pub enum ColorLoadView {
    Load,
    Clear(Seq<u32>),
}

impl View for ColorLoad {
    type V = ColorLoadView;

    open spec fn view(&self) -> ColorLoadView {
        match *self {
            ColorLoad::Load => ColorLoadView::Load,
            ColorLoad::Clear(color) => ColorLoadView::Clear(color@),
        }
    }
}

/// The load of a color attachment that a pass covers wholly. Contents that do not
/// matter become transparent black.
pub open spec fn spec_color_load_op(load: LoadOp) -> ColorLoadView {
    match load {
        LoadOp::Load => ColorLoadView::Load,
        LoadOp::Clear(color) => ColorLoadView::Clear(color@),
        LoadOp::DontCare => ColorLoadView::Clear(seq![0, 0, 0, 0]),
    }
}

/// Return the load of a color attachment that a pass covers wholly.
pub fn color_load_op(load: LoadOp) -> (r: ColorLoad)
    ensures
        r@ == spec_color_load_op(load),
{
    match load {
        LoadOp::Load => ColorLoad::Load,
        LoadOp::Clear(color) => ColorLoad::Clear(color.components()),
        LoadOp::DontCare => {
            let transparent: [u32; 4] = [0, 0, 0, 0];
            assert(transparent@ =~= seq![0u32, 0, 0, 0]);
            ColorLoad::Clear(transparent)
        },
    }
}

/// Initial contents of a depth attachment.
#[derive(Debug, Clone, Copy, PartialEq, Eq, Structural)]
pub enum DepthLoad {
    /// Keep the contents.
    Load,
    /// Clear to a depth.
    Clear(u32),
}

/// The load of a depth attachment that a pass covers wholly. Contents that do not
/// matter become the farthest depth.
pub open spec fn spec_depth_load_op(load: DepthLoadOp) -> DepthLoad {
    match load {
        DepthLoadOp::Load => DepthLoad::Load,
        DepthLoadOp::Clear(value) => DepthLoad::Clear(value),
        DepthLoadOp::DontCare => DepthLoad::Clear(crate::ir::float::ONE_BITS),
    }
}

/// Return the load of a depth attachment that a pass covers wholly.
pub fn depth_load_op(load: DepthLoadOp) -> (r: DepthLoad)
    ensures
        r == spec_depth_load_op(load),
{
    match load {
        DepthLoadOp::Load => DepthLoad::Load,
        DepthLoadOp::Clear(value) => DepthLoad::Clear(value),
        DepthLoadOp::DontCare => DepthLoad::Clear(crate::ir::float::ONE_BITS),
    }
}

/// Whether an area is exactly a target of an extent.
pub open spec fn spec_render_area_is_full(area: PixelRect, width: u32, height: u32) -> bool {
    area@.x == 0 && area@.y == 0 && area@.width == width && area@.height == height
}

/// Return whether an area is exactly a target of an extent. Only then can the
/// attachment be cleared as it is loaded.
pub fn render_area_is_full(area: PixelRect, width: u32, height: u32) -> (r: bool)
    ensures
        r == spec_render_area_is_full(area, width, height),
{
    area.x() == 0 && area.y() == 0 && area.width() == width && area.height() == height
}

/// The bytes of words, most significant first.
pub open spec fn reversed_bytes(words: Seq<u32>) -> Seq<u8> {
    Seq::new(
        4 * words.len(),
        |i: int| crate::virgl::protocol::word_byte(words[i / 4], 3 - i % 4),
    )
}

/// Whether bytes are the memory of words on a machine of either byte order.
pub open spec fn memory_of(bytes: Seq<u8>, words: Seq<u32>) -> bool {
    bytes == crate::virgl::protocol::spec_stream_bytes(words) || bytes == reversed_bytes(words)
}

/// The memory of words, as `bytemuck::cast_slice` reads it: four bytes for each
/// word, in the byte order of the machine.
#[verifier::external_body]
fn memory_bytes(words: &[u32]) -> (r: Vec<u8>)
    ensures
        memory_of(r@, words@),
{
    bytemuck::cast_slice::<u32, u8>(words).to_vec()
}

/// The words of draw uniforms: the transform column by column, then the color.
pub open spec fn uniform_words(uniforms: DrawUniforms) -> Seq<u32> {
    uniforms.transform@ + uniforms.color@
}

/// Return the memory of draw uniforms, for a uniform buffer.
pub fn uniform_bytes(uniforms: DrawUniforms) -> (r: Vec<u8>)
    ensures
        memory_of(r@, uniform_words(uniforms)),
        r@.len() == 80,
{
    let mut words: Vec<u32> = Vec::new();
    let columns: [u32; 16] = uniforms.transform().columns();
    let color: [u32; 4] = uniforms.color().components();
    crate::virgl::protocol::push_words(&mut words, &columns);
    crate::virgl::protocol::push_words(&mut words, &color);
    assert(words@ =~= uniform_words(uniforms));
    memory_bytes(words.as_slice())
}

/// Return the memory of a clear color, for a uniform buffer.
pub fn clear_uniform_bytes(color: Color) -> (r: Vec<u8>)
    ensures
        memory_of(r@, color@),
        r@.len() == 16,
{
    let components: [u32; 4] = color.components();
    memory_bytes(&components)
}

} // verus!
