//! What GPU objects are made as.

use crate::ir::command::EncoderView;
use crate::ir::pipeline::DrawUniforms;
use crate::ir::programmable::{BufferAccess, TextureAccess};
use crate::ir::render_pass_encoder::RenderStateView;
use crate::ir::resource::{TextureFormat, TextureUsage, TextureWriteView};
use crate::ir::table::{BufferRef, SamplerRef, TextureRef};
use crate::ir::types::RectView;
use crate::wgpu_backend::format::SurfaceFormat;
use crate::wgpu_backend::resources::{CacheView, Creation, Interruption};
use vstd::prelude::*;

verus! {

/// One component of a texel.
pub enum Component {
    Red,
    Green,
    Blue,
    Alpha,
    Depth,
}

/// What a texel holds: its components in memory order, and whether color is encoded.
pub struct TexelView {
    pub components: Seq<Component>,
    pub encoded: bool,
}

/// The texels of a logical format.
pub open spec fn texels(format: TextureFormat) -> TexelView {
    match format {
        TextureFormat::Bgra8Unorm => TexelView {
            components: seq![Component::Blue, Component::Green, Component::Red, Component::Alpha],
            encoded: false,
        },
        TextureFormat::Rgba8Unorm => TexelView {
            components: seq![Component::Red, Component::Green, Component::Blue, Component::Alpha],
            encoded: false,
        },
        TextureFormat::Rgba8UnormSrgb => TexelView {
            components: seq![Component::Red, Component::Green, Component::Blue, Component::Alpha],
            encoded: true,
        },
        TextureFormat::R8Unorm => TexelView { components: seq![Component::Red], encoded: false },
        TextureFormat::Depth32Float => TexelView {
            components: seq![Component::Depth],
            encoded: false,
        },
    }
}

/// The texels of a GPU format, where it is a known one.
pub open spec fn gpu_texels(format: SurfaceFormat) -> Option<TexelView> {
    match format {
        SurfaceFormat::Bgra8Unorm => Some(texels(TextureFormat::Bgra8Unorm)),
        SurfaceFormat::Bgra8UnormSrgb => Some(
            TexelView { encoded: true, ..texels(TextureFormat::Bgra8Unorm) },
        ),
        SurfaceFormat::Rgba8Unorm => Some(texels(TextureFormat::Rgba8Unorm)),
        SurfaceFormat::Rgba8UnormSrgb => Some(texels(TextureFormat::Rgba8UnormSrgb)),
        SurfaceFormat::R8Unorm => Some(texels(TextureFormat::R8Unorm)),
        SurfaceFormat::Depth32Float => Some(texels(TextureFormat::Depth32Float)),
        SurfaceFormat::Other => None,
    }
}

/// GPU textures hold the texels of their logical format. A surface presents a format with
/// its components in its order.
pub proof fn law_formats_hold_the_same_texels(format: TextureFormat, surface: SurfaceFormat)
    ensures
        gpu_texels(crate::wgpu_backend::format::spec_raw_format(format)) == Some(texels(format)),
        crate::wgpu_backend::format::spec_logical_format(surface) matches Some(presented) ==> {
            &&& gpu_texels(surface) is Some
            &&& gpu_texels(surface)->0.components == texels(presented).components
            &&& !texels(presented).encoded
        },
        crate::wgpu_backend::format::spec_logical_format(surface) is Some <==> (gpu_texels(
            surface,
        ) is Some && gpu_texels(surface)->0.components.len() == 4),
{
}

/// A texture is made only where none is there and none is mapped, with the sides and the
/// texels of its description, and for what its description permits. A texture that is
/// presented is never made.
pub proof fn law_made_textures_suit_their_description(
    cache: CacheView,
    encoder: EncoderView,
    state: RenderStateView,
    reference: TextureRef,
    write: TextureWriteView,
    area: RectView,
)
    requires
        !encoder.pass_open,
    ensures
        cache.texture(encoder.resources, reference) matches Err(
            Interruption::Create(creation),
        ) ==> {
            &&& encoder.resources.texture(reference) is Ok
            &&& !encoder.resources.texture(reference)->Ok_0@.usage.allows(
                TextureUsage::PRESENT_BIT,
            )
            &&& encoder.resources.texture(reference)->Ok_0@.array_layer_count == 1
            &&& creation matches Creation::Texture { texture, width, height, format, usage } && {
                let desc = encoder.resources.texture(reference)->Ok_0@;
                &&& texture == reference.id()
                &&& width == desc.extent.width
                &&& height == desc.extent.height
                &&& gpu_texels(format) == Some(texels(desc.format))
                &&& usage.texture_binding <==> crate::ir::permits::texture_permits(
                    encoder,
                    state,
                    reference,
                    TextureAccess::Sampled,
                )
                &&& usage.render_attachment <==> crate::ir::permits::texture_permits(
                    encoder,
                    state,
                    reference,
                    TextureAccess::RenderAttachment,
                )
                &&& usage.copy_src <==> crate::ir::permits::texture_permits(
                    encoder,
                    state,
                    reference,
                    TextureAccess::CopySource,
                )
                &&& usage.copy_dst <==> crate::ir::permits::texture_permits(
                    encoder,
                    state,
                    reference,
                    TextureAccess::CopyDestination,
                )
                &&& usage.texture_binding || usage.render_attachment || usage.copy_src
                    || usage.copy_dst
            }
        },
{
    if encoder.resources.texture(reference) is Ok {
        crate::ir::permits::lemma_texture_permits(
            encoder,
            state,
            reference,
            TextureAccess::Sampled,
            write,
            area,
        );
        crate::ir::permits::lemma_texture_permits(
            encoder,
            state,
            reference,
            TextureAccess::RenderAttachment,
            write,
            area,
        );
        crate::ir::permits::lemma_texture_permits(
            encoder,
            state,
            reference,
            TextureAccess::CopySource,
            write,
            area,
        );
        crate::ir::permits::lemma_texture_permits(
            encoder,
            state,
            reference,
            TextureAccess::CopyDestination,
            write,
            area,
        );
        law_formats_hold_the_same_texels(
            encoder.resources.texture(reference)->Ok_0@.format,
            SurfaceFormat::Other,
        );
    }
}

/// A buffer is made with the size of its description and for what its description
/// permits, and a sampler as it is described.
pub proof fn law_made_buffers_and_samplers_suit_their_description(
    cache: CacheView,
    encoder: EncoderView,
    state: RenderStateView,
    reference: BufferRef,
    sampler: SamplerRef,
)
    requires
        !encoder.pass_open,
    ensures
        cache.buffer(encoder.resources, reference) matches Err(Interruption::Create(creation))
            ==> {
            &&& encoder.resources.buffer(reference) is Ok
            &&& creation matches Creation::Buffer { buffer, size, usage } && {
                &&& buffer == reference.id()
                &&& size == encoder.resources.buffer(reference)->Ok_0@.size
                &&& usage.vertex <==> crate::ir::permits::buffer_permits(
                    encoder,
                    state,
                    reference,
                    BufferAccess::Vertex,
                )
                &&& usage.index <==> crate::ir::permits::buffer_permits(
                    encoder,
                    state,
                    reference,
                    BufferAccess::Index,
                )
                &&& usage.copy_src <==> crate::ir::permits::buffer_permits(
                    encoder,
                    state,
                    reference,
                    BufferAccess::CopySource,
                )
                &&& usage.copy_dst <==> crate::ir::permits::buffer_permits(
                    encoder,
                    state,
                    reference,
                    BufferAccess::CopyDestination,
                )
            }
        },
        cache.sampler(encoder.resources, sampler) matches Err(Interruption::Create(creation))
            ==> creation matches Creation::Sampler { sampler: made, descriptor } && made
            == sampler.id() && encoder.resources.sampler(sampler) == Ok::<
            _,
            crate::ir::types::Error,
        >(descriptor) && descriptor@.compare is None,
{
    if encoder.resources.buffer(reference) is Ok {
        crate::ir::permits::lemma_buffer_permits(encoder, state, reference, BufferAccess::Vertex);
        crate::ir::permits::lemma_buffer_permits(encoder, state, reference, BufferAccess::Index);
        crate::ir::permits::lemma_buffer_permits(
            encoder,
            state,
            reference,
            BufferAccess::CopySource,
        );
        crate::ir::permits::lemma_buffer_permits(
            encoder,
            state,
            reference,
            BufferAccess::CopyDestination,
        );
    }
}

/// Uniforms hold the sixteen numbers of the transform first and the color after them.
pub proof fn law_uniforms_hold_transform_and_color(uniforms: DrawUniforms, i: int)
    requires
        uniforms.transform@.len() == 16,
        uniforms.color@.len() == 4,
    ensures
        crate::wgpu_backend::format::uniform_words(uniforms).len() == 20,
        0 <= i < 16 ==> crate::wgpu_backend::format::uniform_words(uniforms)[i]
            == uniforms.transform@[i],
        16 <= i < 20 ==> crate::wgpu_backend::format::uniform_words(uniforms)[i]
            == uniforms.color@[i - 16],
{
}

} // verus!
