//! Fixed state of draws, as a device understands it.

use crate::driver::{
    IrAddressMode, IrBlendComponent, IrBlendFactor, IrBlendOp, IrBlendState, IrCullMode,
    IrFilterMode, IrFragmentProgram, IrFrontFace, IrPipelineState, IrRect, IrSamplerState,
    IrTextureFormat, IrTextureSpec, IrUniforms, UniformsView,
};
use crate::ir::pipeline::{
    find_attribute, BlendComponent, BlendFactor, BlendOp, BlendState, CullMode, DrawUniforms,
    FragmentProgram, FrontFace, PrimitiveTopology, RenderPipelineDesc, RenderPipelineView,
    TextureSampleMode, VertexAttribute, VertexFormat,
};
use crate::ir::resource::{
    AddressMode, FilterMode, SamplerDesc, SamplerDescView, TextureDesc, TextureDescView,
    TextureFormat, TextureUsage,
};
use crate::ir::table::{RenderPipelineRef, ResourceTable, SamplerRef, TableView, TextureRef};
use crate::ir::types::{Error, PixelRect, RectView};
use crate::ir_execute::{IrSubmitError, UnsupportedIrFeature};
use vstd::prelude::*;

verus! {

/// What draws need to know of a fixed pipeline.
#[derive(Debug, Clone, Copy, PartialEq, Eq, Structural)]
pub struct PipelineInfo {
    /// Device state.
    pub state: IrPipelineState,
    /// Bytes from one vertex to the next.
    pub stride: u32,
    /// Attribute that holds the position.
    pub position: VertexAttribute,
    /// Attribute that holds the color or the texture coordinates.
    pub secondary: Option<VertexAttribute>,
}

/// The device rectangle of a pixel rectangle.
pub open spec fn spec_ir_rect(rectangle: RectView) -> IrRect {
    IrRect {
        x: rectangle.x,
        y: rectangle.y,
        width: rectangle.width,
        height: rectangle.height,
    }
}

/// Return the device rectangle of a pixel rectangle. It is never empty.
pub fn ir_rect(rectangle: PixelRect) -> (r: IrRect)
    ensures
        r == spec_ir_rect(rectangle@),
        rectangle@.valid(),
        r.is_valid(),
{
    let x: u32 = rectangle.x();
    let y: u32 = rectangle.y();
    let width: u32 = rectangle.width();
    let height: u32 = rectangle.height();
    IrRect { x, y, width, height }
}

/// The device description of a texture. Devices hold the first level of
/// single-layer textures with one of three linear color formats.
pub open spec fn spec_texture_spec(slot: usize, desc: TextureDescView) -> Result<
    IrTextureSpec,
    IrSubmitError,
> {
    let format = match desc.format {
        TextureFormat::Bgra8Unorm => Some(IrTextureFormat::Bgra8),
        TextureFormat::Rgba8Unorm => Some(IrTextureFormat::Rgba8),
        TextureFormat::R8Unorm => Some(IrTextureFormat::R8),
        _ => None,
    };
    if format is None {
        Err(IrSubmitError::Unsupported(UnsupportedIrFeature::TargetFormat))
    } else if desc.array_layer_count != 1 {
        Err(IrSubmitError::Unsupported(UnsupportedIrFeature::TargetUsage))
    } else {
        Ok(
            IrTextureSpec {
                slot,
                width: desc.extent.width,
                height: desc.extent.height,
                sampled: desc.usage.allows(TextureUsage::SAMPLED_BIT),
                render_attachment: desc.usage.allows(TextureUsage::RENDER_ATTACHMENT_BIT),
                copy_destination: desc.usage.allows(TextureUsage::COPY_DST_BIT),
                present: desc.usage.allows(TextureUsage::PRESENT_BIT),
                format: format->0,
            },
        )
    }
}

/// Return the device description of a texture.
///
/// Fails with `UnsupportedIrFeature::TargetFormat` for a format that devices do
/// not hold, and with `UnsupportedIrFeature::TargetUsage` for several array layers.
pub fn texture_spec(texture: TextureRef, descriptor: TextureDesc) -> (r: Result<
    IrTextureSpec,
    IrSubmitError,
>)
    ensures
        r == spec_texture_spec(texture@.index, descriptor@),
{
    let format: IrTextureFormat = match descriptor.format() {
        TextureFormat::Bgra8Unorm => IrTextureFormat::Bgra8,
        TextureFormat::Rgba8Unorm => IrTextureFormat::Rgba8,
        TextureFormat::R8Unorm => IrTextureFormat::R8,
        _ => {
            return Err(IrSubmitError::Unsupported(UnsupportedIrFeature::TargetFormat));
        },
    };
    if descriptor.array_layer_count() != 1 {
        return Err(IrSubmitError::Unsupported(UnsupportedIrFeature::TargetUsage));
    }
    let usage: TextureUsage = descriptor.usage();
    Ok(
        IrTextureSpec {
            slot: texture.slot(),
            width: descriptor.extent().width(),
            height: descriptor.extent().height(),
            sampled: usage.contains(TextureUsage::sampled()),
            render_attachment: usage.contains(TextureUsage::render_attachment()),
            copy_destination: usage.contains(TextureUsage::copy_dst()),
            present: usage.contains(TextureUsage::present()),
            format,
        },
    )
}

/// The device factor of a blend factor.
pub open spec fn spec_blend_factor(factor: BlendFactor) -> IrBlendFactor {
    match factor {
        BlendFactor::Zero => IrBlendFactor::Zero,
        BlendFactor::One => IrBlendFactor::One,
        BlendFactor::SourceAlpha => IrBlendFactor::SourceAlpha,
        BlendFactor::OneMinusSourceAlpha => IrBlendFactor::OneMinusSourceAlpha,
        BlendFactor::DestinationAlpha => IrBlendFactor::DestinationAlpha,
        BlendFactor::OneMinusDestinationAlpha => IrBlendFactor::OneMinusDestinationAlpha,
    }
}

fn blend_factor(factor: BlendFactor) -> (r: IrBlendFactor)
    ensures
        r == spec_blend_factor(factor),
{
    match factor {
        BlendFactor::Zero => IrBlendFactor::Zero,
        BlendFactor::One => IrBlendFactor::One,
        BlendFactor::SourceAlpha => IrBlendFactor::SourceAlpha,
        BlendFactor::OneMinusSourceAlpha => IrBlendFactor::OneMinusSourceAlpha,
        BlendFactor::DestinationAlpha => IrBlendFactor::DestinationAlpha,
        BlendFactor::OneMinusDestinationAlpha => IrBlendFactor::OneMinusDestinationAlpha,
    }
}

/// The device blending of color or of alpha.
pub open spec fn spec_blend_component(component: BlendComponent) -> IrBlendComponent {
    IrBlendComponent {
        source_factor: spec_blend_factor(component.source_factor),
        destination_factor: spec_blend_factor(component.destination_factor),
        operation: match component.operation {
            BlendOp::Add => IrBlendOp::Add,
            BlendOp::Subtract => IrBlendOp::Subtract,
            BlendOp::ReverseSubtract => IrBlendOp::ReverseSubtract,
        },
    }
}

/// Return the device blending of color or of alpha.
pub fn blend_component(component: BlendComponent) -> (r: IrBlendComponent)
    ensures
        r == spec_blend_component(component),
{
    IrBlendComponent {
        source_factor: blend_factor(component.source_factor()),
        destination_factor: blend_factor(component.destination_factor()),
        operation: match component.operation() {
            BlendOp::Add => IrBlendOp::Add,
            BlendOp::Subtract => IrBlendOp::Subtract,
            BlendOp::ReverseSubtract => IrBlendOp::ReverseSubtract,
        },
    }
}

/// The device blending of an attachment.
pub open spec fn spec_blend_state(state: BlendState) -> IrBlendState {
    IrBlendState {
        color: spec_blend_component(state.color),
        alpha: spec_blend_component(state.alpha),
    }
}

/// Return the device blending of an attachment.
pub fn blend_state(state: BlendState) -> (r: IrBlendState)
    ensures
        r == spec_blend_state(state),
{
    IrBlendState {
        color: blend_component(state.color()),
        alpha: blend_component(state.alpha()),
    }
}

/// The device program of a fragment program. Devices have none that combines a
/// texture with vertex colors.
pub open spec fn spec_fragment_program(fragment: FragmentProgram) -> Option<IrFragmentProgram> {
    match fragment {
        FragmentProgram::Solid => Some(IrFragmentProgram::Solid),
        FragmentProgram::VertexColor => Some(IrFragmentProgram::VertexColor),
        FragmentProgram::Texture(TextureSampleMode::Rgba) => Some(IrFragmentProgram::TextureRgba),
        FragmentProgram::Texture(TextureSampleMode::RgbIgnoreAlpha) => Some(
            IrFragmentProgram::TextureRgbIgnoreAlpha,
        ),
        FragmentProgram::Texture(TextureSampleMode::AlphaMask) => Some(
            IrFragmentProgram::TextureAlphaMask,
        ),
        FragmentProgram::TextureVertexColor(_) => None,
    }
}

/// Return the device program of a fragment program, if there is one.
pub fn fragment_program(fragment: FragmentProgram) -> (r: Option<IrFragmentProgram>)
    ensures
        r == spec_fragment_program(fragment),
{
    match fragment {
        FragmentProgram::Solid => Some(IrFragmentProgram::Solid),
        FragmentProgram::VertexColor => Some(IrFragmentProgram::VertexColor),
        FragmentProgram::Texture(TextureSampleMode::Rgba) => Some(IrFragmentProgram::TextureRgba),
        FragmentProgram::Texture(TextureSampleMode::RgbIgnoreAlpha) => Some(
            IrFragmentProgram::TextureRgbIgnoreAlpha,
        ),
        FragmentProgram::Texture(TextureSampleMode::AlphaMask) => Some(
            IrFragmentProgram::TextureAlphaMask,
        ),
        FragmentProgram::TextureVertexColor(_) => None,
    }
}

/// Whether an attribute can hold a position.
pub open spec fn positional(attribute: VertexAttribute) -> bool {
    attribute.format is Float32x2 || attribute.format is Float32x3 || attribute.format is Float32x4
}

/// Whether the attribute at location one suits a fragment program.
pub open spec fn secondary_fits(
    secondary: Option<VertexAttribute>,
    fragment: IrFragmentProgram,
) -> bool {
    match fragment {
        IrFragmentProgram::Solid => true,
        IrFragmentProgram::VertexColor => match secondary {
            Some(attribute) => attribute.format is Float32x3 || attribute.format is Float32x4
                || attribute.format is Unorm8x4,
            None => false,
        },
        _ => match secondary {
            Some(attribute) => attribute.format is Float32x2,
            None => false,
        },
    }
}

/// What draws need to know of a fixed pipeline, or why it is not covered.
pub open spec fn spec_describe_pipeline(slot: usize, pipeline: RenderPipelineView) -> Result<
    PipelineInfo,
    IrSubmitError,
> {
    let attributes = pipeline.vertex_buffer.attributes;
    let position = crate::ir::pipeline::spec_find_attribute(attributes, 0);
    let secondary = crate::ir::pipeline::spec_find_attribute(attributes, 1);
    let fragment = spec_fragment_program(pipeline.fragment);
    if pipeline.target_format != TextureFormat::Bgra8Unorm {
        crate::ir_execute::unsupported(UnsupportedIrFeature::PipelineTargetFormat)
    } else if pipeline.topology != PrimitiveTopology::TriangleList {
        crate::ir_execute::unsupported(UnsupportedIrFeature::PrimitiveTopology)
    } else if position is None || !positional(position->0) {
        crate::ir_execute::unsupported(UnsupportedIrFeature::VertexLayout)
    } else if fragment is None {
        crate::ir_execute::unsupported(UnsupportedIrFeature::FragmentProgram)
    } else if !secondary_fits(secondary, fragment->0) {
        crate::ir_execute::unsupported(UnsupportedIrFeature::VertexLayout)
    } else {
        Ok(
            PipelineInfo {
                state: IrPipelineState {
                    slot,
                    fragment: fragment->0,
                    blend: spec_blend_state(pipeline.blend),
                    cull_mode: match pipeline.raster.cull_mode {
                        CullMode::Disabled => IrCullMode::Disabled,
                        CullMode::Front => IrCullMode::Front,
                        CullMode::Back => IrCullMode::Back,
                    },
                    front_face: match pipeline.raster.front_face {
                        FrontFace::Clockwise => IrFrontFace::Clockwise,
                        FrontFace::CounterClockwise => IrFrontFace::CounterClockwise,
                    },
                },
                stride: pipeline.vertex_buffer.stride,
                position: position->0,
                secondary,
            },
        )
    }
}

/// What draws need to know of the pipeline that a reference leads to.
pub open spec fn spec_pipeline_info(table: TableView, reference: RenderPipelineRef) -> Result<
    PipelineInfo,
    IrSubmitError,
> {
    match table.render_pipeline(reference) {
        Err(error) => crate::ir_execute::invalid(error),
        Ok(pipeline) => spec_describe_pipeline(reference@.index, pipeline),
    }
}

fn describe_pipeline(slot: usize, descriptor: &RenderPipelineDesc) -> (r: Result<
    PipelineInfo,
    IrSubmitError,
>)
    ensures
        r == spec_describe_pipeline(slot, descriptor@),
{
    let attributes: &[VertexAttribute] = descriptor.vertex_buffer().attributes();
    let position: Option<VertexAttribute> = find_attribute(attributes, 0);
    let secondary: Option<VertexAttribute> = find_attribute(attributes, 1);
    if descriptor.target_format() != TextureFormat::Bgra8Unorm {
        return Err(IrSubmitError::Unsupported(UnsupportedIrFeature::PipelineTargetFormat));
    }
    if descriptor.topology() != PrimitiveTopology::TriangleList {
        return Err(IrSubmitError::Unsupported(UnsupportedIrFeature::PrimitiveTopology));
    }
    let position: VertexAttribute = match position {
        Some(attribute) => attribute,
        None => {
            return Err(IrSubmitError::Unsupported(UnsupportedIrFeature::VertexLayout));
        },
    };
    match position.format() {
        VertexFormat::Float32x2 | VertexFormat::Float32x3 | VertexFormat::Float32x4 => {},
        _ => {
            return Err(IrSubmitError::Unsupported(UnsupportedIrFeature::VertexLayout));
        },
    }
    let fragment: IrFragmentProgram = match fragment_program(descriptor.fragment()) {
        Some(fragment) => fragment,
        None => {
            return Err(IrSubmitError::Unsupported(UnsupportedIrFeature::FragmentProgram));
        },
    };
    let secondary_valid: bool = match fragment {
        IrFragmentProgram::Solid => true,
        IrFragmentProgram::VertexColor => match secondary {
            Some(attribute) => match attribute.format() {
                VertexFormat::Float32x3 | VertexFormat::Float32x4 | VertexFormat::Unorm8x4 => true,
                _ => false,
            },
            None => false,
        },
        _ => match secondary {
            Some(attribute) => attribute.format() == VertexFormat::Float32x2,
            None => false,
        },
    };
    if !secondary_valid {
        return Err(IrSubmitError::Unsupported(UnsupportedIrFeature::VertexLayout));
    }
    Ok(
        PipelineInfo {
            state: IrPipelineState {
                slot,
                fragment,
                blend: blend_state(descriptor.blend()),
                cull_mode: match descriptor.raster().cull_mode() {
                    CullMode::Disabled => IrCullMode::Disabled,
                    CullMode::Front => IrCullMode::Front,
                    CullMode::Back => IrCullMode::Back,
                },
                front_face: match descriptor.raster().front_face() {
                    FrontFace::Clockwise => IrFrontFace::Clockwise,
                    FrontFace::CounterClockwise => IrFrontFace::CounterClockwise,
                },
            },
            stride: descriptor.vertex_buffer().stride(),
            position,
            secondary,
        },
    )
}

/// Return what draws need to know of the pipeline that a reference leads to.
///
/// Fails as the lookup does, or names the feature that the lowering does not
/// cover: another target than BGRA, another topology than triangles, a vertex
/// layout without a floating-point position or the input of the fragment
/// program, or a fragment program that devices lack.
pub fn pipeline_info(resources: &ResourceTable, reference: RenderPipelineRef) -> (r: Result<
    PipelineInfo,
    IrSubmitError,
>)
    ensures
        r == spec_pipeline_info(resources@, reference),
{
    match resources.render_pipeline(reference) {
        Err(error) => Err(IrSubmitError::InvalidIr(error)),
        Ok(descriptor) => describe_pipeline(reference.slot(), &descriptor),
    }
}

/// The device filter of a filter mode.
pub open spec fn spec_filter_mode(filter: FilterMode) -> IrFilterMode {
    match filter {
        FilterMode::Nearest => IrFilterMode::Nearest,
        FilterMode::Linear => IrFilterMode::Linear,
    }
}

fn filter_mode(filter: FilterMode) -> (r: IrFilterMode)
    ensures
        r == spec_filter_mode(filter),
{
    match filter {
        FilterMode::Nearest => IrFilterMode::Nearest,
        FilterMode::Linear => IrFilterMode::Linear,
    }
}

/// The device addressing of an address mode.
pub open spec fn spec_address_mode(address: AddressMode) -> IrAddressMode {
    match address {
        AddressMode::ClampToEdge => IrAddressMode::ClampToEdge,
        AddressMode::Repeat => IrAddressMode::Repeat,
        AddressMode::MirrorRepeat => IrAddressMode::MirrorRepeat,
    }
}

fn address_mode(address: AddressMode) -> (r: IrAddressMode)
    ensures
        r == spec_address_mode(address),
{
    match address {
        AddressMode::ClampToEdge => IrAddressMode::ClampToEdge,
        AddressMode::Repeat => IrAddressMode::Repeat,
        AddressMode::MirrorRepeat => IrAddressMode::MirrorRepeat,
    }
}

/// The device state of a sampler. Devices sample the first level and never compare.
pub open spec fn spec_sampler_state(desc: SamplerDescView, slot: usize) -> Result<
    IrSamplerState,
    IrSubmitError,
> {
    if desc.compare is Some {
        crate::ir_execute::unsupported(UnsupportedIrFeature::Sampler)
    } else {
        Ok(
            IrSamplerState {
                slot,
                min_filter: spec_filter_mode(desc.min_filter),
                mag_filter: spec_filter_mode(desc.mag_filter),
                address_u: spec_address_mode(desc.address_u),
                address_v: spec_address_mode(desc.address_v),
            },
        )
    }
}

/// Return the device state of a sampler.
///
/// Fails with `UnsupportedIrFeature::Sampler` for a comparison. Levels of detail
/// are left out, since devices hold one level.
pub fn sampler_state(descriptor: SamplerDesc, slot: usize) -> (r: Result<
    IrSamplerState,
    IrSubmitError,
>)
    ensures
        r == spec_sampler_state(descriptor@, slot),
{
    if descriptor.compare().is_some() {
        return Err(IrSubmitError::Unsupported(UnsupportedIrFeature::Sampler));
    }
    Ok(
        IrSamplerState {
            slot,
            min_filter: filter_mode(descriptor.min_filter()),
            mag_filter: filter_mode(descriptor.mag_filter()),
            address_u: address_mode(descriptor.address_u()),
            address_v: address_mode(descriptor.address_v()),
        },
    )
}

/// The texture and sampler that a draw uses, or why it cannot.
pub open spec fn spec_texture_binding(
    table: TableView,
    pipeline: PipelineInfo,
    texture: Option<TextureRef>,
    sampler: Option<SamplerRef>,
) -> Result<(Option<IrTextureSpec>, Option<IrSamplerState>), IrSubmitError> {
    if !pipeline.state.fragment.samples() {
        Ok((None, None))
    } else if texture is None || sampler is None {
        crate::ir_execute::invalid(Error::TextureBindingNotSet)
    } else {
        match table.texture(texture->0) {
            Err(error) => crate::ir_execute::invalid(error),
            Ok(desc) => if !desc@.usage.allows(TextureUsage::SAMPLED_BIT) {
                crate::ir_execute::invalid(Error::InvalidUsage)
            } else if desc@.format == TextureFormat::R8Unorm
                && pipeline.state.fragment != IrFragmentProgram::TextureAlphaMask {
                crate::ir_execute::unsupported(UnsupportedIrFeature::FragmentProgram)
            } else {
                match table.sampler(sampler->0) {
                    Err(error) => crate::ir_execute::invalid(error),
                    Ok(sampling) => match spec_texture_spec(texture->0@.index, desc@) {
                        Err(error) => Err(error),
                        Ok(spec) => match spec_sampler_state(sampling@, sampler->0@.index) {
                            Err(error) => Err(error),
                            Ok(state) => Ok((Some(spec), Some(state))),
                        },
                    },
                }
            },
        }
    }
}

/// Return the texture and sampler that a draw uses.
pub fn texture_binding(
    resources: &ResourceTable,
    pipeline: PipelineInfo,
    texture: Option<TextureRef>,
    sampler: Option<SamplerRef>,
) -> (r: Result<(Option<IrTextureSpec>, Option<IrSamplerState>), IrSubmitError>)
    ensures
        r == spec_texture_binding(resources@, pipeline, texture, sampler),
{
    if !pipeline.state.fragment.samples() {
        return Ok((None, None));
    }
    let texture: TextureRef = match texture {
        Some(texture) => texture,
        None => {
            return Err(IrSubmitError::InvalidIr(Error::TextureBindingNotSet));
        },
    };
    let sampler: SamplerRef = match sampler {
        Some(sampler) => sampler,
        None => {
            return Err(IrSubmitError::InvalidIr(Error::TextureBindingNotSet));
        },
    };
    let descriptor: TextureDesc = match resources.texture(texture) {
        Ok(descriptor) => descriptor,
        Err(error) => {
            return Err(IrSubmitError::InvalidIr(error));
        },
    };
    if !descriptor.usage().contains(TextureUsage::sampled()) {
        return Err(IrSubmitError::InvalidIr(Error::InvalidUsage));
    }
    if descriptor.format() == TextureFormat::R8Unorm && pipeline.state.fragment
        != IrFragmentProgram::TextureAlphaMask {
        return Err(IrSubmitError::Unsupported(UnsupportedIrFeature::FragmentProgram));
    }
    let sampling: SamplerDesc = match resources.sampler(sampler) {
        Ok(sampling) => sampling,
        Err(error) => {
            return Err(IrSubmitError::InvalidIr(error));
        },
    };
    let spec: IrTextureSpec = match texture_spec(texture, descriptor) {
        Ok(spec) => spec,
        Err(error) => {
            return Err(error);
        },
    };
    match sampler_state(sampling, sampler.slot()) {
        Ok(state) => Ok((Some(spec), Some(state))),
        Err(error) => Err(error),
    }
}

/// The contents of draw uniforms.
pub open spec fn spec_uniform_state(uniforms: DrawUniforms) -> UniformsView {
    UniformsView { transform: uniforms.transform@, color: uniforms.color@ }
}

/// Return transform and color of draw uniforms. All numbers are finite.
pub fn uniform_state(uniforms: DrawUniforms) -> (r: IrUniforms)
    ensures
        r@ == spec_uniform_state(uniforms),
{
    IrUniforms {
        transform: uniforms.transform().columns(),
        color: uniforms.color().components(),
    }
}

} // verus!
