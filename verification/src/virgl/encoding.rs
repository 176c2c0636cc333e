//! Encoding of fixed draw state as protocol words.

use crate::driver::{
    IrAddressMode, IrBlendFactor, IrBlendOp, IrBlendState, IrCullMode, IrFilterMode, IrFrontFace,
    IrSamplerState,
};
use vstd::prelude::*;

verus! {

/// The protocol number of a blend factor.
pub open spec fn spec_ir_blend_factor(factor: IrBlendFactor) -> u32 {
    match factor {
        IrBlendFactor::Zero => 17,
        IrBlendFactor::One => 1,
        IrBlendFactor::SourceAlpha => 3,
        IrBlendFactor::OneMinusSourceAlpha => 19,
        IrBlendFactor::DestinationAlpha => 4,
        IrBlendFactor::OneMinusDestinationAlpha => 20,
    }
}

/// Return the protocol number of a blend factor.
#[verifier::when_used_as_spec(spec_ir_blend_factor)]
pub fn ir_blend_factor(factor: IrBlendFactor) -> (r: u32)
    ensures
        r == spec_ir_blend_factor(factor),
{
    match factor {
        IrBlendFactor::Zero => 17,
        IrBlendFactor::One => 1,
        IrBlendFactor::SourceAlpha => 3,
        IrBlendFactor::OneMinusSourceAlpha => 19,
        IrBlendFactor::DestinationAlpha => 4,
        IrBlendFactor::OneMinusDestinationAlpha => 20,
    }
}

/// The protocol number of a blend operation.
pub open spec fn spec_ir_blend_op(operation: IrBlendOp) -> u32 {
    match operation {
        IrBlendOp::Add => 0,
        IrBlendOp::Subtract => 1,
        IrBlendOp::ReverseSubtract => 2,
    }
}

/// Return the protocol number of a blend operation.
#[verifier::when_used_as_spec(spec_ir_blend_op)]
pub fn ir_blend_op(operation: IrBlendOp) -> (r: u32)
    ensures
        r == spec_ir_blend_op(operation),
{
    match operation {
        IrBlendOp::Add => 0,
        IrBlendOp::Subtract => 1,
        IrBlendOp::ReverseSubtract => 2,
    }
}

/// The protocol number of a filter.
pub open spec fn spec_ir_filter_mode(filter: IrFilterMode) -> u32 {
    match filter {
        IrFilterMode::Nearest => 0,
        IrFilterMode::Linear => 1,
    }
}

/// Return the protocol number of a filter.
#[verifier::when_used_as_spec(spec_ir_filter_mode)]
pub fn ir_filter_mode(filter: IrFilterMode) -> (r: u32)
    ensures
        r == spec_ir_filter_mode(filter),
{
    match filter {
        IrFilterMode::Nearest => 0,
        IrFilterMode::Linear => 1,
    }
}

/// The protocol number of an address mode.
pub open spec fn spec_ir_address_mode(address: IrAddressMode) -> u32 {
    match address {
        IrAddressMode::ClampToEdge => 2,
        IrAddressMode::Repeat => 0,
        IrAddressMode::MirrorRepeat => 4,
    }
}

/// Return the protocol number of an address mode.
#[verifier::when_used_as_spec(spec_ir_address_mode)]
pub fn ir_address_mode(address: IrAddressMode) -> (r: u32)
    ensures
        r == spec_ir_address_mode(address),
{
    match address {
        IrAddressMode::ClampToEdge => 2,
        IrAddressMode::Repeat => 0,
        IrAddressMode::MirrorRepeat => 4,
    }
}

/// Bit that turns on blending.
pub const BLEND_ENABLE: u32 = 1;

/// All color channels, in place.
pub const BLEND_COLORMASK: u32 = 0x7800_0000;

/// The word of a blend state: enabled, color operation and factors, alpha
/// operation and factors, all channels.
pub open spec fn spec_blend_word(blend: IrBlendState) -> u32 {
    BLEND_ENABLE | (ir_blend_op(blend.color.operation) << 1) | (ir_blend_factor(
        blend.color.source_factor,
    ) << 4) | (ir_blend_factor(blend.color.destination_factor) << 9) | (ir_blend_op(
        blend.alpha.operation,
    ) << 14) | (ir_blend_factor(blend.alpha.source_factor) << 17) | (ir_blend_factor(
        blend.alpha.destination_factor,
    ) << 22) | BLEND_COLORMASK
}

/// Return the word of a blend state.
#[verifier::when_used_as_spec(spec_blend_word)]
pub fn blend_word(blend: IrBlendState) -> (r: u32)
    ensures
        r == spec_blend_word(blend),
{
    BLEND_ENABLE | (ir_blend_op(blend.color.operation) << 1) | (ir_blend_factor(
        blend.color.source_factor,
    ) << 4) | (ir_blend_factor(blend.color.destination_factor) << 9) | (ir_blend_op(
        blend.alpha.operation,
    ) << 14) | (ir_blend_factor(blend.alpha.source_factor) << 17) | (ir_blend_factor(
        blend.alpha.destination_factor,
    ) << 22) | BLEND_COLORMASK
}

/// The word of a sampler state: addressing of both axes, the third clamped,
/// minification filter, one level, magnification filter.
pub open spec fn spec_sampler_word(state: IrSamplerState) -> u32 {
    ir_address_mode(state.address_u) | (ir_address_mode(state.address_v) << 3) | (2u32 << 6) | (
    ir_filter_mode(state.min_filter) << 9) | (2u32 << 11) | (ir_filter_mode(state.mag_filter)
        << 13)
}

/// Return the word of a sampler state.
#[verifier::when_used_as_spec(spec_sampler_word)]
pub fn sampler_word(state: IrSamplerState) -> (r: u32)
    ensures
        r == spec_sampler_word(state),
{
    ir_address_mode(state.address_u) | (ir_address_mode(state.address_v) << 3) | (2u32 << 6) | (
    ir_filter_mode(state.min_filter) << 9) | (2u32 << 11) | (ir_filter_mode(state.mag_filter)
        << 13)
}

/// Rasterizer flag that clips depth.
pub const RASTERIZER_DEPTH_CLIP: u32 = 2;

/// Rasterizer flag that applies the scissor.
pub const RASTERIZER_SCISSOR: u32 = 0x4000;

/// Rasterizer flag of counter-clockwise front faces.
pub const RASTERIZER_FRONT_CCW: u32 = 0x8000;

/// The flags of culled faces and winding.
pub open spec fn spec_face_flags(cull_mode: IrCullMode, front_face: IrFrontFace) -> u32 {
    (match cull_mode {
        IrCullMode::Disabled => 0u32,
        IrCullMode::Front => 0x100,
        IrCullMode::Back => 0x200,
    }) | (match front_face {
        IrFrontFace::CounterClockwise => RASTERIZER_FRONT_CCW,
        IrFrontFace::Clockwise => 0,
    })
}

/// Return the flags of culled faces and winding.
#[verifier::when_used_as_spec(spec_face_flags)]
pub fn face_flags(cull_mode: IrCullMode, front_face: IrFrontFace) -> (r: u32)
    ensures
        r == spec_face_flags(cull_mode, front_face),
{
    let cull_face: u32 = match cull_mode {
        IrCullMode::Disabled => 0,
        IrCullMode::Front => 0x100,
        IrCullMode::Back => 0x200,
    };
    let front_ccw: u32 = match front_face {
        IrFrontFace::CounterClockwise => RASTERIZER_FRONT_CCW,
        IrFrontFace::Clockwise => 0,
    };
    cull_face | front_ccw
}

/// The rasterizer flags of pass pipelines, which apply the scissor.
pub open spec fn spec_ir_rasterizer_flags(cull_mode: IrCullMode, front_face: IrFrontFace) -> u32 {
    RASTERIZER_DEPTH_CLIP | RASTERIZER_SCISSOR | face_flags(cull_mode, front_face)
}

/// Return the rasterizer flags of pass pipelines.
#[verifier::when_used_as_spec(spec_ir_rasterizer_flags)]
pub fn ir_rasterizer_flags(cull_mode: IrCullMode, front_face: IrFrontFace) -> (r: u32)
    ensures
        r == spec_ir_rasterizer_flags(cull_mode, front_face),
{
    RASTERIZER_DEPTH_CLIP | RASTERIZER_SCISSOR | face_flags(cull_mode, front_face)
}

/// The rasterizer flags of the vertex-color pipeline, without scissor.
pub open spec fn spec_rasterizer_flags(cull_mode: IrCullMode, front_face: IrFrontFace) -> u32 {
    RASTERIZER_DEPTH_CLIP | face_flags(cull_mode, front_face)
}

/// Return the rasterizer flags of the vertex-color pipeline.
#[verifier::when_used_as_spec(spec_rasterizer_flags)]
pub fn rasterizer_flags(cull_mode: IrCullMode, front_face: IrFrontFace) -> (r: u32)
    ensures
        r == spec_rasterizer_flags(cull_mode, front_face),
{
    RASTERIZER_DEPTH_CLIP | face_flags(cull_mode, front_face)
}

} // verus!
