//! Exact words of fixed draw state.

use sgfx_core::driver::{
    IrAddressMode, IrBlendComponent, IrBlendFactor, IrBlendOp, IrBlendState, IrCullMode,
    IrFilterMode, IrFrontFace, IrSamplerState,
};
use sgfx_core::virgl::encoding::{
    blend_word, face_flags, ir_address_mode, ir_blend_factor, ir_blend_op, ir_filter_mode,
    ir_rasterizer_flags, rasterizer_flags, sampler_word,
};

#[test]
fn names_have_their_protocol_numbers() {
    let factors = [
        (IrBlendFactor::Zero, 17),
        (IrBlendFactor::One, 1),
        (IrBlendFactor::SourceAlpha, 3),
        (IrBlendFactor::OneMinusSourceAlpha, 19),
        (IrBlendFactor::DestinationAlpha, 4),
        (IrBlendFactor::OneMinusDestinationAlpha, 20),
    ];
    for (factor, number) in factors {
        assert_eq!(ir_blend_factor(factor), number);
    }
    assert_eq!(ir_blend_op(IrBlendOp::Add), 0);
    assert_eq!(ir_blend_op(IrBlendOp::Subtract), 1);
    assert_eq!(ir_blend_op(IrBlendOp::ReverseSubtract), 2);
    assert_eq!(ir_filter_mode(IrFilterMode::Nearest), 0);
    assert_eq!(ir_filter_mode(IrFilterMode::Linear), 1);
    assert_eq!(ir_address_mode(IrAddressMode::Repeat), 0);
    assert_eq!(ir_address_mode(IrAddressMode::ClampToEdge), 2);
    assert_eq!(ir_address_mode(IrAddressMode::MirrorRepeat), 4);
}

#[test]
fn blending_over_with_straight_alpha_is_one_word() {
    let state = IrBlendState {
        color: IrBlendComponent {
            source_factor: IrBlendFactor::SourceAlpha,
            destination_factor: IrBlendFactor::OneMinusSourceAlpha,
            operation: IrBlendOp::Add,
        },
        alpha: IrBlendComponent {
            source_factor: IrBlendFactor::One,
            destination_factor: IrBlendFactor::OneMinusSourceAlpha,
            operation: IrBlendOp::Add,
        },
    };
    assert_eq!(blend_word(state), 0x7cc2_2631);
}

#[test]
fn sampler_words_hold_addressing_and_filters() {
    let state = IrSamplerState {
        slot: 0,
        min_filter: IrFilterMode::Linear,
        mag_filter: IrFilterMode::Nearest,
        address_u: IrAddressMode::ClampToEdge,
        address_v: IrAddressMode::Repeat,
    };
    assert_eq!(sampler_word(state), 0x1282);
}

#[test]
fn rasterizer_flags_hold_faces_and_scissor() {
    assert_eq!(
        face_flags(IrCullMode::Disabled, IrFrontFace::Clockwise),
        0
    );
    assert_eq!(
        face_flags(IrCullMode::Front, IrFrontFace::CounterClockwise),
        0x8100
    );
    assert_eq!(
        rasterizer_flags(IrCullMode::Back, IrFrontFace::Clockwise),
        0x202
    );
    assert_eq!(
        ir_rasterizer_flags(IrCullMode::Back, IrFrontFace::CounterClockwise),
        0xc202
    );
}
