//! What packed protocol words stand for.

use crate::driver::{IrBlendState, IrCullMode, IrFrontFace, IrSamplerState};
use crate::ir::pipeline::BlendState;
use crate::virgl::composition::{
    COMPOSITION_BLEND_STATE, COMPOSITION_RASTERIZER_FLAGS, COMPOSITION_SAMPLER_STATE,
};
use crate::virgl::draw::OPAQUE_BLEND_STATE;
use vstd::prelude::*;

verus! {

/// The number that a numbered blend factor stands for. Factors from sixteen on are one
/// minus those below.
pub open spec fn numbered_factor(number: u32, source_alpha: int, destination_alpha: int) -> int {
    if number == 1 {
        1
    } else if number == 3 {
        source_alpha
    } else if number == 4 {
        destination_alpha
    } else if number == 17 {
        0
    } else if number == 19 {
        1 - source_alpha
    } else {
        1 - destination_alpha
    }
}

/// Two operands combined by a numbered operation.
pub open spec fn numbered_operation(number: u32, source: int, destination: int) -> int {
    if number == 0 {
        source + destination
    } else if number == 1 {
        source - destination
    } else {
        destination - source
    }
}

/// The color that a packed blend state leaves in channels that it writes. Blending is
/// off without the lowest bit. Color and alpha each have an operation and two factors.
pub open spec fn word_blended(word: u32, source: Seq<int>, destination: Seq<int>) -> Seq<int> {
    Seq::new(
        4,
        |c: int|
            if word & 1 == 0 {
                source[c]
            } else if c == 3 {
                numbered_operation(
                    (word >> 14) & 7,
                    source[3] * numbered_factor((word >> 17) & 31, source[3], destination[3]),
                    destination[3] * numbered_factor((word >> 22) & 31, source[3], destination[3]),
                )
            } else {
                numbered_operation(
                    (word >> 1) & 7,
                    source[c] * numbered_factor((word >> 4) & 31, source[3], destination[3]),
                    destination[c] * numbered_factor((word >> 9) & 31, source[3], destination[3]),
                )
            },
    )
}

proof fn lemma_blend_fields(
    color_operation: u32,
    color_source: u32,
    color_destination: u32,
    alpha_operation: u32,
    alpha_source: u32,
    alpha_destination: u32,
)
    requires
        color_operation < 8,
        color_source < 32,
        color_destination < 32,
        alpha_operation < 8,
        alpha_source < 32,
        alpha_destination < 32,
    ensures
        ({
            let word = 1u32 | (color_operation << 1) | (color_source << 4) | (color_destination
                << 9) | (alpha_operation << 14) | (alpha_source << 17) | (alpha_destination << 22)
                | 0x7800_0000;
            &&& word & 1 == 1
            &&& (word >> 1) & 7 == color_operation
            &&& (word >> 4) & 31 == color_source
            &&& (word >> 9) & 31 == color_destination
            &&& (word >> 14) & 7 == alpha_operation
            &&& (word >> 17) & 31 == alpha_source
            &&& (word >> 22) & 31 == alpha_destination
            &&& word >> 27 == 15
        }),
{
    let word = 1u32 | (color_operation << 1) | (color_source << 4) | (color_destination << 9) | (
    alpha_operation << 14) | (alpha_source << 17) | (alpha_destination << 22) | 0x7800_0000;
    assert(word & 1 == 1 && (word >> 1) & 7 == color_operation && (word >> 4) & 31 == color_source
        && (word >> 9) & 31 == color_destination && (word >> 14) & 7 == alpha_operation && (word
        >> 17) & 31 == alpha_source && (word >> 22) & 31 == alpha_destination && word >> 27 == 15)
        by (bit_vector)
        requires
            word == 1u32 | (color_operation << 1) | (color_source << 4) | (color_destination << 9)
                | (alpha_operation << 14) | (alpha_source << 17) | (alpha_destination << 22)
                | 0x7800_0000,
            color_operation < 8,
            color_source < 32,
            color_destination < 32,
            alpha_operation < 8,
            alpha_source < 32,
            alpha_destination < 32,
    ;
}

/// A packed blend state blends as the state says, and writes all channels.
pub proof fn law_blend_words_blend_alike(
    blend: IrBlendState,
    source: Seq<int>,
    destination: Seq<int>,
)
    ensures
        word_blended(crate::virgl::encoding::blend_word(blend), source, destination)
            == crate::ir_execute::bindings::device_blended(blend, source, destination),
        crate::virgl::encoding::blend_word(blend) >> 27 == 15,
{
    lemma_blend_fields(
        crate::virgl::encoding::ir_blend_op(blend.color.operation),
        crate::virgl::encoding::ir_blend_factor(blend.color.source_factor),
        crate::virgl::encoding::ir_blend_factor(blend.color.destination_factor),
        crate::virgl::encoding::ir_blend_op(blend.alpha.operation),
        crate::virgl::encoding::ir_blend_factor(blend.alpha.source_factor),
        crate::virgl::encoding::ir_blend_factor(blend.alpha.destination_factor),
    );
    assert(word_blended(crate::virgl::encoding::blend_word(blend), source, destination)
        =~= crate::ir_execute::bindings::device_blended(blend, source, destination));
}

/// Compositions put the source over the destination by its alpha. Colored triangles
/// replace the destination. Both write all channels.
pub proof fn law_built_in_blending(source: Seq<int>, destination: Seq<int>)
    requires
        source.len() == 4,
        destination.len() == 4,
    ensures
        word_blended(COMPOSITION_BLEND_STATE, source, destination) == crate::ir::meaning::blended(
            BlendState::source_over_straight_alpha(),
            source,
            destination,
        ),
        word_blended(OPAQUE_BLEND_STATE, source, destination) == source,
        COMPOSITION_BLEND_STATE >> 27 == 15,
        OPAQUE_BLEND_STATE >> 27 == 15,
{
    assert(0x7cc2_2631u32 & 1 == 1 && (0x7cc2_2631u32 >> 1) & 7 == 0 && (0x7cc2_2631u32 >> 4) & 31
        == 3 && (0x7cc2_2631u32 >> 9) & 31 == 19 && (0x7cc2_2631u32 >> 14) & 7 == 0 && (
    0x7cc2_2631u32 >> 17) & 31 == 1 && (0x7cc2_2631u32 >> 22) & 31 == 19 && 0x7cc2_2631u32 >> 27
        == 15) by (bit_vector);
    assert(0x7800_0000u32 & 1 == 0 && 0x7800_0000u32 >> 27 == 15) by (bit_vector);
    assert(word_blended(COMPOSITION_BLEND_STATE, source, destination)
        =~= crate::ir::meaning::blended(
        BlendState::source_over_straight_alpha(),
        source,
        destination,
    ));
    assert(word_blended(OPAQUE_BLEND_STATE, source, destination) =~= source);
}

/// The texel that numbered addressing leads to along an axis.
pub open spec fn numbered_addressed(number: u32, coordinate: int, length: int) -> int {
    if number == 0 {
        coordinate % length
    } else if number == 2 {
        if coordinate < 0 {
            0
        } else if coordinate >= length {
            length - 1
        } else {
            coordinate
        }
    } else if coordinate % (2 * length) < length {
        coordinate % (2 * length)
    } else {
        2 * length - 1 - coordinate % (2 * length)
    }
}

proof fn lemma_sampler_fields(u: u32, v: u32, minify: u32, magnify: u32)
    requires
        u < 8,
        v < 8,
        minify < 4,
        magnify < 4,
    ensures
        ({
            let word = u | (v << 3) | (2u32 << 6) | (minify << 9) | (2u32 << 11) | (magnify << 13);
            &&& word & 7 == u
            &&& (word >> 3) & 7 == v
            &&& (word >> 9) & 3 == minify
            &&& (word >> 11) & 3 == 2
            &&& (word >> 13) & 3 == magnify
        }),
{
    let word = u | (v << 3) | (2u32 << 6) | (minify << 9) | (2u32 << 11) | (magnify << 13);
    assert(word & 7 == u && (word >> 3) & 7 == v && (word >> 9) & 3 == minify && (word >> 11) & 3
        == 2 && (word >> 13) & 3 == magnify) by (bit_vector)
        requires
            word == u | (v << 3) | (2u32 << 6) | (minify << 9) | (2u32 << 11) | (magnify << 13),
            u < 8,
            v < 8,
            minify < 4,
            magnify < 4,
    ;
}

/// A packed sampler state addresses each axis and filters as the state says, and samples
/// one level.
pub proof fn law_sampler_words_sample_alike(state: IrSamplerState, coordinate: int, length: int)
    ensures
        ({
            let word = crate::virgl::encoding::sampler_word(state);
            &&& numbered_addressed(word & 7, coordinate, length)
                == crate::ir_execute::bindings::device_addressed(
                state.address_u,
                coordinate,
                length,
            )
            &&& numbered_addressed((word >> 3) & 7, coordinate, length)
                == crate::ir_execute::bindings::device_addressed(
                state.address_v,
                coordinate,
                length,
            )
            &&& (word >> 9) & 3 == (if state.min_filter is Linear {
                1u32
            } else {
                0
            })
            &&& (word >> 13) & 3 == (if state.mag_filter is Linear {
                1u32
            } else {
                0
            })
            &&& (word >> 11) & 3 == 2
        }),
{
    lemma_sampler_fields(
        crate::virgl::encoding::ir_address_mode(state.address_u),
        crate::virgl::encoding::ir_address_mode(state.address_v),
        crate::virgl::encoding::ir_filter_mode(state.min_filter),
        crate::virgl::encoding::ir_filter_mode(state.mag_filter),
    );
}

/// Compositions clamp to the edge texel along both axes, interpolate, and sample one
/// level.
pub proof fn law_compositions_clamp_and_interpolate()
    ensures
        COMPOSITION_SAMPLER_STATE & 7 == 2,
        (COMPOSITION_SAMPLER_STATE >> 3) & 7 == 2,
        (COMPOSITION_SAMPLER_STATE >> 9) & 3 == 1,
        (COMPOSITION_SAMPLER_STATE >> 13) & 3 == 1,
        (COMPOSITION_SAMPLER_STATE >> 11) & 3 == 2,
{
    assert(0x3292u32 & 7 == 2 && (0x3292u32 >> 3) & 7 == 2 && (0x3292u32 >> 9) & 3 == 1 && (
    0x3292u32 >> 13) & 3 == 1 && (0x3292u32 >> 11) & 3 == 2) by (bit_vector);
}

/// Whether rasterizer flags draw a triangle whose vertices run clockwise, or
/// counter-clockwise. One bit says that front faces run counter-clockwise, two others
/// cull front and back faces.
pub open spec fn flags_keep(flags: u32, clockwise: bool) -> bool {
    let front = clockwise != ((flags >> 15) & 1 == 1);
    !(front && (flags >> 8) & 1 == 1) && !(!front && (flags >> 9) & 1 == 1)
}

/// Whether rasterizer flags apply the scissor.
pub open spec fn flags_clip(flags: u32) -> bool {
    (flags >> 14) & 1 == 1
}

proof fn lemma_flag_fields(cull: u32, winding: u32)
    requires
        cull == 0 || cull == 0x100 || cull == 0x200,
        winding == 0 || winding == 0x8000,
    ensures
        ({
            let flags = 2u32 | 0x4000 | (cull | winding);
            &&& (flags >> 8) & 1 == (if cull == 0x100 {
                1u32
            } else {
                0
            })
            &&& (flags >> 9) & 1 == (if cull == 0x200 {
                1u32
            } else {
                0
            })
            &&& (flags >> 14) & 1 == 1
            &&& (flags >> 15) & 1 == (if winding == 0x8000 {
                1u32
            } else {
                0
            })
            &&& (flags >> 1) & 1 == 1
        }),
        ({
            let flags = 2u32 | (cull | winding);
            &&& (flags >> 8) & 1 == (if cull == 0x100 {
                1u32
            } else {
                0
            })
            &&& (flags >> 9) & 1 == (if cull == 0x200 {
                1u32
            } else {
                0
            })
            &&& (flags >> 14) & 1 == 0
            &&& (flags >> 15) & 1 == (if winding == 0x8000 {
                1u32
            } else {
                0
            })
            &&& (flags >> 1) & 1 == 1
        }),
{
    assert(((2u32 | 0x4000 | (cull | winding)) >> 8) & 1 == (if cull == 0x100 {
        1u32
    } else {
        0
    }) && ((2u32 | 0x4000 | (cull | winding)) >> 9) & 1 == (if cull == 0x200 {
        1u32
    } else {
        0
    }) && ((2u32 | 0x4000 | (cull | winding)) >> 14) & 1 == 1 && ((2u32 | 0x4000 | (cull
        | winding)) >> 15) & 1 == (if winding == 0x8000 {
        1u32
    } else {
        0
    }) && ((2u32 | 0x4000 | (cull | winding)) >> 1) & 1 == 1) by (bit_vector)
        requires
            cull == 0 || cull == 0x100 || cull == 0x200,
            winding == 0 || winding == 0x8000,
    ;
    assert(((2u32 | (cull | winding)) >> 8) & 1 == (if cull == 0x100 {
        1u32
    } else {
        0
    }) && ((2u32 | (cull | winding)) >> 9) & 1 == (if cull == 0x200 {
        1u32
    } else {
        0
    }) && ((2u32 | (cull | winding)) >> 14) & 1 == 0 && ((2u32 | (cull | winding)) >> 15) & 1 == (
    if winding == 0x8000 {
        1u32
    } else {
        0
    }) && ((2u32 | (cull | winding)) >> 1) & 1 == 1) by (bit_vector)
        requires
            cull == 0 || cull == 0x100 || cull == 0x200,
            winding == 0 || winding == 0x8000,
    ;
}

/// Packed rasterizer flags keep the triangles that the state keeps. Passes and
/// compositions apply the scissor, colored triangles do not, and compositions keep every
/// triangle.
pub proof fn law_rasterizer_flags_keep_alike(
    cull_mode: IrCullMode,
    front_face: IrFrontFace,
    clockwise: bool,
)
    ensures
        flags_keep(crate::virgl::encoding::ir_rasterizer_flags(cull_mode, front_face), clockwise)
            == crate::ir_execute::bindings::device_keeps(cull_mode, front_face, clockwise),
        flags_clip(crate::virgl::encoding::ir_rasterizer_flags(cull_mode, front_face)),
        flags_keep(crate::virgl::encoding::rasterizer_flags(cull_mode, front_face), clockwise)
            == crate::ir_execute::bindings::device_keeps(cull_mode, front_face, clockwise),
        !flags_clip(crate::virgl::encoding::rasterizer_flags(cull_mode, front_face)),
        flags_keep(COMPOSITION_RASTERIZER_FLAGS, clockwise),
        flags_clip(COMPOSITION_RASTERIZER_FLAGS),
{
    let cull: u32 = match cull_mode {
        IrCullMode::Disabled => 0,
        IrCullMode::Front => 0x100,
        IrCullMode::Back => 0x200,
    };
    let winding: u32 = match front_face {
        IrFrontFace::CounterClockwise => 0x8000,
        IrFrontFace::Clockwise => 0,
    };
    lemma_flag_fields(cull, winding);
    assert((0x4002u32 >> 8) & 1 == 0 && (0x4002u32 >> 9) & 1 == 0 && (0x4002u32 >> 14) & 1 == 1)
        by (bit_vector);
}

} // verus!
