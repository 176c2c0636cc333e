//! Rounding of exact ratios against the floating-point unit.

use sgfx_core::ir::rounding::{clip_column, clip_row, nearest_ratio, texture_fraction};

fn samples() -> Vec<u32> {
    let mut values = vec![
        1, 2, 3, 5, 7, 255, 256, 1919, 1920, 65_535, 65_537, 16_777_215, 16_777_216, 16_777_217,
        16_777_219, 33_554_433, 2_147_483_647, 2_147_483_649, 4_294_967_167, 4_294_967_168,
        4_294_967_295,
    ];
    let mut state = 0x1234_5678u32;
    for _ in 0..200 {
        state = state.wrapping_mul(1_664_525).wrapping_add(1_013_904_223);
        values.push(state | 1);
        values.push((state >> 16) | 1);
    }
    values
}

#[test]
fn ratios_round_as_single_precision_division_does() {
    assert_eq!(nearest_ratio(0, 7), 0);
    assert_eq!(nearest_ratio(1, 2), 0.5f32.to_bits());
    assert_eq!(nearest_ratio(51, 255), (51.0f32 / 255.0).to_bits());
    for value in samples() {
        assert_eq!(nearest_ratio(value as u64, 1), (value as f32).to_bits());
        assert_eq!(nearest_ratio(value as u64, 2), (value as f32 / 2.0).to_bits());
    }
}

#[test]
fn clip_coordinates_round_as_single_precision_arithmetic_does() {
    for extent in samples() {
        for position in samples() {
            let position = position % extent;
            for position in [0, position, extent] {
                let column = position as f32 * 2.0 / extent as f32 - 1.0;
                let row = 1.0 - position as f32 * 2.0 / extent as f32;
                assert_eq!(
                    f32::from_bits(clip_column(position, extent)),
                    column,
                    "column {position} of {extent}"
                );
                assert_eq!(
                    f32::from_bits(clip_row(position, extent)),
                    row,
                    "row {position} of {extent}"
                );
            }
        }
    }
}

#[test]
fn clip_coordinates_keep_the_sign_of_zero() {
    assert_eq!(clip_column(4, 8), 0.0f32.to_bits());
    assert_eq!(clip_row(4, 8), 0.0f32.to_bits());
    assert_eq!(clip_column(0, 8), (-1.0f32).to_bits());
    assert_eq!(clip_row(0, 8), 1.0f32.to_bits());
    assert_eq!(clip_row(8, 8), (-1.0f32).to_bits());
}

#[test]
fn texture_coordinates_round_as_single_precision_division_does() {
    for extent in samples() {
        for position in samples() {
            assert_eq!(
                texture_fraction(position, extent),
                (position as f32 / extent as f32).to_bits(),
                "texel {position} of {extent}"
            );
        }
    }
    assert_eq!(texture_fraction(0, 3), 0);
}
