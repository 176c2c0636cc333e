//! Rounding of exact ratios to single-precision bit patterns.
//!
//! Positions and normalized components are quotients of integers. They are
//! rounded to the nearest single-precision number, ties to an even significand,
//! with integer arithmetic alone.

use vstd::prelude::*;

verus! {

/// The unit of a significand: two to the number of stored significand bits.
pub const SIGNIFICAND_UNIT: u32 = 0x80_0000;

/// The sign bit of a single-precision bit pattern.
pub const SIGN_BIT: u32 = 0x8000_0000;

/// The integer closest to `numerator / denominator`, the even one of two equally close.
pub open spec fn round_half_even(numerator: nat, denominator: nat) -> nat {
    let floor = numerator / denominator;
    let twice = 2 * (numerator % denominator);
    if twice < denominator {
        floor
    } else if twice > denominator {
        floor + 1
    } else if floor % 2 == 0 {
        floor
    } else {
        floor + 1
    }
}

/// Whether `numerator / denominator` lies in the binade from `2^(biased - 64)` on.
pub open spec fn in_binade(numerator: nat, denominator: nat, biased: nat) -> bool {
    denominator * vstd::arithmetic::power2::pow2(biased) <= numerator
        * vstd::arithmetic::power2::pow2(64) < denominator * vstd::arithmetic::power2::pow2(
        biased + 1,
    )
}

/// The binade of `numerator / denominator`.
pub open spec fn binade(numerator: nat, denominator: nat) -> nat {
    choose|biased: nat| in_binade(numerator, denominator, biased)
}

/// The significand of the single-precision number closest to a ratio, between
/// one and two units.
pub open spec fn significand(numerator: nat, denominator: nat) -> nat {
    round_half_even(
        numerator * vstd::arithmetic::power2::pow2(64),
        denominator * vstd::arithmetic::power2::pow2(
            (binade(numerator, denominator) - 23) as nat,
        ),
    )
}

/// Whether a ratio is zero, or not below the ratios that `nearest` covers.
pub open spec fn roundable(numerator: nat, denominator: nat) -> bool {
    denominator > 0 && (numerator == 0 || denominator * 0x80_0000 <= numerator
        * vstd::arithmetic::power2::pow2(64))
}

/// The bit pattern of the single-precision number closest to a ratio.
pub open spec fn nearest(numerator: nat, denominator: nat) -> nat {
    if numerator == 0 {
        0
    } else {
        (binade(numerator, denominator) + 62) * 0x80_0000 + significand(numerator, denominator)
    }
}

/// A ratio lies in one binade only.
pub proof fn lemma_binade(numerator: nat, denominator: nat, biased: nat)
    requires
        in_binade(numerator, denominator, biased),
        denominator > 0,
    ensures
        binade(numerator, denominator) == biased,
{
    let other = binade(numerator, denominator);
    assert(in_binade(numerator, denominator, other));
    lemma_binades_order(numerator, denominator, other, biased);
    lemma_binades_order(numerator, denominator, biased, other);
}

proof fn lemma_binades_order(numerator: nat, denominator: nat, low: nat, high: nat)
    requires
        denominator > 0,
        in_binade(numerator, denominator, low),
        in_binade(numerator, denominator, high),
    ensures
        high <= low,
{
    if low < high {
        if low + 1 < high {
            vstd::arithmetic::power2::lemma_pow2_strictly_increases(low + 1, high);
        }
        let a = vstd::arithmetic::power2::pow2(low + 1);
        let b = vstd::arithmetic::power2::pow2(high);
        assert(denominator * a <= denominator * b) by (nonlinear_arith)
            requires
                a <= b,
        ;
    }
}

/// Return the binade of a ratio and the significand of the closest
/// single-precision number.
pub fn nearest_parts(numerator: u64, denominator: u64) -> (r: (u32, u32))
    requires
        numerator > 0,
        roundable(numerator as nat, denominator as nat),
    ensures
        r.0 == binade(numerator as nat, denominator as nat),
        r.1 == significand(numerator as nat, denominator as nat),
        in_binade(numerator as nat, denominator as nat, r.0 as nat),
        23 <= r.0 < 128,
        0x80_0000 <= r.1 <= 0x100_0000,
{
    proof {
        vstd::arithmetic::power2::lemma2_to64();
    }
    let scaled: u128 = (numerator as u128) * 0x1_0000_0000_0000_0000u128;
    let mut step: u128 = denominator as u128;
    let mut biased: u32 = 0;
    proof {
        assert(vstd::arithmetic::power2::pow2(64) == 0x1_0000_0000_0000_0000);
        assert(step <= scaled);
    }
    while step <= scaled / 2
        invariant
            step == denominator * vstd::arithmetic::power2::pow2(biased as nat),
            0 < denominator,
            step <= scaled,
            biased < 128,
            vstd::arithmetic::power2::pow2(biased as nat) <= step,
        decreases scaled - step,
    {
        proof {
            vstd::arithmetic::power2::lemma_pow2_unfold((biased + 1) as nat);
            let power = vstd::arithmetic::power2::pow2(biased as nat);
            assert(denominator * (2 * power) == 2 * (denominator * power)) by (nonlinear_arith);
            vstd::arithmetic::power2::lemma_pow2_pos((biased + 1) as nat);
            let doubled = vstd::arithmetic::power2::pow2((biased + 1) as nat);
            assert(doubled <= denominator * doubled) by (nonlinear_arith)
                requires
                    denominator >= 1,
                    doubled >= 0,
            ;
            if biased >= 127 {
                lemma_pow2_is_large((biased + 1) as nat);
            }
        }
        step = step * 2;
        biased = biased + 1;
    }
    let ghost power = vstd::arithmetic::power2::pow2(biased as nat);
    proof {
        vstd::arithmetic::power2::lemma_pow2_unfold((biased + 1) as nat);
        assert(denominator * (2 * power) == 2 * (denominator * power)) by (nonlinear_arith);
        assert(in_binade(numerator as nat, denominator as nat, biased as nat));
        lemma_binade(numerator as nat, denominator as nat, biased as nat);
        if biased < 23 {
            vstd::arithmetic::power2::lemma_pow2_unfold(23);
            if biased + 1 < 23 {
                vstd::arithmetic::power2::lemma_pow2_strictly_increases((biased + 1) as nat, 23);
            }
            let next = vstd::arithmetic::power2::pow2((biased + 1) as nat);
            assert(denominator * next <= denominator * 0x80_0000) by (nonlinear_arith)
                requires
                    next <= 0x80_0000,
            ;
        }
        vstd::arithmetic::power2::lemma_pow2_adds((biased - 23) as nat, 23);
        let small = vstd::arithmetic::power2::pow2((biased - 23) as nat);
        assert(denominator * (small * 0x80_0000) == (denominator * small) * 0x80_0000)
            by (nonlinear_arith);
        vstd::arithmetic::power2::lemma_pow2_pos((biased - 23) as nat);
        assert(denominator * small > 0) by (nonlinear_arith)
            requires
                denominator > 0,
                small > 0,
        ;
    }
    let unit: u128 = step / 0x80_0000;
    assert(unit == denominator * vstd::arithmetic::power2::pow2((biased - 23) as nat));
    let floor: u128 = scaled / unit;
    let rest: u128 = scaled % unit;
    proof {
        assert(step == 0x80_0000 * unit);
        assert(scaled < 2 * step);
        assert(0x80_0000 <= floor < 0x100_0000 && floor * unit + rest == scaled && rest < unit)
            by (nonlinear_arith)
            requires
                unit > 0,
                0x80_0000 * unit <= scaled < 0x100_0000 * unit,
                floor == scaled / unit,
                rest == scaled % unit,
        ;
    }
    let up: bool = rest > unit - rest || (rest == unit - rest && floor % 2 == 1);
    let rounded: u32 = if up {
        floor as u32 + 1
    } else {
        floor as u32
    };
    (biased, rounded)
}

/// Round an exact ratio to the closest single-precision bit pattern.
pub fn nearest_ratio(numerator: u64, denominator: u64) -> (r: u32)
    requires
        roundable(numerator as nat, denominator as nat),
    ensures
        r == nearest(numerator as nat, denominator as nat),
        r < SIGN_BIT,
{
    if numerator == 0 {
        return 0;
    }
    let (biased, rounded) = nearest_parts(numerator, denominator);
    (biased + 62) * 0x80_0000 + rounded
}

/// Powers of two from the 128th on do not fit 128 bits.
proof fn lemma_pow2_is_large(exponent: nat)
    requires
        exponent >= 128,
    ensures
        vstd::arithmetic::power2::pow2(exponent) > u128::MAX,
{
    vstd::arithmetic::power2::lemma2_to64();
    vstd::arithmetic::power2::lemma_pow2_adds(64, 64);
    if exponent > 128 {
        vstd::arithmetic::power2::lemma_pow2_strictly_increases(128, exponent);
    }
}

/// An integer rounded to single precision, in units of `2^-23`.
pub open spec fn single(value: nat) -> nat {
    if value == 0 {
        0
    } else {
        significand(value, 1) * vstd::arithmetic::power2::pow2((binade(value, 1) - 64) as nat)
    }
}

/// The exponents of positive 32-bit integers.
proof fn lemma_integer_binade(value: nat, biased: nat)
    requires
        1 <= value <= u32::MAX,
        in_binade(value, 1, biased),
    ensures
        64 <= biased < 96,
{
    vstd::arithmetic::power2::lemma2_to64();
    if biased < 64 {
        if biased + 1 < 64 {
            vstd::arithmetic::power2::lemma_pow2_strictly_increases(biased + 1, 64);
        }
    }
    if biased >= 96 {
        if biased > 96 {
            vstd::arithmetic::power2::lemma_pow2_strictly_increases(96, biased);
        }
        vstd::arithmetic::power2::lemma_pow2_adds(32, 64);
    }
}

/// Round an integer to single precision, in units of `2^-23`.
pub fn single_integer(value: u32) -> (r: u64)
    ensures
        r == single(value as nat),
        0x40_0000 * value <= r <= 0x100_0000 * value,
{
    if value == 0 {
        return 0;
    }
    proof {
        vstd::arithmetic::power2::lemma2_to64();
    }
    let (biased, rounded) = nearest_parts(value as u64, 1);
    proof {
        lemma_integer_binade(value as nat, biased as nat);
        let low = (biased - 64) as nat;
        let power = vstd::arithmetic::power2::pow2(low);
        vstd::arithmetic::power2::lemma_pow2_adds(low, 64);
        vstd::arithmetic::power2::lemma_pow2_adds(low + 1, 64);
        vstd::arithmetic::power2::lemma_pow2_unfold(low + 1);
        vstd::arithmetic::power2::lemma_pow2_pos(low);
        assert(power <= value < 2 * power);
        if low < 31 {
            vstd::arithmetic::power2::lemma_pow2_strictly_increases(low, 31);
        }
        assert(power <= 0x8000_0000);
        assert(0 <= rounded * power <= 0x100_0000 * 0x8000_0000) by (nonlinear_arith)
            requires
                0 <= rounded <= 0x100_0000,
                0 <= power <= 0x8000_0000,
        ;
        vstd::bits::lemma_u64_shl_is_mul(rounded as u64, low as u64);
        assert(0x80_0000 * power <= rounded * power <= 0x100_0000 * power) by (nonlinear_arith)
            requires
                0x80_0000 <= rounded <= 0x100_0000,
                0 <= power,
        ;
    }
    (rounded as u64) << (biased - 64)
}

/// The single-precision number closest to a ratio, in units of `2^-57`.
pub open spec fn rounded_quotient(numerator: nat, denominator: nat) -> nat {
    if numerator == 0 {
        0
    } else {
        significand(numerator, denominator) * vstd::arithmetic::power2::pow2(
            (binade(numerator, denominator) - 30) as nat,
        )
    }
}

/// One, in units of `2^-57`.
pub const QUOTIENT_ONE: u64 = 0x0200_0000_0000_0000;

/// The bit pattern of a difference between two numbers in units of `2^-57`.
pub open spec fn difference(left: nat, right: nat) -> u32 {
    if left >= right {
        nearest((left - right) as nat, QUOTIENT_ONE as nat) as u32
    } else {
        (nearest((right - left) as nat, QUOTIENT_ONE as nat) as u32) | SIGN_BIT
    }
}

/// Twice a position over an extent, both rounded to single precision, rounded
/// once more, in units of `2^-57`.
pub open spec fn doubled_fraction(position: u32, extent: u32) -> nat {
    rounded_quotient(2 * single(position as nat), single(extent as nat))
}

/// The horizontal clip coordinate of a column: twice its fraction, minus one.
pub open spec fn clip_x(position: u32, extent: u32) -> u32 {
    difference(doubled_fraction(position, extent), QUOTIENT_ONE as nat)
}

/// The vertical clip coordinate of a row: one minus twice its fraction.
pub open spec fn clip_y(position: u32, extent: u32) -> u32 {
    difference(QUOTIENT_ONE as nat, doubled_fraction(position, extent))
}

/// The texture coordinate of a texel edge: its fraction of the extent.
pub open spec fn texture_coordinate(position: u32, extent: u32) -> u32 {
    nearest(single(position as nat), single(extent as nat)) as u32
}

/// The quotient of two single-precision numbers lies within known binades, and
/// differs from one by a representable step.
proof fn lemma_quotient_binade(numerator: nat, denominator: nat, biased: nat)
    requires
        denominator > 0,
        in_binade(numerator, denominator, biased),
        numerator <= 8 * denominator,
        denominator <= numerator * vstd::arithmetic::power2::pow2(34),
    ensures
        30 <= biased <= 67,
{
    vstd::arithmetic::power2::lemma2_to64();
    let low = vstd::arithmetic::power2::pow2(biased);
    let high = vstd::arithmetic::power2::pow2(biased + 1);
    if biased < 30 {
        if biased + 1 < 30 {
            vstd::arithmetic::power2::lemma_pow2_strictly_increases(biased + 1, 30);
        }
        assert(high <= 0x4000_0000);
        vstd::arithmetic::power2::lemma_pow2_adds(34, 30);
        let scale = vstd::arithmetic::power2::pow2(34);
        assert(denominator * high <= denominator * 0x4000_0000) by (nonlinear_arith)
            requires
                high <= 0x4000_0000,
        ;
        assert(denominator * 0x4000_0000 <= numerator * (scale * 0x4000_0000)) by (nonlinear_arith)
            requires
                denominator <= numerator * scale,
        ;
    }
    if biased > 67 {
        if biased > 68 {
            vstd::arithmetic::power2::lemma_pow2_strictly_increases(68, biased);
        }
        vstd::arithmetic::power2::lemma_pow2_adds(4, 64);
        let one = vstd::arithmetic::power2::pow2(64);
        assert(denominator * low >= denominator * (16 * one)) by (nonlinear_arith)
            requires
                low >= 16 * one,
        ;
        assert(numerator * one <= (8 * denominator) * one) by (nonlinear_arith)
            requires
                numerator <= 8 * denominator,
        ;
        assert(denominator * (16 * one) == 2 * ((8 * denominator) * one)) by (nonlinear_arith);
        assert((8 * denominator) * one > 0) by (nonlinear_arith)
            requires
                denominator > 0,
                one > 0,
        ;
    }
}

/// A quotient in units of `2^-57` differs from one by nothing or by enough to round.
proof fn lemma_steps_from_one(rounded: nat, biased: nat)
    requires
        30 <= biased <= 67,
        0x80_0000 <= rounded <= 0x100_0000,
    ensures
        ({
            let value = rounded * vstd::arithmetic::power2::pow2((biased - 30) as nat);
            &&& value <= 0x2000_0000_0000_0000
            &&& value == QUOTIENT_ONE || value + 0x1_0000 <= QUOTIENT_ONE || value
                >= QUOTIENT_ONE + 0x1_0000
        }),
{
    vstd::arithmetic::power2::lemma2_to64();
    let low = (biased - 30) as nat;
    let power = vstd::arithmetic::power2::pow2(low);
    vstd::arithmetic::power2::lemma_pow2_pos(low);
    if low < 37 {
        vstd::arithmetic::power2::lemma_pow2_strictly_increases(low, 37);
    }
    vstd::arithmetic::power2::lemma_pow2_adds(32, 5);
    assert(rounded * power <= 0x100_0000 * 0x20_0000_0000) by (nonlinear_arith)
        requires
            rounded <= 0x100_0000,
            power <= 0x20_0000_0000,
    ;
    if low < 33 {
        if low < 32 {
            vstd::arithmetic::power2::lemma_pow2_strictly_increases(low, 32);
        }
        assert(rounded * power <= 0x100_0000 * 0x1_0000_0000) by (nonlinear_arith)
            requires
                rounded <= 0x100_0000,
                power <= 0x1_0000_0000,
        ;
    } else {
        let steps = vstd::arithmetic::power2::pow2((low - 33) as nat);
        vstd::arithmetic::power2::lemma_pow2_adds(33, (low - 33) as nat);
        vstd::arithmetic::power2::lemma_pow2_adds(32, 1);
        assert(rounded * (0x2_0000_0000 * steps) == 0x2_0000_0000 * (rounded * steps))
            by (nonlinear_arith);
    }
}

/// Return the difference of two numbers in units of `2^-57` as a bit pattern.
fn rounded_difference(left: u64, right: u64) -> (r: u32)
    requires
        left == right || left + 0x1_0000 <= right || right + 0x1_0000 <= left,
    ensures
        r == difference(left as nat, right as nat),
{
    proof {
        vstd::arithmetic::power2::lemma2_to64();
    }
    if left >= right {
        nearest_ratio(left - right, QUOTIENT_ONE)
    } else {
        nearest_ratio(right - left, QUOTIENT_ONE) | SIGN_BIT
    }
}

/// Return twice the fraction that a position is of an extent, rounded as single
/// precision does, in units of `2^-57`.
fn doubled(position: u32, extent: u32) -> (r: u64)
    requires
        position <= extent,
        extent > 0,
    ensures
        r == doubled_fraction(position, extent),
        r == QUOTIENT_ONE || r + 0x1_0000 <= QUOTIENT_ONE || r >= QUOTIENT_ONE + 0x1_0000,
{
    let numerator: u64 = 2 * single_integer(position);
    let denominator: u64 = single_integer(extent);
    if position == 0 {
        return 0;
    }
    proof {
        vstd::arithmetic::power2::lemma2_to64();
        vstd::arithmetic::power2::lemma_pow2_adds(32, 2);
    }
    assert(roundable(numerator as nat, denominator as nat));
    let (biased, rounded) = nearest_parts(numerator, denominator);
    proof {
        lemma_quotient_binade(numerator as nat, denominator as nat, biased as nat);
        lemma_steps_from_one(rounded as nat, biased as nat);
        vstd::bits::lemma_u64_shl_is_mul(rounded as u64, (biased - 30) as u64);
    }
    (rounded as u64) << (biased - 30)
}

/// Return the horizontal clip coordinate of a column of a surface.
pub fn clip_column(position: u32, extent: u32) -> (r: u32)
    requires
        position <= extent,
        extent > 0,
    ensures
        r == clip_x(position, extent),
{
    rounded_difference(doubled(position, extent), QUOTIENT_ONE)
}

/// Return the vertical clip coordinate of a row of a surface.
pub fn clip_row(position: u32, extent: u32) -> (r: u32)
    requires
        position <= extent,
        extent > 0,
    ensures
        r == clip_y(position, extent),
{
    rounded_difference(QUOTIENT_ONE, doubled(position, extent))
}

/// Return the texture coordinate of a texel edge.
pub fn texture_fraction(position: u32, extent: u32) -> (r: u32)
    requires
        extent > 0,
    ensures
        r == texture_coordinate(position, extent),
{
    let numerator: u64 = single_integer(position);
    let denominator: u64 = single_integer(extent);
    proof {
        vstd::arithmetic::power2::lemma2_to64();
    }
    nearest_ratio(numerator, denominator)
}

} // verus!
