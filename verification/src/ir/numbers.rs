//! What bit patterns denote, and how ratios are rounded to them.

use crate::ir::float::{INFINITY_BITS, NEGATIVE_ZERO_BITS, ONE_BITS};
use crate::ir::rounding::{QUOTIENT_ONE, SIGN_BIT};
use vstd::prelude::*;

verus! {

/// Patterns denote the numbers of single precision: zero is zero, one is one, the sign bit
/// negates, each pattern denotes more than the one before it by the step of its binade,
/// the first two binades have the smallest step, and the step doubles from one binade to
/// the next.
pub proof fn law_patterns_denote_numbers(magnitude: u32)
    requires
        magnitude < INFINITY_BITS,
    ensures
        crate::ir::float::scaled_value(0) == 0,
        crate::ir::float::scaled_value(ONE_BITS) == crate::ir::float::scaled_one(),
        crate::ir::float::finite(magnitude),
        crate::ir::float::finite((magnitude + NEGATIVE_ZERO_BITS) as u32),
        crate::ir::float::scaled_value((magnitude + NEGATIVE_ZERO_BITS) as u32)
            == -crate::ir::float::scaled_value(magnitude),
        magnitude < 0x100_0000 ==> crate::ir::float::scaled_value(magnitude) == magnitude,
        magnitude >= 0x80_0000 && magnitude + 0x80_0000 < INFINITY_BITS
            ==> crate::ir::float::scaled_value((magnitude + 0x80_0000) as u32) == 2
            * crate::ir::float::scaled_value(magnitude),
{
    vstd::arithmetic::power2::lemma2_to64();
    crate::ir::float::lemma_one();
    if magnitude >= 0x80_0000 {
        let exponent = crate::ir::float::exponent(magnitude);
        let higher = (magnitude + 0x80_0000) as u32;
        if magnitude + 0x80_0000 < INFINITY_BITS {
            assert(higher % 0x80_0000 == magnitude % 0x80_0000);
            assert(crate::ir::float::exponent(higher) == exponent + 1);
            vstd::arithmetic::power2::lemma_pow2_unfold(exponent);
            let power = vstd::arithmetic::power2::pow2((exponent - 1) as nat) as int;
            let fraction = (magnitude % 0x80_0000) as int + 0x80_0000;
            assert(fraction * (2 * power) == 2 * (fraction * power)) by (nonlinear_arith);
        }
        if magnitude < 0x100_0000 {
            assert(exponent == 1);
            assert(vstd::arithmetic::power2::pow2(0) == 1);
            let fraction = (magnitude % 0x80_0000) as int + 0x80_0000;
            assert(fraction == magnitude);
            assert(fraction * 1 == fraction);
        }
    }
}

/// A rounded ratio differs from the ratio by at most one half, and by one half only where
/// it is even.
pub proof fn law_rounding_is_to_the_nearest(numerator: nat, denominator: nat)
    requires
        denominator > 0,
    ensures
        ({
            let rounded = crate::ir::rounding::round_half_even(numerator, denominator);
            let error = 2 * (rounded * denominator - numerator);
            &&& -denominator <= error <= denominator
            &&& error == denominator || error == -denominator ==> rounded % 2 == 0
        }),
{
    let floor = numerator / denominator;
    vstd::arithmetic::div_mod::lemma_fundamental_div_mod(numerator as int, denominator as int);
    vstd::arithmetic::mul::lemma_mul_is_commutative(floor as int, denominator as int);
    vstd::arithmetic::mul::lemma_mul_is_distributive_add_other_way(
        denominator as int,
        floor as int,
        1,
    );
}

/// A number over itself rounds to one.
proof fn lemma_one_over_one(number: nat)
    requires
        number > 0,
    ensures
        crate::ir::rounding::nearest(number, number) == ONE_BITS,
{
    vstd::arithmetic::power2::lemma2_to64();
    vstd::arithmetic::power2::lemma_pow2_unfold(65);
    let whole = vstd::arithmetic::power2::pow2(64) as int;
    assert(number * whole < number * (2 * whole)) by (nonlinear_arith)
        requires
            number > 0,
            whole > 0,
    ;
    assert(crate::ir::rounding::in_binade(number, number, 64));
    crate::ir::rounding::lemma_binade(number, number, 64);
    lemma_exact(number, 64, 41);
}

/// A ratio of powers of two rounds to a power of two.
proof fn lemma_exact(number: nat, high: nat, low: nat)
    requires
        number > 0,
        low <= high,
    ensures
        crate::ir::rounding::round_half_even(
            number * vstd::arithmetic::power2::pow2(high),
            number * vstd::arithmetic::power2::pow2(low),
        ) == vstd::arithmetic::power2::pow2((high - low) as nat),
{
    let step = (high - low) as nat;
    vstd::arithmetic::power2::lemma_pow2_adds(low, step);
    vstd::arithmetic::power2::lemma_pow2_pos(low);
    let unit = (number * vstd::arithmetic::power2::pow2(low)) as int;
    let times = vstd::arithmetic::power2::pow2(step) as int;
    let power = vstd::arithmetic::power2::pow2(low) as int;
    assert(unit > 0) by (nonlinear_arith)
        requires
            unit == number * power,
            number > 0,
            power > 0,
    ;
    assert(number * (power * times) == times * unit) by (nonlinear_arith)
        requires
            unit == number * power,
    ;
    vstd::arithmetic::div_mod::lemma_div_multiples_vanish(times, unit);
    vstd::arithmetic::div_mod::lemma_mod_multiples_basic(times, unit);
    vstd::arithmetic::mul::lemma_mul_is_commutative(times, unit);
}

/// Columns run from minus one at the left edge to one at the right edge, rows from one at
/// the upper edge to minus one at the lower edge, and texels from zero to one. A row and a
/// column in the same place have opposite coordinates.
pub proof fn law_edges_have_their_coordinates(position: u32, extent: u32)
    requires
        extent > 0,
    ensures
        crate::ir::rounding::clip_x(0, extent) == ONE_BITS | SIGN_BIT,
        crate::ir::rounding::clip_x(extent, extent) == ONE_BITS,
        crate::ir::rounding::clip_y(0, extent) == ONE_BITS,
        crate::ir::rounding::clip_y(extent, extent) == ONE_BITS | SIGN_BIT,
        crate::ir::rounding::texture_coordinate(0, extent) == 0,
        crate::ir::rounding::texture_coordinate(extent, extent) == ONE_BITS,
        ({
            let x = crate::ir::rounding::clip_x(position, extent);
            let y = crate::ir::rounding::clip_y(position, extent);
            x == y | SIGN_BIT || y == x | SIGN_BIT || (x == 0 && y == 0)
        }),
{
    vstd::arithmetic::power2::lemma2_to64();
    let single = crate::ir::rounding::single(extent as nat);
    lemma_single_is_positive(extent);
    lemma_one_over_one(single);
    lemma_one_over_one(QUOTIENT_ONE as nat);
    vstd::arithmetic::power2::lemma_pow2_unfold(65);
    vstd::arithmetic::power2::lemma_pow2_unfold(66);
    let whole = vstd::arithmetic::power2::pow2(64) as int;
    assert(2 * single * whole == single * (2 * whole) && single * (2 * whole) < single * (4
        * whole)) by (nonlinear_arith)
        requires
            single > 0,
            whole > 0,
    ;
    assert(crate::ir::rounding::in_binade(2 * single, single, 65));
    crate::ir::rounding::lemma_binade(2 * single, single, 65);
    assert((2 * single) * vstd::arithmetic::power2::pow2(64) == single
        * vstd::arithmetic::power2::pow2(65)) by (nonlinear_arith)
        requires
            vstd::arithmetic::power2::pow2(65) == 2 * vstd::arithmetic::power2::pow2(64),
    ;
    lemma_exact(single, 65, 42);
    vstd::arithmetic::power2::lemma_pow2_adds(23, 35);
    vstd::arithmetic::power2::lemma_pow2_adds(32, 26);
    assert(0x1_0000_0000 * 0x400_0000 == 2 * QUOTIENT_ONE);
    assert(crate::ir::rounding::rounded_quotient(2 * single, single) == 2 * QUOTIENT_ONE);
}

/// A positive integer rounds to a positive number.
proof fn lemma_single_is_positive(value: u32)
    requires
        value > 0,
    ensures
        crate::ir::rounding::single(value as nat) > 0,
{
    let number = value as nat;
    let biased = crate::ir::rounding::binade(number, 1);
    lemma_binade_exists(number);
    vstd::arithmetic::power2::lemma2_to64();
    let power = vstd::arithmetic::power2::pow2((biased - 23) as nat) as int;
    let large = number * vstd::arithmetic::power2::pow2(64) as int;
    vstd::arithmetic::power2::lemma_pow2_pos((biased - 23) as nat);
    vstd::arithmetic::power2::lemma_pow2_pos((biased - 64) as nat);
    vstd::arithmetic::power2::lemma_pow2_adds((biased - 23) as nat, 23);
    assert(power <= large);
    let quotient = large / power;
    assert(quotient >= 1) by {
        vstd::arithmetic::div_mod::lemma_div_is_ordered(power, large, power);
        vstd::arithmetic::div_mod::lemma_div_by_self(power);
    }
    let scale = vstd::arithmetic::power2::pow2((biased - 64) as nat) as int;
    let significand = crate::ir::rounding::significand(number, 1) as int;
    assert(significand >= 1);
    assert(significand * scale > 0) by (nonlinear_arith)
        requires
            significand >= 1,
            scale >= 1,
    ;
}

/// A positive integer lies in a binade from one on.
pub proof fn lemma_binade_exists(number: nat)
    requires
        number > 0,
    ensures
        crate::ir::rounding::in_binade(
            number,
            1,
            crate::ir::rounding::binade(number, 1),
        ),
        crate::ir::rounding::binade(number, 1) >= 64,
{
    vstd::arithmetic::logarithm::lemma_log_nonnegative(2, number as int);
    let log = vstd::arithmetic::logarithm::log(2, number as int) as nat;
    lemma_logarithm(number);
    vstd::arithmetic::power2::lemma_pow2_adds(log, 64);
    vstd::arithmetic::power2::lemma_pow2_adds(log + 1, 64);
    vstd::arithmetic::power2::lemma_pow2_pos(64);
    let whole = vstd::arithmetic::power2::pow2(64) as int;
    let low = vstd::arithmetic::power2::pow2(log) as int;
    let high = vstd::arithmetic::power2::pow2(log + 1) as int;
    assert(low * whole <= number * whole < high * whole) by (nonlinear_arith)
        requires
            low <= number < high,
            whole > 0,
    ;
    assert(crate::ir::rounding::in_binade(number, 1, log + 64));
    crate::ir::rounding::lemma_binade(number, 1, log + 64);
}

/// A number lies between two powers of two, as its binary logarithm says.
proof fn lemma_logarithm(number: nat)
    requires
        number > 0,
    ensures
        vstd::arithmetic::logarithm::log(2, number as int) >= 0,
        vstd::arithmetic::power2::pow2(
            vstd::arithmetic::logarithm::log(2, number as int) as nat,
        ) <= number < vstd::arithmetic::power2::pow2(
            (vstd::arithmetic::logarithm::log(2, number as int) + 1) as nat,
        ),
    decreases number,
{
    vstd::arithmetic::logarithm::lemma_log_nonnegative(2, number as int);
    vstd::arithmetic::power2::lemma2_to64();
    if number < 2 {
        vstd::arithmetic::logarithm::lemma_log0(2, number as int);
    } else {
        vstd::arithmetic::logarithm::lemma_log_s(2, number as int);
        lemma_logarithm(number / 2);
        let below = vstd::arithmetic::logarithm::log(2, (number / 2) as int) as nat;
        vstd::arithmetic::power2::lemma_pow2_unfold(below + 1);
        vstd::arithmetic::power2::lemma_pow2_unfold(below + 2);
    }
}

} // verus!
