//! Single-precision numbers held as their IEEE 754 bit patterns.
//!
//! The library never does floating-point arithmetic. It stores numbers as bit
//! patterns, decides whether they are finite and compares them, all of which
//! the bit pattern alone determines.

use vstd::prelude::*;

verus! {

/// Bit pattern of `1.0`.
pub const ONE_BITS: u32 = 0x3f80_0000;

/// Bit pattern of `-0.0`.
pub const NEGATIVE_ZERO_BITS: u32 = 0x8000_0000;

/// Smallest bit pattern with the sign bit clear that is not a finite number.
pub const INFINITY_BITS: u32 = 0x7f80_0000;

/// Whether the sign bit is set.
pub open spec fn negative(bits: u32) -> bool {
    bits >= NEGATIVE_ZERO_BITS
}

/// The bit pattern with its sign bit cleared.
pub open spec fn magnitude_bits(bits: u32) -> u32 {
    if negative(bits) {
        (bits - NEGATIVE_ZERO_BITS) as u32
    } else {
        bits
    }
}

/// Whether the pattern denotes a finite number: its exponent field is not all ones.
pub open spec fn finite(bits: u32) -> bool {
    magnitude_bits(bits) < INFINITY_BITS
}

/// The biased exponent of a pattern whose sign bit is clear.
pub open spec fn exponent(magnitude: u32) -> nat {
    (magnitude / 0x80_0000) as nat
}

/// The absolute value of a finite number in units of the smallest positive
/// number, which is two to the power of minus 149.
pub open spec fn scaled_magnitude(magnitude: u32) -> nat {
    let fraction = (magnitude % 0x80_0000) as nat;
    if exponent(magnitude) == 0 {
        fraction
    } else {
        (fraction + 0x80_0000) * vstd::arithmetic::power2::pow2((exponent(magnitude) - 1) as nat)
    }
}

/// The value of a finite number in units of two to the power of minus 149.
pub open spec fn scaled_value(bits: u32) -> int {
    if negative(bits) {
        -(scaled_magnitude(magnitude_bits(bits)) as int)
    } else {
        scaled_magnitude(magnitude_bits(bits)) as int
    }
}

/// One, in the units of `scaled_value`.
pub open spec fn scaled_one() -> int {
    vstd::arithmetic::power2::pow2(149) as int
}

/// Whether the number is zero, of either sign.
pub open spec fn zero(bits: u32) -> bool {
    magnitude_bits(bits) == 0
}

/// Whether a finite number lies in the closed unit interval.
pub open spec fn in_unit_interval(bits: u32) -> bool {
    finite(bits) && 0 <= scaled_value(bits) <= scaled_one()
}

/// Among patterns with a clear sign bit, a larger pattern denotes a larger number.
pub proof fn lemma_magnitude_order(left: u32, right: u32)
    requires
        left < right < INFINITY_BITS,
    ensures
        scaled_magnitude(left) < scaled_magnitude(right),
{
    let le = exponent(left);
    let re = exponent(right);
    let lf = (left % 0x80_0000) as nat;
    let rf = (right % 0x80_0000) as nat;
    assert(left == le * 0x80_0000 + lf);
    assert(right == re * 0x80_0000 + rf);
    if le == re {
        if le != 0 {
            let p = vstd::arithmetic::power2::pow2((le - 1) as nat);
            vstd::arithmetic::power2::lemma_pow2_pos((le - 1) as nat);
            assert((lf + 0x80_0000) * p < (rf + 0x80_0000) * p) by (nonlinear_arith)
                requires
                    lf < rf,
                    p > 0,
            ;
        }
    } else {
        assert(le < re);
        let q = vstd::arithmetic::power2::pow2((re - 1) as nat);
        vstd::arithmetic::power2::lemma_pow2_pos((re - 1) as nat);
        assert(0x80_0000 * q <= (rf + 0x80_0000) * q) by (nonlinear_arith)
            requires
                q > 0,
        ;
        if le == 0 {
            assert(0x80_0000 <= 0x80_0000 * q) by (nonlinear_arith)
                requires
                    q > 0,
            ;
        } else {
            let p = vstd::arithmetic::power2::pow2((le - 1) as nat);
            vstd::arithmetic::power2::lemma_pow2_pos((le - 1) as nat);
            let d = (re - le) as nat;
            vstd::arithmetic::power2::lemma_pow2_adds((le - 1) as nat, d);
            assert(vstd::arithmetic::power2::pow2(d) >= 2) by {
                vstd::arithmetic::power2::lemma2_to64();
                if d > 1 {
                    vstd::arithmetic::power2::lemma_pow2_strictly_increases(1, d);
                }
            }
            let k = vstd::arithmetic::power2::pow2(d);
            assert(q == p * k);
            assert((lf + 0x80_0000) * p < 0x80_0000 * q) by (nonlinear_arith)
                requires
                    lf < 0x80_0000,
                    p > 0,
                    k >= 2,
                    q == p * k,
            ;
        }
    }
}

/// The pattern of `1.0` denotes one.
pub proof fn lemma_one()
    ensures
        scaled_magnitude(ONE_BITS) == vstd::arithmetic::power2::pow2(149),
        !negative(ONE_BITS),
{
    assert(exponent(ONE_BITS) == 127);
    vstd::arithmetic::power2::lemma_pow2_adds(23, 126);
    vstd::arithmetic::power2::lemma2_to64();
    assert((0 + 0x80_0000) * vstd::arithmetic::power2::pow2(126) == vstd::arithmetic::power2::pow2(23) * vstd::arithmetic::power2::pow2(126));
}

/// Return whether a bit pattern denotes a finite number.
pub fn is_finite(bits: u32) -> (r: bool)
    ensures
        r == finite(bits),
{
    let magnitude: u32 = if bits >= NEGATIVE_ZERO_BITS {
        bits - NEGATIVE_ZERO_BITS
    } else {
        bits
    };
    magnitude < INFINITY_BITS
}

/// Return whether a bit pattern denotes a finite number between zero and one, inclusive.
pub fn is_in_unit_interval(bits: u32) -> (r: bool)
    ensures
        r == in_unit_interval(bits),
{
    proof {
        lemma_one();
        if finite(bits) {
            let magnitude = magnitude_bits(bits);
            if magnitude > ONE_BITS {
                lemma_magnitude_order(ONE_BITS, magnitude);
            } else if magnitude < ONE_BITS {
                lemma_magnitude_order(magnitude, ONE_BITS);
            }
            if magnitude > 0 {
                lemma_magnitude_order(0, magnitude);
            }
        }
    }
    bits <= ONE_BITS || bits == NEGATIVE_ZERO_BITS
}

/// Return whether `left` is at most `right`, for two finite numbers.
pub fn is_at_most(left: u32, right: u32) -> (r: bool)
    requires
        finite(left),
        finite(right),
    ensures
        r == (scaled_value(left) <= scaled_value(right)),
{
    let ln: bool = left >= NEGATIVE_ZERO_BITS;
    let rn: bool = right >= NEGATIVE_ZERO_BITS;
    proof {
        let lm = magnitude_bits(left);
        let rm = magnitude_bits(right);
        if lm < rm {
            lemma_magnitude_order(lm, rm);
        }
        if rm < lm {
            lemma_magnitude_order(rm, lm);
        }
        if lm > 0 {
            lemma_magnitude_order(0, lm);
        }
        if rm > 0 {
            lemma_magnitude_order(0, rm);
        }
    }
    if ln && rn {
        right <= left
    } else if ln {
        true
    } else if rn {
        left == 0 && right == NEGATIVE_ZERO_BITS
    } else {
        left <= right
    }
}

/// Some powers of two.
proof fn lemma_powers_of_two()
    ensures
        vstd::arithmetic::power2::pow2(53) == 0x20_0000_0000_0000,
        vstd::arithmetic::power2::pow2(96) == 0x1_0000_0000_0000_0000_0000_0000,
        vstd::arithmetic::power2::pow2(104) == 0x100_0000_0000_0000_0000_0000_0000,
{
    vstd::arithmetic::power2::lemma2_to64();
    vstd::arithmetic::power2::lemma_pow2_adds(32, 21);
    vstd::arithmetic::power2::lemma_pow2_adds(64, 32);
    vstd::arithmetic::power2::lemma_pow2_adds(96, 8);
}

/// The units of a number divided by two to the power of 53, rounded down, and
/// whether that lost anything.
///
/// Requires a number below two to the power of 32, so that the result fits.
fn fixed_point(magnitude: u32) -> (r: (u128, bool))
    requires
        magnitude < 0x4f80_0000,
    ensures
        r.0 == scaled_magnitude(magnitude) as int / vstd::arithmetic::power2::pow2(53) as int,
        r.1 == (scaled_magnitude(magnitude) as int % vstd::arithmetic::power2::pow2(53) as int
            != 0),
        r.1 ==> scaled_magnitude(magnitude) < vstd::arithmetic::power2::pow2(77),
        r.0 < 0x1_0000_0000_0000_0000_0000_0000_0000_0000,
{
    let field: u32 = magnitude / 0x80_0000;
    let fraction: u32 = magnitude % 0x80_0000;
    let mantissa: u32 = if field == 0 {
        fraction
    } else {
        fraction + 0x80_0000
    };
    let shift: u32 = if field == 0 {
        0
    } else {
        field - 1
    };
    let ghost m = mantissa as nat;
    let ghost units = scaled_magnitude(magnitude);
    proof {
        vstd::arithmetic::power2::lemma2_to64();
        vstd::arithmetic::power2::lemma_pow2_pos(53);
        assert(units == m * vstd::arithmetic::power2::pow2(shift as nat)) by {
            assert(vstd::arithmetic::power2::pow2(0) == 1);
            if field == 0 {
                assert(m * 1 == m);
            }
        }
        assert(field <= 158);
    }
    if shift >= 53 {
        let up: u32 = shift - 53;
        proof {
            vstd::arithmetic::power2::lemma_pow2_adds(53, up as nat);
            vstd::arithmetic::power2::lemma_pow2_pos(up as nat);
            let d = vstd::arithmetic::power2::pow2(53) as int;
            let u = vstd::arithmetic::power2::pow2(up as nat) as int;
            assert(units as int == (m as int * u) * d) by (nonlinear_arith)
                requires
                    units as int == m as int * (d * u),
            ;
            vstd::arithmetic::div_mod::lemma_div_by_multiple(m as int * u, d);
            vstd::arithmetic::div_mod::lemma_mod_multiples_basic(m as int * u, d);
            if up < 104 {
                vstd::arithmetic::power2::lemma_pow2_strictly_increases(up as nat, 104);
            }
            lemma_powers_of_two();
            assert(m as int * u < 0x100_0000 * 0x100_0000_0000_0000_0000_0000_0000) by (
            nonlinear_arith)
                requires
                    m < 0x100_0000,
                    0 < u <= 0x100_0000_0000_0000_0000_0000_0000,
            ;
        }
        let mut value: u128 = mantissa as u128;
        let mut i: u32 = 0;
        proof {
            assert(value == m * vstd::arithmetic::power2::pow2(0)) by {
                vstd::arithmetic::power2::lemma2_to64();
                assert(m * 1 == m);
            }
        }
        while i < up
            invariant
                i <= up <= 104,
                m < 0x100_0000,
                value == m * vstd::arithmetic::power2::pow2(i as nat),
            decreases up - i,
        {
            proof {
                vstd::arithmetic::power2::lemma_pow2_unfold((i + 1) as nat);
                let a = vstd::arithmetic::power2::pow2(i as nat) as int;
                let b = vstd::arithmetic::power2::pow2((i + 1) as nat) as int;
                assert(2 * (m as int * a) == m as int * b) by (nonlinear_arith)
                    requires
                        b == 2 * a,
                ;
                lemma_powers_of_two();
                vstd::arithmetic::power2::lemma_pow2_pos((i + 1) as nat);
                if i + 1 < 104 {
                    vstd::arithmetic::power2::lemma_pow2_strictly_increases((i + 1) as nat, 104);
                }
                assert(m as int * b < 0x100_0000 * 0x100_0000_0000_0000_0000_0000_0000) by (
                nonlinear_arith)
                    requires
                        m < 0x100_0000,
                        0 < b <= 0x100_0000_0000_0000_0000_0000_0000,
                ;
            }
            value = 2 * value;
            i = i + 1;
        }
        (value, false)
    } else {
        let down: u32 = 53 - shift;
        let mut divisor: u64 = 1;
        let mut i: u32 = 0;
        proof {
            vstd::arithmetic::power2::lemma2_to64();
        }
        while i < down
            invariant
                i <= down <= 53,
                divisor == vstd::arithmetic::power2::pow2(i as nat),
            decreases down - i,
        {
            proof {
                vstd::arithmetic::power2::lemma_pow2_unfold((i + 1) as nat);
                lemma_powers_of_two();
                if i < 53 {
                    vstd::arithmetic::power2::lemma_pow2_strictly_increases(i as nat, 53);
                }
            }
            divisor = 2 * divisor;
            i = i + 1;
        }
        proof {
            let s = vstd::arithmetic::power2::pow2(shift as nat) as int;
            let e = vstd::arithmetic::power2::pow2(down as nat) as int;
            let d = vstd::arithmetic::power2::pow2(53) as int;
            vstd::arithmetic::power2::lemma_pow2_adds(shift as nat, down as nat);
            vstd::arithmetic::power2::lemma_pow2_pos(shift as nat);
            vstd::arithmetic::power2::lemma_pow2_pos(down as nat);
            assert(d == s * e);
            let q = m as int / e;
            let t = m as int % e;
            vstd::arithmetic::div_mod::lemma_fundamental_div_mod(m as int, e);
            assert(units as int == q * d + t * s) by (nonlinear_arith)
                requires
                    units as int == m as int * s,
                    m as int == e * q + t,
                    d == s * e,
            ;
            assert(0 <= t * s < d) by (nonlinear_arith)
                requires
                    0 <= t < e,
                    s > 0,
                    d == s * e,
            ;
            vstd::arithmetic::div_mod::lemma_fundamental_div_mod_converse(
                units as int,
                d,
                q,
                t * s,
            );
            assert((t * s != 0) == (t != 0)) by (nonlinear_arith)
                requires
                    s > 0,
                    0 <= t,
            ;
            vstd::arithmetic::power2::lemma2_to64();
            vstd::arithmetic::power2::lemma_pow2_adds(24, 53);
            if shift < 53 {
                vstd::arithmetic::power2::lemma_pow2_strictly_increases(shift as nat, 53);
            }
            assert(m as int * s < 0x100_0000 * d) by (nonlinear_arith)
                requires
                    m < 0x100_0000,
                    0 < s < d,
            ;
        }
        let wide: u64 = mantissa as u64;
        ((wide / divisor) as u128, wide % divisor != 0)
    }
}

/// Return whether the sum of two finite numbers that are not negative is at
/// most a whole number.
pub fn sum_is_at_most(left: u32, right: u32, limit: u32) -> (r: bool)
    requires
        finite(left),
        finite(right),
        scaled_value(left) >= 0,
        scaled_value(right) >= 0,
        limit >= 1,
    ensures
        r == (scaled_value(left) + scaled_value(right) <= limit * scaled_one()),
{
    let a: u32 = if left == NEGATIVE_ZERO_BITS {
        0
    } else {
        left
    };
    let b: u32 = if right == NEGATIVE_ZERO_BITS {
        0
    } else {
        right
    };
    proof {
        if negative(left) && magnitude_bits(left) > 0 {
            lemma_magnitude_order(0, magnitude_bits(left));
        }
        if negative(right) && magnitude_bits(right) > 0 {
            lemma_magnitude_order(0, magnitude_bits(right));
        }
        assert(scaled_value(left) == scaled_magnitude(a));
        assert(scaled_value(right) == scaled_magnitude(b));
        vstd::arithmetic::power2::lemma2_to64();
        vstd::arithmetic::power2::lemma_pow2_pos(149);
    }
    let ghost one = vstd::arithmetic::power2::pow2(149) as int;
    if a >= 0x4f80_0000 || b >= 0x4f80_0000 {
        proof {
            let large: u32 = if a >= 0x4f80_0000 {
                a
            } else {
                b
            };
            assert(scaled_magnitude(0x4f80_0000) == 0x1_0000_0000 * one) by {
                assert(exponent(0x4f80_0000) == 159);
                vstd::arithmetic::power2::lemma_pow2_adds(23, 158);
                vstd::arithmetic::power2::lemma_pow2_adds(32, 149);
            }
            if large > 0x4f80_0000 {
                lemma_magnitude_order(0x4f80_0000, large);
            }
            assert(limit * one < 0x1_0000_0000 * one) by (nonlinear_arith)
                requires
                    limit < 0x1_0000_0000,
                    one > 0,
            ;
        }
        return false;
    }
    let (x, x_inexact) = fixed_point(a);
    let (y, y_inexact) = fixed_point(b);
    let ghost d = vstd::arithmetic::power2::pow2(53) as int;
    let ghost top = limit * 0x1_0000_0000_0000_0000_0000_0000int;
    proof {
        vstd::arithmetic::power2::lemma_pow2_pos(53);
        vstd::arithmetic::power2::lemma_pow2_adds(96, 53);
        lemma_powers_of_two();
        assert(limit * one == top * d) by (nonlinear_arith)
            requires
                one == 0x1_0000_0000_0000_0000_0000_0000int * d,
                top == limit * 0x1_0000_0000_0000_0000_0000_0000int,
        ;
        vstd::arithmetic::div_mod::lemma_fundamental_div_mod(scaled_magnitude(a) as int, d);
        vstd::arithmetic::div_mod::lemma_fundamental_div_mod(scaled_magnitude(b) as int, d);
    }
    if x_inexact && y_inexact {
        proof {
            vstd::arithmetic::power2::lemma_pow2_unfold(78);
            vstd::arithmetic::power2::lemma_pow2_strictly_increases(78, 149);
            assert(one <= limit * one) by (nonlinear_arith)
                requires
                    limit >= 1,
                    one > 0,
            ;
        }
        return true;
    }
    let bound: u128 = (limit as u128) * 0x1_0000_0000_0000_0000_0000_0000;
    proof {
        let ra = scaled_magnitude(a) as int % d;
        let rb = scaled_magnitude(b) as int % d;
        let total = x as int + y as int;
        assert(scaled_magnitude(a) + scaled_magnitude(b) == total * d + (ra + rb)) by (
        nonlinear_arith)
            requires
                scaled_magnitude(a) as int == d * x as int + ra,
                scaled_magnitude(b) as int == d * y as int + rb,
                total == x as int + y as int,
        ;
        assert(0 <= ra + rb < d);
        assert((total * d + (ra + rb) <= top * d) == (total < top || (total == top && ra + rb
            == 0))) by (nonlinear_arith)
            requires
                0 <= ra + rb < d,
        ;
    }
    if x > bound {
        return false;
    }
    let rest: u128 = bound - x;
    if x_inexact || y_inexact {
        y < rest
    } else {
        y <= rest
    }
}

} // verus!
