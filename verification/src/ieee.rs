//! Bit-level model of IEEE-754 binary32 scalars.
//!
//! The pipeline's per-triangle decisions all reduce to questions about a
//! single binary32 value: is the facing product strictly negative (backface
//! cull), is the homogeneous `w` component zero (degenerate transform), and
//! what do the shading product and the screen coordinates become under a
//! truncating, saturating cast to an unsigned integer.  Those questions are
//! answered here on the raw bit pattern of the value, so that they can be
//! verified, while the arithmetic that produces the value stays outside the
//! library.
//!
//! A binary32 bit pattern is, from the highest bit down: one sign bit, eight
//! biased exponent bits, and twenty-three fraction bits.  A finite value with
//! biased exponent `e > 0` has magnitude `(2^23 + fraction) * 2^(e - 150)`;
//! with `e == 0` it has magnitude `fraction * 2^(-149)`.  An all-ones
//! exponent marks an infinity (zero fraction) or a NaN (nonzero fraction).

use vstd::arithmetic::div_mod::{
    lemma_basic_div, lemma_div_denominator, lemma_div_is_ordered,
    lemma_div_is_ordered_by_denominator, lemma_div_multiples_vanish, lemma_div_nonincreasing,
};
use vstd::arithmetic::mul::{
    lemma_mul_inequality, lemma_mul_is_commutative, lemma_mul_strict_inequality,
    lemma_mul_upper_bound,
};
use vstd::arithmetic::power2::{
    lemma2_to64, lemma_pow2_adds, lemma_pow2_pos, lemma_pow2_strictly_increases, pow2,
};
use vstd::bits::{lemma_u32_shl_is_mul, lemma_u32_shr_is_div};
use vstd::prelude::*;

verus! {

/// Sign bit of the bit pattern `b`.
pub open spec fn sign_bit(b: u32) -> bool {
    b >= 0x8000_0000
}

/// Biased exponent field of the bit pattern `b`.
pub open spec fn biased_exp(b: u32) -> u32 {
    (b >> 23) & 0xff
}

/// Fraction field of the bit pattern `b`.
pub open spec fn fraction(b: u32) -> u32 {
    b & 0x7f_ffff
}

/// The two bit patterns with an all-zero magnitude represent the two signed
/// zeros, the only values equal to zero.
pub open spec fn is_zero(b: u32) -> bool {
    b & 0x7fff_ffff == 0
}

/// An all-ones exponent with a nonzero fraction is a NaN.
pub open spec fn is_nan(b: u32) -> bool {
    biased_exp(b) == 0xff && fraction(b) != 0
}

/// Whether the value with bits `b` is strictly less than zero.  NaN compares
/// false, and so does negative zero; every other value with the sign bit set
/// (negative infinity included) compares true.
pub open spec fn is_lt_zero(b: u32) -> bool {
    sign_bit(b) && !is_zero(b) && !is_nan(b)
}

/// Magnitude of a finite value, scaled by `2^149` so that it is an integer:
/// subnormal values contribute their fraction directly, normal values
/// contribute their full significand shifted by the exponent.
pub open spec fn mag_scaled(b: u32) -> nat {
    if biased_exp(b) == 0 {
        fraction(b) as nat
    } else {
        (fraction(b) + 0x80_0000) as nat * pow2((biased_exp(b) - 1) as nat)
    }
}

/// Integer part of the magnitude of a finite value: the scaled magnitude
/// divided back down by `2^149`.
pub open spec fn trunc_abs(b: u32) -> nat {
    mag_scaled(b) / pow2(149)
}

/// The value of the cast of the binary32 value with bits `b` to `u8`:
/// truncate toward zero and saturate at the ends, with NaN going to zero.
pub open spec fn to_u8_cast(b: u32) -> u8 {
    if is_nan(b) {
        0
    } else if sign_bit(b) {
        0
    } else if biased_exp(b) == 0xff {
        255
    } else if trunc_abs(b) > 255 {
        255
    } else {
        trunc_abs(b) as u8
    }
}

/// The value of the cast of the binary32 value with bits `b` to `u32`:
/// truncate toward zero and saturate at the ends, with NaN going to zero.
pub open spec fn to_u32_cast(b: u32) -> u32 {
    if is_nan(b) {
        0
    } else if sign_bit(b) {
        0
    } else if biased_exp(b) == 0xff {
        0xffff_ffff
    } else if trunc_abs(b) > 0xffff_ffff {
        0xffff_ffff
    } else {
        trunc_abs(b) as u32
    }
}

/// Decides whether the value with bits `b` is strictly negative.  This is the
/// backface-culling test: only a strictly negative facing product lets a
/// triangle through.
pub fn lt_zero(b: u32) -> (r: bool)
    ensures
        r == is_lt_zero(b),
{
    b >= 0x8000_0000 && (b & 0x7fff_ffff) != 0 && !((b >> 23) & 0xff == 0xff && (b & 0x7f_ffff)
        != 0)
}

/// Decides whether the value with bits `b` equals zero.  This is the test for
/// a degenerate homogeneous transform: a zero `w` component admits no
/// perspective divide.
pub fn eq_zero(b: u32) -> (r: bool)
    ensures
        r == is_zero(b),
{
    (b & 0x7fff_ffff) == 0
}

/// A finite value with a biased exponent below 127 has magnitude below one,
/// so its integer part is zero.
proof fn lemma_small_trunc(b: u32)
    requires
        biased_exp(b) < 127,
    ensures
        trunc_abs(b) == 0,
{
    lemma_pow2_pos(149);
    lemma2_to64();
    if biased_exp(b) == 0 {
        assert(fraction(b) < 0x80_0000) by (bit_vector);
        lemma_pow2_strictly_increases(23, 149);
        lemma_basic_div(fraction(b) as int, pow2(149) as int);
    } else {
        let e = (biased_exp(b) - 1) as nat;
        let m = (fraction(b) + 0x80_0000) as nat;
        assert(fraction(b) < 0x80_0000) by (bit_vector);
        lemma_pow2_pos(e);
        lemma_mul_strict_inequality(m as int, pow2(24) as int, pow2(e) as int);
        lemma_pow2_adds(24, e);
        if 24 + e < 149 {
            lemma_pow2_strictly_increases(24 + e, 149);
        }
        lemma_basic_div(mag_scaled(b) as int, pow2(149) as int);
    }
}

/// A finite value with a biased exponent of at least `127 + k` has magnitude
/// at least `2^k`, so its integer part is at least `2^k`.
proof fn lemma_large_trunc(b: u32, k: nat)
    requires
        k <= 128,
        biased_exp(b) >= 127 + k,
        biased_exp(b) != 0xff,
    ensures
        trunc_abs(b) >= pow2(k),
{
    let e = (biased_exp(b) - 1) as nat;
    let m = (fraction(b) + 0x80_0000) as nat;
    lemma2_to64();
    lemma_pow2_pos(e);
    lemma_pow2_pos(149);
    lemma_mul_inequality(pow2(23) as int, m as int, pow2(e) as int);
    lemma_pow2_adds(23, e);
    if 23 + e > k + 149 {
        lemma_pow2_strictly_increases(k + 149, 23 + e);
    }
    lemma_pow2_adds(k, 149);
    lemma_div_is_ordered((pow2(k) * pow2(149)) as int, mag_scaled(b) as int, pow2(149) as int);
    lemma_mul_is_commutative(pow2(k) as int, pow2(149) as int);
    lemma_div_multiples_vanish(pow2(k) as int, pow2(149) as int);
}

/// For a normal value with a biased exponent of at most 150, the integer part
/// of the magnitude is the significand shifted right by `150 - e`.
proof fn lemma_shr_trunc(b: u32)
    requires
        1 <= biased_exp(b) <= 150,
    ensures
        trunc_abs(b) == (fraction(b) + 0x80_0000) as nat / pow2((150 - biased_exp(b)) as nat),
{
    let e = (biased_exp(b) - 1) as nat;
    let m = (fraction(b) + 0x80_0000) as nat;
    let s = (150 - biased_exp(b)) as nat;
    lemma_pow2_pos(e);
    lemma_pow2_pos(s);
    lemma_pow2_adds(e, s);
    lemma_div_denominator(mag_scaled(b) as int, pow2(e) as int, pow2(s) as int);
    lemma_mul_is_commutative(m as int, pow2(e) as int);
    lemma_div_multiples_vanish(m as int, pow2(e) as int);
}

/// For a finite value with a biased exponent of at least 150, the integer
/// part of the magnitude is the significand shifted left by `e - 150`, and it
/// equals the magnitude exactly.
proof fn lemma_shl_trunc(b: u32)
    requires
        150 <= biased_exp(b),
        biased_exp(b) != 0xff,
    ensures
        trunc_abs(b) == (fraction(b) + 0x80_0000) as nat * pow2((biased_exp(b) - 150) as nat),
{
    let e = (biased_exp(b) - 1) as nat;
    let m = (fraction(b) + 0x80_0000) as nat;
    let s = (biased_exp(b) - 150) as nat;
    lemma_pow2_pos(149);
    lemma_pow2_pos(s);
    lemma_pow2_adds(s, 149);
    assert(mag_scaled(b) == m * (pow2(s) * pow2(149)));
    lemma_mul_is_commutative(pow2(s) as int, pow2(149) as int);
    vstd::arithmetic::mul::lemma_mul_is_associative(m as int, pow2(149) as int, pow2(s) as int);
    lemma_mul_is_commutative(m as int, pow2(149) as int);
    vstd::arithmetic::mul::lemma_mul_is_associative(
        pow2(149) as int,
        m as int,
        pow2(s) as int,
    );
    lemma_div_multiples_vanish((m * pow2(s)) as int, pow2(149) as int);
}

/// Casts the binary32 value with bits `b` to `u8` the way the language cast
/// does: truncating toward zero, saturating at 0 and 255, NaN to 0.  The
/// shading stage uses this to turn the scaled lighting product into an 8-bit
/// intensity.
pub fn sat_u8(b: u32) -> (r: u8)
    ensures
        r == to_u8_cast(b),
{
    let exp: u32 = (b >> 23) & 0xff;
    let frac: u32 = b & 0x7f_ffff;
    proof {
        assert(b & 0x7f_ffff < 0x80_0000) by (bit_vector);
    }
    if exp == 0xff {
        if frac != 0 || b >= 0x8000_0000 {
            0
        } else {
            255
        }
    } else if b >= 0x8000_0000 {
        0
    } else if exp < 127 {
        proof {
            lemma_small_trunc(b);
        }
        0
    } else if exp >= 135 {
        proof {
            lemma_large_trunc(b, 8);
            lemma2_to64();
        }
        255
    } else {
        let m: u32 = frac + 0x80_0000;
        let shift: u32 = 150 - exp;
        proof {
            lemma_shr_trunc(b);
            lemma_u32_shr_is_div(m, shift);
            lemma2_to64();
            lemma_pow2_strictly_increases(15, shift as nat);
            lemma_div_is_ordered_by_denominator(m as int, 0x1_0000, pow2(shift as nat) as int);
            lemma_div_is_ordered(m as int, 0xff_ffff, 0x1_0000);
        }
        (m >> shift) as u8
    }
}

/// Casts the binary32 value with bits `b` to `u32` the way the language cast
/// does: truncating toward zero, saturating at 0 and `u32::MAX`, NaN to 0.
/// The rasterization stage uses this to turn screen-space coordinates into
/// pixel positions.
pub fn sat_u32(b: u32) -> (r: u32)
    ensures
        r == to_u32_cast(b),
{
    let exp: u32 = (b >> 23) & 0xff;
    let frac: u32 = b & 0x7f_ffff;
    proof {
        assert(b & 0x7f_ffff < 0x80_0000) by (bit_vector);
    }
    if exp == 0xff {
        if frac != 0 || b >= 0x8000_0000 {
            0
        } else {
            0xffff_ffff
        }
    } else if b >= 0x8000_0000 {
        0
    } else if exp < 127 {
        proof {
            lemma_small_trunc(b);
        }
        0
    } else if exp >= 159 {
        proof {
            lemma_large_trunc(b, 32);
            lemma2_to64();
        }
        0xffff_ffff
    } else if exp <= 149 {
        let m: u32 = frac + 0x80_0000;
        let shift: u32 = 150 - exp;
        proof {
            lemma_shr_trunc(b);
            lemma_u32_shr_is_div(m, shift);
            lemma_pow2_pos(shift as nat);
            lemma_div_nonincreasing(m as int, pow2(shift as nat) as int);
        }
        m >> shift
    } else {
        let m: u32 = frac + 0x80_0000;
        let shift: u32 = exp - 150;
        proof {
            lemma_shl_trunc(b);
            lemma2_to64();
            if (shift as nat) < 8 {
                lemma_pow2_strictly_increases(shift as nat, 8);
            }
            lemma_mul_upper_bound(m as int, 0xff_ffff, pow2(shift as nat) as int, 0x100);
            lemma_u32_shl_is_mul(m, shift);
        }
        m << shift
    }
}

} // verus!
