//! Conversion of one color channel from its colorimetric form to an 8-bit value.
//!
//! A channel arrives from the document as an IEEE 754 double-precision number.
//! The library keeps such a number as its raw 64-bit pattern, so that the
//! whole conversion — scale by 255, clamp into [0, 255], round half away from
//! zero — is exact integer arithmetic on the sign, exponent and fraction
//! fields, with nothing left to floating-point evaluation.

use vstd::prelude::*;

verus! {

use vstd::arithmetic::power2::{
    pow2, lemma2_to64, lemma2_to64_rest, lemma_pow2_adds, lemma_pow2_strictly_increases,
};
use vstd::arithmetic::div_mod::{lemma_div_is_ordered, lemma_fundamental_div_mod_converse};
use vstd::arithmetic::mul::lemma_mul_inequality;
use vstd::bits::{lemma_u64_pow2_no_overflow, lemma_u64_shl_is_mul};

/// A real number of the document, held as the raw bit pattern of an IEEE 754
/// double-precision value: 1 sign bit, 11 exponent bits, 52 fraction bits.
#[derive(Clone, Copy, PartialEq, Eq, Structural, Debug)]
pub struct Real {
    pub bits: u64,
}

/// The sign field of the bit pattern: 0 for non-negative, 1 for negative.
pub open spec fn sign_field(bits: u64) -> u64 {
    bits >> 63
}

/// The biased exponent field of the bit pattern, 11 bits.
pub open spec fn exp_field(bits: u64) -> u64 {
    (bits >> 52) & 0x7ff
}

/// The fraction field of the bit pattern, 52 bits.
pub open spec fn frac_field(bits: u64) -> u64 {
    bits & 0xf_ffff_ffff_ffff
}

/// The pattern encodes NaN: all exponent bits set and a non-zero fraction.
pub open spec fn is_nan(bits: u64) -> bool {
    exp_field(bits) == 0x7ff && frac_field(bits) != 0
}

/// The integer significand m of a finite value: with the implicit leading bit
/// for normal numbers, without it for subnormal ones.
pub open spec fn significand(bits: u64) -> u64 {
    if exp_field(bits) == 0 {
        frac_field(bits)
    } else {
        (frac_field(bits) + 0x10_0000_0000_0000) as u64
    }
}

/// The binary scale k of a finite value no greater than one: the encoded
/// number equals significand / 2^k. Meaningful only while the exponent field
/// stays at or below 1023 (the bias), which covers every magnitude up to one.
pub open spec fn scale(bits: u64) -> nat {
    if exp_field(bits) == 0 {
        1074
    } else if exp_field(bits) <= 1023 {
        (1075 - exp_field(bits)) as nat
    } else {
        0
    }
}

/// Round m/2^k times 255 to the nearest integer, halves up: as a single
/// integer division this is floor((510*m + 2^k) / 2^(k+1)), since
/// 255*(m/2^k) + 1/2 == (510*m + 2^k) / 2^(k+1) exactly.
pub open spec fn round_255(m: u64, k: nat) -> int {
    (510 * m + pow2(k)) as int / pow2((k + 1) as nat) as int
}

/// The byte a channel maps to, as a mathematical integer.
///
/// NaN maps to zero — the document gave no usable number, and zero is the
/// clamp's lower end; this choice is stated here once and relied on nowhere
/// else. A negative value (a negative zero included) clamps to 0. A value
/// above one clamps to 255, and one itself rounds to exactly 255, so every
/// exponent field at or past the bias yields 255. What remains encodes a
/// value in [0, 1), which is rounded with no clamping.
pub open spec fn channel_round(bits: u64) -> int {
    if is_nan(bits) {
        0
    } else if sign_field(bits) == 1 {
        0
    } else if exp_field(bits) >= 1023 {
        255
    } else {
        round_255(significand(bits), scale(bits))
    }
}

/// The byte a channel maps to.
pub open spec fn channel_byte(bits: u64) -> u8 {
    channel_round(bits) as u8
}

/// 2^k for k < 64, as an executable value.
fn pow2_u64(k: u64) -> (r: u64)
    requires
        k < 64,
    ensures
        r == pow2(k as nat),
{
    proof {
        lemma_u64_pow2_no_overflow(k as nat);
        lemma_u64_shl_is_mul(1u64, k);
    }
    1u64 << k
}

/// Basic bounds on the three fields of a bit pattern.
proof fn lemma_field_bounds(bits: u64)
    ensures
        sign_field(bits) <= 1,
        exp_field(bits) <= 0x7ff,
        frac_field(bits) < 0x10_0000_0000_0000,
{
    assert(bits >> 63 <= 1) by (bit_vector);
    assert((bits >> 52) & 0x7ff <= 0x7ff) by (bit_vector);
    assert(bits & 0xf_ffff_ffff_ffff < 0x10_0000_0000_0000) by (bit_vector);
}

/// The significand stays under 2^53, and 510 times it under 2^62.
proof fn lemma_significand_bounds(bits: u64)
    ensures
        significand(bits) < 0x20_0000_0000_0000,
        510 * significand(bits) < 0x4000_0000_0000_0000,
{
    lemma_field_bounds(bits);
    lemma_mul_inequality(significand(bits) as int, 0x20_0000_0000_0000 - 1, 510);
}

/// For a value in [0, 1) the rounded byte stays at or below 255.
proof fn lemma_round_255_le_255(m: u64, k: nat)
    requires
        m < pow2(k),
    ensures
        0 <= round_255(m, k) <= 255,
{
    lemma_pow2_adds(k, 1);
    lemma2_to64();
    let p = pow2(k) as int;
    let num = 510 * (m as int) + p;
    lemma_mul_inequality(m as int, p - 1, 510);
    assert(num <= 511 * p - 510);
    // floor(num / 2p) <= floor((256 * 2p - 1) / 2p) == 255
    lemma_div_is_ordered(num, 256 * (2 * p) - 1, 2 * p);
    lemma_fundamental_div_mod_converse(256 * (2 * p) - 1, 2 * p, 255, 2 * p - 1);
    lemma_div_is_ordered(0, num, 2 * p);
}

/// The pattern encodes a finite value: neither NaN nor an infinity.
pub open spec fn is_finite(bits: u64) -> bool {
    exp_field(bits) != 0x7ff
}

/// The pattern encodes a value in the closed interval [0, 1].
pub open spec fn in_unit_interval(bits: u64) -> bool {
    is_finite(bits) && sign_field(bits) == 0 && (exp_field(bits) < 1023 || (exp_field(bits)
        == 1023 && frac_field(bits) == 0))
}

/// For a channel value x in [0, 1] the byte is exactly round(255 * x) — the
/// clamp never alters it — and it lies in [0, 255].
pub proof fn lemma_unit_channel_exact(bits: u64)
    requires
        in_unit_interval(bits),
    ensures
        channel_round(bits) == round_255(significand(bits), scale(bits)),
        0 <= channel_round(bits) <= 255,
{
    lemma_field_bounds(bits);
    lemma_significand_bounds(bits);
    lemma2_to64();
    lemma2_to64_rest();
    let m = significand(bits);
    let k = scale(bits);
    if exp_field(bits) == 1023 {
        // The value is exactly one: m == 2^52, k == 52, and the rounded
        // byte is floor((510 * 2^52 + 2^52) / 2^53) == floor(255.5) == 255.
        lemma_pow2_adds(52, 1);
        lemma_fundamental_div_mod_converse(
            510 * m + pow2(52),
            pow2(53) as int,
            255,
            pow2(52) as int,
        );
    } else {
        // The value is below one: m < 2^53 <= 2^k, so no clamp applies.
        if k > 53 {
            lemma_pow2_strictly_increases(53, k);
        }
        lemma_round_255_le_255(m, k);
    }
}

/// A negative channel value (a negative zero included) clamps to byte 0.
pub proof fn lemma_negative_channel_clamps_low(bits: u64)
    requires
        sign_field(bits) == 1,
        !is_nan(bits),
    ensures
        channel_round(bits) == 0,
{
}

/// A channel value above one (a positive infinity included) clamps to byte 255.
pub proof fn lemma_above_one_channel_clamps_high(bits: u64)
    requires
        sign_field(bits) == 0,
        !is_nan(bits),
        exp_field(bits) >= 1023,
        !(exp_field(bits) == 1023 && frac_field(bits) == 0),
    ensures
        channel_round(bits) == 255,
{
}

/// Converts one channel to its byte, per `channel_round`.
pub fn channel_to_byte(c: Real) -> (r: u8)
    ensures
        r == channel_byte(c.bits),
        r as int == channel_round(c.bits),
{
    let bits = c.bits;
    proof {
        lemma_field_bounds(bits);
        lemma_significand_bounds(bits);
    }
    let sign = bits >> 63;
    let e = (bits >> 52) & 0x7ff;
    let f = bits & 0xf_ffff_ffff_ffff;
    if e == 0x7ff {
        // Infinities and NaN: only a positive infinity exceeds the clamp's top.
        if f == 0 && sign == 0 {
            255
        } else {
            0
        }
    } else if sign == 1 {
        0
    } else if e >= 1023 {
        255
    } else {
        let m: u64 = if e == 0 {
            f
        } else {
            f + 0x10_0000_0000_0000
        };
        let k: u64 = if e == 0 {
            1074
        } else {
            1075 - e
        };
        assert(m == significand(bits) && k == scale(bits));
        if k >= 63 {
            // 510 * m < 2^62 < 2^k, so the quotient is zero.
            proof {
                lemma2_to64();
                lemma2_to64_rest();
                if k > 63 {
                    lemma_pow2_strictly_increases(63, k as nat);
                }
                lemma_pow2_adds(k as nat, 1);
                lemma_fundamental_div_mod_converse(
                    510 * m + pow2(k as nat),
                    pow2((k + 1) as nat) as int,
                    0,
                    510 * m + pow2(k as nat),
                );
            }
            0
        } else {
            let p = pow2_u64(k);
            let den = pow2_u64(k + 1);
            proof {
                lemma_pow2_adds(k as nat, 1);
                lemma2_to64();
                if k > 53 {
                    lemma_pow2_strictly_increases(53, k as nat);
                }
                assert(m < pow2(k as nat)) by {
                    lemma2_to64_rest();
                    if (k as nat) > 53 {
                        lemma_pow2_strictly_increases(53, k as nat);
                    }
                }
                lemma_round_255_le_255(m, k as nat);
            }
            let num = 510 * m + p;
            (num / den) as u8
        }
    }
}

} // verus!
