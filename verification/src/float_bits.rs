//! Integer conversions of `f64` values held as their IEEE 754 bit patterns.

use vstd::arithmetic::power2::pow2;
use vstd::prelude::*;

verus! {

/// 2^52: the weight of the lowest exponent bit, and the implicit leading
/// bit of a normal significand.
pub const SIGNIFICAND_LEAD: u64 = 0x10_0000_0000_0000u64;

/// The sign bit.
pub const SIGN_BIT: u64 = 0x8000_0000_0000_0000u64;

/// The biased exponent field (bits 52 to 62).
pub open spec fn exponent_field(bits: u64) -> int {
    (bits / SIGNIFICAND_LEAD) as int % 0x800
}

/// The fraction field (bits 0 to 51).
pub open spec fn fraction_field(bits: u64) -> int {
    (bits % SIGNIFICAND_LEAD) as int
}

/// The whole part of a finite, positive, normal value with the given
/// fields: `(2^52 + fraction) * 2^(exponent - 1075)`, rounded toward zero.
pub open spec fn whole_part(exponent: int, fraction: int) -> int {
    let significand = fraction + SIGNIFICAND_LEAD;
    if exponent >= 1075 {
        significand * pow2((exponent - 1075) as nat)
    } else {
        significand / (pow2((1075 - exponent) as nat) as int)
    }
}

/// `f64::from_bits(bits) as u32`: the value rounded toward zero and held
/// within 0..=u32::MAX; NaN gives 0.
pub open spec fn f64_bits_as_u32(bits: u64) -> u32 {
    let negative = bits >= SIGN_BIT;
    let exponent = exponent_field(bits);
    let fraction = fraction_field(bits);
    if exponent == 0x7ff {
        if fraction != 0 || negative {
            0
        } else {
            u32::MAX
        }
    } else if negative || exponent < 1023 {
        0
    } else if whole_part(exponent, fraction) > u32::MAX {
        u32::MAX
    } else {
        whole_part(exponent, fraction) as u32
    }
}

proof fn lemma_pow2_facts()
    ensures
        pow2(20) == 0x10_0000,
        pow2(32) == 0x1_0000_0000,
        pow2(52) == 0x10_0000_0000_0000,
        pow2(53) == 0x20_0000_0000_0000,
{
    vstd::arithmetic::power2::lemma2_to64();
    vstd::arithmetic::power2::lemma2_to64_rest();
}

/// Exponents of 1055 and more put the value at 2^32 or above.
proof fn lemma_large_exponent(exponent: int, fraction: int)
    requires
        1055 <= exponent < 0x7ff,
        0 <= fraction < SIGNIFICAND_LEAD,
    ensures
        whole_part(exponent, fraction) > u32::MAX,
{
    lemma_pow2_facts();
    let significand = fraction + SIGNIFICAND_LEAD;
    if exponent >= 1075 {
        let p = pow2((exponent - 1075) as nat);
        vstd::arithmetic::power2::lemma_pow2_pos((exponent - 1075) as nat);
        assert(significand * p >= significand) by (nonlinear_arith)
            requires
                p > 0,
                significand > 0,
        ;
    } else {
        let shift = (1075 - exponent) as nat;
        let d = pow2(shift) as int;
        vstd::arithmetic::power2::lemma_pow2_pos(shift);
        if shift < 20 {
            vstd::arithmetic::power2::lemma_pow2_strictly_increases(shift, 20);
        }
        assert(significand / d >= 0x1_0000_0000) by (nonlinear_arith)
            requires
                0 < d <= 0x10_0000,
                significand >= 0x10_0000_0000_0000,
        {
            assert(0x1_0000_0000 * d <= 0x10_0000_0000_0000);
            assert(significand >= 0x1_0000_0000 * d);
            vstd::arithmetic::div_mod::lemma_fundamental_div_mod(significand, d);
        }
    }
}

/// Exponents from 1023 to 1054 give a whole part below 2^32, and the shift
/// computes it.
proof fn lemma_small_exponent(exponent: u64, significand: u64)
    requires
        1023 <= exponent <= 1054,
        SIGNIFICAND_LEAD <= significand < 2 * SIGNIFICAND_LEAD,
    ensures
        significand >> ((1075 - exponent) as u64) == whole_part(
            exponent as int,
            significand - SIGNIFICAND_LEAD,
        ),
        whole_part(exponent as int, significand - SIGNIFICAND_LEAD) <= u32::MAX,
{
    lemma_pow2_facts();
    let shift = (1075 - exponent) as u64;
    vstd::bits::lemma_u64_shr_is_div(significand, shift);
    let d = pow2(shift as nat) as int;
    let q = pow2((53 - shift) as nat) as int;
    vstd::arithmetic::power2::lemma_pow2_adds((53 - shift) as nat, shift as nat);
    vstd::arithmetic::power2::lemma_pow2_pos(shift as nat);
    if 53 - shift < 32 {
        vstd::arithmetic::power2::lemma_pow2_strictly_increases((53 - shift) as nat, 32);
    }
    assert((significand as int) / d < q) by (nonlinear_arith)
        requires
            0 <= significand < q * d,
            d > 0,
    {
        vstd::arithmetic::div_mod::lemma_fundamental_div_mod(significand as int, d);
    }
}

/// `f64::from_bits(bits) as u32`, computed on the bit pattern.
pub fn f64_bits_to_u32(bits: u64) -> (value: u32)
    ensures
        value == f64_bits_as_u32(bits),
{
    let exponent = (bits >> 52u64) & 0x7ffu64;
    let fraction = bits & 0xF_FFFF_FFFF_FFFFu64;
    let negative = (bits >> 63u64) == 1u64;
    assert(exponent == (bits / 0x10_0000_0000_0000u64) % 0x800) by (bit_vector)
        requires
            exponent == (bits >> 52u64) & 0x7ffu64,
    ;
    assert(fraction == bits % 0x10_0000_0000_0000u64) by (bit_vector)
        requires
            fraction == bits & 0xF_FFFF_FFFF_FFFFu64,
    ;
    assert(negative == (bits >= 0x8000_0000_0000_0000u64)) by (bit_vector)
        requires
            negative == ((bits >> 63u64) == 1u64),
    ;
    if exponent == 0x7ff {
        if fraction != 0 || negative {
            0
        } else {
            u32::MAX
        }
    } else if negative || exponent < 1023 {
        0
    } else if exponent >= 1055 {
        proof {
            lemma_large_exponent(exponent as int, fraction as int);
        }
        u32::MAX
    } else {
        let significand = fraction + SIGNIFICAND_LEAD;
        proof {
            lemma_small_exponent(exponent, significand);
        }
        (significand >> (1075 - exponent)) as u32
    }
}

} // verus!
