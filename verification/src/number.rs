//! Whole numbers out of doubles.
//!
//! A JSON number arrives as the 64 bits of a double: a sign, an exponent of 11
//! bits and a fraction of 52 bits. The actions count in 32-bit integers, so a
//! number is cut to its whole part and kept within the 32-bit range.

use vstd::arithmetic::div_mod::lemma_basic_div;
use vstd::arithmetic::power2::{
    lemma2_to64, lemma2_to64_rest, lemma_pow2_pos, lemma_pow2_strictly_increases, pow2,
};
use vstd::bits::lemma_u64_shr_is_div;
use vstd::prelude::*;

verus! {

/// The exponent bits of a double that is at least 1 in magnitude start here.
pub const EXPONENT_OF_ONE: u64 = 1023;

/// The exponent bits at which a significand counts whole units.
pub const EXPONENT_OF_UNITS: u64 = 1075;

/// The exponent bits of infinities and of values that are no number.
pub const EXPONENT_OF_SPECIALS: u64 = 2047;

/// Whether the sign bit is set.
pub open spec fn is_negative(bits: u64) -> bool {
    bits >= 0x8000_0000_0000_0000
}

/// The 11 exponent bits.
pub open spec fn exponent(bits: u64) -> nat {
    ((bits / 0x10_0000_0000_0000) % 0x800) as nat
}

/// The 52 fraction bits.
pub open spec fn fraction(bits: u64) -> nat {
    (bits % 0x10_0000_0000_0000) as nat
}

/// Whether the bits stand for no number at all.
pub open spec fn is_nan(bits: u64) -> bool {
    exponent(bits) == EXPONENT_OF_SPECIALS && fraction(bits) != 0
}

/// The significand: the fraction, with a leading one unless the exponent bits
/// are zero.
pub open spec fn significand(bits: u64) -> nat {
    if exponent(bits) == 0 {
        fraction(bits)
    } else {
        0x10_0000_0000_0000 + fraction(bits)
    }
}

/// The power of two by which the significand is scaled: the magnitude of the
/// double is `significand * 2^scale`.
pub open spec fn scale(bits: u64) -> int {
    if exponent(bits) == 0 {
        1 - EXPONENT_OF_UNITS
    } else {
        exponent(bits) - EXPONENT_OF_UNITS
    }
}

/// The whole part of the magnitude: `significand * 2^scale` without its
/// fraction. An infinity counts as a magnitude beyond every 32-bit integer.
pub open spec fn whole_part(bits: u64) -> nat {
    if scale(bits) >= 0 {
        significand(bits) * pow2(scale(bits) as nat)
    } else {
        significand(bits) / pow2((-scale(bits)) as nat)
    }
}

/// The 32-bit integer for a double: its whole part with its sign, the nearest
/// end of the 32-bit range where that is out of range, and 0 for no number.
pub open spec fn truncated(bits: u64) -> int {
    if is_nan(bits) {
        0
    } else if is_negative(bits) {
        if whole_part(bits) > 0x8000_0000 {
            -0x8000_0000
        } else {
            -(whole_part(bits) as int)
        }
    } else {
        if whole_part(bits) > 0x7fff_ffff {
            0x7fff_ffff
        } else {
            whole_part(bits) as int
        }
    }
}

/// A double below 1 in magnitude has the whole part 0.
pub proof fn lemma_below_one(bits: u64)
    requires
        exponent(bits) < EXPONENT_OF_ONE,
    ensures
        whole_part(bits) == 0,
{
    let places = (-scale(bits)) as nat;
    lemma2_to64_rest();
    if places > 53 {
        lemma_pow2_strictly_increases(53, places);
    }
    lemma_basic_div(significand(bits) as int, pow2(places) as int);
}

/// A double of at least 2^31 in magnitude has a whole part of at least 2^31.
pub proof fn lemma_beyond_range(bits: u64)
    requires
        exponent(bits) >= EXPONENT_OF_ONE + 31,
    ensures
        whole_part(bits) >= 0x8000_0000,
{
    let s = significand(bits) as int;
    if scale(bits) >= 0 {
        let p = pow2(scale(bits) as nat) as int;
        lemma_pow2_pos(scale(bits) as nat);
        assert(s * p >= s) by (nonlinear_arith)
            requires
                s >= 0,
                p >= 1,
        ;
    } else {
        let places = (-scale(bits)) as nat;
        let d = pow2(places) as int;
        lemma2_to64();
        lemma_pow2_pos(places);
        if places < 21 {
            lemma_pow2_strictly_increases(places, 21);
        }
        assert(s / d >= 0x8000_0000) by (nonlinear_arith)
            requires
                0 < d <= 0x20_0000,
                s >= 0x10_0000_0000_0000,
        ;
    }
}

/// Between 1 and 2^31 in magnitude the whole part is the significand without
/// its last places, and is below 2^31.
pub proof fn lemma_within_range(bits: u64)
    requires
        EXPONENT_OF_ONE <= exponent(bits) < EXPONENT_OF_ONE + 31,
    ensures
        whole_part(bits) == significand(bits) / pow2((EXPONENT_OF_UNITS - exponent(bits)) as nat),
        whole_part(bits) < 0x8000_0000,
{
    let places = (EXPONENT_OF_UNITS - exponent(bits)) as nat;
    let s = significand(bits) as int;
    let d = pow2(places) as int;
    lemma2_to64();
    if places > 22 {
        lemma_pow2_strictly_increases(22, places);
    }
    assert(s / d < 0x8000_0000) by (nonlinear_arith)
        requires
            d >= 0x40_0000,
            0 <= s < 0x20_0000_0000_0000,
    ;
}

/// Cuts a double, given by its bits, to a 32-bit integer: the fraction is
/// dropped, a value beyond the 32-bit range becomes the nearest end of the
/// range, and what is no number becomes 0.
pub fn truncate(bits: u64) -> (whole: i32)
    ensures
        whole == truncated(bits),
{
    let negative = bits >> 63 == 1;
    let exponent_bits: u64 = (bits >> 52) & 0x7ff;
    let fraction_bits: u64 = bits & 0xf_ffff_ffff_ffff;
    assert(negative == is_negative(bits)) by (bit_vector)
        requires
            negative == (bits >> 63 == 1),
    ;
    assert(exponent_bits == (bits / 0x10_0000_0000_0000) % 0x800) by (bit_vector)
        requires
            exponent_bits == (bits >> 52) & 0x7ff,
    ;
    assert(fraction_bits == bits % 0x10_0000_0000_0000) by (bit_vector)
        requires
            fraction_bits == bits & 0xf_ffff_ffff_ffff,
    ;
    if exponent_bits == EXPONENT_OF_SPECIALS && fraction_bits != 0 {
        return 0;
    }
    if exponent_bits < EXPONENT_OF_ONE {
        proof {
            lemma_below_one(bits);
        }
        return 0;
    }
    if exponent_bits >= EXPONENT_OF_ONE + 31 {
        proof {
            lemma_beyond_range(bits);
        }
        return if negative {
            i32::MIN
        } else {
            i32::MAX
        };
    }
    let places: u64 = EXPONENT_OF_UNITS - exponent_bits;
    let magnitude: u64 = (0x10_0000_0000_0000 + fraction_bits) >> places;
    proof {
        lemma_within_range(bits);
        lemma_u64_shr_is_div((0x10_0000_0000_0000 + fraction_bits) as u64, places);
    }
    if negative {
        -(magnitude as i32)
    } else {
        magnitude as i32
    }
}

} // verus!
