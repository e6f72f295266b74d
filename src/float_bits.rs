//! Conversions of binary64 bit patterns that the codec needs.

use vstd::prelude::*;

verus! {

/// The biased exponent field of a binary64 value.
pub open spec fn exponent_bits(bits: u64) -> u64 {
    (bits >> 52u64) & 0x7FF
}

/// The fraction field of a binary64 value.
pub open spec fn fraction_bits(bits: u64) -> u64 {
    bits & 0xF_FFFF_FFFF_FFFF
}

/// The binary64 value with these bits, truncated toward zero to a 32-bit
/// integer as Rust's `as i32` does: NaN gives 0, values beyond the range
/// give the nearest bound.
pub open spec fn f64_bits_to_i32(bits: u64) -> i32 {
    let e = exponent_bits(bits);
    let f = fraction_bits(bits);
    let negative = (bits >> 63u64) == 1;
    if e == 0x7FF && f != 0 {
        0
    } else if e < 1023 {
        0
    } else if e >= 1054 {
        if negative { i32::MIN } else { i32::MAX }
    } else {
        let m = ((0x10_0000_0000_0000u64 + f) as u64) >> ((1075 - e) as u64);
        (if negative { -(m as int) } else { m as int }) as i32
    }
}

/// Truncates a binary64 value, given by its bits, to a 32-bit integer.
pub fn truncate_to_i32(bits: u64) -> (r: i32)
    ensures
        r == f64_bits_to_i32(bits),
{
    let e = (bits >> 52u64) & 0x7FF;
    let f = bits & 0xF_FFFF_FFFF_FFFF;
    let negative = (bits >> 63u64) == 1;
    if e == 0x7FF && f != 0 {
        0
    } else if e < 1023 {
        0
    } else if e >= 1054 {
        if negative {
            i32::MIN
        } else {
            i32::MAX
        }
    } else {
        let s: u64 = 1075 - e;
        assert(f < 0x10_0000_0000_0000u64) by (bit_vector)
            requires
                f == bits & 0xF_FFFF_FFFF_FFFF,
        ;
        let x: u64 = 0x10_0000_0000_0000u64 + f;
        let m: u64 = x >> s;
        assert(m < 0x8000_0000u64) by (bit_vector)
            requires
                x < 0x20_0000_0000_0000u64,
                22 <= s <= 52,
                m == x >> s,
        ;
        if negative {
            -(m as i32)
        } else {
            m as i32
        }
    }
}

} // verus!
