//! The generation temperature of a provider.
//!
//! A temperature is a single-precision number. This crate never computes
//! with it: the only question asked of it is whether it lies between zero
//! and one. So it is kept as its IEEE 754 bit pattern, and the question is
//! answered on the bits. What the bits mean as a number is written down
//! here, and the answer is proved to agree with it.

use vstd::arithmetic::power2::{lemma2_to64, lemma_pow2_adds, lemma_pow2_strictly_increases, pow2};
use vstd::prelude::*;

verus! {

/// The bit pattern of the number one.
pub const ONE_BITS: u32 = 0x3F80_0000;

/// The bit pattern of negative zero.
pub const NEGATIVE_ZERO_BITS: u32 = 0x8000_0000;

/// The sign of the number: whether the top bit is set.
pub open spec fn is_negative(bits: u32) -> bool {
    bits >= 0x8000_0000
}

/// The eight exponent bits.
pub open spec fn exponent_field(bits: u32) -> int {
    (bits as int / 0x80_0000) % 0x100
}

/// The twenty-three fraction bits.
pub open spec fn fraction_field(bits: u32) -> int {
    bits as int % 0x80_0000
}

/// Whether the bits stand for a number at all: neither an infinity nor a NaN.
pub open spec fn is_number(bits: u32) -> bool {
    exponent_field(bits) != 0xFF
}

/// The size of the number, counted in units of 2^-149, the smallest step
/// of the format. For every number of the format this is a whole number.
pub open spec fn scaled_magnitude(bits: u32) -> int {
    let e = exponent_field(bits);
    let f = fraction_field(bits);
    if e == 0 {
        f
    } else {
        (0x80_0000 + f) * pow2((e - 1) as nat)
    }
}

/// The number itself, in units of 2^-149.
pub open spec fn scaled_value(bits: u32) -> int {
    if is_negative(bits) {
        -scaled_magnitude(bits)
    } else {
        scaled_magnitude(bits)
    }
}

/// The bits stand for a number `t` with `0 <= t <= 1`.
pub open spec fn denotes_unit_interval(bits: u32) -> bool {
    &&& is_number(bits)
    &&& 0 <= scaled_value(bits) <= pow2(149)
}

/// A number lies between zero and one exactly if its bits, read as an
/// integer, are at most those of one, or are those of negative zero.
pub proof fn lemma_unit_interval_on_bits(bits: u32)
    ensures
        denotes_unit_interval(bits) <==> (bits <= ONE_BITS || bits == NEGATIVE_ZERO_BITS),
{
    lemma2_to64();
    let e = exponent_field(bits);
    let f = fraction_field(bits);
    let b = bits as int;
    let mag = scaled_magnitude(bits);
    let one = pow2(149) as int;
    assert(0 <= f < 0x80_0000);
    assert(0 <= e < 0x100);
    if is_negative(bits) {
        assert(b == 0x8000_0000 + e * 0x80_0000 + f);
    } else {
        assert(b == e * 0x80_0000 + f);
    }
    assert(pow2(23) < pow2(149)) by {
        lemma_pow2_strictly_increases(23, 149);
    }
    if e == 0 {
        assert(mag == f);
        assert(0 <= mag < one);
    } else {
        let scale = pow2((e - 1) as nat) as int;
        let m = 0x80_0000 + f;
        assert(mag == m * scale);
        assert(scale > 0) by {
            vstd::arithmetic::power2::lemma_pow2_pos((e - 1) as nat);
        }
        assert(0x80_0000 * scale == pow2((e + 22) as nat)) by {
            lemma_pow2_adds(23, (e - 1) as nat);
        }
        assert(0x100_0000 * scale == pow2((e + 23) as nat)) by {
            lemma_pow2_adds(24, (e - 1) as nat);
        }
        assert(0x80_0000 * scale <= m * scale < 0x100_0000 * scale) by (nonlinear_arith)
            requires
                scale > 0,
                0x80_0000 <= m < 0x100_0000,
        ;
        assert(f > 0 ==> m * scale > 0x80_0000 * scale) by (nonlinear_arith)
            requires
                scale > 0,
                m == 0x80_0000 + f,
        ;
        assert(mag > 0);
        if e <= 126 {
            if e + 23 < 149 {
                lemma_pow2_strictly_increases((e + 23) as nat, 149);
            }
            assert(mag < one);
        } else if e == 127 {
            assert(0x80_0000 * scale == one);
            assert(mag <= one <==> f == 0);
        } else {
            if e + 22 > 150 {
                lemma_pow2_strictly_increases(150, (e + 22) as nat);
            }
            lemma_pow2_strictly_increases(149, 150);
            assert(mag > one);
        }
    }
}

/// A generation temperature, as the bit pattern of a single-precision number.
#[derive(Debug, Clone, Copy, PartialEq, Eq)]
pub struct Temperature {
    bits: u32,
}

impl View for Temperature {
    type V = u32;

    /// The bit pattern.
    closed spec fn view(&self) -> u32 {
        self.bits
    }
}

impl Temperature {
    /// The temperature whose bit pattern is `bits`.
    pub fn from_bits(bits: u32) -> (t: Self)
        ensures
            t@ == bits,
    {
        Temperature { bits }
    }

    /// The bit pattern of the temperature.
    pub fn to_bits(&self) -> (bits: u32)
        ensures
            bits == self@,
    {
        self.bits
    }

    /// Whether the temperature is a number between zero and one, both included.
    pub fn in_unit_interval(&self) -> (b: bool)
        ensures
            b == denotes_unit_interval(self@),
    {
        proof {
            lemma_unit_interval_on_bits(self.bits);
        }
        self.bits <= ONE_BITS || self.bits == NEGATIVE_ZERO_BITS
    }
}

} // verus!
