//! Fixed-point quantization of single-precision numbers, read from their
//! bit patterns with integer arithmetic only.

use vstd::arithmetic::power2::{
    lemma2_to64, lemma_pow2_pos, lemma_pow2_strictly_increases, lemma_pow2_unfold, pow2,
};
use vstd::prelude::*;

verus! {

/// The eight exponent bits of a binary32 pattern.
pub open spec fn exponent_field(bits: u32) -> int {
    (bits as int / 0x80_0000) % 0x100
}

/// The twenty-three fraction bits of a binary32 pattern.
pub open spec fn fraction_field(bits: u32) -> int {
    bits as int % 0x80_0000
}

/// Whether the sign bit is set.
pub open spec fn is_negative(bits: u32) -> bool {
    bits >= 0x8000_0000u32
}

/// Whether the pattern is not a number.
pub open spec fn is_nan(bits: u32) -> bool {
    exponent_field(bits) == 255 && fraction_field(bits) != 0
}

/// Whether the pattern is an infinity.
pub open spec fn is_infinite(bits: u32) -> bool {
    exponent_field(bits) == 255 && fraction_field(bits) == 0
}

/// The integer `m` of a finite pattern, whose absolute value is
/// `m * 2^exponent`.
pub open spec fn significand(bits: u32) -> int {
    if exponent_field(bits) == 0 {
        fraction_field(bits)
    } else {
        0x80_0000 + fraction_field(bits)
    }
}

/// The power of two that weighs the significand of a finite pattern.
pub open spec fn exponent(bits: u32) -> int {
    if exponent_field(bits) == 0 {
        -149
    } else {
        exponent_field(bits) - 150
    }
}

/// `m * 2^e` rounded to the nearest integer, a half rounding up.
pub open spec fn round_scaled(m: int, e: int) -> int {
    if e >= 0 {
        m * pow2(e as nat)
    } else {
        (2 * m + pow2((-e) as nat)) / (2 * pow2((-e) as nat) as int)
    }
}

/// The fixed-point image of a binary32 pattern at `scale` fractional bits:
/// the number times `2^scale`, rounded to the nearest integer with halves
/// away from zero, and clamped to the range of `i32`. Not-a-number gives 0.
pub open spec fn quantized(bits: u32, scale: nat) -> int {
    if is_nan(bits) {
        0
    } else {
        let r = if is_infinite(bits) {
            0x8000_0000
        } else {
            round_scaled(significand(bits), exponent(bits) + scale)
        };
        if is_negative(bits) {
            if r >= 0x8000_0000 {
                i32::MIN as int
            } else {
                -r
            }
        } else {
            if r > i32::MAX {
                i32::MAX as int
            } else {
                r
            }
        }
    }
}

/// The fixed-point image of any pattern at any scale is in the range of
/// `i32`, and has the sign of the pattern or is zero.
pub proof fn lemma_quantized_range(bits: u32, scale: nat)
    ensures
        i32::MIN <= quantized(bits, scale) <= i32::MAX,
        is_negative(bits) ==> quantized(bits, scale) <= 0,
        !is_negative(bits) ==> quantized(bits, scale) >= 0,
{
    let m = significand(bits);
    let e = exponent(bits) + scale;
    if e >= 0 {
        lemma_pow2_pos(e as nat);
        let p = pow2(e as nat) as int;
        assert(m * p >= 0) by (nonlinear_arith)
            requires
                m >= 0,
                p > 0,
        ;
    } else {
        lemma_pow2_pos((-e) as nat);
        let p = pow2((-e) as nat) as int;
        assert((2 * m + p) / (2 * p) >= 0) by (nonlinear_arith)
            requires
                m >= 0,
                p > 0,
        ;
    }
}

/// `2^k` for a small `k`.
fn power_of_two(k: u32) -> (p: u64)
    requires
        k <= 30,
    ensures
        p == pow2(k as nat),
{
    let mut p: u64 = 1;
    let mut i: u32 = 0;
    proof {
        lemma2_to64();
    }
    while i < k
        invariant
            i <= k <= 30,
            p == pow2(i as nat),
        decreases k - i,
    {
        proof {
            lemma2_to64();
            lemma_pow2_unfold((i + 1) as nat);
            lemma_pow2_strictly_increases(i as nat, 30);
        }
        p = p * 2;
        i = i + 1;
    }
    p
}

/// [`round_scaled`] of a significand, capped at `2^31`.
fn round_capped(m: u64, e: i64) -> (r: u64)
    requires
        m < 0x100_0000,
        -0x2_0000_0000 <= e <= 0x2_0000_0000,
    ensures
        r == if round_scaled(m as int, e as int) >= 0x8000_0000 {
            0x8000_0000
        } else {
            round_scaled(m as int, e as int)
        },
{
    if m == 0 {
        proof {
            if e < 0 {
                let p = pow2((-e) as nat) as int;
                lemma_pow2_pos((-e) as nat);
                assert((2 * 0 + p) / (2 * p) == 0) by (nonlinear_arith)
                    requires
                        p > 0,
                ;
            } else {
                assert(0 * pow2(e as nat) == 0) by (nonlinear_arith);
            }
        }
        return 0;
    }
    if e >= 31 {
        proof {
            lemma2_to64();
            if e > 31 {
                lemma_pow2_strictly_increases(31, e as nat);
            }
            let p = pow2(e as nat) as int;
            assert(m * p >= 0x8000_0000) by (nonlinear_arith)
                requires
                    m >= 1,
                    p >= 0x8000_0000,
            ;
        }
        return 0x8000_0000;
    }
    if e >= 0 {
        let p: u64 = power_of_two(e as u32);
        proof {
            lemma2_to64();
            if e < 30 {
                lemma_pow2_strictly_increases(e as nat, 30);
            }
            assert(m * p < 0x100_0000 * 0x4000_0000) by (nonlinear_arith)
                requires
                    m < 0x100_0000,
                    p <= 0x4000_0000,
            ;
        }
        let v: u64 = m * p;
        return if v >= 0x8000_0000 {
            0x8000_0000
        } else {
            v
        };
    }
    let k: i64 = -e;
    if k >= 25 {
        proof {
            lemma2_to64();
            if k > 25 {
                lemma_pow2_strictly_increases(25, k as nat);
            }
            let p = pow2(k as nat) as int;
            assert((2 * m + p) / (2 * p) == 0) by (nonlinear_arith)
                requires
                    0 <= 2 * m < p,
            ;
        }
        return 0;
    }
    let p: u64 = power_of_two(k as u32);
    proof {
        lemma2_to64();
        lemma_pow2_pos(k as nat);
        if k < 24 {
            lemma_pow2_strictly_increases(k as nat, 24);
        }
        assert((2 * m + p) / (2 * p) < 0x8000_0000) by (nonlinear_arith)
            requires
                0 <= m < 0x100_0000,
                p >= 1,
        ;
    }
    (2 * m + p) / (2 * p)
}

/// The fixed-point image of a binary32 pattern at `scale` fractional bits.
pub fn quantize(bits: u32, scale: u32) -> (q: i32)
    ensures
        q == quantized(bits, scale as nat),
{
    let negative: bool = bits >= 0x8000_0000u32;
    let field: u32 = (bits / 0x80_0000u32) % 0x100u32;
    let fraction: u32 = bits % 0x80_0000u32;
    if field == 255 && fraction != 0 {
        return 0;
    }
    let r: u64 = if field == 255 {
        0x8000_0000
    } else {
        let m: u64 = if field == 0 {
            fraction as u64
        } else {
            0x80_0000u64 + fraction as u64
        };
        let e: i64 = if field == 0 {
            scale as i64 - 149
        } else {
            field as i64 - 150 + scale as i64
        };
        round_capped(m, e)
    };
    if negative {
        if r >= 0x8000_0000 {
            i32::MIN
        } else {
            -(r as i32)
        }
    } else {
        if r > 0x7fff_ffff {
            i32::MAX
        } else {
            r as i32
        }
    }
}

} // verus!
