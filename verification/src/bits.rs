//! IEEE 754 single-precision values, handled as raw 32-bit patterns.
//!
//! The renderer receives screen coordinates from the UI library as
//! single-precision values. Clip-rectangle culling and scissor rounding only
//! need sign tests, order comparisons and integer floor/ceiling of such
//! values, and all of those are exact functions of the bit pattern. This
//! module defines them on `u32` bit patterns: a pattern holds sign, an 8-bit
//! biased exponent and a 23-bit fraction, and a finite value equals
//! `(-1)^sign * significand * 2^(exponent - 150)` (with the biased exponent
//! read as 1 for subnormals). Hosts convert with `f32::to_bits`.

use vstd::arithmetic::power2::{
    lemma2_to64, lemma_pow2_pos, lemma_pow2_strictly_increases, lemma_pow2_unfold, pow2,
};
use vstd::prelude::*;

verus! {

/// Biased exponent field of a bit pattern.
pub open spec fn exp_of(b: u32) -> int {
    (b as int / 0x0080_0000) % 0x100
}

/// Fraction field of a bit pattern.
pub open spec fn frac_of(b: u32) -> int {
    b as int % 0x0080_0000
}

/// Sign bit of a bit pattern.
pub open spec fn sign_of(b: u32) -> bool {
    b >= 0x8000_0000
}

/// Whether the pattern encodes a NaN.
pub open spec fn is_nan(b: u32) -> bool {
    exp_of(b) == 0xFF && frac_of(b) != 0
}

/// Significand in units of `2^(exponent - 150)`: the fraction with the
/// implicit leading bit added for normal values.
pub open spec fn sig_of(b: u32) -> int {
    if exp_of(b) == 0 {
        frac_of(b)
    } else {
        0x0080_0000 + frac_of(b)
    }
}

/// Monotone key: for patterns that are not NaN, the numeric order of the
/// encoded values equals the integer order of their keys. Non-negative
/// patterns ascend with the raw bits, negative patterns descend, and both
/// zeroes share one key.
pub open spec fn order_key_of(b: u32) -> int {
    if b < 0x8000_0000 {
        0x8000_0000 + b as int
    } else {
        0x1_0000_0000 - b as int
    }
}

/// `a < b` on the encoded values; false whenever either side is NaN.
pub open spec fn lt_of(a: u32, b: u32) -> bool {
    !is_nan(a) && !is_nan(b) && order_key_of(a) < order_key_of(b)
}

/// `a <= b` on the encoded values; false whenever either side is NaN.
pub open spec fn le_of(a: u32, b: u32) -> bool {
    !is_nan(a) && !is_nan(b) && order_key_of(a) <= order_key_of(b)
}

/// `a >= b` on the encoded values.
pub open spec fn ge_of(a: u32, b: u32) -> bool {
    le_of(b, a)
}

/// `a > b` on the encoded values.
pub open spec fn gt_of(a: u32, b: u32) -> bool {
    lt_of(b, a)
}

/// The pattern with the sign bit cleared: the absolute value.
pub open spec fn abs_bits_of(b: u32) -> u32 {
    (b as int % 0x8000_0000) as u32
}

/// `max(0, v).floor()` saturated into `u32`, for the value `v` encoded by
/// `b`: zero for NaN and for every non-positive value, `u32::MAX` once the
/// value reaches `2^32` (infinity included), otherwise the integer part.
pub open spec fn floor_px_of(b: u32) -> u32 {
    if is_nan(b) || sign_of(b) {
        0u32
    } else if exp_of(b) >= 159 {
        u32::MAX
    } else if exp_of(b) >= 150 {
        (sig_of(b) * pow2((exp_of(b) - 150) as nat)) as u32
    } else if exp_of(b) >= 127 {
        (sig_of(b) / pow2((150 - exp_of(b)) as nat) as int) as u32
    } else {
        0u32
    }
}

/// `abs(v).ceil()` saturated into `u32`, for the value `v` encoded by `b`:
/// zero for NaN and for zero, `u32::MAX` once the magnitude reaches `2^32`
/// (infinity included), otherwise the least integer at or above the
/// magnitude.
pub open spec fn ceil_px_of(b: u32) -> u32 {
    let a = abs_bits_of(b);
    if is_nan(a) {
        0u32
    } else if exp_of(a) >= 159 {
        u32::MAX
    } else if exp_of(a) >= 150 {
        (sig_of(a) * pow2((exp_of(a) - 150) as nat)) as u32
    } else if exp_of(a) >= 127 {
        let p = pow2((150 - exp_of(a)) as nat) as int;
        if sig_of(a) % p == 0 {
            (sig_of(a) / p) as u32
        } else {
            (sig_of(a) / p + 1) as u32
        }
    } else if a == 0 {
        0u32
    } else {
        1u32
    }
}

/// `2^k` for small exponents.
fn pow2_u32(k: u32) -> (r: u32)
    requires
        k < 32,
    ensures
        r == pow2(k as nat),
{
    let mut r: u32 = 1;
    let mut i: u32 = 0;
    proof {
        lemma2_to64();
    }
    while i < k
        invariant
            i <= k < 32,
            r == pow2(i as nat),
        decreases k - i,
    {
        proof {
            lemma_pow2_strictly_increases(i as nat, 31);
            lemma2_to64();
            lemma_pow2_unfold((i + 1) as nat);
        }
        r = r * 2;
        i = i + 1;
    }
    r
}

/// Order comparison `a < b` on encoded values.
pub fn lt_bits(a: u32, b: u32) -> (r: bool)
    ensures
        r == lt_of(a, b),
{
    if nan_bits(a) || nan_bits(b) {
        false
    } else {
        order_key_bits(a) < order_key_bits(b)
    }
}

/// Order comparison `a <= b` on encoded values.
pub fn le_bits(a: u32, b: u32) -> (r: bool)
    ensures
        r == le_of(a, b),
{
    if nan_bits(a) || nan_bits(b) {
        false
    } else {
        order_key_bits(a) <= order_key_bits(b)
    }
}

/// Order comparison `a >= b` on encoded values.
pub fn ge_bits(a: u32, b: u32) -> (r: bool)
    ensures
        r == ge_of(a, b),
{
    le_bits(b, a)
}

/// Order comparison `a > b` on encoded values.
pub fn gt_bits(a: u32, b: u32) -> (r: bool)
    ensures
        r == gt_of(a, b),
{
    lt_bits(b, a)
}

/// NaN test on a bit pattern.
pub fn nan_bits(b: u32) -> (r: bool)
    ensures
        r == is_nan(b),
{
    let e: u32 = (b / 0x0080_0000) % 0x100;
    let f: u32 = b % 0x0080_0000;
    e == 0xFF && f != 0
}

fn order_key_bits(b: u32) -> (r: u64)
    ensures
        r == order_key_of(b),
{
    if b < 0x8000_0000 {
        0x8000_0000u64 + b as u64
    } else {
        0x1_0000_0000u64 - b as u64
    }
}

/// `max(0, v).floor()` saturated into `u32` for the encoded value `v`.
pub fn floor_px(b: u32) -> (r: u32)
    ensures
        r == floor_px_of(b),
{
    let e: u32 = (b / 0x0080_0000) % 0x100;
    let f: u32 = b % 0x0080_0000;
    if (e == 0xFF && f != 0) || b >= 0x8000_0000 {
        0
    } else if e >= 159 {
        u32::MAX
    } else if e >= 150 {
        let sig: u32 = 0x0080_0000 + f;
        let p: u32 = pow2_u32(e - 150);
        proof {
            lemma2_to64();
            if e - 150 < 8 {
                lemma_pow2_strictly_increases((e - 150) as nat, 8);
            }
            assert(sig as int * p as int <= 0xFF_FFFF * 0x100) by (nonlinear_arith)
                requires
                    sig <= 0xFF_FFFF,
                    p <= 0x100,
            ;
        }
        sig * p
    } else if e >= 127 {
        let sig: u32 = 0x0080_0000 + f;
        let p: u32 = pow2_u32(150 - e);
        proof {
            lemma_pow2_pos((150 - e) as nat);
        }
        sig / p
    } else {
        0
    }
}

/// `abs(v).ceil()` saturated into `u32` for the encoded value `v`.
pub fn ceil_px(b: u32) -> (r: u32)
    ensures
        r == ceil_px_of(b),
{
    let a: u32 = b % 0x8000_0000;
    let e: u32 = (a / 0x0080_0000) % 0x100;
    let f: u32 = a % 0x0080_0000;
    if e == 0xFF && f != 0 {
        0
    } else if e >= 159 {
        u32::MAX
    } else if e >= 150 {
        let sig: u32 = 0x0080_0000 + f;
        let p: u32 = pow2_u32(e - 150);
        proof {
            lemma2_to64();
            if e - 150 < 8 {
                lemma_pow2_strictly_increases((e - 150) as nat, 8);
            }
            assert(sig as int * p as int <= 0xFF_FFFF * 0x100) by (nonlinear_arith)
                requires
                    sig <= 0xFF_FFFF,
                    p <= 0x100,
            ;
        }
        sig * p
    } else if e >= 127 {
        let sig: u32 = 0x0080_0000 + f;
        let p: u32 = pow2_u32(150 - e);
        proof {
            lemma_pow2_pos((150 - e) as nat);
        }
        let q: u32 = sig / p;
        if sig % p == 0 {
            q
        } else {
            q + 1
        }
    } else if a == 0 {
        0
    } else {
        1
    }
}

} // verus!
