//! A bit-level model of IEEE-754 binary64 values.
//!
//! The engine stores every scalar as the 64-bit pattern of a binary64
//! number. The pattern splits into a sign bit, an 11-bit biased exponent
//! and a 52-bit fraction. This module gives the engine the operations on
//! numbers that are pure bit manipulation - comparisons, absolute value,
//! the zero test and rounding to an unsigned integer - together with the
//! specification functions that pin down each result exactly.
use vstd::prelude::*;
use vstd::arithmetic::power2::{pow2, lemma_pow2_unfold, lemma_pow2_strictly_increases, lemma2_to64, lemma2_to64_rest};

verus! {

/// Bit weight of the sign bit.
pub const F64_SIGN: u64 = 0x8000_0000_0000_0000;
/// Magnitude of the infinity pattern: exponent all ones, fraction zero.
pub const F64_EXP_INF: u64 = 0x7FF0_0000_0000_0000;
/// Bit weight of the lowest exponent bit; also the implicit mantissa bit.
pub const F64_MANT: u64 = 0x0010_0000_0000_0000;
/// The pattern of positive infinity.
pub const F64_POS_INF: u64 = 0x7FF0_0000_0000_0000;
/// The pattern of negative infinity.
pub const F64_NEG_INF: u64 = 0xFFF0_0000_0000_0000;
/// The pattern of 1.0.
pub const F64_ONE: u64 = 0x3FF0_0000_0000_0000;
/// The pattern of -1.0.
pub const F64_NEG_ONE: u64 = 0xBFF0_0000_0000_0000;

/// The magnitude of a pattern: its value with the sign bit cleared.
pub open spec fn mag_spec(b: u64) -> int {
    (b as int) % 0x8000_0000_0000_0000
}

/// True when the sign bit is set (negative numbers and negative zero).
pub open spec fn sign_spec(b: u64) -> bool {
    (b as int) >= 0x8000_0000_0000_0000
}

/// The biased exponent field, 0 to 0x7FF.
pub open spec fn exp_spec(b: u64) -> int {
    mag_spec(b) / 0x0010_0000_0000_0000
}

/// The 52-bit fraction field.
pub open spec fn frac_spec(b: u64) -> int {
    mag_spec(b) % 0x0010_0000_0000_0000
}

/// A pattern is a NaN when its magnitude exceeds the infinity pattern.
pub open spec fn is_nan_spec(b: u64) -> bool {
    mag_spec(b) > 0x7FF0_0000_0000_0000
}

/// A pattern is a zero when its magnitude is zero; the sign is ignored,
/// so both `+0.0` and `-0.0` count.
pub open spec fn is_zero_spec(b: u64) -> bool {
    mag_spec(b) == 0
}

/// IEEE-754 `a <= b`. False whenever either side is a NaN; the two
/// zeroes compare equal; otherwise negative sorts below positive and
/// magnitudes order each half, reversed on the negative side.
pub open spec fn le_spec(a: u64, b: u64) -> bool {
    if is_nan_spec(a) || is_nan_spec(b) {
        false
    } else if is_zero_spec(a) && is_zero_spec(b) {
        true
    } else if sign_spec(a) != sign_spec(b) {
        sign_spec(a)
    } else if !sign_spec(a) {
        mag_spec(a) <= mag_spec(b)
    } else {
        mag_spec(a) >= mag_spec(b)
    }
}

/// IEEE-754 `a == b`: equal patterns that are not NaN, or two zeroes.
pub open spec fn eq_spec(a: u64, b: u64) -> bool {
    &&& !is_nan_spec(a)
    &&& !is_nan_spec(b)
    &&& (a == b || (is_zero_spec(a) && is_zero_spec(b)))
}

/// IEEE-754 `a < b`.
pub open spec fn lt_spec(a: u64, b: u64) -> bool {
    le_spec(a, b) && !eq_spec(a, b)
}

/// The absolute value of a binary64 number is its pattern with the sign
/// bit cleared, for NaN inputs included.
pub open spec fn abs_spec(b: u64) -> u64 {
    mag_spec(b) as u64
}

/// True when the pattern is a NaN.
pub fn f64_is_nan(b: u64) -> (r: bool)
    ensures
        r == is_nan_spec(b),
{
    b % F64_SIGN > F64_EXP_INF
}

/// True when the pattern is a zero of either sign.
pub fn f64_is_zero(b: u64) -> (r: bool)
    ensures
        r == is_zero_spec(b),
{
    b % F64_SIGN == 0
}

/// IEEE-754 `a <= b` on bit patterns.
pub fn f64_le(a: u64, b: u64) -> (r: bool)
    ensures
        r == le_spec(a, b),
{
    let ma = a % F64_SIGN;
    let mb = b % F64_SIGN;
    if ma > F64_EXP_INF || mb > F64_EXP_INF {
        false
    } else if ma == 0 && mb == 0 {
        true
    } else {
        let sa = a >= F64_SIGN;
        let sb = b >= F64_SIGN;
        if sa != sb {
            sa
        } else if !sa {
            ma <= mb
        } else {
            ma >= mb
        }
    }
}

/// IEEE-754 `a < b` on bit patterns.
pub fn f64_lt(a: u64, b: u64) -> (r: bool)
    ensures
        r == lt_spec(a, b),
{
    let le = f64_le(a, b);
    let eq = f64_eq(a, b);
    le && !eq
}

/// IEEE-754 `a == b` on bit patterns.
pub fn f64_eq(a: u64, b: u64) -> (r: bool)
    ensures
        r == eq_spec(a, b),
{
    let ma = a % F64_SIGN;
    let mb = b % F64_SIGN;
    if ma > F64_EXP_INF || mb > F64_EXP_INF {
        false
    } else {
        a == b || (ma == 0 && mb == 0)
    }
}

/// Absolute value: clear the sign bit.
pub fn f64_abs(b: u64) -> (r: u64)
    ensures
        r == abs_spec(b),
{
    b % F64_SIGN
}

/// 2 to the power `k` as a machine integer.
fn pow2_u64(k: usize) -> (p: u64)
    requires
        k < 64,
    ensures
        p == pow2(k as nat),
        1 <= p,
{
    let mut p: u64 = 1;
    let mut i: usize = 0;
    proof {
        lemma2_to64();
    }
    while i < k
        invariant
            i <= k,
            k < 64,
            p == pow2(i as nat),
            1 <= p,
        decreases k - i,
    {
        proof {
            lemma2_to64();
            lemma2_to64_rest();
            lemma_pow2_strictly_increases(i as nat, 63nat);
        }
        p = p * 2;
        i = i + 1;
        proof {
            lemma_pow2_unfold(i as nat);
        }
    }
    p
}

/// The result of `b.round() as u64` on the number with pattern `b`:
/// rounding half away from zero, with NaN and every negative number
/// collapsing to 0 and values at or above 2^64 saturating.
pub open spec fn round_as_u64_spec(b: u64) -> u64 {
    if is_nan_spec(b) || sign_spec(b) {
        0
    } else if exp_spec(b) == 0x7FF {
        u64::MAX
    } else if exp_spec(b) <= 1021 {
        0
    } else if exp_spec(b) == 1022 {
        1
    } else if exp_spec(b) <= 1074 {
        let m = 0x0010_0000_0000_0000 + frac_spec(b);
        (m / pow2((1075 - exp_spec(b)) as nat) as int + (m / pow2(
            (1074 - exp_spec(b)) as nat,
        ) as int) % 2) as u64
    } else if exp_spec(b) <= 1086 {
        let m = 0x0010_0000_0000_0000 + frac_spec(b);
        (m * pow2((exp_spec(b) - 1075) as nat) as int) as u64
    } else {
        u64::MAX
    }
}

/// Round a binary64 pattern half away from zero and saturate it into a
/// `u64`, as converting the rounded number to an unsigned integer does.
pub fn f64_round_as_u64(b: u64) -> (r: u64)
    ensures
        r == round_as_u64_spec(b),
{
    let m_all = b % F64_SIGN;
    if m_all > F64_EXP_INF {
        return 0;
    }
    if b >= F64_SIGN {
        return 0;
    }
    let e = m_all / F64_MANT;
    let f = m_all % F64_MANT;
    if e == 0x7FF {
        return u64::MAX;
    }
    if e <= 1021 {
        return 0;
    }
    if e == 1022 {
        return 1;
    }
    let m = F64_MANT + f;
    if e <= 1074 {
        let d1 = pow2_u64((1075 - e) as usize);
        let d2 = pow2_u64((1074 - e) as usize);
        proof {
            lemma2_to64();
            if 1075 - e < 63 {
                lemma_pow2_strictly_increases((1075 - e) as nat, 63nat);
            }
            if 1074 - e < 63 {
                lemma_pow2_strictly_increases((1074 - e) as nat, 63nat);
            }
        }
        m / d1 + (m / d2) % 2
    } else if e <= 1086 {
        let p = pow2_u64((e - 1075) as usize);
        proof {
            lemma2_to64();
            if e - 1075 < 11 {
                lemma_pow2_strictly_increases((e - 1075) as nat, 11nat);
            }
            assert(p <= 2048);
            assert(m < 0x0020_0000_0000_0000);
            assert(m * p <= 0x001F_FFFF_FFFF_FFFF * 2048) by (nonlinear_arith)
                requires
                    p <= 2048,
                    m <= 0x001F_FFFF_FFFF_FFFF,
            ;
        }
        m * p
    } else {
        u64::MAX
    }
}

} // verus!
