//! Limb sizing and the exact rational scaling between binary and decimal
//! precision counts.

use vstd::prelude::*;
use vstd::arithmetic::div_mod::{
    lemma_div_is_ordered, lemma_fundamental_div_mod, lemma_multiply_divide_le,
    lemma_multiply_divide_lt,
};

verus! {

/// Number of bits in one limb: one machine word of an arbitrary-precision
/// significand. Mirrors the word width of the arbitrary-precision engine
/// (GMP's `NUMB_BITS`) on 64-bit targets.
pub const LIMB_BITS: usize = 64;

/// Largest precision, in bits, that a bounds request or an arbitrary-precision
/// descriptor may carry. The cap is a machine limit: it keeps the round-up of
/// a precision to a whole number of limbs within `usize`.
pub const MAX_PRECISION_BITS: usize = usize::MAX - 63;

/// Numerator and denominator of the rational approximation of log10(2) used
/// for every decimal/binary precision scaling in this crate.
pub const LOG10_2_NUM: usize = 30103;
pub const LOG10_2_DEN: usize = 100000;

/// Largest precision, in decimal digits, that limb storage can be sized
/// for: the machine limit `MAX_PRECISION_BITS` divided by log10(2), taken
/// slightly inward so the scaled bit count provably stays under the cap.
pub const MAX_PRECISION_DECIMAL: usize = MAX_PRECISION_BITS / LOG10_2_DEN * LOG10_2_NUM;

/// Number of limbs needed to hold `precision_bits` significand bits.
pub open spec fn spec_limbs_for(precision_bits: int) -> int {
    (precision_bits - 1) / (LIMB_BITS as int) + 1
}

/// `floor(x * log10(2))` under the crate's rational approximation.
pub open spec fn spec_mul_log10_2_floor(x: int) -> int {
    (x * (LOG10_2_NUM as int)) / (LOG10_2_DEN as int)
}

/// `ceil(x * log10(2))` under the crate's rational approximation.
pub open spec fn spec_mul_log10_2_ceil(x: int) -> int {
    (x * (LOG10_2_NUM as int) + (LOG10_2_DEN as int) - 1) / (LOG10_2_DEN as int)
}

/// `ceil(x / log10(2))` — equivalently `ceil(x * log2(10))` — under the
/// crate's rational approximation: how many bits hold `x` decimal digits.
pub open spec fn spec_div_log10_2_ceil(x: int) -> int {
    (x * (LOG10_2_DEN as int) + (LOG10_2_NUM as int) - 1) / (LOG10_2_NUM as int)
}

/// The `MpfrBounds` value that `for_precision_binary` builds.
pub open spec fn spec_for_precision_binary(precision_bits: int) -> MpfrBounds {
    MpfrBounds {
        precision_bits: precision_bits as usize,
        limb_parts: spec_limbs_for(precision_bits) as usize,
    }
}

/// The bounds of an arbitrary-precision significand: how many bits of
/// precision it offers, and how many limbs carry them.
#[derive(Clone, Copy, Debug, PartialEq, Eq, Structural)]
pub struct MpfrBounds {
    pub precision_bits: usize,
    pub limb_parts: usize,
}

impl MpfrBounds {
    /// The integrity requirement of every `MpfrBounds` value: a positive
    /// precision, exactly as many limbs as that precision fills, and limb
    /// storage whose bit count fits the machine word.
    pub open spec fn wf(self) -> bool {
        &&& 1 <= self.precision_bits
        &&& self.limb_parts == spec_limbs_for(self.precision_bits as int)
        &&& (self.limb_parts as int) * (LIMB_BITS as int) <= usize::MAX as int
    }

    /// Sizes the limb storage for a precision given in bits.
    pub fn for_precision_binary(precision_bits: usize) -> (r: Self)
        requires
            1 <= precision_bits <= MAX_PRECISION_BITS,
        ensures
            r.wf(),
            r == spec_for_precision_binary(precision_bits as int),
            r.precision_bits == precision_bits,
    {
        proof {
            lemma_limbs_cover_precision(precision_bits as int);
        }
        Self { precision_bits, limb_parts: (precision_bits - 1) / LIMB_BITS + 1 }
    }

    /// Sizes the limb storage for a precision given in decimal digits:
    /// holding `d` decimal digits takes `ceil(d / log10(2))` — about
    /// 3.32 · `d` — bits, so that many bits are requested.
    pub fn for_precision_decimal(precision_decimal: usize) -> (r: Self)
        requires
            1 <= precision_decimal <= MAX_PRECISION_DECIMAL,
        ensures
            r.wf(),
            r.precision_bits == spec_div_log10_2_ceil(precision_decimal as int),
    {
        proof {
            lemma_div_log10_2_ceil_in_precision_range(precision_decimal as int);
        }
        let num: u128 = precision_decimal as u128 * (LOG10_2_DEN as u128)
            + (LOG10_2_NUM as u128 - 1);
        let bits: u128 = num / (LOG10_2_NUM as u128);
        Self::for_precision_binary(bits as usize)
    }

    /// Executable form of the integrity requirement, for callers outside
    /// verified code.
    pub fn is_wf(&self) -> (r: bool)
        ensures
            r == self.wf(),
    {
        proof {
            lemma_fundamental_div_mod(usize::MAX as int, LIMB_BITS as int);
        }
        1 <= self.precision_bits
            && self.limb_parts == (self.precision_bits - 1) / LIMB_BITS + 1
            && self.limb_parts <= usize::MAX / LIMB_BITS
    }
}

/// For a positive digit count in range, the bit count that holds it is
/// positive and stays under the precision cap.
proof fn lemma_div_log10_2_ceil_in_precision_range(d: int)
    requires
        1 <= d <= MAX_PRECISION_DECIMAL,
    ensures
        1 <= spec_div_log10_2_ceil(d) <= MAX_PRECISION_BITS,
{
    let num = d * (LOG10_2_DEN as int) + (LOG10_2_NUM as int) - 1;
    assert(num >= LOG10_2_NUM as int);
    lemma_div_is_ordered(LOG10_2_NUM as int, num, LOG10_2_NUM as int);
    assert(LOG10_2_NUM as int / LOG10_2_NUM as int == 1);
    let q = (MAX_PRECISION_BITS as int) / (LOG10_2_DEN as int);
    lemma_fundamental_div_mod(MAX_PRECISION_BITS as int, LOG10_2_DEN as int);
    assert(MAX_PRECISION_DECIMAL as int == q * (LOG10_2_NUM as int));
    assert(num < (LOG10_2_NUM as int) * (q * (LOG10_2_DEN as int) + 1))
        by (nonlinear_arith)
        requires
            num == d * (LOG10_2_DEN as int) + (LOG10_2_NUM as int) - 1,
            d <= q * (LOG10_2_NUM as int);
    lemma_multiply_divide_lt(num, LOG10_2_NUM as int, q * (LOG10_2_DEN as int) + 1);
    assert(q * (LOG10_2_DEN as int) <= MAX_PRECISION_BITS as int);
}

/// `floor(x * log10(2))` for a non-negative count, computed exactly.
pub fn mul_log10_2_floor_nonneg(x: usize) -> (r: usize)
    ensures
        r as int == spec_mul_log10_2_floor(x as int),
        r <= x,
{
    let num: u128 = x as u128 * (LOG10_2_NUM as u128);
    let q: u128 = num / (LOG10_2_DEN as u128);
    proof {
        lemma_multiply_divide_le(num as int, LOG10_2_DEN as int, x as int);
    }
    q as usize
}

/// `ceil(x * log10(2))` for a non-negative count, computed exactly.
pub fn mul_log10_2_ceil_nonneg(x: usize) -> (r: usize)
    ensures
        r as int == spec_mul_log10_2_ceil(x as int),
        r <= x,
{
    let num: u128 = x as u128 * (LOG10_2_NUM as u128) + (LOG10_2_DEN as u128 - 1);
    let q: u128 = num / (LOG10_2_DEN as u128);
    proof {
        lemma_multiply_divide_lt(num as int, LOG10_2_DEN as int, x as int + 1);
    }
    q as usize
}

/// `floor(x * log10(2))` for a signed count, computed exactly. The negative
/// side goes through the magnitude: the floor of a negative product is the
/// negated ceiling of its magnitude.
pub fn mul_log10_2_floor_isize(x: isize) -> (r: isize)
    ensures
        r as int == spec_mul_log10_2_floor(x as int),
{
    if x >= 0 {
        mul_log10_2_floor_nonneg(x as usize) as isize
    } else {
        let m: u128 = (-(x as i128)) as u128;
        let num: u128 = m * (LOG10_2_NUM as u128) + (LOG10_2_DEN as u128 - 1);
        let q: u128 = num / (LOG10_2_DEN as u128);
        proof {
            lemma_multiply_divide_lt(num as int, LOG10_2_DEN as int, m as int + 1);
            lemma_neg_floor_is_neg_ceil(m as int * (LOG10_2_NUM as int), LOG10_2_DEN as int);
        }
        (-(q as i128)) as isize
    }
}

/// For `n >= 0` and `d > 0`: `(-n) / d == -((n + d - 1) / d)`.
proof fn lemma_neg_floor_is_neg_ceil(n: int, d: int)
    requires
        0 <= n,
        0 < d,
    ensures
        (-n) / d == -((n + d - 1) / d),
{
    let q = (n + d - 1) / d;
    let r = (n + d - 1) % d;
    lemma_fundamental_div_mod(n + d - 1, d);
    assert(n + d - 1 == d * q + r);
    assert(-n == (-q) * d + (d - 1 - r)) by (nonlinear_arith)
        requires n + d - 1 == d * q + r;
    vstd::arithmetic::div_mod::lemma_fundamental_div_mod_converse_div(
        -n, d, -q, d - 1 - r);
}

/// Rounding a positive precision up to whole limbs never shrinks it, and
/// gains less than one limb.
pub proof fn lemma_limbs_cover_precision(precision_bits: int)
    requires
        1 <= precision_bits,
    ensures
        precision_bits <= spec_limbs_for(precision_bits) * (LIMB_BITS as int)
            < precision_bits + (LIMB_BITS as int),
        1 <= spec_limbs_for(precision_bits),
{
    lemma_fundamental_div_mod(precision_bits - 1, LIMB_BITS as int);
    assert((precision_bits - 1) % (LIMB_BITS as int) < LIMB_BITS as int);
    assert(0 <= (precision_bits - 1) % (LIMB_BITS as int));
    assert(spec_limbs_for(precision_bits) * (LIMB_BITS as int)
        == ((precision_bits - 1) / (LIMB_BITS as int)) * (LIMB_BITS as int) + LIMB_BITS as int)
        by (nonlinear_arith);
    assert(0 <= (precision_bits - 1) / (LIMB_BITS as int)) by {
        vstd::arithmetic::div_mod::lemma_div_pos_is_pos(precision_bits - 1, LIMB_BITS as int);
    }
}

} // verus!
