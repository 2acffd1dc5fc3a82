//! The closed set of concrete representations a value can be backed by, with
//! the storage footprint of each and the per-representation payload slot
//! counts of the value storage record.

use vstd::prelude::*;
use vstd::arithmetic::div_mod::{lemma_div_is_ordered, lemma_fundamental_div_mod};
use crate::precision::{
    lemma_limbs_cover_precision, spec_limbs_for, MpfrBounds, LIMB_BITS,
};

verus! {

/// Storage footprint of a native single-precision scalar, in bytes.
pub const F32_SIZE_BYTES: usize = 4;

/// Storage footprint of a native double-precision scalar, in bytes.
pub const F64_SIZE_BYTES: usize = 8;

/// Storage footprint of the extended-precision pair of doubles, in bytes.
pub const TWOFLOAT_SIZE_BYTES: usize = 16;

/// Storage footprint of the arbitrary-precision descriptor (precision, sign,
/// exponent and limb pointer), in bytes, on 64-bit targets.
pub const MPFR_FIXED_SIZE_BYTES: usize = 32;

/// Storage footprint of one limb, in bytes, on 64-bit targets.
pub const LIMB_SIZE_BYTES: usize = 8;

/// Which concrete floating-point representation backs a value: one of the
/// three fixed-cost native forms, or the arbitrary-precision form sized by
/// its `MpfrBounds`.
#[derive(Clone, Copy, Debug, PartialEq, Eq, Structural)]
pub enum UniFloatChoice {
    F32,
    F64,
    TwoFloat,
    Mpfr { bounds: MpfrBounds },
}

impl UniFloatChoice {
    /// A choice is well formed when its arbitrary-precision bounds are.
    pub open spec fn wf(self) -> bool {
        match self {
            UniFloatChoice::Mpfr { bounds } => bounds.wf(),
            _ => true,
        }
    }

    /// Executable form of `wf`, for callers outside verified code.
    pub fn is_wf(&self) -> (r: bool)
        ensures
            r == self.wf(),
    {
        match *self {
            UniFloatChoice::Mpfr { bounds } => bounds.is_wf(),
            _ => true,
        }
    }

    /// Significand precision the representation offers, in bits.
    pub open spec fn spec_precision_bits(self) -> int {
        match self {
            UniFloatChoice::F32 => 24,
            UniFloatChoice::F64 => 53,
            UniFloatChoice::TwoFloat => 106,
            UniFloatChoice::Mpfr { bounds } => bounds.precision_bits as int,
        }
    }

    /// The widest-precision choice that occupies exactly the same storage.
    pub open spec fn spec_most_precise_for_same_space(self) -> Self {
        match self {
            UniFloatChoice::Mpfr { bounds } => UniFloatChoice::Mpfr {
                bounds: MpfrBounds {
                    precision_bits: (bounds.limb_parts * LIMB_BITS) as usize,
                    limb_parts: bounds.limb_parts,
                },
            },
            other => other,
        }
    }

    /// The three fixed representations already fill their storage; an
    /// arbitrary-precision choice is widened to every bit its limbs hold.
    pub fn most_precise_for_same_space(&self) -> (r: Self)
        requires
            self.wf(),
        ensures
            r == self.spec_most_precise_for_same_space(),
            r.wf(),
    {
        match *self {
            UniFloatChoice::Mpfr { bounds } => {
                proof {
                    lemma_limbs_cover_precision(bounds.precision_bits as int);
                    lemma_limbs_of_full_words(bounds.limb_parts as int);
                }
                UniFloatChoice::Mpfr {
                    bounds: MpfrBounds {
                        precision_bits: bounds.limb_parts * LIMB_BITS,
                        limb_parts: bounds.limb_parts,
                    },
                }
            },
            other => other,
        }
    }

    /// Exact storage footprint, in bytes, of a value backed by this choice:
    /// a fixed size per native representation, and for the arbitrary form
    /// the size of a one-limb record plus the per-limb increment for each
    /// further limb.
    pub open spec fn spec_unifloat_size(self) -> int {
        match self {
            UniFloatChoice::F32 => F32_SIZE_BYTES as int,
            UniFloatChoice::F64 => F64_SIZE_BYTES as int,
            UniFloatChoice::TwoFloat => TWOFLOAT_SIZE_BYTES as int,
            UniFloatChoice::Mpfr { bounds } => (MPFR_FIXED_SIZE_BYTES + LIMB_SIZE_BYTES) as int
                + (bounds.limb_parts - 1) * (LIMB_SIZE_BYTES as int),
        }
    }

    /// Size of any value storage instance created for this choice, in bytes.
    pub fn unifloat_size(&self) -> (n: usize)
        requires
            self.wf(),
        ensures
            n as int == self.spec_unifloat_size(),
    {
        match *self {
            UniFloatChoice::F32 => F32_SIZE_BYTES,
            UniFloatChoice::F64 => F64_SIZE_BYTES,
            UniFloatChoice::TwoFloat => TWOFLOAT_SIZE_BYTES,
            UniFloatChoice::Mpfr { bounds } => {
                proof {
                    lemma_limb_bytes_fit(bounds.limb_parts as int);
                }
                MPFR_FIXED_SIZE_BYTES + LIMB_SIZE_BYTES
                    + (bounds.limb_parts - 1) * LIMB_SIZE_BYTES
            },
        }
    }
}

/// Slot counts of the value storage record: for a given choice, how many
/// entries of each representation's payload array an instance holds. Unused
/// branches hold zero entries.
pub open spec fn spec_f32_parts_length(c: UniFloatChoice) -> int {
    if c is F32 { 1 } else { 0 }
}

pub open spec fn spec_f64_parts_length(c: UniFloatChoice) -> int {
    if c is F64 { 1 } else { 0 }
}

pub open spec fn spec_twofloat_parts_length(c: UniFloatChoice) -> int {
    if c is TwoFloat { 1 } else { 0 }
}

pub open spec fn spec_mpfr_limb_parts_length(c: UniFloatChoice) -> int {
    match c {
        UniFloatChoice::Mpfr { bounds } => bounds.limb_parts as int,
        _ => 0,
    }
}

pub open spec fn spec_mpfr_fixed_parts_length(c: UniFloatChoice) -> int {
    if c is Mpfr { 1 } else { 0 }
}

/// Number of native single-precision slots a storage instance for `c` holds.
pub fn f32_parts_length(c: UniFloatChoice) -> (n: usize)
    ensures
        n as int == spec_f32_parts_length(c),
{
    match c {
        UniFloatChoice::F32 => 1,
        _ => 0,
    }
}

/// Number of native double-precision slots a storage instance for `c` holds.
pub fn f64_parts_length(c: UniFloatChoice) -> (n: usize)
    ensures
        n as int == spec_f64_parts_length(c),
{
    match c {
        UniFloatChoice::F64 => 1,
        _ => 0,
    }
}

/// Number of extended-precision pair slots a storage instance for `c` holds.
pub fn twofloat_parts_length(c: UniFloatChoice) -> (n: usize)
    ensures
        n as int == spec_twofloat_parts_length(c),
{
    match c {
        UniFloatChoice::TwoFloat => 1,
        _ => 0,
    }
}

/// Number of limbs a storage instance for `c` holds.
pub fn mpfr_limb_parts_length(c: UniFloatChoice) -> (n: usize)
    ensures
        n as int == spec_mpfr_limb_parts_length(c),
{
    match c {
        UniFloatChoice::Mpfr { bounds } => bounds.limb_parts,
        _ => 0,
    }
}

/// Number of arbitrary-precision descriptors a storage instance for `c`
/// holds.
pub fn mpfr_fixed_parts_length(c: UniFloatChoice) -> (n: usize)
    ensures
        n as int == spec_mpfr_fixed_parts_length(c),
{
    match c {
        UniFloatChoice::Mpfr { .. } => 1,
        _ => 0,
    }
}

/// A whole number of full limbs needs exactly that number of limbs.
pub(crate) proof fn lemma_limbs_of_full_words(limb_parts: int)
    requires
        1 <= limb_parts,
        limb_parts * (LIMB_BITS as int) <= usize::MAX as int,
    ensures
        spec_limbs_for(limb_parts * (LIMB_BITS as int)) == limb_parts,
{
    let w = LIMB_BITS as int;
    assert((limb_parts * w - 1) / w == limb_parts - 1) by (nonlinear_arith)
        requires 1 <= limb_parts, w == 64;
}

/// The byte count of a well-formed limb block stays within `usize`.
proof fn lemma_limb_bytes_fit(limb_parts: int)
    requires
        1 <= limb_parts,
        limb_parts * (LIMB_BITS as int) <= usize::MAX as int,
    ensures
        (MPFR_FIXED_SIZE_BYTES + LIMB_SIZE_BYTES) as int
            + (limb_parts - 1) * (LIMB_SIZE_BYTES as int) <= usize::MAX as int,
{
    let m = usize::MAX as int;
    assert(limb_parts * 8 <= (limb_parts * 64) / 8) by (nonlinear_arith)
        requires 1 <= limb_parts;
    lemma_div_is_ordered(limb_parts * 64, m, 8);
    lemma_fundamental_div_mod(m, 8);
    assert(m / 8 + 40 <= m);
}

} // verus!
