//! The value storage record and its copy/fixup protocol.
//!
//! An instance's placement is handled as a plain number, the placement
//! address `here`: callers state where an instance lives, and the record's
//! self-referential fields hold such numbers. The arbitrary-precision
//! descriptor must point at its own instance's limb block, and a witness
//! field must name the instance's own placement; both become stale the
//! moment the record's bits are duplicated to a different placement, and
//! `copied` (the fixup operation) restores them.

use vstd::prelude::*;
use crate::choice::{
    spec_f32_parts_length, spec_f64_parts_length, spec_mpfr_fixed_parts_length,
    spec_mpfr_limb_parts_length, spec_twofloat_parts_length, UniFloatChoice,
};

verus! {

/// Canonical not-a-number bit pattern of the native single-precision scalar.
pub const F32_NAN_BITS: u32 = 0x7fc0_0000;

/// Canonical not-a-number bit pattern of the native double-precision scalar.
pub const F64_NAN_BITS: u64 = 0x7ff8_0000_0000_0000;

/// Exponent a freshly constructed arbitrary-precision descriptor carries:
/// the not-a-number exponent the engine's declaration macro starts from,
/// one more than the negated largest exponent value.
pub const MPFR_NAN_EXP: i64 = 1 - i64::MAX;

/// Precision field of a freshly constructed descriptor.
pub const MPFR_INITIAL_PREC: i64 = 1;

/// Sign field of a freshly constructed descriptor.
pub const MPFR_INITIAL_SIGN: i32 = 1;

/// Model of the arbitrary-precision engine's descriptor: precision, sign and
/// exponent fields, and the placement address of the limb block the
/// descriptor reads, held as a plain number.
#[derive(Clone, Copy, Debug, PartialEq, Eq, Structural)]
pub struct MpfrFixed {
    pub prec: i64,
    pub sign: i32,
    pub exp: i64,
    pub d: usize,
}

/// One extended-precision pair, as the bit patterns of its two halves.
#[derive(Clone, Copy, Debug, PartialEq, Eq, Structural)]
pub struct TwoFloatBits {
    pub hi: u64,
    pub lo: u64,
}

/// The numeric payload of a storage instance: what a read observes. The
/// arbitrary branch carries the descriptor's numeric fields and the limbs,
/// but not the limb placement, which is location, not value.
pub enum UniFloatPayload {
    SingleBits(u32),
    DoubleBits(u64),
    ExtendedBits(u64, u64),
    ArbitraryParts(i64, i32, i64, Seq<u64>),
}

/// A payload snapshot as plain values, the result of a read.
pub enum UniFloatValue {
    SingleBits(u32),
    DoubleBits(u64),
    ExtendedBits(u64, u64),
    ArbitraryParts(i64, i32, i64, Vec<u64>),
}

impl View for UniFloatValue {
    type V = UniFloatPayload;

    open spec fn view(&self) -> UniFloatPayload {
        match *self {
            UniFloatValue::SingleBits(b) => UniFloatPayload::SingleBits(b),
            UniFloatValue::DoubleBits(b) => UniFloatPayload::DoubleBits(b),
            UniFloatValue::ExtendedBits(hi, lo) => UniFloatPayload::ExtendedBits(hi, lo),
            UniFloatValue::ArbitraryParts(prec, sign, exp, ref limbs) =>
                UniFloatPayload::ArbitraryParts(prec, sign, exp, limbs@),
        }
    }
}

/// The storage record of one value. It physically holds one payload array
/// per representation, sized so that every array of an unused branch is
/// empty, plus the witness of the instance's own placement.
pub struct UniFloat {
    pub choice: UniFloatChoice,
    pub f32s: Vec<u32>,
    pub f64s: Vec<u64>,
    pub twofloats: Vec<TwoFloatBits>,
    pub mpfr_limbs: Vec<u64>,
    pub mpfr_fixeds: Vec<MpfrFixed>,
    pub unifloat_self: usize,
}

/// The payload a fresh instance holds: the canonical not-a-number of its
/// representation. The arbitrary branch starts from the engine's initial
/// descriptor over zeroed limbs.
pub open spec fn spec_nan_payload(choice: UniFloatChoice) -> UniFloatPayload {
    match choice {
        UniFloatChoice::F32 => UniFloatPayload::SingleBits(F32_NAN_BITS),
        UniFloatChoice::F64 => UniFloatPayload::DoubleBits(F64_NAN_BITS),
        UniFloatChoice::TwoFloat => UniFloatPayload::ExtendedBits(F64_NAN_BITS, F64_NAN_BITS),
        UniFloatChoice::Mpfr { bounds } => UniFloatPayload::ArbitraryParts(
            MPFR_INITIAL_PREC,
            MPFR_INITIAL_SIGN,
            MPFR_NAN_EXP,
            Seq::new(bounds.limb_parts as nat, |i: int| 0u64),
        ),
    }
}

impl UniFloat {
    /// Structural soundness: a well-formed choice, and each payload array
    /// exactly as long as the choice requires.
    pub open spec fn wf(self) -> bool {
        &&& self.choice.wf()
        &&& self.f32s@.len() == spec_f32_parts_length(self.choice)
        &&& self.f64s@.len() == spec_f64_parts_length(self.choice)
        &&& self.twofloats@.len() == spec_twofloat_parts_length(self.choice)
        &&& self.mpfr_limbs@.len() == spec_mpfr_limb_parts_length(self.choice)
        &&& self.mpfr_fixeds@.len() == spec_mpfr_fixed_parts_length(self.choice)
    }

    /// The self-reference invariant at placement `here`: the witness names
    /// this placement, and an arbitrary-precision descriptor points at its
    /// own instance. Only an instance fixed at its placement may be read.
    pub open spec fn is_fixed_at(self, here: usize) -> bool {
        &&& self.unifloat_self == here
        &&& (self.choice is Mpfr ==> self.mpfr_fixeds@[0].d == here)
    }

    /// What a read of this instance observes.
    pub open spec fn payload(self) -> UniFloatPayload {
        match self.choice {
            UniFloatChoice::F32 => UniFloatPayload::SingleBits(self.f32s@[0]),
            UniFloatChoice::F64 => UniFloatPayload::DoubleBits(self.f64s@[0]),
            UniFloatChoice::TwoFloat => UniFloatPayload::ExtendedBits(
                self.twofloats@[0].hi, self.twofloats@[0].lo),
            UniFloatChoice::Mpfr { .. } => UniFloatPayload::ArbitraryParts(
                self.mpfr_fixeds@[0].prec,
                self.mpfr_fixeds@[0].sign,
                self.mpfr_fixeds@[0].exp,
                self.mpfr_limbs@,
            ),
        }
    }

    /// Bit-for-bit sameness: what a raw duplication preserves — every field,
    /// including the stale self-referential ones.
    pub open spec fn same_bits(self, other: Self) -> bool {
        &&& self.choice == other.choice
        &&& self.f32s@ == other.f32s@
        &&& self.f64s@ == other.f64s@
        &&& self.twofloats@ == other.twofloats@
        &&& self.mpfr_limbs@ == other.mpfr_limbs@
        &&& self.mpfr_fixeds@ == other.mpfr_fixeds@
        &&& self.unifloat_self == other.unifloat_self
    }

    /// Constructs a fresh instance at placement `here`: canonical
    /// not-a-number payload, descriptor already pointing at its own limbs.
    pub fn nan(choice: UniFloatChoice, here: usize) -> (r: UniFloat)
        requires
            choice.wf(),
        ensures
            r.wf(),
            r.choice == choice,
            r.is_fixed_at(here),
            r.payload() == spec_nan_payload(choice),
    {
        let mut f32s: Vec<u32> = Vec::new();
        let mut f64s: Vec<u64> = Vec::new();
        let mut twofloats: Vec<TwoFloatBits> = Vec::new();
        let mut mpfr_limbs: Vec<u64> = Vec::new();
        let mut mpfr_fixeds: Vec<MpfrFixed> = Vec::new();
        match choice {
            UniFloatChoice::F32 => { f32s.push(F32_NAN_BITS); },
            UniFloatChoice::F64 => { f64s.push(F64_NAN_BITS); },
            UniFloatChoice::TwoFloat => {
                twofloats.push(TwoFloatBits { hi: F64_NAN_BITS, lo: F64_NAN_BITS });
            },
            UniFloatChoice::Mpfr { bounds } => {
                mpfr_limbs = zeroed_limbs(bounds.limb_parts);
                mpfr_fixeds.push(MpfrFixed {
                    prec: MPFR_INITIAL_PREC,
                    sign: MPFR_INITIAL_SIGN,
                    exp: MPFR_NAN_EXP,
                    d: here,
                });
            },
        }
        UniFloat { choice, f32s, f64s, twofloats, mpfr_limbs, mpfr_fixeds,
            unifloat_self: here }
    }

    /// The fixup operation. Call it exactly once after an instance's bits
    /// were duplicated into this placement — assigned to, received as a
    /// parameter or a result, or copied out of a container. Rewrites the
    /// descriptor's limb placement and the witness to `here`; the payload is
    /// untouched.
    pub fn copied(&mut self, here: usize)
        requires
            old(self).wf(),
        ensures
            final(self).wf(),
            final(self).is_fixed_at(here),
            final(self).choice == old(self).choice,
            final(self).payload() == old(self).payload(),
    {
        if let UniFloatChoice::Mpfr { .. } = self.choice {
            self.mpfr_fixeds[0].d = here;
        }
        self.unifloat_self = here;
    }

    /// Adoption of an owned duplicate: takes the source's bits and fixes
    /// them up for placement `here` in one step, never exposing a pending
    /// instance. A value handed over by ownership transfer is taken to be
    /// already fixed by its producer, so no fixedness of the source is
    /// demanded.
    pub fn adopt(&mut self, source: UniFloat, here: usize)
        requires
            source.wf(),
        ensures
            final(self).wf(),
            final(self).is_fixed_at(here),
            final(self).choice == source.choice,
            final(self).payload() == source.payload(),
    {
        *self = source;
        self.copied(here);
    }

    /// Adoption of a borrowed source: duplicates its bits and fixes them up
    /// for placement `here` in one step. A borrowed source must itself be
    /// fixed at its own placement — a pending instance's payload is not
    /// trustworthy to copy.
    pub fn adopt_ref(&mut self, source: &UniFloat, source_here: usize, here: usize)
        requires
            source.wf(),
            source.is_fixed_at(source_here),
        ensures
            final(self).wf(),
            final(self).is_fixed_at(here),
            final(self).choice == source.choice,
            final(self).payload() == source.payload(),
    {
        *self = source.raw_copy();
        self.copied(here);
    }

    /// A bit-for-bit duplicate, as any raw copy of the record produces: the
    /// payload and also the self-referential fields, which then still name
    /// the source's placement, not the duplicate's.
    pub fn raw_copy(&self) -> (r: UniFloat)
        ensures
            r.same_bits(*self),
            r.wf() <==> self.wf(),
    {
        UniFloat {
            choice: self.choice,
            f32s: copied_parts(&self.f32s),
            f64s: copied_parts(&self.f64s),
            twofloats: copied_parts(&self.twofloats),
            mpfr_limbs: copied_parts(&self.mpfr_limbs),
            mpfr_fixeds: copied_parts(&self.mpfr_fixeds),
            unifloat_self: self.unifloat_self,
        }
    }

    /// Whether this instance, placed at `here`, satisfies the self-reference
    /// invariant: the check that guards every payload read.
    pub fn is_copy_fixed(&self, here: usize) -> (r: bool)
        requires
            self.wf(),
        ensures
            r == self.is_fixed_at(here),
    {
        let witness_ok = self.unifloat_self == here;
        match self.choice {
            UniFloatChoice::Mpfr { .. } => witness_ok && self.mpfr_fixeds[0].d == here,
            _ => witness_ok,
        }
    }

    /// Reads the payload of an instance placed at `here`. Reading demands
    /// the self-reference invariant: a pending instance must be fixed up
    /// first.
    pub fn read(&self, here: usize) -> (v: UniFloatValue)
        requires
            self.wf(),
            self.is_fixed_at(here),
        ensures
            v@ == self.payload(),
    {
        match self.choice {
            UniFloatChoice::F32 => UniFloatValue::SingleBits(self.f32s[0]),
            UniFloatChoice::F64 => UniFloatValue::DoubleBits(self.f64s[0]),
            UniFloatChoice::TwoFloat => UniFloatValue::ExtendedBits(
                self.twofloats[0].hi, self.twofloats[0].lo),
            UniFloatChoice::Mpfr { .. } => UniFloatValue::ArbitraryParts(
                self.mpfr_fixeds[0].prec,
                self.mpfr_fixeds[0].sign,
                self.mpfr_fixeds[0].exp,
                copied_parts(&self.mpfr_limbs),
            ),
        }
    }

    /// Payload equality of two readable instances, deferred to the
    /// representations' own payload values.
    pub fn eq_values(&self, here: usize, other: &UniFloat, other_here: usize) -> (r: bool)
        requires
            self.wf(),
            other.wf(),
            self.is_fixed_at(here),
            other.is_fixed_at(other_here),
        ensures
            r == (self.payload() == other.payload()),
    {
        let a = self.read(here);
        let b = other.read(other_here);
        a.eq_value(&b)
    }
}

impl UniFloatValue {
    /// Equality of two payload snapshots.
    pub fn eq_value(&self, other: &UniFloatValue) -> (r: bool)
        ensures
            r == (self@ == other@),
    {
        match (self, other) {
            (UniFloatValue::SingleBits(a), UniFloatValue::SingleBits(b)) => a == b,
            (UniFloatValue::DoubleBits(a), UniFloatValue::DoubleBits(b)) => a == b,
            (UniFloatValue::ExtendedBits(ahi, alo), UniFloatValue::ExtendedBits(bhi, blo)) =>
                ahi == bhi && alo == blo,
            (UniFloatValue::ArbitraryParts(aprec, asign, aexp, alimbs),
                UniFloatValue::ArbitraryParts(bprec, bsign, bexp, blimbs)) => {
                aprec == bprec && asign == bsign && aexp == bexp
                    && eq_limbs(alimbs, blimbs)
            },
            _ => {
                proof {
                    assert(self@ != other@);
                }
                false
            },
        }
    }
}

/// Applies the fixup operation to every element of a relocated buffer of
/// instances: element `i` of `unifloats` now lives at `addrs[i]`.
pub fn copied(unifloats: &mut Vec<UniFloat>, addrs: &Vec<usize>)
    requires
        addrs@.len() == old(unifloats)@.len(),
        forall|i: int| 0 <= i < old(unifloats)@.len() ==> (#[trigger] old(unifloats)@[i]).wf(),
    ensures
        final(unifloats)@.len() == old(unifloats)@.len(),
        forall|i: int| 0 <= i < old(unifloats)@.len() ==> {
            &&& (#[trigger] final(unifloats)@[i]).wf()
            &&& final(unifloats)@[i].is_fixed_at(addrs@[i])
            &&& final(unifloats)@[i].choice == old(unifloats)@[i].choice
            &&& final(unifloats)@[i].payload() == old(unifloats)@[i].payload()
        },
{
    let n = unifloats.len();
    let mut i: usize = 0;
    while i < n
        invariant
            n == unifloats@.len(),
            n == old(unifloats)@.len(),
            n == addrs@.len(),
            i <= n,
            forall|k: int| 0 <= k < n ==> (#[trigger] unifloats@[k]).wf(),
            forall|k: int| i <= k < n ==> unifloats@[k] == old(unifloats)@[k],
            forall|k: int| 0 <= k < i ==> {
                &&& (#[trigger] unifloats@[k]).is_fixed_at(addrs@[k])
                &&& unifloats@[k].choice == old(unifloats)@[k].choice
                &&& unifloats@[k].payload() == old(unifloats)@[k].payload()
            },
        decreases n - i,
    {
        let addr = addrs[i];
        unifloats[i].copied(addr);
        i += 1;
    }
}

/// Copies one payload array, entry by entry.
fn copied_parts<T: Copy>(src: &Vec<T>) -> (r: Vec<T>)
    ensures
        r@ == src@,
{
    let mut r: Vec<T> = Vec::new();
    let n = src.len();
    let mut i: usize = 0;
    while i < n
        invariant
            n == src@.len(),
            i <= n,
            r@ == src@.subrange(0, i as int),
        decreases n - i,
    {
        r.push(src[i]);
        i += 1;
        proof {
            assert(r@ =~= src@.subrange(0, i as int));
        }
    }
    proof {
        assert(r@ =~= src@);
    }
    r
}

/// Builds a zeroed limb block of `n` limbs.
fn zeroed_limbs(n: usize) -> (r: Vec<u64>)
    ensures
        r@ == Seq::new(n as nat, |i: int| 0u64),
{
    let mut r: Vec<u64> = Vec::new();
    let mut i: usize = 0;
    while i < n
        invariant
            i <= n,
            r@ == Seq::new(i as nat, |k: int| 0u64),
        decreases n - i,
    {
        r.push(0u64);
        i += 1;
        proof {
            assert(r@ =~= Seq::new(i as nat, |k: int| 0u64));
        }
    }
    proof {
        assert(r@ =~= Seq::new(n as nat, |k: int| 0u64));
    }
    r
}

/// The IEEE shape of a double-precision not-a-number bit pattern: a
/// saturated exponent field and a nonzero significand field.
pub open spec fn is_f64_nan_bits(b: u64) -> bool {
    &&& (b >> 52) & 0x7ff == 0x7ff
    &&& b & 0x000f_ffff_ffff_ffff != 0
}

/// Relies on twofloat::TwoFloat::NAN, whose two halves are both the native
/// double-precision not-a-number (`hi: f64::NAN, lo: f64::NAN`), and hands
/// its halves out as bit patterns.
#[verifier::external_body]
fn twofloat_nan_bits() -> (r: (u64, u64))
    ensures
        is_f64_nan_bits(r.0),
        is_f64_nan_bits(r.1),
{
    let nan = twofloat::TwoFloat::NAN;
    (nan.hi().to_bits(), nan.lo().to_bits())
}

/// The extended-precision engine's own not-a-number constant has the same
/// shape as this crate's canonical pattern: both of its halves are
/// double-precision not-a-number values.
pub fn twofloat_nan_matches_canonical_shape() -> (r: bool)
    ensures
        r,
{
    let (hi, lo) = twofloat_nan_bits();
    let hi_ok = (hi >> 52) & 0x7ff == 0x7ff && hi & 0x000f_ffff_ffff_ffff != 0;
    let lo_ok = (lo >> 52) & 0x7ff == 0x7ff && lo & 0x000f_ffff_ffff_ffff != 0;
    hi_ok && lo_ok
}

/// Compares two limb blocks.
fn eq_limbs(a: &Vec<u64>, b: &Vec<u64>) -> (r: bool)
    ensures
        r == (a@ == b@),
{
    if a.len() != b.len() {
        proof {
            assert(a@ !== b@);
        }
        return false;
    }
    let n = a.len();
    let mut i: usize = 0;
    while i < n
        invariant
            n == a@.len(),
            n == b@.len(),
            i <= n,
            forall|k: int| 0 <= k < i ==> a@[k] == b@[k],
        decreases n - i,
    {
        if a[i] != b[i] {
            return false;
        }
        i += 1;
    }
    proof {
        assert(a@ =~= b@);
    }
    true
}

} // verus!
