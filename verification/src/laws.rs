//! The crate-level laws: what holds of selection, sizing and the copy/fixup
//! protocol across functions, proved once and for all inputs.

use vstd::prelude::*;
use crate::bounds::{
    UniFloatBounds, UniFloatBoundsBase, UniFloatBoundsToChoice, UniFloatChoiceToBounds,
};
use crate::choice::UniFloatChoice;
use crate::precision::{
    lemma_limbs_cover_precision, spec_for_precision_binary, MAX_PRECISION_BITS,
};
use crate::storage::UniFloat;
use vstd::arithmetic::div_mod::lemma_div_is_ordered;

verus! {

/// Law: for every binary bounds request that selection accepts, the selected
/// choice is well formed and its guaranteed binary bounds cover the request.
pub proof fn lemma_select_covers(b: UniFloatBounds)
    requires
        b.to_choice_wf(),
    ensures
        b.spec_to_choice().wf(),
        UniFloatBounds::spec_to_bounds(b.spec_to_choice(), UniFloatBoundsBase::BINARY)
            .spec_covers(b),
{
    lemma_limbs_cover_precision(b.precision as int);
}

/// Law: selection does not over-select — every choice is selected back from
/// exactly the bounds it guarantees; in particular each of the three fixed
/// representations is the minimal fit for its own bounds record.
pub proof fn lemma_select_is_minimal(c: UniFloatChoice)
    requires
        c.wf(),
        c is Mpfr ==> c.spec_precision_bits() <= MAX_PRECISION_BITS,
    ensures
        UniFloatBounds::spec_to_bounds(c, UniFloatBoundsBase::BINARY).spec_to_choice() == c,
{
    if let UniFloatChoice::Mpfr { bounds } = c {
        lemma_limbs_cover_precision(bounds.precision_bits as int);
    }
}

/// Law: within the arbitrary-precision branch, a larger requested precision
/// never yields a smaller storage footprint.
pub proof fn lemma_size_nondecreasing_in_precision(p1: usize, p2: usize)
    requires
        1 <= p1 <= p2 <= MAX_PRECISION_BITS,
    ensures
        (UniFloatChoice::Mpfr { bounds: spec_for_precision_binary(p1 as int) })
            .spec_unifloat_size()
        <= (UniFloatChoice::Mpfr { bounds: spec_for_precision_binary(p2 as int) })
            .spec_unifloat_size(),
{
    lemma_limbs_cover_precision(p1 as int);
    lemma_limbs_cover_precision(p2 as int);
    lemma_div_is_ordered(p1 as int - 1, p2 as int - 1, crate::precision::LIMB_BITS as int);
}

/// Law: widening a choice to the most precise one of the same space never
/// narrows its precision, changes nothing of the three fixed
/// representations, and keeps the storage footprint exactly the same.
pub proof fn lemma_most_precise_never_narrows(c: UniFloatChoice)
    requires
        c.wf(),
    ensures
        c.spec_most_precise_for_same_space().wf(),
        c.spec_most_precise_for_same_space().spec_precision_bits() >= c.spec_precision_bits(),
        (c is F32 || c is F64 || c is TwoFloat)
            ==> c.spec_most_precise_for_same_space() == c,
        c.spec_most_precise_for_same_space().spec_unifloat_size() == c.spec_unifloat_size(),
{
    if let UniFloatChoice::Mpfr { bounds } = c {
        lemma_limbs_cover_precision(bounds.precision_bits as int);
        crate::choice::lemma_limbs_of_full_words(bounds.limb_parts as int);
    }
}

/// Law: duplicating an instance's bits to a different placement leaves the
/// duplicate pending there — its self-reference invariant does not hold, so
/// a read of it is forbidden until fixup — while its payload is exactly the
/// original's, so fixing it up and then reading observes the original value.
pub proof fn lemma_raw_copy_needs_fixup(x: UniFloat, c: UniFloat, here: usize, new_here: usize)
    requires
        x.wf(),
        x.is_fixed_at(here),
        c.same_bits(x),
        new_here != here,
    ensures
        c.wf(),
        !c.is_fixed_at(new_here),
        c.payload() == x.payload(),
{
}

} // verus!
