//! Precision/exponent-range requests, the precompiled bounds records of the
//! three fixed representations, and the mapping between bounds and
//! representation choices.

use vstd::prelude::*;
use crate::choice::UniFloatChoice;
use crate::precision::{
    mul_log10_2_ceil_nonneg, mul_log10_2_floor_isize, mul_log10_2_floor_nonneg,
    spec_for_precision_binary, spec_mul_log10_2_ceil, spec_mul_log10_2_floor,
    MpfrBounds, MAX_PRECISION_BITS,
};

verus! {

/// The unit a bounds request is stated in. Binary and decimal bounds are not
/// directly comparable; converting between them rounds, and is never done
/// implicitly.
#[derive(Clone, Copy, Debug, PartialEq, Eq, Structural)]
pub enum UniFloatBoundsBase {
    DECIMAL,
    BINARY,
}

/// Binary bounds of the native single-precision scalar.
pub const F32_PRECISION: usize = 24;

pub const F32_MIN_EXPONENT: isize = -126;

pub const F32_MAX_EXPONENT: isize = 127;

/// Binary bounds of the native double-precision scalar; the extended pair
/// shares its exponent range with twice its precision.
pub const F64_PRECISION: usize = 53;

pub const F64_MIN_EXPONENT: isize = -1021;

pub const F64_MAX_EXPONENT: isize = 1024;

pub const TWOFLOAT_PRECISION: usize = 106;

/// Decimal bounds of the same three representations.
pub const F32_PRECISION_DECIMAL: usize = 6;

pub const F32_MIN_EXPONENT_DECIMAL: isize = -37;

pub const F32_MAX_EXPONENT_DECIMAL: isize = 38;

pub const F64_PRECISION_DECIMAL: usize = 15;

pub const F64_MIN_EXPONENT_DECIMAL: isize = -307;

pub const F64_MAX_EXPONENT_DECIMAL: isize = 308;

pub const TWOFLOAT_PRECISION_DECIMAL: usize = 30;

/// A caller's requirement: at least `precision` significand digits, and an
/// exponent range containing `[min_exponent, max_exponent]`, in the units of
/// `base`.
#[derive(Clone, Copy, Debug, PartialEq, Eq, Structural)]
pub struct UniFloatBounds {
    pub precision: usize,
    pub min_exponent: isize,
    pub max_exponent: isize,
    pub base: UniFloatBoundsBase,
}

/// The precompiled bounds records the selector tests, binary base.
pub open spec fn spec_f32_bounds_binary() -> UniFloatBounds {
    UniFloatBounds {
        precision: F32_PRECISION,
        min_exponent: F32_MIN_EXPONENT,
        max_exponent: F32_MAX_EXPONENT,
        base: UniFloatBoundsBase::BINARY,
    }
}

pub open spec fn spec_f64_bounds_binary() -> UniFloatBounds {
    UniFloatBounds {
        precision: F64_PRECISION,
        min_exponent: F64_MIN_EXPONENT,
        max_exponent: F64_MAX_EXPONENT,
        base: UniFloatBoundsBase::BINARY,
    }
}

pub open spec fn spec_twofloat_bounds_binary() -> UniFloatBounds {
    UniFloatBounds {
        precision: TWOFLOAT_PRECISION,
        min_exponent: F64_MIN_EXPONENT,
        max_exponent: F64_MAX_EXPONENT,
        base: UniFloatBoundsBase::BINARY,
    }
}

/// The same three records, decimal base.
pub open spec fn spec_f32_bounds_decimal() -> UniFloatBounds {
    UniFloatBounds {
        precision: F32_PRECISION_DECIMAL,
        min_exponent: F32_MIN_EXPONENT_DECIMAL,
        max_exponent: F32_MAX_EXPONENT_DECIMAL,
        base: UniFloatBoundsBase::DECIMAL,
    }
}

pub open spec fn spec_f64_bounds_decimal() -> UniFloatBounds {
    UniFloatBounds {
        precision: F64_PRECISION_DECIMAL,
        min_exponent: F64_MIN_EXPONENT_DECIMAL,
        max_exponent: F64_MAX_EXPONENT_DECIMAL,
        base: UniFloatBoundsBase::DECIMAL,
    }
}

pub open spec fn spec_twofloat_bounds_decimal() -> UniFloatBounds {
    UniFloatBounds {
        precision: TWOFLOAT_PRECISION_DECIMAL,
        min_exponent: F64_MIN_EXPONENT_DECIMAL,
        max_exponent: F64_MAX_EXPONENT_DECIMAL,
        base: UniFloatBoundsBase::DECIMAL,
    }
}

impl UniFloatBounds {
    /// Every bounds request asks for at least one digit of precision.
    pub open spec fn wf(self) -> bool {
        1 <= self.precision
    }

    /// `self` accommodates every need of `other`: at least its precision,
    /// and an exponent range containing its range on both sides.
    pub open spec fn spec_covers(self, other: Self) -> bool {
        &&& self.precision >= other.precision
        &&& self.min_exponent <= other.min_exponent
        &&& self.max_exponent >= other.max_exponent
    }

    pub fn new(precision: usize, min_exponent: isize, max_exponent: isize,
        base: UniFloatBoundsBase) -> (r: Self)
        requires
            1 <= precision,
        ensures
            r == (UniFloatBounds { precision, min_exponent, max_exponent, base }),
            r.wf(),
    {
        Self { precision, min_exponent, max_exponent, base }
    }

    /// Whether `self` accommodates all needs of `other`. Only bounds in the
    /// same base are comparable.
    pub fn covers(&self, other: &Self) -> (r: bool)
        requires
            self.base == other.base,
        ensures
            r == self.spec_covers(*other),
    {
        self.precision >= other.precision
            && self.min_exponent <= other.min_exponent
            && self.max_exponent >= other.max_exponent
    }

    /// A value storage based on the returned choice may accommodate values
    /// outside the given bounds, but is guaranteed to fulfill them.
    pub fn accommodate(&self) -> (r: UniFloatChoice)
        requires
            self.to_choice_wf(),
        ensures
            r == self.spec_to_choice(),
            r.wf(),
    {
        UniFloatBoundsToChoice::to_choice(self)
    }
}

/// Selection: the cheapest representation choice that covers a bounds
/// request.
pub trait UniFloatBoundsToChoice {
    /// When selection is defined for `self`: decimal-base forward selection
    /// has no rounding-safe meaning and is excluded.
    spec fn to_choice_wf(&self) -> bool;

    /// The choice that `to_choice` returns.
    spec fn spec_to_choice(&self) -> UniFloatChoice;

    fn to_choice(&self) -> (r: UniFloatChoice)
        requires
            self.to_choice_wf(),
        ensures
            r == self.spec_to_choice(),
            r.wf(),
    ;
}

impl UniFloatBoundsToChoice for UniFloatBounds {
    /// Selection takes a well-formed binary request whose precision the
    /// machine word can size limbs for.
    open spec fn to_choice_wf(&self) -> bool {
        &&& self.wf()
        &&& self.precision <= MAX_PRECISION_BITS
        &&& self.base == UniFloatBoundsBase::BINARY
    }

    /// The fixed candidates in ascending cost order, then the
    /// arbitrary-precision fallback sized for the requested precision.
    open spec fn spec_to_choice(&self) -> UniFloatChoice {
        if spec_f32_bounds_binary().spec_covers(*self) {
            UniFloatChoice::F32
        } else if spec_f64_bounds_binary().spec_covers(*self) {
            UniFloatChoice::F64
        } else if spec_twofloat_bounds_binary().spec_covers(*self) {
            UniFloatChoice::TwoFloat
        } else {
            UniFloatChoice::Mpfr { bounds: spec_for_precision_binary(self.precision as int) }
        }
    }

    fn to_choice(&self) -> (r: UniFloatChoice) {
        let f32_record = UniFloatBounds::new(
            F32_PRECISION, F32_MIN_EXPONENT, F32_MAX_EXPONENT, UniFloatBoundsBase::BINARY);
        let f64_record = UniFloatBounds::new(
            F64_PRECISION, F64_MIN_EXPONENT, F64_MAX_EXPONENT, UniFloatBoundsBase::BINARY);
        let twofloat_record = UniFloatBounds::new(
            TWOFLOAT_PRECISION, F64_MIN_EXPONENT, F64_MAX_EXPONENT, UniFloatBoundsBase::BINARY);
        if f32_record.covers(self) {
            UniFloatChoice::F32
        } else if f64_record.covers(self) {
            UniFloatChoice::F64
        } else if twofloat_record.covers(self) {
            UniFloatChoice::TwoFloat
        } else {
            UniFloatChoice::Mpfr { bounds: MpfrBounds::for_precision_binary(self.precision) }
        }
    }
}

/// The inverse mapping: the bounds a representation choice guarantees.
pub trait UniFloatChoiceToBounds: Sized {
    /// The bounds that `to_bounds` returns.
    spec fn spec_to_bounds(choice: UniFloatChoice, base: UniFloatBoundsBase) -> Self;

    fn to_bounds(choice: &UniFloatChoice, base: UniFloatBoundsBase) -> (r: Self)
        requires
            choice.wf(),
        ensures
            r == Self::spec_to_bounds(*choice, base),
    ;
}

impl UniFloatChoiceToBounds for UniFloatBounds {
    /// Exact fixed records for the three native representations. An
    /// arbitrary-precision choice guarantees its precision over the full
    /// native exponent range; its decimal record scales by log10(2), with
    /// the precision floored and the exponent bounds rounded outward.
    open spec fn spec_to_bounds(choice: UniFloatChoice, base: UniFloatBoundsBase) -> Self {
        match base {
            UniFloatBoundsBase::BINARY => match choice {
                UniFloatChoice::F32 => spec_f32_bounds_binary(),
                UniFloatChoice::F64 => spec_f64_bounds_binary(),
                UniFloatChoice::TwoFloat => spec_twofloat_bounds_binary(),
                UniFloatChoice::Mpfr { bounds } => UniFloatBounds {
                    precision: bounds.precision_bits,
                    min_exponent: isize::MIN,
                    max_exponent: isize::MAX,
                    base: UniFloatBoundsBase::BINARY,
                },
            },
            UniFloatBoundsBase::DECIMAL => match choice {
                UniFloatChoice::F32 => spec_f32_bounds_decimal(),
                UniFloatChoice::F64 => spec_f64_bounds_decimal(),
                UniFloatChoice::TwoFloat => spec_twofloat_bounds_decimal(),
                UniFloatChoice::Mpfr { bounds } => UniFloatBounds {
                    precision: spec_mul_log10_2_floor(bounds.precision_bits as int) as usize,
                    min_exponent: spec_mul_log10_2_floor(isize::MIN as int) as isize,
                    max_exponent: spec_mul_log10_2_ceil(isize::MAX as int) as isize,
                    base: UniFloatBoundsBase::DECIMAL,
                },
            },
        }
    }

    fn to_bounds(choice: &UniFloatChoice, base: UniFloatBoundsBase) -> (r: Self) {
        match base {
            UniFloatBoundsBase::BINARY => match *choice {
                UniFloatChoice::F32 => UniFloatBounds::new(
                    F32_PRECISION, F32_MIN_EXPONENT, F32_MAX_EXPONENT, base),
                UniFloatChoice::F64 => UniFloatBounds::new(
                    F64_PRECISION, F64_MIN_EXPONENT, F64_MAX_EXPONENT, base),
                UniFloatChoice::TwoFloat => UniFloatBounds::new(
                    TWOFLOAT_PRECISION, F64_MIN_EXPONENT, F64_MAX_EXPONENT, base),
                UniFloatChoice::Mpfr { bounds } => UniFloatBounds {
                    precision: bounds.precision_bits,
                    min_exponent: isize::MIN,
                    max_exponent: isize::MAX,
                    base,
                },
            },
            UniFloatBoundsBase::DECIMAL => match *choice {
                UniFloatChoice::F32 => UniFloatBounds::new(
                    F32_PRECISION_DECIMAL, F32_MIN_EXPONENT_DECIMAL,
                    F32_MAX_EXPONENT_DECIMAL, base),
                UniFloatChoice::F64 => UniFloatBounds::new(
                    F64_PRECISION_DECIMAL, F64_MIN_EXPONENT_DECIMAL,
                    F64_MAX_EXPONENT_DECIMAL, base),
                UniFloatChoice::TwoFloat => UniFloatBounds::new(
                    TWOFLOAT_PRECISION_DECIMAL, F64_MIN_EXPONENT_DECIMAL,
                    F64_MAX_EXPONENT_DECIMAL, base),
                UniFloatChoice::Mpfr { bounds } => UniFloatBounds {
                    precision: mul_log10_2_floor_nonneg(bounds.precision_bits),
                    min_exponent: mul_log10_2_floor_isize(isize::MIN),
                    max_exponent: {
                        let m: usize = isize::MAX as usize;
                        mul_log10_2_ceil_nonneg(m) as isize
                    },
                    base,
                },
            },
        }
    }
}

impl UniFloatChoice {
    /// The bounds this choice guarantees, in the requested base.
    pub fn bounds(&self, base: UniFloatBoundsBase) -> (r: UniFloatBounds)
        requires
            self.wf(),
        ensures
            r == UniFloatBounds::spec_to_bounds(*self, base),
    {
        UniFloatBounds::to_bounds(self, base)
    }
}

} // verus!
