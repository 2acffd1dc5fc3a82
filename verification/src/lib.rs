//! A uniform floating-point value model: callers state the precision and
//! exponent range they need, the crate picks the cheapest representation that
//! covers the request, and the value storage for the arbitrary-precision
//! branch carries a self-referential descriptor kept valid by an explicit
//! copy/fixup protocol.

mod bounds;
mod laws;
mod choice;
mod precision;
mod storage;

pub use bounds::{
    UniFloatBounds, UniFloatBoundsBase, UniFloatBoundsToChoice, UniFloatChoiceToBounds,
    F32_MAX_EXPONENT, F32_MAX_EXPONENT_DECIMAL, F32_MIN_EXPONENT, F32_MIN_EXPONENT_DECIMAL,
    F32_PRECISION, F32_PRECISION_DECIMAL, F64_MAX_EXPONENT, F64_MAX_EXPONENT_DECIMAL,
    F64_MIN_EXPONENT, F64_MIN_EXPONENT_DECIMAL, F64_PRECISION, F64_PRECISION_DECIMAL,
    TWOFLOAT_PRECISION, TWOFLOAT_PRECISION_DECIMAL,
};
pub use choice::{
    f32_parts_length, f64_parts_length, mpfr_fixed_parts_length, mpfr_limb_parts_length,
    twofloat_parts_length, UniFloatChoice, F32_SIZE_BYTES, F64_SIZE_BYTES, LIMB_SIZE_BYTES,
    MPFR_FIXED_SIZE_BYTES, TWOFLOAT_SIZE_BYTES,
};
pub use precision::{
    MpfrBounds, LIMB_BITS, LOG10_2_DEN, LOG10_2_NUM, MAX_PRECISION_BITS,
    MAX_PRECISION_DECIMAL,
};
pub use storage::{
    copied, spec_nan_payload, twofloat_nan_matches_canonical_shape, MpfrFixed,
    TwoFloatBits, UniFloat, UniFloatPayload, UniFloatValue, F32_NAN_BITS, F64_NAN_BITS,
    MPFR_INITIAL_PREC, MPFR_INITIAL_SIGN, MPFR_NAN_EXP,
};
