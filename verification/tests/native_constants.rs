//! The crate's modelled constants against the native representations and
//! the extended-precision crate.

use twofloat::TwoFloat;
use unifloat::{
    UniFloatChoice, F32_NAN_BITS, F64_NAN_BITS, LIMB_BITS, TWOFLOAT_SIZE_BYTES,
};

#[test]
fn canonical_nan_bits_are_nan() {
    assert!(f32::from_bits(F32_NAN_BITS).is_nan());
    assert!(f64::from_bits(F64_NAN_BITS).is_nan());
    assert_eq!(f32::NAN.to_bits(), F32_NAN_BITS);
    assert_eq!(f64::NAN.to_bits(), F64_NAN_BITS);
}

#[test]
fn twofloat_nan_has_the_canonical_shape() {
    assert!(unifloat::twofloat_nan_matches_canonical_shape());
    assert!(TwoFloat::NAN.hi().is_nan());
    assert!(TwoFloat::NAN.lo().is_nan());
}

#[test]
fn modelled_sizes_match_the_native_types() {
    assert_eq!(std::mem::size_of::<f32>(), UniFloatChoice::F32.unifloat_size());
    assert_eq!(std::mem::size_of::<f64>(), UniFloatChoice::F64.unifloat_size());
    assert_eq!(std::mem::size_of::<TwoFloat>(), TWOFLOAT_SIZE_BYTES);
    assert_eq!(std::mem::size_of::<usize>() * 8, LIMB_BITS);
}
