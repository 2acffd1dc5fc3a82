//! Selection, inverse bounds, sizing and precision-widening scenarios.

use unifloat::{
    f32_parts_length, f64_parts_length, mpfr_fixed_parts_length, mpfr_limb_parts_length,
    twofloat_parts_length, MpfrBounds, UniFloatBounds, UniFloatBoundsBase,
    UniFloatChoice,
};

fn binary(precision: usize, min_exponent: isize, max_exponent: isize) -> UniFloatBounds {
    UniFloatBounds::new(precision, min_exponent, max_exponent, UniFloatBoundsBase::BINARY)
}

#[test]
fn single_precision_request_selects_single() {
    let b = binary(24, -126, 127);
    assert_eq!(b.accommodate(), UniFloatChoice::F32);
}

#[test]
fn double_precision_request_selects_double() {
    let b = binary(53, -1021, 1024);
    assert_eq!(b.accommodate(), UniFloatChoice::F64);
}

#[test]
fn extended_precision_request_selects_extended() {
    let b = binary(106, -1021, 1024);
    assert_eq!(b.accommodate(), UniFloatChoice::TwoFloat);
}

#[test]
fn wide_precision_request_selects_arbitrary() {
    let b = binary(500, -1021, 1024);
    assert_eq!(
        b.accommodate(),
        UniFloatChoice::Mpfr { bounds: MpfrBounds { precision_bits: 500, limb_parts: 8 } }
    );
}

#[test]
fn tight_exponent_range_on_single_precision_spills_over() {
    // Precision alone would fit the single form; the lower exponent bound
    // does not, so the next candidate that covers both wins.
    let b = binary(24, -1000, 127);
    assert_eq!(b.accommodate(), UniFloatChoice::F64);
    // And a range no native form covers falls through to the arbitrary form.
    let b = binary(24, -1000000, 127);
    assert_eq!(
        b.accommodate(),
        UniFloatChoice::Mpfr { bounds: MpfrBounds { precision_bits: 24, limb_parts: 1 } }
    );
}

#[test]
fn selection_covers_its_request() {
    let requests = [
        binary(1, 0, 0),
        binary(24, -126, 127),
        binary(54, -5, 5),
        binary(200, -1021, 1024),
        binary(107, -10, 10),
    ];
    for b in requests {
        let choice = b.accommodate();
        let guaranteed = choice.bounds(UniFloatBoundsBase::BINARY);
        assert!(guaranteed.covers(&b));
    }
}

#[test]
fn fixed_representations_select_themselves() {
    for choice in [UniFloatChoice::F32, UniFloatChoice::F64, UniFloatChoice::TwoFloat] {
        let b = choice.bounds(UniFloatBoundsBase::BINARY);
        assert_eq!(b.accommodate(), choice);
    }
}

#[test]
fn binary_bounds_of_fixed_representations() {
    let f32_bounds = UniFloatChoice::F32.bounds(UniFloatBoundsBase::BINARY);
    assert_eq!(f32_bounds, binary(24, -126, 127));
    let f64_bounds = UniFloatChoice::F64.bounds(UniFloatBoundsBase::BINARY);
    assert_eq!(f64_bounds, binary(53, -1021, 1024));
    let twofloat_bounds = UniFloatChoice::TwoFloat.bounds(UniFloatBoundsBase::BINARY);
    assert_eq!(twofloat_bounds, binary(106, -1021, 1024));
}

#[test]
fn binary_bounds_of_arbitrary_choice_are_exact() {
    let choice = UniFloatChoice::Mpfr {
        bounds: MpfrBounds { precision_bits: 500, limb_parts: 8 },
    };
    let b = choice.bounds(UniFloatBoundsBase::BINARY);
    assert_eq!(b, binary(500, isize::MIN, isize::MAX));
}

#[test]
fn decimal_bounds_of_fixed_representations() {
    let decimal = UniFloatBoundsBase::DECIMAL;
    assert_eq!(
        UniFloatChoice::F32.bounds(decimal),
        UniFloatBounds::new(6, -37, 38, decimal)
    );
    assert_eq!(
        UniFloatChoice::F64.bounds(decimal),
        UniFloatBounds::new(15, -307, 308, decimal)
    );
    assert_eq!(
        UniFloatChoice::TwoFloat.bounds(decimal),
        UniFloatBounds::new(30, -307, 308, decimal)
    );
}

#[test]
fn decimal_bounds_of_arbitrary_choice_are_scaled() {
    let choice = UniFloatChoice::Mpfr {
        bounds: MpfrBounds { precision_bits: 100, limb_parts: 2 },
    };
    let b = choice.bounds(UniFloatBoundsBase::DECIMAL);
    // floor(100 * log10(2)) digits; exponent bounds rounded outward.
    assert_eq!(b.precision, 30);
    assert_eq!(b.min_exponent, -2776511684254393162);
    assert_eq!(b.max_exponent, 2776511684254393162);
    assert_eq!(b.base, UniFloatBoundsBase::DECIMAL);
}

#[test]
fn storage_sizes_of_fixed_representations() {
    assert_eq!(UniFloatChoice::F32.unifloat_size(), 4);
    assert_eq!(UniFloatChoice::F64.unifloat_size(), 8);
    assert_eq!(UniFloatChoice::TwoFloat.unifloat_size(), 16);
}

#[test]
fn storage_size_of_arbitrary_grows_per_limb() {
    let one = UniFloatChoice::Mpfr { bounds: MpfrBounds { precision_bits: 1, limb_parts: 1 } };
    assert_eq!(one.unifloat_size(), 40);
    let two = UniFloatChoice::Mpfr { bounds: MpfrBounds { precision_bits: 100, limb_parts: 2 } };
    assert_eq!(two.unifloat_size(), 48);
    let eight = UniFloatChoice::Mpfr { bounds: MpfrBounds { precision_bits: 500, limb_parts: 8 } };
    assert_eq!(eight.unifloat_size(), 96);
}

#[test]
fn storage_size_nondecreasing_in_requested_precision() {
    let mut last: usize = 0;
    for precision in [1usize, 63, 64, 65, 100, 128, 500, 501, 1000] {
        let b = binary(precision, isize::MIN, isize::MAX);
        let size = b.accommodate().unifloat_size();
        assert!(size >= last);
        last = size;
    }
}

#[test]
fn most_precise_for_same_space_widens_arbitrary() {
    let c = UniFloatChoice::Mpfr { bounds: MpfrBounds { precision_bits: 100, limb_parts: 2 } };
    let widened = c.most_precise_for_same_space();
    assert_eq!(
        widened,
        UniFloatChoice::Mpfr { bounds: MpfrBounds { precision_bits: 128, limb_parts: 2 } }
    );
    assert_eq!(widened.unifloat_size(), c.unifloat_size());
}

#[test]
fn most_precise_for_same_space_keeps_fixed_representations() {
    for choice in [UniFloatChoice::F32, UniFloatChoice::F64, UniFloatChoice::TwoFloat] {
        assert_eq!(choice.most_precise_for_same_space(), choice);
    }
    let full = UniFloatChoice::Mpfr { bounds: MpfrBounds { precision_bits: 128, limb_parts: 2 } };
    assert_eq!(full.most_precise_for_same_space(), full);
}

#[test]
fn limb_sizing_for_binary_precision() {
    assert_eq!(
        MpfrBounds::for_precision_binary(1),
        MpfrBounds { precision_bits: 1, limb_parts: 1 }
    );
    assert_eq!(
        MpfrBounds::for_precision_binary(64),
        MpfrBounds { precision_bits: 64, limb_parts: 1 }
    );
    assert_eq!(
        MpfrBounds::for_precision_binary(65),
        MpfrBounds { precision_bits: 65, limb_parts: 2 }
    );
    assert_eq!(
        MpfrBounds::for_precision_binary(500),
        MpfrBounds { precision_bits: 500, limb_parts: 8 }
    );
}

#[test]
fn limb_sizing_for_decimal_precision() {
    // ceil(d / log10(2)): about 3.32 bits per decimal digit.
    assert_eq!(
        MpfrBounds::for_precision_decimal(1),
        MpfrBounds { precision_bits: 4, limb_parts: 1 }
    );
    assert_eq!(
        MpfrBounds::for_precision_decimal(15),
        MpfrBounds { precision_bits: 50, limb_parts: 1 }
    );
    assert_eq!(
        MpfrBounds::for_precision_decimal(100),
        MpfrBounds { precision_bits: 333, limb_parts: 6 }
    );
}

#[test]
fn parts_lengths_per_choice() {
    let arb = UniFloatChoice::Mpfr { bounds: MpfrBounds { precision_bits: 500, limb_parts: 8 } };
    assert_eq!(f32_parts_length(UniFloatChoice::F32), 1);
    assert_eq!(f32_parts_length(arb), 0);
    assert_eq!(f64_parts_length(UniFloatChoice::F64), 1);
    assert_eq!(f64_parts_length(UniFloatChoice::F32), 0);
    assert_eq!(twofloat_parts_length(UniFloatChoice::TwoFloat), 1);
    assert_eq!(twofloat_parts_length(UniFloatChoice::F64), 0);
    assert_eq!(mpfr_limb_parts_length(arb), 8);
    assert_eq!(mpfr_limb_parts_length(UniFloatChoice::F32), 0);
    assert_eq!(mpfr_fixed_parts_length(arb), 1);
    assert_eq!(mpfr_fixed_parts_length(UniFloatChoice::TwoFloat), 0);
}

#[test]
fn covers_checks_both_exponent_directions() {
    let wide = binary(24, -126, 127);
    assert!(wide.covers(&binary(24, -126, 127)));
    assert!(wide.covers(&binary(10, -100, 100)));
    assert!(!wide.covers(&binary(25, -126, 127)));
    assert!(!wide.covers(&binary(24, -127, 127)));
    assert!(!wide.covers(&binary(24, -126, 128)));
}
