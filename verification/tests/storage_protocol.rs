//! The value storage's construction, copy/fixup protocol, and payload reads.

use unifloat::{
    copied, MpfrBounds, UniFloat, UniFloatChoice, UniFloatValue, F32_NAN_BITS,
    F64_NAN_BITS, MPFR_INITIAL_PREC, MPFR_INITIAL_SIGN, MPFR_NAN_EXP,
};

fn arbitrary_two_limbs() -> UniFloatChoice {
    UniFloatChoice::Mpfr { bounds: MpfrBounds { precision_bits: 100, limb_parts: 2 } }
}

fn all_choices() -> [UniFloatChoice; 4] {
    [
        UniFloatChoice::F32,
        UniFloatChoice::F64,
        UniFloatChoice::TwoFloat,
        arbitrary_two_limbs(),
    ]
}

#[test]
fn fresh_instance_is_fixed() {
    for choice in all_choices() {
        let x = UniFloat::nan(choice, 4096);
        assert!(x.is_copy_fixed(4096));
        assert!(!x.is_copy_fixed(8192));
    }
}

#[test]
fn fresh_instance_reads_as_canonical_nan() {
    let x = UniFloat::nan(UniFloatChoice::F32, 16);
    match x.read(16) {
        UniFloatValue::SingleBits(bits) => assert_eq!(bits, F32_NAN_BITS),
        _ => panic!("wrong payload variant"),
    }
    let x = UniFloat::nan(UniFloatChoice::F64, 16);
    match x.read(16) {
        UniFloatValue::DoubleBits(bits) => assert_eq!(bits, F64_NAN_BITS),
        _ => panic!("wrong payload variant"),
    }
    let x = UniFloat::nan(UniFloatChoice::TwoFloat, 16);
    match x.read(16) {
        UniFloatValue::ExtendedBits(hi, lo) => {
            assert_eq!(hi, F64_NAN_BITS);
            assert_eq!(lo, F64_NAN_BITS);
        },
        _ => panic!("wrong payload variant"),
    }
    let x = UniFloat::nan(arbitrary_two_limbs(), 16);
    match x.read(16) {
        UniFloatValue::ArbitraryParts(prec, sign, exp, limbs) => {
            assert_eq!(prec, MPFR_INITIAL_PREC);
            assert_eq!(sign, MPFR_INITIAL_SIGN);
            assert_eq!(exp, MPFR_NAN_EXP);
            assert_eq!(limbs, vec![0u64, 0u64]);
        },
        _ => panic!("wrong payload variant"),
    }
}

#[test]
fn fresh_instances_compare_equal_to_canonical_nan() {
    for choice in all_choices() {
        let a = UniFloat::nan(choice, 100);
        let b = UniFloat::nan(choice, 200);
        assert!(a.eq_values(100, &b, 200));
    }
}

#[test]
fn adopt_by_value_is_immediately_readable() {
    for choice in all_choices() {
        let source = UniFloat::nan(choice, 100);
        let mut target = UniFloat::nan(choice, 200);
        let expected = source.read(100);
        target.adopt(source, 200);
        assert!(target.is_copy_fixed(200));
        assert!(target.read(200).eq_value(&expected));
    }
}

#[test]
fn adopt_by_reference_is_immediately_readable() {
    for choice in all_choices() {
        let source = UniFloat::nan(choice, 100);
        let mut target = UniFloat::nan(choice, 200);
        target.adopt_ref(&source, 100, 200);
        assert!(target.is_copy_fixed(200));
        assert!(target.read(200).eq_value(&source.read(100)));
    }
}

#[test]
fn raw_copy_is_pending_until_fixup() {
    let x = UniFloat::nan(arbitrary_two_limbs(), 1000);
    let original = x.read(1000);
    // The duplicate's bits land at a different placement: its descriptor
    // still names the source's limb block, so the read guard must reject it.
    let mut duplicate = x.raw_copy();
    assert!(!duplicate.is_copy_fixed(2000));
    // Fixup at the new placement makes the identical read succeed and
    // observe the pre-copy value.
    duplicate.copied(2000);
    assert!(duplicate.is_copy_fixed(2000));
    assert!(duplicate.read(2000).eq_value(&original));
}

#[test]
fn raw_copy_of_every_representation_needs_fixup_at_new_placement() {
    for choice in all_choices() {
        let x = UniFloat::nan(choice, 1);
        let mut duplicate = x.raw_copy();
        assert!(duplicate.is_copy_fixed(1));
        assert!(!duplicate.is_copy_fixed(2));
        duplicate.copied(2);
        assert!(duplicate.is_copy_fixed(2));
        assert!(x.eq_values(1, &duplicate, 2));
    }
}

#[test]
fn batch_fixup_fixes_every_element() {
    let mut buffer: Vec<UniFloat> = Vec::new();
    let mut old_addrs: Vec<usize> = Vec::new();
    for (i, choice) in all_choices().iter().enumerate() {
        buffer.push(UniFloat::nan(*choice, 10 + i));
        old_addrs.push(10 + i);
    }
    // The whole buffer is relocated: every element now lives at a new
    // placement, and one batch fixup must fix them all.
    let new_addrs: Vec<usize> = vec![500, 600, 700, 800];
    let mut relocated: Vec<UniFloat> = buffer.iter().map(|x| x.raw_copy()).collect();
    for (i, x) in relocated.iter().enumerate() {
        assert!(!x.is_copy_fixed(new_addrs[i]));
    }
    copied(&mut relocated, &new_addrs);
    for (i, x) in relocated.iter().enumerate() {
        assert!(x.is_copy_fixed(new_addrs[i]));
        assert!(x.eq_values(new_addrs[i], &buffer[i], old_addrs[i]));
    }
}

#[test]
fn payload_equality_tells_values_apart() {
    let a = UniFloat::nan(UniFloatChoice::F32, 1);
    let b = UniFloat::nan(UniFloatChoice::F64, 2);
    assert!(!a.eq_values(1, &b, 2));
    let c = UniFloat::nan(arbitrary_two_limbs(), 3);
    let d = UniFloat::nan(
        UniFloatChoice::Mpfr { bounds: MpfrBounds { precision_bits: 150, limb_parts: 3 } },
        4,
    );
    assert!(!c.eq_values(3, &d, 4));
}
