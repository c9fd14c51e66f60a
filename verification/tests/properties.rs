use std::collections::{BTreeMap, HashMap};

use cbor_nan_bstr::{NanBstr, NanError, NanWidth, TAG_NAN_BSTR};
use dcbor::CBOR;

#[test]
fn infinity_rejected_at_every_width() {
    // All-ones exponent with zero fraction is an infinity: rejected with
    // NotANan at each of the four widths, for both signs.
    assert!(matches!(NanBstr::from_binary16_bits(0x7C00), Err(NanError::NotANan)));
    assert!(matches!(NanBstr::from_binary16_bits(0xFC00), Err(NanError::NotANan)));
    assert!(matches!(NanBstr::from_binary32_bits(0x7F80_0000), Err(NanError::NotANan)));
    assert!(matches!(NanBstr::from_binary32_bits(0xFF80_0000), Err(NanError::NotANan)));
    assert!(matches!(NanBstr::from_binary64_bits(0x7FF0_0000_0000_0000), Err(NanError::NotANan)));
    assert!(matches!(NanBstr::from_binary64_bits(0xFFF0_0000_0000_0000), Err(NanError::NotANan)));
    assert!(matches!(NanBstr::from_binary128_bits(0x7FFFu128 << 112), Err(NanError::NotANan)));
    assert!(matches!(
        NanBstr::from_binary128_bits((0xFFFFu128 << 112)),
        Err(NanError::NotANan)
    ));
}

#[test]
fn finite_values_rejected() {
    assert!(matches!(NanBstr::from_binary16_bits(0x0000), Err(NanError::NotANan)));
    assert!(matches!(NanBstr::from_binary32_bits(0x3F80_0000), Err(NanError::NotANan)));
    assert!(matches!(NanBstr::from_binary64_bits(0x4000_0000_0000_0000), Err(NanError::NotANan)));
    assert!(matches!(NanBstr::from_binary128_bits(1), Err(NanError::NotANan)));
}

#[test]
fn invalid_length_distinct_from_not_a_nan() {
    // A buffer of the wrong length fails with InvalidLength carrying the
    // length — never with NotANan.
    for len in [0usize, 1, 3, 5, 7, 9, 15, 17, 32] {
        let buf = vec![0xFFu8; len];
        match NanBstr::from_be_bytes(&buf) {
            Err(NanError::InvalidLength(l)) => assert_eq!(l, len),
            other => panic!("expected InvalidLength, got {:?}", other),
        }
    }
    // A well-sized buffer that is not a NaN fails with NotANan instead.
    assert!(matches!(NanBstr::from_be_bytes(&[0x7C, 0x00]), Err(NanError::NotANan)));
}

#[test]
fn from_be_bytes_accepts_valid_patterns() {
    let n = NanBstr::from_be_bytes(&[0x7E, 0x00]).unwrap();
    assert_eq!(n.width(), NanWidth::Binary16);
    assert_eq!(n.as_bytes(), &[0x7E, 0x00]);

    let n = NanBstr::from_be_bytes(&[0x7F, 0xC0, 0x00, 0x01]).unwrap();
    assert_eq!(n.width(), NanWidth::Binary32);
    assert_eq!(n.as_bytes(), &[0x7F, 0xC0, 0x00, 0x01]);
}

#[test]
fn width_from_len_mapping() {
    assert_eq!(NanWidth::from_len(2).unwrap(), NanWidth::Binary16);
    assert_eq!(NanWidth::from_len(4).unwrap(), NanWidth::Binary32);
    assert_eq!(NanWidth::from_len(8).unwrap(), NanWidth::Binary64);
    assert_eq!(NanWidth::from_len(16).unwrap(), NanWidth::Binary128);
    assert!(matches!(NanWidth::from_len(3), Err(NanError::InvalidLength(3))));
    assert_eq!(NanWidth::Binary16.len(), 2);
    assert_eq!(NanWidth::Binary32.len(), 4);
    assert_eq!(NanWidth::Binary64.len(), 8);
    assert_eq!(NanWidth::Binary128.len(), 16);
}

#[test]
fn payload_excludes_exactly_the_quiet_bit() {
    // For every width: fraction = payload + quiet-bit place value when
    // quiet, and payload stays below that place value.
    let n = NanBstr::from_binary16_bits(0x7E05).unwrap();
    assert!(n.is_quiet());
    assert_eq!(n.fraction_bits(), 0x205);
    assert_eq!(n.payload_bits(), 0x5);
    assert_eq!(n.fraction_bits() - n.payload_bits(), 0x200);

    let n = NanBstr::from_binary32_bits(0x7FC0_0123).unwrap();
    assert!(n.is_quiet());
    assert_eq!(n.fraction_bits(), 0x40_0123);
    assert_eq!(n.payload_bits(), 0x123);

    let n = NanBstr::from_binary64_bits(0xFFF8_0000_0000_0042).unwrap();
    assert!(n.is_quiet());
    assert!(n.sign());
    assert_eq!(n.fraction_bits(), 0x8_0000_0000_0042);
    assert_eq!(n.payload_bits(), 0x42);

    let n = NanBstr::from_binary128_bits((0x7FFFu128 << 112) | (1u128 << 111) | 0x77).unwrap();
    assert!(n.is_quiet());
    assert_eq!(n.fraction_bits(), (1u128 << 111) | 0x77);
    assert_eq!(n.payload_bits(), 0x77);

    // For a signaling NaN the payload equals the fraction.
    let n = NanBstr::from_binary32_bits(0x7F80_0001).unwrap();
    assert!(n.is_signaling());
    assert_eq!(n.fraction_bits(), n.payload_bits());
}

#[test]
fn signaling_is_negation_of_quiet() {
    let q = NanBstr::from_binary16_bits(0x7E00).unwrap();
    assert!(q.is_quiet() && !q.is_signaling());
    let s = NanBstr::from_binary16_bits(0x7D00).unwrap();
    assert!(!s.is_quiet() && s.is_signaling());
}

#[test]
fn bit_pattern_round_trip_is_exact() {
    // Round-tripping a specific bit pattern is bit-exact at every width.
    let bits16: u16 = 0xFE2A;
    let n = NanBstr::from_binary16_bits(bits16).unwrap();
    assert_eq!(n.as_bytes(), &bits16.to_be_bytes());

    let bits32: u32 = 0xFFC0_0001;
    let n = NanBstr::from_binary32_bits(bits32).unwrap();
    assert_eq!(n.to_binary32_bits().unwrap(), bits32);
    assert!(f32::from_bits(n.to_binary32_bits().unwrap()).is_nan());

    let bits64: u64 = 0x7FF4_0000_0000_0999;
    let n = NanBstr::from_binary64_bits(bits64).unwrap();
    assert_eq!(n.to_binary64_bits().unwrap(), bits64);
    assert!(f64::from_bits(n.to_binary64_bits().unwrap()).is_nan());

    let bits128: u128 = (0x7FFFu128 << 112) | 0xDEAD_BEEF;
    let n = NanBstr::from_binary128_bits(bits128).unwrap();
    assert_eq!(n.to_binary128_bits().unwrap(), bits128);

    // A native float's own bits survive the trip unchanged.
    let f = f32::from_bits(0x7FC0_1234);
    assert!(f.is_nan());
    let n = NanBstr::from_binary32_bits(f.to_bits()).unwrap();
    assert_eq!(n.to_binary32_bits().unwrap(), f.to_bits());
}

#[test]
fn wrong_width_float_conversion_always_fails() {
    let half = NanBstr::from_binary16_bits(0x7E00).unwrap();
    assert!(matches!(half.to_binary32_bits(), Err(NanError::InvalidLength(2))));
    assert!(matches!(half.to_binary64_bits(), Err(NanError::InvalidLength(2))));
    assert!(half.to_binary128_bits().is_none());

    let quad = NanBstr::from_binary128_bits((0x7FFFu128 << 112) | 1).unwrap();
    assert!(matches!(quad.to_binary32_bits(), Err(NanError::InvalidLength(16))));
    assert!(matches!(quad.to_binary64_bits(), Err(NanError::InvalidLength(16))));

    let single = NanBstr::from_binary32_bits(0x7FC0_0000).unwrap();
    assert!(single.to_binary128_bits().is_none());
    assert_eq!(quad.to_binary128_bits(), Some((0x7FFFu128 << 112) | 1));
}

#[test]
fn from_binary128_words_composes_high_and_low() {
    let high: u64 = 0x7FFF_8000_0000_0000;
    let low: u64 = 0x0000_0000_0000_0042;
    let n = NanBstr::from_binary128_words(high, low).unwrap();
    let expected = ((high as u128) << 64) | (low as u128);
    assert_eq!(n.to_binary128_bits(), Some(expected));
    assert_eq!(n, NanBstr::from_binary128_bits(expected).unwrap());

    // Words that compose to an infinity are rejected.
    assert!(NanBstr::from_binary128_words(0x7FFF_0000_0000_0000, 0).is_err());
}

#[test]
fn wire_round_trip_every_width_sign_and_class() {
    // Round trip through the tagged wire form for all four widths, both
    // signs, both quiet/signaling classes.
    let patterns: Vec<NanBstr> = vec![
        NanBstr::from_binary16_bits(0x7E00).unwrap(),
        NanBstr::from_binary16_bits(0xFD01).unwrap(),
        NanBstr::from_binary32_bits(0x7FC0_0001).unwrap(),
        NanBstr::from_binary32_bits(0xFF80_0001).unwrap(),
        NanBstr::from_binary64_bits(0x7FF8_0000_0000_0123).unwrap(),
        NanBstr::from_binary64_bits(0xFFF0_0000_0000_0001).unwrap(),
        NanBstr::from_binary128_bits((0x7FFFu128 << 112) | (1u128 << 111)).unwrap(),
        NanBstr::from_binary128_bits((0xFFFFu128 << 112) | 1).unwrap(),
    ];
    for n in patterns {
        let back = NanBstr::from_tagged_cbor(n.tagged_cbor()).unwrap();
        assert_eq!(n, back);
        // Also through the fully serialized form.
        let data = n.to_cbor().to_cbor_data();
        let cbor = CBOR::try_from_data(&data).unwrap();
        let back = NanBstr::from_tagged_cbor(cbor).unwrap();
        assert_eq!(n, back);
    }
}

#[test]
fn wire_bytes_are_tag_102_over_byte_string() {
    // 0xD8 0x66 is the two-byte head of tag 102; 0x42 a 2-byte string.
    let n = NanBstr::from_binary16_bits(0x7E00).unwrap();
    assert_eq!(n.to_cbor().to_cbor_data(), vec![0xD8, 0x66, 0x42, 0x7E, 0x00]);
    assert_eq!(TAG_NAN_BSTR, 102);
}

#[test]
fn untagged_cbor_is_bare_byte_string() {
    let n = NanBstr::from_binary16_bits(0x7E00).unwrap();
    let cbor = n.untagged_cbor();
    assert_eq!(cbor.diagnostic(), "h'7e00'");
    let back = NanBstr::from_untagged_cbor(cbor).unwrap();
    assert_eq!(n, back);
}

#[test]
fn decode_rejects_wrong_payload_shape() {
    // Tag 102 over a text string: the collaborator's error is passed
    // through as the Cbor kind.
    let cbor = CBOR::to_tagged_value(102, "hello");
    assert!(matches!(NanBstr::from_tagged_cbor(cbor), Err(NanError::Cbor(_))));

    // An untagged byte string is not a valid tagged envelope.
    let cbor = CBOR::to_byte_string(vec![0x7E, 0x00]);
    assert!(matches!(NanBstr::from_tagged_cbor(cbor), Err(NanError::Cbor(_))));

    // A non-byte-string payload fails the untagged decode too.
    let cbor: CBOR = "hello".into();
    assert!(matches!(NanBstr::from_untagged_cbor(cbor), Err(NanError::Cbor(_))));
}

#[test]
fn decode_rejects_wrong_tag() {
    let n = NanBstr::from_binary16_bits(0x7E00).unwrap();
    let cbor = CBOR::to_tagged_value(103, n.untagged_cbor());
    assert!(matches!(NanBstr::from_tagged_cbor(cbor), Err(NanError::Cbor(_))));
}

#[test]
fn decode_revalidates_untrusted_bytes() {
    // Tag 102 over bytes of a wrong length: InvalidLength, with the length.
    let cbor = CBOR::to_tagged_value(102, CBOR::to_byte_string(vec![0x7E, 0x00, 0x00]));
    assert!(matches!(NanBstr::from_tagged_cbor(cbor), Err(NanError::InvalidLength(3))));

    // Tag 102 over an infinity pattern: NotANan.
    let cbor = CBOR::to_tagged_value(102, CBOR::to_byte_string(vec![0x7C, 0x00]));
    assert!(matches!(NanBstr::from_tagged_cbor(cbor), Err(NanError::NotANan)));
}

#[test]
fn equality_is_over_raw_bytes() {
    // Same width, sign and class, different payload: unequal.
    let a = NanBstr::from_binary32_bits(0x7FC0_0001).unwrap();
    let b = NanBstr::from_binary32_bits(0x7FC0_0002).unwrap();
    assert_ne!(a, b);
    assert_eq!(a, a.clone());

    // Usable as ordered and hashed map keys.
    let mut ordered: BTreeMap<NanBstr, u32> = BTreeMap::new();
    ordered.insert(a.clone(), 1);
    ordered.insert(b.clone(), 2);
    assert_eq!(ordered.len(), 2);
    assert_eq!(ordered[&a], 1);
    assert!(a < b);

    let mut hashed: HashMap<NanBstr, u32> = HashMap::new();
    hashed.insert(a.clone(), 1);
    hashed.insert(a.clone(), 3);
    assert_eq!(hashed.len(), 1);
    assert_eq!(hashed[&a], 3);
}

#[test]
fn diagnostic_rendering_is_deterministic() {
    let n = NanBstr::from_binary64_bits(0xFFFF_FFFF_FFFF_FFFF).unwrap();
    assert_eq!(n.to_string(), "NaN[64]: - quiet frac=0xfffffffffffff payload=0x7ffffffffffff");
    assert_eq!(n.to_string(), n.to_string());
}
