use guestlink::value::{check_kinds, marshal_values, unmarshal, unmarshal_values, RawValue, Value,
    ValueKind};

#[test]
fn marshal_preserves_i32_sign_bits() {
    let r = Value::I32(-1).marshal();
    assert_eq!(r.kind, ValueKind::I32);
    assert_eq!(r.bits, 0xFFFF_FFFF);
    assert_eq!(unmarshal(r), Some(Value::I32(-1)));
}

#[test]
fn round_trip_i32_extremes() {
    for v in [i32::MIN, -1, 0, 1, i32::MAX] {
        let raw = Value::I32(v).marshal();
        assert_eq!(unmarshal(raw), Some(Value::I32(v)));
    }
}

#[test]
fn round_trip_i64_extremes() {
    for v in [i64::MIN, -1, 0, 1, i64::MAX] {
        let raw = Value::I64(v).marshal();
        assert_eq!(unmarshal(raw), Some(Value::I64(v)));
    }
}

#[test]
fn round_trip_f32_nan_payload() {
    // A quiet NaN with a nonzero payload: the bit pattern must survive
    // marshaling untouched, though no float ever compares equal to it.
    let bits = f32::NAN.to_bits() | 0x0007_0301;
    let raw = Value::F32Bits(bits).marshal();
    assert_eq!(raw.kind, ValueKind::F32);
    assert_eq!(raw.bits, bits as u64);
    assert_eq!(unmarshal(raw), Some(Value::F32Bits(bits)));
    assert!(f32::from_bits(bits).is_nan());
}

#[test]
fn round_trip_f64_nan_payload() {
    let bits = f64::NAN.to_bits() | 0x000F_FFFF_0000_0001;
    let raw = Value::F64Bits(bits).marshal();
    assert_eq!(unmarshal(raw), Some(Value::F64Bits(bits)));
    assert!(f64::from_bits(bits).is_nan());
}

#[test]
fn unmarshal_rejects_bits_too_wide_for_kind() {
    let r = RawValue { kind: ValueKind::I32, bits: 0x1_0000_0000 };
    assert_eq!(unmarshal(r), None);
    let r = RawValue { kind: ValueKind::F32, bits: u64::MAX };
    assert_eq!(unmarshal(r), None);
}

#[test]
fn kind_checking_is_exact() {
    let vals = vec![Value::I32(1), Value::F64Bits(0)];
    assert!(check_kinds(&vals, &vec![ValueKind::I32, ValueKind::F64]));
    assert!(!check_kinds(&vals, &vec![ValueKind::I32, ValueKind::F32]));
    assert!(!check_kinds(&vals, &vec![ValueKind::I32]));
}

#[test]
fn list_round_trip_is_bit_identical() {
    let vals = vec![Value::I32(-7), Value::I64(i64::MIN), Value::F32Bits(0xFFC0_0001)];
    let raw = marshal_values(&vals);
    let kinds = vec![ValueKind::I32, ValueKind::I64, ValueKind::F32];
    let back = unmarshal_values(&raw, &kinds).expect("well-typed list must decode");
    assert_eq!(back, vals);
}

#[test]
fn list_decoding_rejects_wrong_kind() {
    let raw = vec![RawValue { kind: ValueKind::I64, bits: 3 }];
    assert!(unmarshal_values(&raw, &vec![ValueKind::I32]).is_none());
    assert!(unmarshal_values(&raw, &vec![ValueKind::I64]).is_some());
}
