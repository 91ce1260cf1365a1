use bthome::parse_service_data;
use bthome::ButtonEvent;
use bthome::DimmerEvent;
use bthome::Error;
use bthome::ObjectId;
use bthome::ObjectValue;
use bthome::ScaledValue;

fn scaled_to_f32(s: &ScaledValue) -> f32 {
    s.raw as f32 * s.factor_thousandths as f32 / 1000.0
}

#[test]
fn header_bits_encrypted_and_trigger_based() {
    let sd = parse_service_data(&[0b0000_0101]).unwrap();
    assert!(sd.encrypted);
    assert!(sd.trigger_based);
    assert_eq!(sd.version, 0);
    assert!(sd.objects.is_empty());
}

#[test]
fn header_bits_version_only() {
    let sd = parse_service_data(&[0b1010_0000]).unwrap();
    assert!(!sd.encrypted);
    assert!(!sd.trigger_based);
    assert_eq!(sd.version, 5);
    assert!(sd.objects.is_empty());
}

#[test]
fn empty_input_is_truncation() {
    assert_eq!(parse_service_data(&[]).unwrap_err(), Error::Truncation);
}

#[test]
fn header_only_yields_no_objects() {
    let sd = parse_service_data(&[0x40]).unwrap();
    assert!(sd.objects.is_empty());
    assert_eq!(sd.version, 2);
}

#[test]
fn scaled_temperature_is_exact() {
    // Temperature code 0x02: sint16 little-endian 100, factor 0.01.
    let sd = parse_service_data(&[0x00, 0x02, 0x64, 0x00]).unwrap();
    assert_eq!(sd.objects.len(), 1);
    assert_eq!(sd.objects[0].object_id, ObjectId::Temperature4);
    match &sd.objects[0].value {
        ObjectValue::Float(s) => {
            assert_eq!(*s, ScaledValue { raw: 100, factor_thousandths: 10 });
            assert_eq!(scaled_to_f32(s), 1.00f32);
        }
        other => panic!("expected a scaled value, got {:?}", other),
    }
}

#[test]
fn scaled_temperature_negative() {
    // sint16 0xFFFF is -1, so the reading is -0.01.
    let sd = parse_service_data(&[0x00, 0x02, 0xFF, 0xFF]).unwrap();
    match &sd.objects[0].value {
        ObjectValue::Float(s) => {
            assert_eq!(*s, ScaledValue { raw: -1, factor_thousandths: 10 });
        }
        other => panic!("expected a scaled value, got {:?}", other),
    }
}

#[test]
fn temperature_sint8_sign_extends() {
    // Code 0x57: sint8, so 0x80 is -128.
    let sd = parse_service_data(&[0x00, 0x57, 0x80]).unwrap();
    assert_eq!(sd.objects[0].object_id, ObjectId::Temperature1);
    match sd.objects[0].value {
        ObjectValue::Int(v) => assert_eq!(v, -128),
        ref other => panic!("expected an integer, got {:?}", other),
    }
}

#[test]
fn battery_uint8() {
    let sd = parse_service_data(&[0x00, 0x01, 0x61]).unwrap();
    assert_eq!(sd.objects[0].object_id, ObjectId::Battery);
    match sd.objects[0].value {
        ObjectValue::Int(v) => assert_eq!(v, 0x61),
        ref other => panic!("expected an integer, got {:?}", other),
    }
}

#[test]
fn co2_uint16_little_endian() {
    let sd = parse_service_data(&[0x00, 0x12, 0x34, 0x12]).unwrap();
    assert_eq!(sd.objects[0].object_id, ObjectId::CO2);
    match sd.objects[0].value {
        ObjectValue::Int(v) => assert_eq!(v, 0x1234),
        ref other => panic!("expected an integer, got {:?}", other),
    }
}

#[test]
fn pressure_uint24_scaled() {
    // Code 0x04: uint24 little-endian, factor 0.01.
    let sd = parse_service_data(&[0x00, 0x04, 0x13, 0x8A, 0x01]).unwrap();
    assert_eq!(sd.objects[0].object_id, ObjectId::Pressure);
    match &sd.objects[0].value {
        ObjectValue::Float(s) => {
            assert_eq!(*s, ScaledValue { raw: 0x018A13, factor_thousandths: 10 });
            assert_eq!(scaled_to_f32(s), 1008.83f32);
        }
        other => panic!("expected a scaled value, got {:?}", other),
    }
}

#[test]
fn timestamp_uint48() {
    let sd = parse_service_data(&[0x00, 0x50, 0x01, 0x02, 0x03, 0x04, 0x05, 0x06]).unwrap();
    assert_eq!(sd.objects[0].object_id, ObjectId::Timestamp);
    match sd.objects[0].value {
        ObjectValue::Int(v) => assert_eq!(v, 0x0605_0403_0201),
        ref other => panic!("expected an integer, got {:?}", other),
    }
}

#[test]
fn firmware_version_small_consumes_six_bytes() {
    // Code 0xF2 reads six little-endian bytes, like the timestamp.
    let sd = parse_service_data(&[0x00, 0xF2, 0x06, 0x05, 0x04, 0x03, 0x02, 0x01]).unwrap();
    assert_eq!(sd.objects.len(), 1);
    assert_eq!(sd.objects[0].object_id, ObjectId::FirmwareVersionSmall);
    match sd.objects[0].value {
        ObjectValue::Int(v) => assert_eq!(v, 0x0102_0304_0506),
        ref other => panic!("expected an integer, got {:?}", other),
    }
}

#[test]
fn count_sint32_negative() {
    let sd = parse_service_data(&[0x00, 0x5B, 0xFE, 0xFF, 0xFF, 0xFF]).unwrap();
    assert_eq!(sd.objects[0].object_id, ObjectId::CountI32);
    match sd.objects[0].value {
        ObjectValue::Int(v) => assert_eq!(v, -2),
        ref other => panic!("expected an integer, got {:?}", other),
    }
}

#[test]
fn boolean_zero_is_true() {
    let sd = parse_service_data(&[0x00, 0x10, 0x00]).unwrap();
    assert_eq!(sd.objects[0].object_id, ObjectId::PowerOn);
    match sd.objects[0].value {
        ObjectValue::Bool(b) => assert!(b),
        ref other => panic!("expected a boolean, got {:?}", other),
    }
}

#[test]
fn boolean_one_is_false() {
    let sd = parse_service_data(&[0x00, 0x10, 0x01]).unwrap();
    match sd.objects[0].value {
        ObjectValue::Bool(b) => assert!(!b),
        ref other => panic!("expected a boolean, got {:?}", other),
    }
}

#[test]
fn text_decodes_utf8() {
    let sd = parse_service_data(&[0x00, 0x53, 0x02, b'h', b'i']).unwrap();
    assert_eq!(sd.objects[0].object_id, ObjectId::Text);
    match &sd.objects[0].value {
        ObjectValue::Text(s) => assert_eq!(s, "hi"),
        other => panic!("expected text, got {:?}", other),
    }
}

#[test]
fn text_rejects_invalid_utf8() {
    let err = parse_service_data(&[0x00, 0x53, 0x02, 0xFF, 0xFE]).unwrap_err();
    assert_eq!(err, Error::InvalidTextEncoding);
}

#[test]
fn raw_bytes_are_kept_verbatim() {
    let sd = parse_service_data(&[0x00, 0x54, 0x03, 0xDE, 0xAD, 0x01]).unwrap();
    assert_eq!(sd.objects[0].object_id, ObjectId::Raw);
    match &sd.objects[0].value {
        ObjectValue::Raw(v) => assert_eq!(v.as_slice(), &[0xDE, 0xAD, 0x01]),
        other => panic!("expected raw bytes, got {:?}", other),
    }
}

#[test]
fn raw_bytes_may_be_empty() {
    let sd = parse_service_data(&[0x00, 0x54, 0x00]).unwrap();
    match &sd.objects[0].value {
        ObjectValue::Raw(v) => assert!(v.is_empty()),
        other => panic!("expected raw bytes, got {:?}", other),
    }
}

#[test]
fn button_event_hold_press() {
    let sd = parse_service_data(&[0x00, 0x3A, 0x80]).unwrap();
    assert_eq!(sd.objects[0].object_id, ObjectId::Button);
    match sd.objects[0].value {
        ObjectValue::ButtonEvent(e) => assert_eq!(e, ButtonEvent::HoldPress),
        ref other => panic!("expected a button event, got {:?}", other),
    }
}

#[test]
fn button_event_rejects_unknown_code() {
    let err = parse_service_data(&[0x00, 0x3A, 0x07]).unwrap_err();
    assert_eq!(err, Error::InvalidEnumCode(0x07));
}

#[test]
fn dimmer_event_with_steps() {
    let sd = parse_service_data(&[0x00, 0x3C, 0x01, 0x05]).unwrap();
    assert_eq!(sd.objects[0].object_id, ObjectId::Dimmer);
    match sd.objects[0].value {
        ObjectValue::DimmerEvent(e, steps) => {
            assert_eq!(e, DimmerEvent::RotateLeft);
            assert_eq!(steps, 5);
        }
        ref other => panic!("expected a dimmer event, got {:?}", other),
    }
}

#[test]
fn dimmer_event_rejects_unknown_code() {
    let err = parse_service_data(&[0x00, 0x3C, 0x03, 0x05]).unwrap_err();
    assert_eq!(err, Error::InvalidEnumCode(0x03));
}

#[test]
fn unknown_identifier_aborts_with_that_byte() {
    // 0x30 is not in the catalog; the trailing bytes would decode as a
    // valid battery record, but must never be reached.
    let err = parse_service_data(&[0x00, 0x30, 0x01, 0x61]).unwrap_err();
    assert_eq!(err, Error::UnknownIdentifier(0x30));
}

#[test]
fn truncated_fixed_width_value() {
    // A temperature record missing its second value byte.
    let err = parse_service_data(&[0x00, 0x02, 0x64]).unwrap_err();
    assert_eq!(err, Error::Truncation);
}

#[test]
fn truncated_length_prefixed_value() {
    // The length byte promises two bytes; only one follows.
    let err = parse_service_data(&[0x00, 0x54, 0x02, 0xAA]).unwrap_err();
    assert_eq!(err, Error::Truncation);
}

#[test]
fn trailing_identifier_without_value() {
    // A valid record, then an identifier with no value bytes: the final
    // fragment is a truncation error, not silently ignored.
    let err = parse_service_data(&[0x00, 0x01, 0x61, 0x02]).unwrap_err();
    assert_eq!(err, Error::Truncation);
}

#[test]
fn truncating_a_valid_payload_by_one_byte() {
    let payload = [0x40, 0x01, 0x61, 0x53, 0x02, b'h', b'i'];
    assert!(parse_service_data(&payload).is_ok());
    let err = parse_service_data(&payload[..payload.len() - 1]).unwrap_err();
    assert_eq!(err, Error::Truncation);
}

#[test]
fn objects_keep_wire_order_and_duplicates() {
    let sd = parse_service_data(&[0x00, 0x01, 0x10, 0x01, 0x20, 0x12, 0x34, 0x12]).unwrap();
    assert_eq!(sd.objects.len(), 3);
    assert_eq!(sd.objects[0].object_id, ObjectId::Battery);
    assert_eq!(sd.objects[1].object_id, ObjectId::Battery);
    assert_eq!(sd.objects[2].object_id, ObjectId::CO2);
    match (&sd.objects[0].value, &sd.objects[1].value) {
        (ObjectValue::Int(a), ObjectValue::Int(b)) => {
            assert_eq!(*a, 0x10);
            assert_eq!(*b, 0x20);
        }
        other => panic!("expected two integers, got {:?}", other),
    }
}

#[test]
fn parsing_twice_gives_equal_results() {
    let payload = [0x05, 0x02, 0x64, 0x00, 0x3A, 0x01, 0x53, 0x02, b'o', b'k'];
    let a = parse_service_data(&payload).unwrap();
    let b = parse_service_data(&payload).unwrap();
    assert_eq!(format!("{:?}", a), format!("{:?}", b));
}

#[test]
fn uv_index_scaled_uint8() {
    // Code 0x46: uint8, factor 0.1.
    let sd = parse_service_data(&[0x00, 0x46, 0x32]).unwrap();
    match &sd.objects[0].value {
        ObjectValue::Float(s) => {
            assert_eq!(*s, ScaledValue { raw: 0x32, factor_thousandths: 100 });
            assert_eq!(scaled_to_f32(s), 5.0f32);
        }
        other => panic!("expected a scaled value, got {:?}", other),
    }
}

#[test]
fn temperature2_scaled_by_035() {
    // Code 0x58: sint8, factor 0.35.
    let sd = parse_service_data(&[0x00, 0x58, 0x0A]).unwrap();
    match &sd.objects[0].value {
        ObjectValue::Float(s) => {
            assert_eq!(*s, ScaledValue { raw: 10, factor_thousandths: 350 });
            assert_eq!(scaled_to_f32(s), 3.5f32);
        }
        other => panic!("expected a scaled value, got {:?}", other),
    }
}

#[test]
fn try_from_helpers_reject_out_of_range_bytes() {
    assert_eq!(ButtonEvent::try_from(0x01).unwrap(), ButtonEvent::Press);
    assert_eq!(ButtonEvent::try_from(0x81).unwrap_err(), Error::InvalidEnumCode(0x81));
    assert_eq!(DimmerEvent::try_from(0x02).unwrap(), DimmerEvent::RotateRight);
    assert_eq!(DimmerEvent::try_from(0xFF).unwrap_err(), Error::InvalidEnumCode(0xFF));
    assert_eq!(ObjectId::try_from(0x3B).unwrap_err(), Error::UnknownIdentifier(0x3B));
    assert_eq!(ObjectId::try_from(0xF0).unwrap(), ObjectId::DeviceTypeId);
}

/// Every catalog code paired with how many value bytes it consumes when the
/// length-prefixed kinds carry a zero length byte.
const CATALOG_WIDTHS: &[(u8, usize)] = &[
    (0x00, 1),
    (0x01, 1),
    (0x02, 2),
    (0x03, 2),
    (0x04, 3),
    (0x05, 3),
    (0x06, 2),
    (0x07, 2),
    (0x08, 2),
    (0x09, 1),
    (0x0A, 3),
    (0x0B, 3),
    (0x0C, 2),
    (0x0D, 2),
    (0x0E, 2),
    (0x0F, 1),
    (0x10, 1),
    (0x11, 1),
    (0x12, 2),
    (0x13, 2),
    (0x14, 2),
    (0x15, 1),
    (0x16, 1),
    (0x17, 1),
    (0x18, 1),
    (0x19, 1),
    (0x1A, 1),
    (0x1B, 1),
    (0x1C, 1),
    (0x1D, 1),
    (0x1E, 1),
    (0x1F, 1),
    (0x20, 1),
    (0x21, 1),
    (0x22, 1),
    (0x23, 1),
    (0x24, 1),
    (0x25, 1),
    (0x26, 1),
    (0x27, 1),
    (0x28, 1),
    (0x29, 1),
    (0x2A, 1),
    (0x2B, 1),
    (0x2C, 1),
    (0x2D, 1),
    (0x2E, 1),
    (0x2F, 1),
    (0x3A, 1),
    (0x3C, 2),
    (0x3D, 2),
    (0x3E, 4),
    (0x3F, 2),
    (0x40, 2),
    (0x41, 2),
    (0x42, 3),
    (0x43, 2),
    (0x44, 2),
    (0x45, 2),
    (0x46, 1),
    (0x47, 2),
    (0x48, 2),
    (0x49, 2),
    (0x4A, 2),
    (0x4B, 3),
    (0x4C, 4),
    (0x4D, 4),
    (0x4E, 4),
    (0x4F, 4),
    (0x50, 6),
    (0x51, 2),
    (0x52, 2),
    (0x53, 1),
    (0x54, 1),
    (0x55, 4),
    (0x56, 2),
    (0x57, 1),
    (0x58, 1),
    (0x59, 1),
    (0x5A, 2),
    (0x5B, 4),
    (0x5C, 4),
    (0x5D, 2),
    (0xF0, 2),
    (0xF1, 4),
    (0xF2, 6),
];

#[test]
fn catalog_is_complete() {
    // Zero value bytes decode under every rule: integers and scaled values
    // read zeros, flags read the active state, both event bytes map to
    // their no-event variant, and a zero length byte ends a raw or text
    // value at once. One record per code, so each declared width is also
    // checked exactly: a wrong width would leave trailing bytes behind.
    for &(code, width) in CATALOG_WIDTHS {
        let mut payload = vec![0x00u8, code];
        payload.extend(vec![0x00u8; width]);
        match parse_service_data(&payload) {
            Ok(sd) => assert_eq!(sd.objects.len(), 1, "code {:#04X}", code),
            Err(e) => panic!("code {:#04X} failed to decode: {:?}", code, e),
        }
        let err = parse_service_data(&payload[..payload.len() - 1]).unwrap_err();
        assert_eq!(err, Error::Truncation, "code {:#04X}", code);
    }
}

#[test]
fn all_codes_outside_the_catalog_are_rejected() {
    for code in 0..=0xFFu8 {
        if CATALOG_WIDTHS.iter().any(|&(c, _)| c == code) {
            continue;
        }
        let err = parse_service_data(&[0x00, code]).unwrap_err();
        assert_eq!(err, Error::UnknownIdentifier(code), "code {:#04X}", code);
    }
}
