use tmc5130::payload::{
    deserialize_signed32, deserialize_unsigned32, serialize_signed32, serialize_unsigned32,
};

const SIGNED: [i32; 11] = [
    0,
    1,
    -1,
    -5,
    16,
    255,
    256,
    -256,
    0x1234_5678,
    i32::MAX,
    i32::MIN,
];

const UNSIGNED: [u32; 10] = [
    0,
    1,
    16,
    255,
    256,
    0xFFFF,
    0x1_0000,
    0x1234_5678,
    0x8000_0000,
    u32::MAX,
];

#[test]
fn signed_round_trip() {
    for value in SIGNED {
        assert_eq!(deserialize_signed32(serialize_signed32(value)), value);
    }
}

#[test]
fn unsigned_round_trip() {
    for value in UNSIGNED {
        assert_eq!(deserialize_unsigned32(serialize_unsigned32(value)), value);
    }
}

#[test]
fn bytes_round_trip() {
    for bytes in [[0, 0, 0, 0], [1, 2, 3, 4], [0xFF, 0, 0xFF, 0], [0xFF, 0xFF, 0xFF, 0xFF]] {
        assert_eq!(serialize_unsigned32(deserialize_unsigned32(bytes)), bytes);
        assert_eq!(serialize_signed32(deserialize_signed32(bytes)), bytes);
    }
}

#[test]
fn minus_five_is_fb_ff_ff_ff() {
    assert_eq!(serialize_signed32(-5), [0xFB, 0xFF, 0xFF, 0xFF]);
    assert_eq!(deserialize_signed32([0xFB, 0xFF, 0xFF, 0xFF]), -5);
}

#[test]
fn sixteen_is_10_00_00_00() {
    assert_eq!(serialize_unsigned32(16), [0x10, 0x00, 0x00, 0x00]);
    assert_eq!(deserialize_unsigned32([0x10, 0x00, 0x00, 0x00]), 16);
    assert_eq!(deserialize_signed32([0x10, 0x00, 0x00, 0x00]), 16);
}

#[test]
fn least_significant_byte_comes_first() {
    assert_eq!(serialize_unsigned32(0x1234_5678), [0x78, 0x56, 0x34, 0x12]);
    assert_eq!(serialize_signed32(0x1234_5678), [0x78, 0x56, 0x34, 0x12]);
    assert_eq!(deserialize_unsigned32([0x78, 0x56, 0x34, 0x12]), 0x1234_5678);
    assert_eq!(deserialize_signed32([0x78, 0x56, 0x34, 0x12]), 0x1234_5678);
}

#[test]
fn extremes() {
    assert_eq!(serialize_unsigned32(u32::MAX), [0xFF, 0xFF, 0xFF, 0xFF]);
    assert_eq!(serialize_signed32(-1), [0xFF, 0xFF, 0xFF, 0xFF]);
    assert_eq!(serialize_signed32(i32::MIN), [0x00, 0x00, 0x00, 0x80]);
    assert_eq!(serialize_signed32(i32::MAX), [0xFF, 0xFF, 0xFF, 0x7F]);
    assert_eq!(deserialize_signed32([0x00, 0x00, 0x00, 0x80]), i32::MIN);
    assert_eq!(deserialize_signed32([0xFF, 0xFF, 0xFF, 0x7F]), i32::MAX);
    assert_eq!(deserialize_unsigned32([0x00, 0x00, 0x00, 0x80]), 0x8000_0000);
    assert_eq!(deserialize_unsigned32([0xFF, 0xFF, 0xFF, 0xFF]), u32::MAX);
}

#[test]
fn agrees_with_the_standard_conversions() {
    for value in SIGNED {
        assert_eq!(serialize_signed32(value), value.to_le_bytes());
        assert_eq!(deserialize_signed32(value.to_le_bytes()), value);
    }
    for value in UNSIGNED {
        assert_eq!(serialize_unsigned32(value), value.to_le_bytes());
        assert_eq!(deserialize_unsigned32(value.to_le_bytes()), value);
    }
}
