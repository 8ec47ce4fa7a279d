use bytes::BytesMut;
use netherconduit_core::packet::stream::{Decode, Encode};

fn assert_round_trip<T>(value: T)
where
    T: Encode + Decode + PartialEq + std::fmt::Debug,
{
    let mut buffer = BytesMut::new();

    let encoded_length = value.get_encoded_length();
    let written = match value.encode(&mut buffer) {
        Ok(value) => value,
        Err(error) => panic!("Could not encode {:#?}! Reason: {:?}", value, error),
    };

    assert_eq!(
        written, encoded_length,
        "encode() length differs from get_encoded_length()"
    );

    assert_eq!(
        buffer.len(),
        encoded_length,
        "buffer length differs from get_encoded_length()"
    );

    let (decoded, decoded_length) = match T::decode(&buffer) {
        Ok(value) => value,
        Err(error) => panic!(
            "Could not decode {:#?}! Buffer: (0x{:x}) Reason: {:?}",
            value, buffer, error
        ),
    };

    assert_eq!(decoded, value);
    assert_eq!(decoded_length, encoded_length);

    // Test consuming-buffer decoding.
    let mut consuming_buffer = buffer.clone();

    let (decoded, consumed_length) = T::decode_consuming_buffer(&mut consuming_buffer).unwrap();

    assert_eq!(decoded, value);
    assert_eq!(consumed_length, encoded_length);
    assert!(consuming_buffer.is_empty());
}

#[test]
fn bool_round_trip() {
    assert_round_trip(false);
    assert_round_trip(true);
}

#[test]
fn byte_round_trip() {
    assert_round_trip(i8::MIN);
    assert_round_trip(-1i8);
    assert_round_trip(0i8);
    assert_round_trip(1i8);
    assert_round_trip(i8::MAX);
}

#[test]
fn ubyte_round_trip() {
    assert_round_trip(0u8);
    assert_round_trip(1u8);
    assert_round_trip(u8::MAX);
}

#[test]
fn short_round_trip() {
    assert_round_trip(i16::MIN);
    assert_round_trip(-1i16);
    assert_round_trip(0i16);
    assert_round_trip(1i16);
    assert_round_trip(i16::MAX);
}

#[test]
fn ushort_round_trip() {
    assert_round_trip(0u16);
    assert_round_trip(1u16);
    assert_round_trip(u16::MAX);
}

#[test]
fn int_round_trip() {
    assert_round_trip(i32::MIN);
    assert_round_trip(-1i32);
    assert_round_trip(0i32);
    assert_round_trip(1i32);
    assert_round_trip(i32::MAX);
}

#[test]
fn long_round_trip() {
    assert_round_trip(i64::MIN);
    assert_round_trip(-1i64);
    assert_round_trip(0i64);
    assert_round_trip(1i64);
    assert_round_trip(i64::MAX);
}

#[test]
fn string_round_trip() {
    assert_round_trip(String::new());
    assert_round_trip("hello".to_string());
    assert_round_trip("hello world".to_string());
    assert_round_trip("こんにちは".to_string());
    assert_round_trip("😀".to_string());
}

#[test]
fn varint_round_trip() {
    assert_round_trip(0i32);
    assert_round_trip(1i32);
    assert_round_trip(127i32);
    assert_round_trip(128i32);
    assert_round_trip(255i32);
    assert_round_trip(256i32);
    assert_round_trip(16_383i32);
    assert_round_trip(16_384i32);
    assert_round_trip(i32::MAX);
}

#[test]
fn decode_consuming_buffer_leaves_remaining_bytes() {
    let first = 123i32;
    let second = 456i32;

    let mut buffer = BytesMut::new();

    first.encode(&mut buffer).unwrap();
    second.encode(&mut buffer).unwrap();

    let first_length = first.get_encoded_length();

    let (decoded, consumed) = i32::decode_consuming_buffer(&mut buffer).unwrap();

    assert_eq!(decoded, first);
    assert_eq!(consumed, first_length);

    // The second value should still be in the buffer.
    let (decoded, consumed) = i32::decode_consuming_buffer(&mut buffer).unwrap();

    assert_eq!(decoded, second);
    assert_eq!(consumed, second.get_encoded_length());

    assert!(buffer.is_empty());
}
