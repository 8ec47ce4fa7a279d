use bytes::BytesMut;
use netherconduit_core::packet::primitives::VarInt;
use netherconduit_core::packet::stream::DecodeError;

#[test]
fn zero() {
    let mut test_buffer: BytesMut = BytesMut::with_capacity(1);
    let test_number = VarInt::new(0);
    let length = test_number.encode(&mut test_buffer);
    assert_eq!(1, length);
    assert_eq!([0x00], test_buffer.as_ref());
}

#[test]
fn one() {
    let mut test_buffer: BytesMut = BytesMut::with_capacity(1);
    let test_number = VarInt::new(1);
    let length = test_number.encode(&mut test_buffer);
    assert_eq!(1, length);
    assert_eq!(1, test_number.get_encoded_length());
    assert_eq!([0x01], test_buffer.as_ref());
}

#[test]
fn max_byte() {
    let mut test_buffer: BytesMut = BytesMut::with_capacity(1);
    let test_number = VarInt::new(127);
    let length = test_number.encode(&mut test_buffer);
    assert_eq!(1, length);
    assert_eq!(1, test_number.get_encoded_length());
    assert_eq!([0x7f], test_buffer.as_ref());
}

#[test]
fn carry() {
    let mut test_buffer: BytesMut = BytesMut::with_capacity(2);
    let test_number = VarInt::new(128);
    let length = test_number.encode(&mut test_buffer);
    assert_eq!(2, length);
    assert_eq!(2, test_number.get_encoded_length());
    assert_eq!([0x80, 0x01], test_buffer.as_ref());
}

#[test]
fn max_with_carry() {
    let mut test_buffer: BytesMut = BytesMut::with_capacity(2);
    let test_number = VarInt::new(255);
    let length = test_number.encode(&mut test_buffer);
    assert_eq!(2, length);
    assert_eq!(2, test_number.get_encoded_length());
    assert_eq!([0xff, 0x01], test_buffer.as_ref());
}

#[test]
fn mc_port_3_bytes() {
    let mut test_buffer: BytesMut = BytesMut::with_capacity(3);
    let test_number = VarInt::new(25565);
    let length = test_number.encode(&mut test_buffer);
    assert_eq!(3, length);
    assert_eq!(3, test_number.get_encoded_length());
    assert_eq!([0xdd, 0xc7, 0x01], test_buffer.as_ref());
}

#[test]
fn max_3_bytes() {
    let mut test_buffer: BytesMut = BytesMut::with_capacity(3);
    let test_number = VarInt::new(2097151);
    let length = test_number.encode(&mut test_buffer);
    assert_eq!(3, length);
    assert_eq!(3, test_number.get_encoded_length());
    assert_eq!([0xff, 0xff, 0x7f], test_buffer.as_ref());
}

#[test]
fn max_int() {
    let mut test_buffer: BytesMut = BytesMut::with_capacity(5);
    let test_number = VarInt::new(2147483647);
    let length = test_number.encode(&mut test_buffer);
    assert_eq!(5, length);
    assert_eq!(5, test_number.get_encoded_length());
    assert_eq!([0xff, 0xff, 0xff, 0xff, 0x07], test_buffer.as_ref());
}

#[test]
fn negative_one() {
    let mut test_buffer: BytesMut = BytesMut::with_capacity(5);
    let test_number = VarInt::new(-1);
    let length = test_number.encode(&mut test_buffer);
    assert_eq!(5, length);
    assert_eq!(5, test_number.get_encoded_length());
    assert_eq!([0xff, 0xff, 0xff, 0xff, 0x0f], test_buffer.as_ref());
}

#[test]
fn min_int() {
    let mut test_buffer: BytesMut = BytesMut::with_capacity(5);
    let test_number = VarInt::new(-2147483648);
    let length = test_number.encode(&mut test_buffer);
    assert_eq!(5, length);
    assert_eq!(5, test_number.get_encoded_length());
    assert_eq!([0x80, 0x80, 0x80, 0x80, 0x08], test_buffer.as_ref());
}

#[test]
fn var_int_zero() {
    let test_buffer: Vec<u8> = vec![0x00];
    let result = VarInt::decode(&test_buffer).unwrap();
    assert_eq!(result, (VarInt::new(0), 1));
}

#[test]
fn var_int_one() {
    let test_buffer: Vec<u8> = vec![0x01];
    let result = VarInt::decode(&test_buffer).unwrap();
    assert_eq!(result, (VarInt::new(1), 1));
}

#[test]
fn var_int_max_byte() {
    let test_buffer: Vec<u8> = vec![0x7f];
    let result = VarInt::decode(&test_buffer).unwrap();
    assert_eq!(result, (VarInt::new(127), 1));
}

#[test]
fn var_int_carry() {
    let test_buffer: Vec<u8> = vec![0x80, 0x01];
    let result = VarInt::decode(&test_buffer).unwrap();
    assert_eq!(result, (VarInt::new(128), 2));
}

#[test]
fn var_int_max_with_carry() {
    let test_buffer: Vec<u8> = vec![0xff, 0x01];
    let result = VarInt::decode(&test_buffer).unwrap();
    assert_eq!(result, (VarInt::new(255), 2));
}

#[test]
fn var_int_mc_port_3_bytes() {
    let test_buffer: Vec<u8> = vec![0xdd, 0xc7, 0x01];
    let result = VarInt::decode(&test_buffer).unwrap();
    assert_eq!(result, (VarInt::new(25565), 3));
}

#[test]
fn var_int_max_3_bytes() {
    let test_buffer: Vec<u8> = vec![0xff, 0xff, 0x7f];
    let result = VarInt::decode(&test_buffer).unwrap();
    assert_eq!(result, (VarInt::new(2097151), 3));
}

#[test]
fn var_int_max_int() {
    let test_buffer: Vec<u8> = vec![0xff, 0xff, 0xff, 0xff, 0x07];
    let result = VarInt::decode(&test_buffer).unwrap();
    assert_eq!(result, (VarInt::new(2147483647), 5));
}

#[test]
fn var_int_negative_one() {
    let test_buffer: Vec<u8> = vec![0xff, 0xff, 0xff, 0xff, 0x0f];
    let result = VarInt::decode(&test_buffer).unwrap();
    assert_eq!(result, (VarInt::new(-1), 5));
}

#[test]
fn var_int_min_int() {
    let test_buffer: Vec<u8> = vec![0x80, 0x80, 0x80, 0x80, 0x08];
    let result = VarInt::decode(&test_buffer).unwrap();
    assert_eq!(result, (VarInt::new(-2147483648), 5));
}

#[test]
fn var_int_too_short_buffer() {
    let test_buffer: Vec<u8> = vec![0xff, 0xff, 0xff];
    let result = VarInt::decode(&test_buffer);
    assert!(matches!(result, Err(DecodeError::Incomplete)));
}

#[test]
fn var_int_too_long() {
    let test_buffer: Vec<u8> = vec![0xff, 0xff, 0xff, 0xff, 0xff, 0xff, 0xff, 0xff, 0x7f];
    let result = VarInt::decode(&test_buffer);
    assert!(matches!(result, Err(DecodeError::Invalid(_))));
}
