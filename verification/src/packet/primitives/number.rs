//! The fixed-size values of the protocol: `bool`, one-byte integers, and
//! big-endian 16, 32 and 64-bit integers.
use crate::buffer::{bytes_mut_extend_from_slice, bytes_mut_put_u8, bytes_mut_view};
use crate::packet::stream::{
    DecodeError, DecodeErrorView, Decode, Encode, EncodeError, EncodeErrorView, decoded_view,
};
use crate::text::{decimal, decimal_string};
use byteorder::ByteOrder;
use bytes::BytesMut;
use vstd::prelude::*;

verus! {

/// The integer that the first `n` bytes of `s` form, most significant first.
pub open spec fn be_value(s: Seq<u8>, n: nat) -> u64
    decreases n,
{
    if n == 0 {
        0
    } else {
        (be_value(s, (n - 1) as nat) << 8u64) | (s[n - 1] as u64)
    }
}

/// The `n` low bytes of `x`, most significant first.
pub open spec fn be_bytes(x: u64, n: nat) -> Seq<u8> {
    Seq::new(n, |i: int| ((x >> ((8 * (n - 1 - i)) as u64)) & 0xff) as u8)
}

/// `BigEndian::read_u16`: the first two bytes as a big-endian integer; it
/// panics on a shorter slice, which `requires` rules out.
#[verifier::external_body]
fn read_u16(buf: &[u8]) -> (r: u16)
    requires
        buf@.len() >= 2,
    ensures
        r as u64 == be_value(buf@, 2),
{
    byteorder::BigEndian::read_u16(buf)
}

/// `BigEndian::read_i16`: `read_u16` reinterpreted as two's complement.
#[verifier::external_body]
fn read_i16(buf: &[u8]) -> (r: i16)
    requires
        buf@.len() >= 2,
    ensures
        r == (be_value(buf@, 2) as u16) as i16,
{
    byteorder::BigEndian::read_i16(buf)
}

/// `BigEndian::read_i32`: the first four bytes as a big-endian integer,
/// reinterpreted as two's complement.
#[verifier::external_body]
fn read_i32(buf: &[u8]) -> (r: i32)
    requires
        buf@.len() >= 4,
    ensures
        r == (be_value(buf@, 4) as u32) as i32,
{
    byteorder::BigEndian::read_i32(buf)
}

/// `BigEndian::read_i64`: the first eight bytes as a big-endian integer,
/// reinterpreted as two's complement.
#[verifier::external_body]
fn read_i64(buf: &[u8]) -> (r: i64)
    requires
        buf@.len() >= 8,
    ensures
        r == be_value(buf@, 8) as i64,
{
    byteorder::BigEndian::read_i64(buf)
}

/// `BigEndian::write_u16`: the integer's two bytes, most significant first.
#[verifier::external_body]
fn write_u16(buf: &mut [u8; 2], n: u16)
    ensures
        final(buf)@ == be_bytes(n as u64, 2),
{
    byteorder::BigEndian::write_u16(buf, n)
}

/// `BigEndian::write_i16`: the two bytes of the integer's two's-complement
/// pattern, most significant first.
#[verifier::external_body]
fn write_i16(buf: &mut [u8; 2], n: i16)
    ensures
        final(buf)@ == be_bytes((n as u16) as u64, 2),
{
    byteorder::BigEndian::write_i16(buf, n)
}

/// `BigEndian::write_i32`: the four bytes of the integer's two's-complement
/// pattern, most significant first.
#[verifier::external_body]
fn write_i32(buf: &mut [u8; 4], n: i32)
    ensures
        final(buf)@ == be_bytes((n as u32) as u64, 4),
{
    byteorder::BigEndian::write_i32(buf, n)
}

/// `BigEndian::write_i64`: the eight bytes of the integer's two's-complement
/// pattern, most significant first.
#[verifier::external_body]
fn write_i64(buf: &mut [u8; 8], n: i64)
    ensures
        final(buf)@ == be_bytes(n as u64, 8),
{
    byteorder::BigEndian::write_i64(buf, n)
}

/// The text of the error for a byte that is neither `0x00` nor `0x01`.
pub open spec fn invalid_bool_text(value: u8) -> Seq<char> {
    "Bool is not valid value: "@ + decimal(value as int)
}

// -----------------------------------------------------------------------------
// Decoding
// -----------------------------------------------------------------------------

impl Decode for bool {
    open spec fn spec_decode(buffer: Seq<u8>) -> Result<(bool, usize), DecodeErrorView> {
        if buffer.len() == 0 {
            Err(DecodeErrorView::Incomplete)
        } else if buffer[0] == 0 {
            Ok((false, 1))
        } else if buffer[0] == 1 {
            Ok((true, 1))
        } else {
            Err(DecodeErrorView::Invalid(invalid_bool_text(buffer[0])))
        }
    }

    fn decode(buffer: &[u8]) -> (r: Result<(bool, usize), DecodeError>) {
        if buffer.len() == 0 {
            return Err(DecodeError::Incomplete);
        }
        let value = buffer[0];
        if value == 0x00 {
            Ok((false, 1))
        } else if value == 0x01 {
            Ok((true, 1))
        } else {
            let text = String::from_str("Bool is not valid value: ");
            let number = decimal_string(value as i128);
            Err(DecodeError::Invalid(text.concat(number.as_str())))
        }
    }
}

impl Decode for i8 {
    open spec fn spec_decode(buffer: Seq<u8>) -> Result<(i8, usize), DecodeErrorView> {
        if buffer.len() == 0 {
            Err(DecodeErrorView::Incomplete)
        } else {
            Ok((buffer[0] as i8, 1))
        }
    }

    fn decode(buffer: &[u8]) -> (r: Result<(i8, usize), DecodeError>) {
        if buffer.len() == 0 {
            return Err(DecodeError::Incomplete);
        }
        Ok((buffer[0] as i8, 1))
    }
}

impl Decode for u8 {
    open spec fn spec_decode(buffer: Seq<u8>) -> Result<(u8, usize), DecodeErrorView> {
        if buffer.len() == 0 {
            Err(DecodeErrorView::Incomplete)
        } else {
            Ok((buffer[0], 1))
        }
    }

    fn decode(buffer: &[u8]) -> (r: Result<(u8, usize), DecodeError>) {
        if buffer.len() == 0 {
            return Err(DecodeError::Incomplete);
        }
        Ok((buffer[0], 1))
    }
}

impl Decode for i16 {
    open spec fn spec_decode(buffer: Seq<u8>) -> Result<(i16, usize), DecodeErrorView> {
        if buffer.len() < 2 {
            Err(DecodeErrorView::Incomplete)
        } else {
            Ok(((be_value(buffer, 2) as u16) as i16, 2))
        }
    }

    fn decode(buffer: &[u8]) -> (r: Result<(i16, usize), DecodeError>) {
        if buffer.len() < 2 {
            return Err(DecodeError::Incomplete);
        }
        Ok((read_i16(buffer), 2))
    }
}

impl Decode for u16 {
    open spec fn spec_decode(buffer: Seq<u8>) -> Result<(u16, usize), DecodeErrorView> {
        if buffer.len() < 2 {
            Err(DecodeErrorView::Incomplete)
        } else {
            Ok((be_value(buffer, 2) as u16, 2))
        }
    }

    fn decode(buffer: &[u8]) -> (r: Result<(u16, usize), DecodeError>) {
        if buffer.len() < 2 {
            return Err(DecodeError::Incomplete);
        }
        Ok((read_u16(buffer), 2))
    }
}

impl Decode for i32 {
    open spec fn spec_decode(buffer: Seq<u8>) -> Result<(i32, usize), DecodeErrorView> {
        if buffer.len() < 4 {
            Err(DecodeErrorView::Incomplete)
        } else {
            Ok(((be_value(buffer, 4) as u32) as i32, 4))
        }
    }

    fn decode(buffer: &[u8]) -> (r: Result<(i32, usize), DecodeError>) {
        if buffer.len() < 4 {
            return Err(DecodeError::Incomplete);
        }
        Ok((read_i32(buffer), 4))
    }
}

impl Decode for i64 {
    open spec fn spec_decode(buffer: Seq<u8>) -> Result<(i64, usize), DecodeErrorView> {
        if buffer.len() < 8 {
            Err(DecodeErrorView::Incomplete)
        } else {
            Ok((be_value(buffer, 8) as i64, 8))
        }
    }

    fn decode(buffer: &[u8]) -> (r: Result<(i64, usize), DecodeError>) {
        if buffer.len() < 8 {
            return Err(DecodeError::Incomplete);
        }
        Ok((read_i64(buffer), 8))
    }
}

// -----------------------------------------------------------------------------
// Encoding
// -----------------------------------------------------------------------------

impl Encode for bool {
    open spec fn spec_encode(value: bool) -> Result<Seq<u8>, EncodeErrorView> {
        Ok(
            seq![
                if value {
                    1u8
                } else {
                    0u8
                },
            ],
        )
    }

    open spec fn spec_length_defined(value: bool) -> bool {
        true
    }

    open spec fn spec_encoded_length(value: bool) -> nat {
        1
    }

    fn encode(&self, buffer: &mut BytesMut) -> (r: Result<usize, EncodeError>) {
        match self {
            false => bytes_mut_put_u8(buffer, 0x00),
            true => bytes_mut_put_u8(buffer, 0x01),
        }
        Ok(1)
    }

    fn get_encoded_length(&self) -> (n: usize) {
        1
    }
}

impl Encode for i8 {
    open spec fn spec_encode(value: i8) -> Result<Seq<u8>, EncodeErrorView> {
        Ok(seq![value as u8])
    }

    open spec fn spec_length_defined(value: i8) -> bool {
        true
    }

    open spec fn spec_encoded_length(value: i8) -> nat {
        1
    }

    fn encode(&self, buffer: &mut BytesMut) -> (r: Result<usize, EncodeError>) {
        bytes_mut_put_u8(buffer, *self as u8);
        Ok(1)
    }

    fn get_encoded_length(&self) -> (n: usize) {
        1
    }
}

impl Encode for u8 {
    open spec fn spec_encode(value: u8) -> Result<Seq<u8>, EncodeErrorView> {
        Ok(seq![value])
    }

    open spec fn spec_length_defined(value: u8) -> bool {
        true
    }

    open spec fn spec_encoded_length(value: u8) -> nat {
        1
    }

    fn encode(&self, buffer: &mut BytesMut) -> (r: Result<usize, EncodeError>) {
        bytes_mut_put_u8(buffer, *self);
        Ok(1)
    }

    fn get_encoded_length(&self) -> (n: usize) {
        1
    }
}

impl Encode for i16 {
    open spec fn spec_encode(value: i16) -> Result<Seq<u8>, EncodeErrorView> {
        Ok(be_bytes((value as u16) as u64, 2))
    }

    open spec fn spec_length_defined(value: i16) -> bool {
        true
    }

    open spec fn spec_encoded_length(value: i16) -> nat {
        2
    }

    fn encode(&self, buffer: &mut BytesMut) -> (r: Result<usize, EncodeError>) {
        let mut buf = [0u8; 2];
        write_i16(&mut buf, *self);
        bytes_mut_extend_from_slice(buffer, buf.as_slice());
        Ok(2)
    }

    fn get_encoded_length(&self) -> (n: usize) {
        2
    }
}

impl Encode for u16 {
    open spec fn spec_encode(value: u16) -> Result<Seq<u8>, EncodeErrorView> {
        Ok(be_bytes(value as u64, 2))
    }

    open spec fn spec_length_defined(value: u16) -> bool {
        true
    }

    open spec fn spec_encoded_length(value: u16) -> nat {
        2
    }

    fn encode(&self, buffer: &mut BytesMut) -> (r: Result<usize, EncodeError>) {
        let mut buf = [0u8; 2];
        write_u16(&mut buf, *self);
        bytes_mut_extend_from_slice(buffer, buf.as_slice());
        Ok(2)
    }

    fn get_encoded_length(&self) -> (n: usize) {
        2
    }
}

impl Encode for i32 {
    open spec fn spec_encode(value: i32) -> Result<Seq<u8>, EncodeErrorView> {
        Ok(be_bytes((value as u32) as u64, 4))
    }

    open spec fn spec_length_defined(value: i32) -> bool {
        true
    }

    open spec fn spec_encoded_length(value: i32) -> nat {
        4
    }

    fn encode(&self, buffer: &mut BytesMut) -> (r: Result<usize, EncodeError>) {
        let mut buf = [0u8; 4];
        write_i32(&mut buf, *self);
        bytes_mut_extend_from_slice(buffer, buf.as_slice());
        Ok(4)
    }

    fn get_encoded_length(&self) -> (n: usize) {
        4
    }
}

impl Encode for i64 {
    open spec fn spec_encode(value: i64) -> Result<Seq<u8>, EncodeErrorView> {
        Ok(be_bytes(value as u64, 8))
    }

    open spec fn spec_length_defined(value: i64) -> bool {
        true
    }

    open spec fn spec_encoded_length(value: i64) -> nat {
        8
    }

    fn encode(&self, buffer: &mut BytesMut) -> (r: Result<usize, EncodeError>) {
        let mut buf = [0u8; 8];
        write_i64(&mut buf, *self);
        bytes_mut_extend_from_slice(buffer, buf.as_slice());
        Ok(8)
    }

    fn get_encoded_length(&self) -> (n: usize) {
        8
    }
}

// -----------------------------------------------------------------------------
// Round trips
// -----------------------------------------------------------------------------

/// The bytes of a 16-bit pattern read back as that pattern.
proof fn lemma_be16_roundtrip(x: u16, buf: Seq<u8>)
    requires
        buf.len() >= 2,
        buf[0] == be_bytes(x as u64, 2)[0],
        buf[1] == be_bytes(x as u64, 2)[1],
    ensures
        be_value(buf, 2) == x as u64,
{
    reveal_with_fuel(be_value, 3);
    let b0 = buf[0];
    let b1 = buf[1];
    assert(b0 == (((x as u64) >> 8u64) & 0xff) as u8);
    assert(b1 == (((x as u64) >> 0u64) & 0xff) as u8);
    assert((((0u64 << 8u64) | (b0 as u64)) << 8u64) | (b1 as u64) == x as u64) by (bit_vector)
        requires
            b0 == (((x as u64) >> 8u64) & 0xff) as u8,
            b1 == (((x as u64) >> 0u64) & 0xff) as u8,
    ;
}

/// The bytes of a 32-bit pattern read back as that pattern.
proof fn lemma_be32_roundtrip(x: u32, buf: Seq<u8>)
    requires
        buf.len() >= 4,
        forall|i: int| 0 <= i < 4 ==> buf[i] == be_bytes(x as u64, 4)[i],
    ensures
        be_value(buf, 4) == x as u64,
{
    reveal_with_fuel(be_value, 5);
    let b0 = buf[0];
    let b1 = buf[1];
    let b2 = buf[2];
    let b3 = buf[3];
    assert(b0 == be_bytes(x as u64, 4)[0]);
    assert(b1 == be_bytes(x as u64, 4)[1]);
    assert(b2 == be_bytes(x as u64, 4)[2]);
    assert(b3 == be_bytes(x as u64, 4)[3]);
    assert((((((((0u64 << 8u64) | (b0 as u64)) << 8u64) | (b1 as u64)) << 8u64) | (b2 as u64))
        << 8u64) | (b3 as u64) == x as u64) by (bit_vector)
        requires
            b0 == (((x as u64) >> 24u64) & 0xff) as u8,
            b1 == (((x as u64) >> 16u64) & 0xff) as u8,
            b2 == (((x as u64) >> 8u64) & 0xff) as u8,
            b3 == (((x as u64) >> 0u64) & 0xff) as u8,
    ;
}

/// The bytes of a 64-bit pattern read back as that pattern.
proof fn lemma_be64_roundtrip(x: u64, buf: Seq<u8>)
    requires
        buf.len() >= 8,
        forall|i: int| 0 <= i < 8 ==> buf[i] == be_bytes(x, 8)[i],
    ensures
        be_value(buf, 8) == x,
{
    reveal_with_fuel(be_value, 9);
    let b0 = buf[0];
    let b1 = buf[1];
    let b2 = buf[2];
    let b3 = buf[3];
    let b4 = buf[4];
    let b5 = buf[5];
    let b6 = buf[6];
    let b7 = buf[7];
    assert(b0 == be_bytes(x, 8)[0]);
    assert(b1 == be_bytes(x, 8)[1]);
    assert(b2 == be_bytes(x, 8)[2]);
    assert(b3 == be_bytes(x, 8)[3]);
    assert(b4 == be_bytes(x, 8)[4]);
    assert(b5 == be_bytes(x, 8)[5]);
    assert(b6 == be_bytes(x, 8)[6]);
    assert(b7 == be_bytes(x, 8)[7]);
    assert((((((((((((((((0u64 << 8u64) | (b0 as u64)) << 8u64) | (b1 as u64)) << 8u64) | (b2
        as u64)) << 8u64) | (b3 as u64)) << 8u64) | (b4 as u64)) << 8u64) | (b5 as u64)) << 8u64)
        | (b6 as u64)) << 8u64) | (b7 as u64) == x) by (bit_vector)
        requires
            b0 == ((x >> 56u64) & 0xff) as u8,
            b1 == ((x >> 48u64) & 0xff) as u8,
            b2 == ((x >> 40u64) & 0xff) as u8,
            b3 == ((x >> 32u64) & 0xff) as u8,
            b4 == ((x >> 24u64) & 0xff) as u8,
            b5 == ((x >> 16u64) & 0xff) as u8,
            b6 == ((x >> 8u64) & 0xff) as u8,
            b7 == ((x >> 0u64) & 0xff) as u8,
    ;
}

/// Law: reading back what writing a `bool` produced gives the `bool` and the
/// length of its encoding, whatever follows.
pub proof fn lemma_bool_roundtrip(value: bool, rest: Seq<u8>)
    ensures
        <bool as Encode>::spec_encode(value) matches Ok(bytes) && <bool as Decode>::spec_decode(
            bytes + rest,
        ) == Ok::<(bool, usize), DecodeErrorView>((value, bytes.len() as usize))
            && bytes.len() == <bool as Encode>::spec_encoded_length(value),
{
}

/// Law: reading back what writing an `i8` produced gives the `i8` and the
/// length of its encoding, whatever follows.
pub proof fn lemma_i8_roundtrip(value: i8, rest: Seq<u8>)
    ensures
        <i8 as Encode>::spec_encode(value) matches Ok(bytes) && <i8 as Decode>::spec_decode(
            bytes + rest,
        ) == Ok::<(i8, usize), DecodeErrorView>((value, bytes.len() as usize))
            && bytes.len() == <i8 as Encode>::spec_encoded_length(value),
{
    assert((value as u8) as i8 == value) by (bit_vector);
}

/// Law: reading back what writing a `u8` produced gives the `u8` and the
/// length of its encoding, whatever follows.
pub proof fn lemma_u8_roundtrip(value: u8, rest: Seq<u8>)
    ensures
        <u8 as Encode>::spec_encode(value) matches Ok(bytes) && <u8 as Decode>::spec_decode(
            bytes + rest,
        ) == Ok::<(u8, usize), DecodeErrorView>((value, bytes.len() as usize))
            && bytes.len() == <u8 as Encode>::spec_encoded_length(value),
{
}

/// Law: reading back what writing an `i16` produced gives the `i16` and the
/// length of its encoding, whatever follows.
pub proof fn lemma_i16_roundtrip(value: i16, rest: Seq<u8>)
    ensures
        <i16 as Encode>::spec_encode(value) matches Ok(bytes) && <i16 as Decode>::spec_decode(
            bytes + rest,
        ) == Ok::<(i16, usize), DecodeErrorView>((value, bytes.len() as usize))
            && bytes.len() == <i16 as Encode>::spec_encoded_length(value),
{
    let bytes = be_bytes((value as u16) as u64, 2);
    lemma_be16_roundtrip(value as u16, bytes + rest);
    assert(((value as u16) as u64) as u16 == value as u16);
    assert((value as u16) as i16 == value) by (bit_vector);
}

/// Law: reading back what writing a `u16` produced gives the `u16` and the
/// length of its encoding, whatever follows.
pub proof fn lemma_u16_roundtrip(value: u16, rest: Seq<u8>)
    ensures
        <u16 as Encode>::spec_encode(value) matches Ok(bytes) && <u16 as Decode>::spec_decode(
            bytes + rest,
        ) == Ok::<(u16, usize), DecodeErrorView>((value, bytes.len() as usize))
            && bytes.len() == <u16 as Encode>::spec_encoded_length(value),
{
    let bytes = be_bytes(value as u64, 2);
    lemma_be16_roundtrip(value, bytes + rest);
}

/// Law: reading back what writing an `i32` produced gives the `i32` and the
/// length of its encoding, whatever follows.
pub proof fn lemma_i32_roundtrip(value: i32, rest: Seq<u8>)
    ensures
        <i32 as Encode>::spec_encode(value) matches Ok(bytes) && <i32 as Decode>::spec_decode(
            bytes + rest,
        ) == Ok::<(i32, usize), DecodeErrorView>((value, bytes.len() as usize))
            && bytes.len() == <i32 as Encode>::spec_encoded_length(value),
{
    let bytes = be_bytes((value as u32) as u64, 4);
    lemma_be32_roundtrip(value as u32, bytes + rest);
    assert((value as u32) as i32 == value) by (bit_vector);
}

/// Law: reading back what writing an `i64` produced gives the `i64` and the
/// length of its encoding, whatever follows.
pub proof fn lemma_i64_roundtrip(value: i64, rest: Seq<u8>)
    ensures
        <i64 as Encode>::spec_encode(value) matches Ok(bytes) && <i64 as Decode>::spec_decode(
            bytes + rest,
        ) == Ok::<(i64, usize), DecodeErrorView>((value, bytes.len() as usize))
            && bytes.len() == <i64 as Encode>::spec_encoded_length(value),
{
    let bytes = be_bytes(value as u64, 8);
    lemma_be64_roundtrip(value as u64, bytes + rest);
    assert((value as u64) as i64 == value) by (bit_vector);
}

} // verus!
