//! Strings of the protocol: a VarInt byte length followed by that many bytes
//! of UTF-8.
use crate::buffer::{bytes_mut_extend_from_slice, bytes_mut_view};
use crate::packet::primitives::var_int::{
    VarInt, get_var_int_encoded_length, int_conversion_error_text, lemma_varint_roundtrip,
    spec_read_varint, usize_try_from_i32, varint_bytes,
};
use crate::packet::stream::{
    DecodeError, DecodeErrorView, Decode, Encode, EncodeError, EncodeErrorView, decoded_view,
};
use bytes::BytesMut;
use vstd::prelude::*;
use vstd::utf8::{decode_utf8, encode_utf8, valid_utf8};

verus! {

broadcast use {vstd::utf8::encode_utf8_valid_utf8, vstd::utf8::encode_utf8_decode_utf8};

/// `String::from_utf8`: the string when the bytes are valid UTF-8, `None`
/// (for the `FromUtf8Error`) when they are not.
#[verifier::external_body]
fn string_from_utf8(bytes: Vec<u8>) -> (r: Option<String>)
    ensures
        r is Some <==> valid_utf8(bytes@),
        r matches Some(s) ==> s@ == decode_utf8(bytes@),
{
    String::from_utf8(bytes).ok()
}

/// The text of the error for bytes that are not UTF-8.
pub open spec fn not_utf8_text() -> Seq<char> {
    "Failed to decode string, not valid UTF-8"@
}

/// Strings no shorter than this many bytes are refused.
pub const MAX_STRING_BYTES: usize = 32767;

/// Reading a string from the start of `buffer`: its length as a VarInt, then
/// that many bytes, which must be UTF-8.
pub open spec fn spec_read_string(buffer: Seq<u8>) -> Result<(Seq<char>, usize), DecodeErrorView> {
    match spec_read_varint(buffer, 5) {
        Err(e) => Err(e),
        Ok((length, header)) => {
            if length < 0 {
                Err(DecodeErrorView::Invalid(int_conversion_error_text(length as int)))
            } else if header + length > buffer.len() {
                Err(DecodeErrorView::Incomplete)
            } else {
                let bytes = buffer.subrange(header as int, header + length);
                if valid_utf8(bytes) {
                    Ok((decode_utf8(bytes), (header + length) as usize))
                } else {
                    Err(DecodeErrorView::Invalid(not_utf8_text()))
                }
            }
        },
    }
}

/// The bytes that writing a string produces: its UTF-8 length as a VarInt,
/// then its UTF-8; a string of `MAX_STRING_BYTES` bytes or more is refused.
pub open spec fn spec_write_string(chars: Seq<char>) -> Result<Seq<u8>, EncodeErrorView> {
    let bytes = encode_utf8(chars);
    if bytes.len() < MAX_STRING_BYTES {
        Ok(varint_bytes(bytes.len() as i32) + bytes)
    } else {
        Err(EncodeErrorView::Invalid("String is too long: "@ + chars))
    }
}

impl Decode for String {
    open spec fn spec_decode(buffer: Seq<u8>) -> Result<(Seq<char>, usize), DecodeErrorView> {
        spec_read_string(buffer)
    }

    fn decode(buffer: &[u8]) -> (r: Result<(String, usize), DecodeError>) {
        let (string_length, length_bytes) = match VarInt::decode(buffer) {
            Ok(found) => found,
            Err(e) => return Err(e),
        };
        let length = match usize_try_from_i32(string_length.value()) {
            Ok(length) => length,
            Err(text) => return Err(DecodeError::Invalid(text)),
        };
        let packet_length = length + length_bytes;
        if packet_length > buffer.len() {
            return Err(DecodeError::Incomplete);
        }
        let output_string = vstd::slice::slice_subrange(buffer, length_bytes, packet_length);
        match string_from_utf8(vstd::slice::slice_to_vec(output_string)) {
            Some(value) => Ok((value, packet_length)),
            None => Err(
                DecodeError::Invalid(
                    String::from_str("Failed to decode string, not valid UTF-8"),
                ),
            ),
        }
    }
}

impl<'a> Encode for &'a str {
    open spec fn spec_encode(value: Seq<char>) -> Result<Seq<u8>, EncodeErrorView> {
        spec_write_string(value)
    }

    open spec fn spec_length_defined(value: Seq<char>) -> bool {
        encode_utf8(value).len() <= i32::MAX
    }

    open spec fn spec_encoded_length(value: Seq<char>) -> nat {
        encode_utf8(value).len() + varint_bytes(encode_utf8(value).len() as i32).len()
    }

    fn encode(&self, buffer: &mut BytesMut) -> (r: Result<usize, EncodeError>) {
        let bytes = self.as_bytes();
        let length = bytes.len();
        if length < MAX_STRING_BYTES {
            let string_length = VarInt::new(length as i32);
            assert(Self::spec_encode(self@) == Ok::<Seq<u8>, EncodeErrorView>(
                varint_bytes(length as i32) + encode_utf8(self@),
            ));
            string_length.encode(buffer);
            bytes_mut_extend_from_slice(buffer, bytes);
            Ok(length + string_length.get_encoded_length())
        } else {
            let text = String::from_str("String is too long: ");
            Err(EncodeError::Invalid(text.concat(*self)))
        }
    }

    fn get_encoded_length(&self) -> (n: usize) {
        let length = self.as_bytes().len();
        length + get_var_int_encoded_length(length as i32)
    }
}

impl Encode for String {
    open spec fn spec_encode(value: Seq<char>) -> Result<Seq<u8>, EncodeErrorView> {
        spec_write_string(value)
    }

    open spec fn spec_length_defined(value: Seq<char>) -> bool {
        encode_utf8(value).len() <= i32::MAX
    }

    open spec fn spec_encoded_length(value: Seq<char>) -> nat {
        encode_utf8(value).len() + varint_bytes(encode_utf8(value).len() as i32).len()
    }

    fn encode(&self, buffer: &mut BytesMut) -> (r: Result<usize, EncodeError>) {
        self.as_str().encode(buffer)
    }

    fn get_encoded_length(&self) -> (n: usize) {
        self.as_str().get_encoded_length()
    }
}

/// Law: reading back what writing a string produced gives the string and the
/// length of its encoding, whatever follows; and that length is what
/// `get_encoded_length` says.
pub proof fn lemma_string_roundtrip(chars: Seq<char>, rest: Seq<u8>)
    requires
        encode_utf8(chars).len() < MAX_STRING_BYTES,
    ensures
        spec_write_string(chars) matches Ok(bytes) && spec_read_string(bytes + rest) == Ok::<
            (Seq<char>, usize),
            DecodeErrorView,
        >((chars, bytes.len() as usize)) && bytes.len() == encode_utf8(chars).len()
            + varint_bytes(encode_utf8(chars).len() as i32).len(),
{
    let utf8 = encode_utf8(chars);
    let length = utf8.len() as i32;
    let header = varint_bytes(length);
    let buffer = header + utf8 + rest;
    assert(buffer =~= header + (utf8 + rest));
    lemma_varint_roundtrip(length, utf8 + rest, 5);
    assert(buffer.subrange(header.len() as int, (header.len() + utf8.len()) as int) =~= utf8);
}

} // verus!
