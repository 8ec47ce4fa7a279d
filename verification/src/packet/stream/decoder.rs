//! Cutting a byte stream into packets.
use crate::buffer::{
    bytes_mut_as_slice, bytes_mut_freeze, bytes_mut_split_to, bytes_mut_view, bytes_view,
};
use crate::packet::RawPacket;
use crate::packet::primitives::var_int::{
    VarInt, int_conversion_error_text, lemma_varint_roundtrip, spec_encoded_len, spec_read_varint,
    usize_try_from_i32, varint_bytes,
};
use crate::packet::stream::{DecodeError, DecodeErrorView};
use crate::text::{decimal, decimal_string};
use bytes::BytesMut;
use vstd::prelude::*;

verus! {

/// The largest packet length that the decoder accepts.
pub const MAX_PACKET_SIZE: usize = 22;

/// The number of bytes a packet length may take.
pub const MAX_LENGTH_BYTES: usize = 3;

/// Cuts packets off the front of a byte stream.
#[derive(Debug, Default, PartialEq, Eq)]
pub struct MinecraftPacketDecoder {}

/// Why the front of a byte stream is not a packet.
#[derive(Debug, PartialEq, Eq, Clone)]
pub enum FrameError {
    /// The length prefix is not a VarInt of at most three bytes; the text
    /// says why.
    InvalidLength(String),
    /// The length is negative; the text is that of the failed conversion.
    NegativeLength(String),
    /// The length exceeds `MAX_PACKET_SIZE`.
    TooLong(usize),
}

/// What the front of a byte stream holds.
pub enum FrameView {
    /// Not yet a whole packet.
    NeedMore,
    /// A packet of `total` bytes whose length prefix takes `header` bytes.
    Frame { total: nat, header: nat },
    /// A length prefix that is not a VarInt of at most three bytes.
    InvalidLength(Seq<char>),
    /// A negative length.
    NegativeLength(Seq<char>),
    /// A length above `MAX_PACKET_SIZE`.
    TooLong(int),
}

/// What the front of the byte stream `s` holds: its length prefix is read as
/// a VarInt of at most three bytes; a packet is there once all its bytes are.
pub open spec fn spec_next_frame(s: Seq<u8>) -> FrameView {
    match spec_read_varint(s, MAX_LENGTH_BYTES as int) {
        Err(DecodeErrorView::Incomplete) => FrameView::NeedMore,
        Err(DecodeErrorView::Invalid(text)) => FrameView::InvalidLength(text),
        Ok((length, header)) => {
            if length < 0 {
                FrameView::NegativeLength(int_conversion_error_text(length as int))
            } else if length > MAX_PACKET_SIZE {
                FrameView::TooLong(length as int)
            } else if s.len() < length + header {
                FrameView::NeedMore
            } else {
                FrameView::Frame { total: (length + header) as nat, header: header as nat }
            }
        },
    }
}

/// The text of a frame error as it is shown to a person.
pub open spec fn frame_error_text(e: FrameError) -> Seq<char> {
    match e {
        FrameError::InvalidLength(cause) => "Packet Length is invalid value: "@ + cause@,
        FrameError::NegativeLength(cause) => "Packet length could not be converted to usize: "@
            + cause@,
        FrameError::TooLong(length) => "Packet Length is defined too long: "@ + decimal(
            length as int,
        ),
    }
}

impl FrameError {
    /// The text of the error as it is shown to a person.
    pub fn to_string(&self) -> (s: String)
        ensures
            s@ == frame_error_text(*self),
    {
        match self {
            FrameError::InvalidLength(cause) => String::from_str(
                "Packet Length is invalid value: ",
            ).concat(cause.as_str()),
            FrameError::NegativeLength(cause) => String::from_str(
                "Packet length could not be converted to usize: ",
            ).concat(cause.as_str()),
            FrameError::TooLong(length) => {
                String::from_str("Packet Length is defined too long: ").concat(
                    decimal_string(*length as i128).as_str(),
                )
            },
        }
    }
}

impl MinecraftPacketDecoder {
    /// A decoder.
    pub fn new() -> (r: MinecraftPacketDecoder)
        ensures
            r == (MinecraftPacketDecoder {}),
    {
        MinecraftPacketDecoder {}
    }

    /// Cuts the next packet off the front of `src`: `None` while the packet is
    /// not all there, with `src` left as it was; the packet, its bytes
    /// removed from `src`, once it is; an error when the length prefix is not
    /// acceptable, with `src` left as it was.
    pub fn decode(&mut self, src: &mut BytesMut) -> (r: Result<Option<RawPacket>, FrameError>)
        ensures
            match spec_next_frame(bytes_mut_view(*old(src))) {
                FrameView::NeedMore => r == Ok::<Option<RawPacket>, FrameError>(None)
                    && bytes_mut_view(*final(src)) == bytes_mut_view(*old(src)),
                FrameView::Frame { total, header } => {
                    &&& r matches Ok(Some(packet))
                    &&& packet.raw() == bytes_mut_view(*old(src)).take(total as int)
                    &&& packet.offset() == header
                    &&& packet.wf()
                    &&& bytes_mut_view(*final(src)) == bytes_mut_view(*old(src)).skip(total as int)
                },
                FrameView::InvalidLength(text) => r matches Err(FrameError::InvalidLength(cause))
                    && cause@ == text && bytes_mut_view(*final(src)) == bytes_mut_view(*old(src)),
                FrameView::NegativeLength(text) => r matches Err(FrameError::NegativeLength(cause))
                    && cause@ == text && bytes_mut_view(*final(src)) == bytes_mut_view(*old(src)),
                FrameView::TooLong(length) => r matches Err(FrameError::TooLong(n)) && n == length
                    && bytes_mut_view(*final(src)) == bytes_mut_view(*old(src)),
            },
    {
        let (packet_length, int_size) = match VarInt::decode_bounded(
            bytes_mut_as_slice(src),
            MAX_LENGTH_BYTES,
        ) {
            Ok(value) => value,
            Err(DecodeError::Incomplete) => return Ok(None),
            Err(DecodeError::Invalid(error)) => return Err(FrameError::InvalidLength(error)),
        };
        let packet_length = match usize_try_from_i32(packet_length.value()) {
            Ok(size) => size,
            Err(error) => return Err(FrameError::NegativeLength(error)),
        };
        if packet_length > MAX_PACKET_SIZE {
            return Err(FrameError::TooLong(packet_length));
        }
        let full_packet_length = packet_length + int_size;
        if bytes_mut_as_slice(src).len() < full_packet_length {
            return Ok(None);
        }
        let data = bytes_mut_split_to(src, full_packet_length);
        Ok(Some(RawPacket::new(bytes_mut_freeze(data), int_size)))
    }
}

/// Law: a packet whose data has at most `MAX_PACKET_SIZE` bytes, written as
/// its length and its data, is cut off whole from the front of a stream,
/// whatever follows it; its length prefix is that of the encoding.
pub proof fn lemma_frame_roundtrip(data: Seq<u8>, rest: Seq<u8>)
    requires
        data.len() <= MAX_PACKET_SIZE,
    ensures
        ({
            let header = varint_bytes(data.len() as i32);
            let s = header + data + rest;
            &&& spec_next_frame(s) == (FrameView::Frame {
                total: header.len() + data.len(),
                header: header.len(),
            })
            &&& s.take((header.len() + data.len()) as int).skip(header.len() as int) == data
        }),
{
    let length = data.len() as i32;
    let header = varint_bytes(length);
    let s = header + data + rest;
    assert(spec_encoded_len(length as u32) == 1);
    assert(s =~= header + (data + rest));
    lemma_varint_roundtrip(length, data + rest, MAX_LENGTH_BYTES as int);
    assert(s.take((header.len() + data.len()) as int).skip(header.len() as int) =~= data);
}

/// Law: writing a packet that was cut off a stream gives back the bytes it
/// was cut from, whenever its length prefix was written the way the encoder
/// writes it (the shortest VarInt).
pub proof fn lemma_reencode_frame(s: Seq<u8>, total: nat, header: nat)
    requires
        spec_next_frame(s) == (FrameView::Frame { total, header }),
        s.take(header as int) == varint_bytes((total - header) as i32),
    ensures
        ({
            let data = s.take(total as int).skip(header as int);
            varint_bytes(data.len() as i32) + data == s.take(total as int)
        }),
{
    let data = s.take(total as int).skip(header as int);
    assert(data.len() == total - header);
    assert(s.take(header as int) + data =~= s.take(total as int));
}

} // verus!
