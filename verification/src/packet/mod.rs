//! Packets as they travel: a VarInt length, then the packet's data, which is
//! a VarInt packet id followed by the payload.
use crate::buffer::{
    bytes_as_slice, bytes_mut_extend_from_slice, bytes_mut_freeze, bytes_mut_new, bytes_slice_from,
    bytes_view,
};
use crate::packet::primitives::var_int::{
    lemma_varint_roundtrip, spec_read_varint, varint_bytes, VarInt,
};
use crate::packet::stream::{DecodeError, DecodeErrorView};
use crate::text::{decimal, decimal_string, lower_hex, to_lower_hex};
use bytes::Bytes;
use vstd::prelude::*;

pub mod builder;
pub mod decoder;
pub mod primitives;
pub mod stream;
pub mod types;

verus! {

/// One packet: its bytes as they travel, and where its data begins after the
/// length prefix.
#[derive(Debug, Clone, PartialEq, Eq, Default, Hash)]
pub struct RawPacket {
    raw_data: Bytes,
    packet_length_offset: usize,
}

/// The outcome of reading something, with the value and the error taken by
/// their views.
pub open spec fn result_view<T: View>(r: Result<T, DecodeError>) -> Result<T::V, DecodeErrorView> {
    match r {
        Ok(value) => Ok(value@),
        Err(e) => Err(e@),
    }
}

/// The first part of a successful outcome.
pub open spec fn first_of<A, B, E>(r: Result<(A, B), E>) -> Result<A, E> {
    match r {
        Ok((a, _)) => Ok(a),
        Err(e) => Err(e),
    }
}

impl RawPacket {
    /// The packet's bytes, length prefix included.
    pub closed spec fn raw(&self) -> Seq<u8> {
        bytes_view(self.raw_data)
    }

    /// The length of the length prefix.
    pub closed spec fn offset(&self) -> nat {
        self.packet_length_offset as nat
    }

    /// The length prefix lies within the packet's bytes.
    pub open spec fn wf(&self) -> bool {
        self.offset() <= self.raw().len()
    }

    /// The packet's data: its bytes after the length prefix.
    pub open spec fn spec_data(&self) -> Seq<u8> {
        self.raw().skip(self.offset() as int)
    }

    /// The packet id at the start of the data, with the number of bytes it
    /// takes, or why it cannot be read.
    pub open spec fn spec_id(&self) -> Result<(i32, usize), DecodeErrorView> {
        spec_read_varint(self.spec_data(), 5)
    }

    /// The payload: the data after the packet id.
    pub open spec fn spec_payload(&self) -> Seq<u8> {
        match self.spec_id() {
            Ok((_, id_length)) => self.spec_data().skip(id_length as int),
            Err(_) => Seq::empty(),
        }
    }

    /// A packet of the given bytes, whose data begins after
    /// `packet_length_offset` bytes.
    pub fn new(raw_data: Bytes, packet_length_offset: usize) -> (r: RawPacket)
        ensures
            r.raw() == bytes_view(raw_data),
            r.offset() == packet_length_offset,
    {
        RawPacket { raw_data, packet_length_offset }
    }

    /// The packet whose data is `data`: its length as a VarInt, then the data.
    pub fn from_data(data: Bytes) -> (r: RawPacket)
        requires
            bytes_view(data).len() <= i32::MAX,
            bytes_view(data).len() + 5 <= isize::MAX,
        ensures
            r.raw() == varint_bytes(bytes_view(data).len() as i32) + bytes_view(data),
            r.offset() == varint_bytes(bytes_view(data).len() as i32).len(),
            r.wf(),
            r.spec_data() == bytes_view(data),
    {
        let slice = bytes_as_slice(&data);
        let packet_length = VarInt::new(slice.len() as i32);
        let mut dst = bytes_mut_new();
        packet_length.encode(&mut dst);
        bytes_mut_extend_from_slice(&mut dst, slice);
        let r = RawPacket {
            raw_data: bytes_mut_freeze(dst),
            packet_length_offset: packet_length.get_encoded_length(),
        };
        assert(r.spec_data() =~= bytes_view(data));
        r
    }

    /// The packet with the given id and payload.
    pub fn construct(id: i32, payload: Bytes) -> (r: RawPacket)
        requires
            bytes_view(payload).len() + 10 <= i32::MAX,
        ensures
            r.wf(),
            r.spec_data() == varint_bytes(id) + bytes_view(payload),
    {
        let id = VarInt::new(id);
        let mut dst = bytes_mut_new();
        id.encode(&mut dst);
        bytes_mut_extend_from_slice(&mut dst, bytes_as_slice(&payload));
        RawPacket::from_data(bytes_mut_freeze(dst))
    }

    /// Whether the length prefix lies within the packet's bytes.
    pub fn is_well_formed(&self) -> (r: bool)
        ensures
            r == self.wf(),
    {
        self.packet_length_offset <= bytes_as_slice(&self.raw_data).len()
    }

    /// The number of bytes of the data.
    pub fn data_len(&self) -> (n: usize)
        requires
            self.wf(),
        ensures
            n == self.spec_data().len(),
    {
        bytes_as_slice(&self.raw_data).len() - self.packet_length_offset
    }

    /// The packet's bytes, length prefix included.
    pub fn raw_data(&self) -> (r: &Bytes)
        ensures
            bytes_view(*r) == self.raw(),
    {
        &self.raw_data
    }

    /// The packet's data: its bytes after the length prefix.
    pub fn data(&self) -> (r: Bytes)
        requires
            self.wf(),
        ensures
            bytes_view(r) == self.spec_data(),
    {
        bytes_slice_from(&self.raw_data, self.packet_length_offset)
    }

    /// The packet id.
    pub fn id(&self) -> (r: Result<VarInt, DecodeError>)
        requires
            self.wf(),
        ensures
            result_view(r) == first_of(self.spec_id()),
    {
        let data = self.data();
        match VarInt::decode(bytes_as_slice(&data)) {
            Ok((vint, _)) => Ok(vint),
            Err(e) => Err(e),
        }
    }

    /// Whether the packet carries no payload: its bytes are the length
    /// prefix and an id of the length that the id's own encoding takes.
    pub fn is_empty(&self) -> (r: bool)
        requires
            self.wf(),
            self.spec_id() is Ok,
        ensures
            r == (self.raw().len() == varint_bytes(self.spec_id()->Ok_0.0).len() + self.offset()),
    {
        let id = match self.id() {
            Ok(id) => id,
            Err(_) => {
                assert(false);
                return false;
            },
        };
        bytes_as_slice(&self.raw_data).len() - self.packet_length_offset == id.get_encoded_length()
    }

    /// The payload: the data after the packet id.
    pub fn payload(&self) -> (r: Result<Bytes, DecodeError>)
        requires
            self.wf(),
        ensures
            match r {
                Ok(payload) => self.spec_id() is Ok && bytes_view(payload) == self.spec_payload(),
                Err(e) => self.spec_id() == Err::<(i32, usize), DecodeErrorView>(e@),
            },
    {
        let data = self.data();
        let id_len = match VarInt::decode(bytes_as_slice(&data)) {
            Ok((_, id_len)) => id_len,
            Err(e) => return Err(e),
        };
        // The packet's length, which fits in a `usize`, bounds the payload's start.
        let raw_len = bytes_as_slice(&self.raw_data).len();
        assert(self.packet_length_offset + id_len <= raw_len);
        let r = bytes_slice_from(&self.raw_data, self.packet_length_offset + id_len);
        assert(bytes_view(r) =~= self.spec_payload());
        Ok(r)
    }

    /// The packet id and the payload.
    pub fn split(&self) -> (r: Result<(VarInt, Bytes), DecodeError>)
        requires
            self.wf(),
        ensures
            match r {
                Ok((id, payload)) => self.spec_id() matches Ok((v, _)) && id@ == v && bytes_view(
                    payload,
                ) == self.spec_payload(),
                Err(e) => self.spec_id() == Err::<(i32, usize), DecodeErrorView>(e@),
            },
    {
        let data = self.data();
        let (id, id_len) = match VarInt::decode(bytes_as_slice(&data)) {
            Ok(found) => found,
            Err(e) => return Err(e),
        };
        // The packet's length, which fits in a `usize`, bounds the payload's start.
        let raw_len = bytes_as_slice(&self.raw_data).len();
        assert(self.packet_length_offset + id_len <= raw_len);
        let payload = bytes_slice_from(&self.raw_data, self.packet_length_offset + id_len);
        assert(bytes_view(payload) =~= self.spec_payload());
        Ok((id, payload))
    }

    /// The packet as it is shown to a person: its id, then its payload in
    /// hexadecimal or `None` when it carries none.
    pub open spec fn display_text(&self) -> Seq<char> {
        let id = self.spec_id()->Ok_0.0;
        if self.raw().len() == varint_bytes(id).len() + self.offset() {
            "(id:"@ + decimal(id as int) + ",None)"@
        } else {
            "(id:"@ + decimal(id as int) + ",0x"@ + lower_hex(self.spec_payload()) + ")"@
        }
    }

    /// The packet as it is shown to a person.
    pub fn to_string(&self) -> (s: String)
        requires
            self.wf(),
            self.spec_id() is Ok,
        ensures
            s@ == self.display_text(),
    {
        let id = match self.id() {
            Ok(id) => id,
            Err(_) => {
                assert(false);
                return String::new();
            },
        };
        let text = String::from_str("(id:").concat(decimal_string(id.value() as i128).as_str());
        if self.is_empty() {
            text.concat(",None)")
        } else {
            let payload = match self.payload() {
                Ok(payload) => payload,
                Err(_) => {
                    assert(false);
                    return String::new();
                },
            };
            text.concat(",0x").concat(to_lower_hex(bytes_as_slice(&payload)).as_str()).concat(")")
        }
    }
}

/// Law: a packet whose data is the VarInt of an id followed by a payload
/// gives back that id, and that payload as its payload.
pub proof fn lemma_id_and_payload(packet: RawPacket, id: i32, payload: Seq<u8>)
    requires
        packet.wf(),
        packet.spec_data() == varint_bytes(id) + payload,
    ensures
        packet.spec_id() == Ok::<(i32, usize), DecodeErrorView>(
            (id, varint_bytes(id).len() as usize),
        ),
        packet.spec_payload() == payload,
{
    lemma_varint_roundtrip(id, payload, 5);
    assert((varint_bytes(id) + payload).skip(varint_bytes(id).len() as int) =~= payload);
}

} // verus!
