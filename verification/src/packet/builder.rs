//! Building a packet's data field by field.
use crate::buffer::{bytes_mut_freeze, bytes_mut_new, bytes_mut_view, bytes_view};
use crate::packet::RawPacket;
use crate::packet::primitives::var_int::{VarInt, varint_bytes};
use crate::packet::stream::{Encode, EncodeError, EncodeErrorView};
use bytes::BytesMut;
use vstd::prelude::*;

verus! {

/// Collects a packet id and then the fields of the payload.
pub struct RawPacketBuilder {
    data: BytesMut,
}

/// One write of a value: on success the value's encoding appended to what the
/// builder held; on an error, the error.
pub open spec fn appends<T: Encode>(
    before: Seq<u8>,
    value: T::V,
    r: Result<RawPacketBuilder, EncodeError>,
) -> bool {
    match T::spec_encode(value) {
        Ok(bytes) => r matches Ok(b) && b.contents() == before + bytes,
        Err(e) => r matches Err(x) && x@ == e,
    }
}

/// What appending a value needs: its encoding fits after what the builder
/// holds.
pub open spec fn room_for<T: Encode>(before: Seq<u8>, value: T::V) -> bool {
    T::spec_encode(value) matches Ok(bytes) ==> before.len() + bytes.len() <= isize::MAX
}

impl RawPacketBuilder {
    /// The bytes collected so far.
    pub closed spec fn contents(self) -> Seq<u8> {
        bytes_mut_view(self.data)
    }

    /// A builder that holds the packet id.
    pub fn new(id: i32) -> (r: Self)
        ensures
            r.contents() == varint_bytes(id),
    {
        let id = VarInt::new(id);
        let mut data = bytes_mut_new();
        id.encode(&mut data);
        Self { data }
    }

    /// The packet whose data is what the builder holds.
    pub fn build(self) -> (r: RawPacket)
        ensures
            r.raw() == self.contents(),
            r.offset() == 0,
            r.wf(),
            r.spec_data() == self.contents(),
    {
        let r = RawPacket::new(bytes_mut_freeze(self.data), 0);
        assert(r.spec_data() =~= self.contents());
        r
    }

    /// Appends any value that can be written.
    pub fn put<T: Encode>(self, data: T) -> (r: Result<Self, EncodeError>)
        requires
            room_for::<T>(self.contents(), data@),
        ensures
            appends::<T>(self.contents(), data@, r),
    {
        let mut builder = self;
        match data.encode(&mut builder.data) {
            Ok(_) => Ok(builder),
            Err(e) => Err(e),
        }
    }

    /// Appends a `bool`.
    pub fn bool(self, bool: bool) -> (r: Result<Self, EncodeError>)
        requires
            room_for::<bool>(self.contents(), bool),
        ensures
            appends::<bool>(self.contents(), bool, r),
    {
        self.put(bool)
    }

    /// Appends an `i8`.
    pub fn byte(self, byte: i8) -> (r: Result<Self, EncodeError>)
        requires
            room_for::<i8>(self.contents(), byte),
        ensures
            appends::<i8>(self.contents(), byte, r),
    {
        self.put(byte)
    }

    /// Appends a `u8`.
    pub fn unsigned_byte(self, unsigned_byte: u8) -> (r: Result<Self, EncodeError>)
        requires
            room_for::<u8>(self.contents(), unsigned_byte),
        ensures
            appends::<u8>(self.contents(), unsigned_byte, r),
    {
        self.put(unsigned_byte)
    }

    /// Appends a big-endian `i16`.
    pub fn short(self, short: i16) -> (r: Result<Self, EncodeError>)
        requires
            room_for::<i16>(self.contents(), short),
        ensures
            appends::<i16>(self.contents(), short, r),
    {
        self.put(short)
    }

    /// Appends a big-endian `u16`.
    pub fn unsigned_short(self, unsigned_short: u16) -> (r: Result<Self, EncodeError>)
        requires
            room_for::<u16>(self.contents(), unsigned_short),
        ensures
            appends::<u16>(self.contents(), unsigned_short, r),
    {
        self.put(unsigned_short)
    }

    /// Appends a big-endian `i32`.
    pub fn integer(self, integer: i32) -> (r: Result<Self, EncodeError>)
        requires
            room_for::<i32>(self.contents(), integer),
        ensures
            appends::<i32>(self.contents(), integer, r),
    {
        self.put(integer)
    }

    /// Appends a big-endian `i64`.
    pub fn long(self, long: i64) -> (r: Result<Self, EncodeError>)
        requires
            room_for::<i64>(self.contents(), long),
        ensures
            appends::<i64>(self.contents(), long, r),
    {
        self.put(long)
    }

    /// Appends a string.
    pub fn string_slice(self, string_slice: &str) -> (r: Result<Self, EncodeError>)
        requires
            room_for::<&str>(self.contents(), string_slice@),
        ensures
            appends::<&str>(self.contents(), string_slice@, r),
    {
        self.put(string_slice)
    }

    /// Appends a string.
    pub fn string(self, string: String) -> (r: Result<Self, EncodeError>)
        requires
            room_for::<String>(self.contents(), string@),
        ensures
            appends::<String>(self.contents(), string@, r),
    {
        self.put(string)
    }

    /// Appends a VarInt.
    pub fn var_int(self, var_int: VarInt) -> (r: Result<Self, EncodeError>)
        requires
            room_for::<VarInt>(self.contents(), var_int@),
        ensures
            appends::<VarInt>(self.contents(), var_int@, r),
    {
        self.put(var_int)
    }
}

impl From<RawPacketBuilder> for RawPacket {
    fn from(builder: RawPacketBuilder) -> (r: RawPacket)
        ensures
            r.raw() == builder.contents(),
            r.offset() == 0,
    {
        builder.build()
    }
}

impl vstd::std_specs::convert::FromSpecImpl<RawPacketBuilder> for RawPacket {
    open spec fn obeys_from_spec() -> bool {
        false
    }

    closed spec fn from_spec(builder: RawPacketBuilder) -> RawPacket {
        arbitrary()
    }
}

} // verus!
