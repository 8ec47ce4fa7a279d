//! Reading the fields of a packet's payload one after another.
use crate::buffer::{bytes_as_slice, bytes_view};
use crate::packet::primitives::VarInt;
use crate::packet::stream::{DecodeError, Decode};
use bytes::Bytes;
use vstd::prelude::*;

verus! {

/// Reads values from the front of a byte sequence, each after the last.
pub struct RawPacketDecoder {
    data: Bytes,
    cursor: usize,
}

impl RawPacketDecoder {
    #[verifier::type_invariant]
    spec fn cursor_within(self) -> bool {
        self.cursor <= bytes_view(self.data).len()
    }

    /// All the bytes the decoder reads from.
    pub closed spec fn all_bytes(self) -> Seq<u8> {
        bytes_view(self.data)
    }

    /// The number of bytes read so far.
    pub closed spec fn position(self) -> nat {
        self.cursor as nat
    }

    /// The bytes not yet read.
    pub open spec fn remaining(self) -> Seq<u8> {
        self.all_bytes().skip(self.position() as int)
    }

    /// A decoder that reads `data` from its start.
    pub fn new(data: Bytes) -> (r: RawPacketDecoder)
        ensures
            r.all_bytes() == bytes_view(data),
            r.position() == 0,
            r.remaining() == bytes_view(data),
    {
        let r = RawPacketDecoder { data, cursor: 0 };
        assert(r.remaining() =~= bytes_view(data));
        r
    }

    /// Reads a `T` from the bytes not yet read.
    fn read<T: Decode>(&mut self) -> (r: Result<T, DecodeError>)
        ensures
            reads::<T>(*old(self), *final(self), r),
    {
        proof {
            use_type_invariant(&*self);
        }
        let rest = vstd::slice::slice_subrange(
            bytes_as_slice(&self.data),
            self.cursor,
            bytes_as_slice(&self.data).len(),
        );
        assert(rest@ =~= self.remaining());
        match T::decode(rest) {
            Ok((value, length)) => {
                self.cursor = self.cursor + length;
                assert(self.remaining() =~= old(self).remaining().skip(length as int));
                Ok(value)
            },
            Err(e) => Err(e),
        }
    }

    /// Reads a `bool`.
    pub fn boolean(&mut self) -> (r: Result<bool, DecodeError>)
        ensures
            reads::<bool>(*old(self), *final(self), r),
    {
        self.read::<bool>()
    }

    /// Reads an `i8`.
    pub fn byte(&mut self) -> (r: Result<i8, DecodeError>)
        ensures
            reads::<i8>(*old(self), *final(self), r),
    {
        self.read::<i8>()
    }

    /// Reads a `u8`.
    pub fn unsigned_byte(&mut self) -> (r: Result<u8, DecodeError>)
        ensures
            reads::<u8>(*old(self), *final(self), r),
    {
        self.read::<u8>()
    }

    /// Reads a big-endian `i16`.
    pub fn short(&mut self) -> (r: Result<i16, DecodeError>)
        ensures
            reads::<i16>(*old(self), *final(self), r),
    {
        self.read::<i16>()
    }

    /// Reads a big-endian `u16`.
    pub fn unsigned_short(&mut self) -> (r: Result<u16, DecodeError>)
        ensures
            reads::<u16>(*old(self), *final(self), r),
    {
        self.read::<u16>()
    }

    /// Reads a big-endian `i32`.
    pub fn integer(&mut self) -> (r: Result<i32, DecodeError>)
        ensures
            reads::<i32>(*old(self), *final(self), r),
    {
        self.read::<i32>()
    }

    /// Reads a big-endian `i64`.
    pub fn long(&mut self) -> (r: Result<i64, DecodeError>)
        ensures
            reads::<i64>(*old(self), *final(self), r),
    {
        self.read::<i64>()
    }

    /// Reads a string.
    pub fn string(&mut self) -> (r: Result<String, DecodeError>)
        ensures
            reads::<String>(*old(self), *final(self), r),
    {
        self.read::<String>()
    }

    /// Reads a VarInt.
    pub fn var_int(&mut self) -> (r: Result<VarInt, DecodeError>)
        ensures
            reads::<VarInt>(*old(self), *final(self), r),
    {
        self.read::<VarInt>()
    }
}

/// One read of a `T`: on success the value that `T`'s decoding gives for the
/// bytes not yet read, with those bytes consumed; on an error, the error, with
/// nothing consumed.
pub open spec fn reads<T: Decode>(
    before: RawPacketDecoder,
    after: RawPacketDecoder,
    r: Result<T, DecodeError>,
) -> bool {
    &&& after.all_bytes() == before.all_bytes()
    &&& match T::spec_decode(before.remaining()) {
        Ok((value, length)) => {
            &&& r matches Ok(v) && v@ == value
            &&& after.position() == before.position() + length
            &&& after.remaining() == before.remaining().skip(length as int)
        },
        Err(e) => {
            &&& r matches Err(x) && x@ == e
            &&& after.position() == before.position()
            &&& after.remaining() == before.remaining()
        },
    }
}

} // verus!
