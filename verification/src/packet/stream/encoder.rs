//! Writing packets to a byte stream.
use crate::buffer::{bytes_as_slice, bytes_mut_extend_from_slice, bytes_mut_view, bytes_view};
use crate::packet::RawPacket;
use crate::packet::stream::decoder::FrameError;
use crate::packet::primitives::var_int::{VarInt, varint_bytes};
use bytes::BytesMut;
use vstd::prelude::*;

verus! {

/// Writes packets to a byte stream.
#[derive(Debug, Default, PartialEq, Eq)]
pub struct MinecraftPacketEncoder {}

impl MinecraftPacketEncoder {
    /// An encoder.
    pub fn new() -> (r: MinecraftPacketEncoder)
        ensures
            r == (MinecraftPacketEncoder {}),
    {
        MinecraftPacketEncoder {}
    }

    /// Appends the packet to `dst`: the length of its data as a VarInt, then
    /// the data.
    pub fn encode(&mut self, item: RawPacket, dst: &mut BytesMut) -> (r: Result<(), FrameError>)
        requires
            item.wf(),
            item.spec_data().len() <= i32::MAX,
            bytes_mut_view(*old(dst)).len() + 5 + item.spec_data().len() <= isize::MAX,
        ensures
            r is Ok,
            bytes_mut_view(*final(dst)) == bytes_mut_view(*old(dst)) + varint_bytes(
                item.spec_data().len() as i32,
            ) + item.spec_data(),
    {
        let data = item.data();
        let slice = bytes_as_slice(&data);
        let packet_length = VarInt::new(slice.len() as i32);
        packet_length.encode(dst);
        bytes_mut_extend_from_slice(dst, slice);
        Ok(())
    }
}

} // verus!
