//! The packets that the proxy understands.
use crate::packet::stream::{DecodeError, DecodeErrorView, EncodeError, EncodeErrorView};
use crate::packet::{RawPacket, result_view};
use vstd::prelude::*;

pub mod handshake;
pub mod status;

pub use handshake::HandshakePacket;
pub use status::PingRequestPacket;

verus! {

/// The kinds of packet that the proxy understands.
#[derive(Debug, Clone, Copy, PartialEq, Eq, Hash, Structural)]
pub enum MinecraftPacketType {
    Handshake,
    PingRequest,
}

/// A packet that the proxy understands.
pub enum Packet {
    Handshake(HandshakePacket),
}

/// A packet of a known kind, read from and written to a raw packet.
pub trait MinecraftPacket: Sized + View {
    /// The packet that a payload holds, or why it holds none.
    spec fn spec_from_payload(payload: Seq<u8>) -> Result<Self::V, DecodeErrorView>;

    /// The data (packet id, then payload) that writing a packet produces, or
    /// why it cannot be written.
    spec fn spec_into_data(value: Self::V) -> Result<Seq<u8>, EncodeErrorView>;

    /// The kind of the packet.
    spec fn spec_packet_type() -> MinecraftPacketType;

    /// Reads the packet from the payload of `raw_packet`; the packet id is
    /// read past, not checked.
    fn from_raw(raw_packet: &RawPacket) -> (r: Result<Self, DecodeError>)
        requires
            raw_packet.wf(),
        ensures
            result_view(r) == match raw_packet.spec_id() {
                Err(e) => Err(e),
                Ok(_) => Self::spec_from_payload(raw_packet.spec_payload()),
            },
    ;

    /// Writes the packet as a raw packet.
    fn into_raw(self) -> (r: Result<RawPacket, EncodeError>)
        ensures
            match Self::spec_into_data(self@) {
                Ok(data) => r matches Ok(p) && p.wf() && p.spec_data() == data,
                Err(e) => r matches Err(x) && x@ == e,
            },
    ;

    /// The kind of the packet.
    fn packet_type() -> (t: MinecraftPacketType)
        ensures
            t == Self::spec_packet_type(),
    ;
}

} // verus!
