//! The packets of the status exchange.
use super::{MinecraftPacket, MinecraftPacketType};
use crate::packet::builder::RawPacketBuilder;
use crate::packet::decoder::RawPacketDecoder;
use crate::packet::primitives::number::{be_bytes, lemma_i64_roundtrip};
use crate::packet::primitives::var_int::{lemma_varint_roundtrip, spec_read_varint, varint_bytes};
use crate::packet::stream::{
    DecodeError, DecodeErrorView, Decode, EncodeError, EncodeErrorView,
};
use crate::packet::RawPacket;
use crate::text::{decimal, decimal_string};
use vstd::prelude::*;

verus! {

/// A client's ping, carrying a number that the answer repeats.
#[derive(Debug, Clone, PartialEq, Eq, Structural)]
pub struct PingRequestPacket {
    pub payload: i64,
}

impl View for PingRequestPacket {
    type V = i64;

    open spec fn view(&self) -> i64 {
        self.payload
    }
}

/// The ping request that a payload holds: a big-endian `i64`.
pub open spec fn spec_ping_request(p: Seq<u8>) -> Result<i64, DecodeErrorView> {
    match <i64 as Decode>::spec_decode(p) {
        Ok((payload, _)) => Ok(payload),
        Err(e) => Err(e),
    }
}

/// The ping request as it is shown to a person.
pub open spec fn ping_request_text(payload: i64) -> Seq<char> {
    "(PingRequestPacket Packet: "@ + decimal(payload as int) + ")"@
}

impl PingRequestPacket {
    /// The ping request as it is shown to a person.
    pub fn to_string(&self) -> (s: String)
        ensures
            s@ == ping_request_text(self.payload),
    {
        String::from_str("(PingRequestPacket Packet: ").concat(
            decimal_string(self.payload as i128).as_str(),
        ).concat(")")
    }
}

impl MinecraftPacket for PingRequestPacket {
    open spec fn spec_from_payload(payload: Seq<u8>) -> Result<i64, DecodeErrorView> {
        spec_ping_request(payload)
    }

    open spec fn spec_into_data(value: i64) -> Result<Seq<u8>, EncodeErrorView> {
        Ok(varint_bytes(1) + be_bytes(value as u64, 8))
    }

    open spec fn spec_packet_type() -> MinecraftPacketType {
        MinecraftPacketType::PingRequest
    }

    fn from_raw(raw_packet: &RawPacket) -> (r: Result<Self, DecodeError>) {
        let payload = match raw_packet.payload() {
            Ok(payload) => payload,
            Err(e) => return Err(e),
        };
        let mut parser: RawPacketDecoder = RawPacketDecoder::new(payload);
        let payload = match parser.long() {
            Ok(v) => v,
            Err(e) => return Err(e),
        };
        Ok(Self { payload })
    }

    fn into_raw(self) -> (r: Result<RawPacket, EncodeError>) {
        let builder = RawPacketBuilder::new(1i32);
        match builder.long(self.payload) {
            Ok(b) => Ok(b.build()),
            Err(e) => Err(e),
        }
    }

    fn packet_type() -> (t: MinecraftPacketType) {
        MinecraftPacketType::PingRequest
    }
}

/// Law: reading back a written ping request gives the same request; its
/// data starts with packet id 1 in one byte.
pub proof fn lemma_ping_request_roundtrip(payload: i64)
    ensures
        ({
            let data = varint_bytes(1) + be_bytes(payload as u64, 8);
            &&& spec_read_varint(data, 5) == Ok::<(i32, usize), DecodeErrorView>((1i32, 1usize))
            &&& spec_ping_request(data.skip(1)) == Ok::<i64, DecodeErrorView>(payload)
        }),
{
    let body = be_bytes(payload as u64, 8);
    let data = varint_bytes(1) + body;
    lemma_varint_roundtrip(1, body, 5);
    assert(data.skip(1) =~= body + Seq::<u8>::empty());
    lemma_i64_roundtrip(payload, Seq::<u8>::empty());
}

} // verus!
