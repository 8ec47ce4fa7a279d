//! The packet with which a client opens a connection.
use super::{MinecraftPacket, MinecraftPacketType};
use crate::packet::builder::{RawPacketBuilder, appends};
use crate::packet::decoder::{RawPacketDecoder, reads};
use crate::packet::primitives::number::be_bytes;
use crate::packet::primitives::string::{
    lemma_string_roundtrip, spec_read_string, spec_write_string, MAX_STRING_BYTES,
};
use crate::packet::primitives::var_int::{
    VarInt, lemma_varint_roundtrip, spec_read_varint, varint_bytes,
};
use crate::packet::primitives::number::lemma_u16_roundtrip;
use crate::packet::stream::{
    DecodeError, DecodeErrorView, Decode, Encode, EncodeError, EncodeErrorView,
};
use crate::packet::{RawPacket, result_view};
use crate::server::protocol_version::{
    ConnectionProtocolVersion, invalid_version_text, protocol_number, variant_name, version_of,
    lemma_version_number_roundtrip,
};
use crate::text::{decimal, decimal_string};
use vstd::prelude::*;
use vstd::utf8::encode_utf8;

verus! {

/// What the client means to do on the connection.
#[derive(Debug, Clone, Copy, PartialEq, Eq, PartialOrd, Ord, Hash, Structural)]
pub enum HandshakeIntent {
    Status,
    Login,
    Transfer,
}

/// The opening packet of a connection.
#[derive(Debug, Clone, PartialEq, Eq)]
pub struct HandshakePacket {
    pub protocol_version: ConnectionProtocolVersion,
    pub server_address: String,
    pub server_port: u16,
    pub intent: HandshakeIntent,
}

/// A `HandshakePacket` with the address as a sequence of characters.
pub struct HandshakePacketView {
    pub protocol_version: ConnectionProtocolVersion,
    pub server_address: Seq<char>,
    pub server_port: u16,
    pub intent: HandshakeIntent,
}

impl View for HandshakePacket {
    type V = HandshakePacketView;

    open spec fn view(&self) -> HandshakePacketView {
        HandshakePacketView {
            protocol_version: self.protocol_version,
            server_address: self.server_address@,
            server_port: self.server_port,
            intent: self.intent,
        }
    }
}

/// The intent that a number read from a handshake stands for.
pub open spec fn intent_of(number: i32) -> Option<HandshakeIntent> {
    if number == 1 {
        Some(HandshakeIntent::Status)
    } else if number == 2 {
        Some(HandshakeIntent::Login)
    } else if number == 3 {
        Some(HandshakeIntent::Transfer)
    } else {
        None
    }
}

/// The number that writing a handshake gives an intent: its position among
/// the variants.
pub open spec fn intent_number(intent: HandshakeIntent) -> i32 {
    match intent {
        HandshakeIntent::Status => 0,
        HandshakeIntent::Login => 1,
        HandshakeIntent::Transfer => 2,
    }
}

/// The name of an intent, as `Debug` writes it.
pub open spec fn intent_name(intent: HandshakeIntent) -> Seq<char> {
    match intent {
        HandshakeIntent::Status => "Status"@,
        HandshakeIntent::Login => "Login"@,
        HandshakeIntent::Transfer => "Transfer"@,
    }
}

/// The text of the error for an intent number that stands for no intent.
pub open spec fn invalid_intent_text(number: i32) -> Seq<char> {
    "Invalid handshake intent: "@ + decimal(number as int)
}

/// The handshake that a payload holds: the protocol number, the server
/// address, the port and the intent number, one after another; the intent
/// is checked before the protocol number.
pub open spec fn spec_handshake(p: Seq<u8>) -> Result<HandshakePacketView, DecodeErrorView> {
    match spec_read_varint(p, 5) {
        Err(e) => Err(e),
        Ok((protocol, n1)) => {
            let p1 = p.skip(n1 as int);
            match spec_read_string(p1) {
                Err(e) => Err(e),
                Ok((address, n2)) => {
                    let p2 = p1.skip(n2 as int);
                    match <u16 as Decode>::spec_decode(p2) {
                        Err(e) => Err(e),
                        Ok((port, n3)) => {
                            let p3 = p2.skip(n3 as int);
                            match spec_read_varint(p3, 5) {
                                Err(e) => Err(e),
                                Ok((number, _)) => match intent_of(number) {
                                    None => Err(DecodeErrorView::Invalid(invalid_intent_text(number))),
                                    Some(intent) => match version_of(protocol) {
                                        None => Err(
                                            DecodeErrorView::Invalid(invalid_version_text(protocol)),
                                        ),
                                        Some(version) => Ok(
                                            HandshakePacketView {
                                                protocol_version: version,
                                                server_address: address,
                                                server_port: port,
                                                intent,
                                            },
                                        ),
                                    },
                                },
                            }
                        },
                    }
                },
            }
        },
    }
}

/// The data of a written handshake: packet id 0, then the protocol number,
/// the address, the port and the intent number.
pub open spec fn spec_handshake_data(h: HandshakePacketView) -> Result<Seq<u8>, EncodeErrorView> {
    match spec_write_string(h.server_address) {
        Ok(address) => Ok(
            varint_bytes(0) + varint_bytes(protocol_number(h.protocol_version) as i32) + address
                + be_bytes(h.server_port as u64, 2) + varint_bytes(intent_number(h.intent)),
        ),
        Err(e) => Err(e),
    }
}

/// The handshake as it is shown to a person.
pub open spec fn handshake_text(h: HandshakePacketView) -> Seq<char> {
    "(Handshake Packet: "@ + variant_name(h.protocol_version) + ", \""@ + h.server_address
        + "\", "@ + decimal(h.server_port as int) + ", "@ + intent_name(h.intent) + ")"@
}

impl HandshakePacket {
    /// A handshake with the given fields.
    pub fn new(
        protocol_version: ConnectionProtocolVersion,
        server_address: &str,
        server_port: u16,
        intent: HandshakeIntent,
    ) -> (r: Self)
        ensures
            r@ == (HandshakePacketView {
                protocol_version,
                server_address: server_address@,
                server_port,
                intent,
            }),
    {
        HandshakePacket {
            protocol_version,
            server_address: String::from_str(server_address),
            server_port,
            intent,
        }
    }

    /// The handshake as it is shown to a person.
    pub fn to_string(&self) -> (s: String)
        ensures
            s@ == handshake_text(self@),
    {
        let intent = match self.intent {
            HandshakeIntent::Status => "Status",
            HandshakeIntent::Login => "Login",
            HandshakeIntent::Transfer => "Transfer",
        };
        String::from_str("(Handshake Packet: ").concat(
            self.protocol_version.to_string().as_str(),
        ).concat(", \"").concat(self.server_address.as_str()).concat("\", ").concat(
            decimal_string(self.server_port as i128).as_str(),
        ).concat(", ").concat(intent).concat(")")
    }
}

impl MinecraftPacket for HandshakePacket {
    open spec fn spec_from_payload(payload: Seq<u8>) -> Result<HandshakePacketView, DecodeErrorView> {
        spec_handshake(payload)
    }

    open spec fn spec_into_data(value: HandshakePacketView) -> Result<Seq<u8>, EncodeErrorView> {
        spec_handshake_data(value)
    }

    open spec fn spec_packet_type() -> MinecraftPacketType {
        MinecraftPacketType::Handshake
    }

    fn from_raw(raw_packet: &RawPacket) -> (r: Result<Self, DecodeError>) {
        let payload = match raw_packet.payload() {
            Ok(payload) => payload,
            Err(e) => return Err(e),
        };
        let mut parser: RawPacketDecoder = RawPacketDecoder::new(payload);
        let protocol_version = match parser.var_int() {
            Ok(v) => v,
            Err(e) => return Err(e),
        };
        let server_address = match parser.string() {
            Ok(v) => v,
            Err(e) => return Err(e),
        };
        let server_port = match parser.unsigned_short() {
            Ok(v) => v,
            Err(e) => return Err(e),
        };
        let intent_number = match parser.var_int() {
            Ok(v) => v,
            Err(e) => return Err(e),
        };
        let number = intent_number.value();
        let intent = if number == 1 {
            HandshakeIntent::Status
        } else if number == 2 {
            HandshakeIntent::Login
        } else if number == 3 {
            HandshakeIntent::Transfer
        } else {
            return Err(
                DecodeError::Invalid(
                    String::from_str("Invalid handshake intent: ").concat(
                        decimal_string(number as i128).as_str(),
                    ),
                ),
            );
        };
        let protocol_version = match ConnectionProtocolVersion::from_var_int(protocol_version) {
            Ok(v) => v,
            Err(e) => return Err(e),
        };
        Ok(Self { protocol_version, server_address, server_port, intent })
    }

    fn into_raw(self) -> (r: Result<RawPacket, EncodeError>) {
        let intent: i32 = match self.intent {
            HandshakeIntent::Status => 0,
            HandshakeIntent::Login => 1,
            HandshakeIntent::Transfer => 2,
        };
        let builder = RawPacketBuilder::new(0i32);
        let builder = match builder.var_int(
            VarInt::new(self.protocol_version.protocol() as i32),
        ) {
            Ok(b) => b,
            Err(e) => return Err(e),
        };
        let builder = match builder.string_slice(self.server_address.as_str()) {
            Ok(b) => b,
            Err(e) => return Err(e),
        };
        let builder = match builder.unsigned_short(self.server_port) {
            Ok(b) => b,
            Err(e) => return Err(e),
        };
        let builder = match builder.var_int(VarInt::new(intent)) {
            Ok(b) => b,
            Err(e) => return Err(e),
        };
        Ok(builder.build())
    }

    fn packet_type() -> (t: MinecraftPacketType) {
        MinecraftPacketType::Handshake
    }
}

/// Law: reading back a written handshake gives its protocol version, address
/// and port, with the intent that the written intent number stands for, or
/// the intent error when that number stands for none; the data starts with
/// packet id 0 in one byte.
#[verifier::rlimit(50)]
pub proof fn lemma_handshake_roundtrip(h: HandshakePacketView)
    requires
        encode_utf8(h.server_address).len() < MAX_STRING_BYTES,
    ensures
        spec_handshake_data(h) matches Ok(data) && spec_read_varint(data, 5) == Ok::<
            (i32, usize),
            DecodeErrorView,
        >((0i32, 1usize)) && spec_handshake(data.skip(1)) == match intent_of(
            intent_number(h.intent),
        ) {
            Some(intent) => Ok::<HandshakePacketView, DecodeErrorView>(
                HandshakePacketView {
                    protocol_version: h.protocol_version,
                    server_address: h.server_address,
                    server_port: h.server_port,
                    intent,
                },
            ),
            None => Err(DecodeErrorView::Invalid(invalid_intent_text(intent_number(h.intent)))),
        },
{
    let protocol = protocol_number(h.protocol_version) as i32;
    let number = intent_number(h.intent);
    lemma_string_roundtrip(h.server_address, be_bytes(h.server_port as u64, 2) + varint_bytes(number));
    let address = spec_write_string(h.server_address)->Ok_0;
    let id = varint_bytes(0);
    let p0 = varint_bytes(protocol);
    let port = be_bytes(h.server_port as u64, 2);
    let tail = varint_bytes(number);
    let data = id + p0 + address + port + tail;
    assert(spec_handshake_data(h) == Ok::<Seq<u8>, EncodeErrorView>(data));
    assert(data =~= id + (p0 + address + port + tail));
    lemma_varint_roundtrip(0, p0 + address + port + tail, 5);
    let p = data.skip(1);
    assert(p =~= p0 + (address + port + tail));
    lemma_varint_roundtrip(protocol, address + port + tail, 5);
    let n1 = p0.len() as usize;
    assert(spec_read_varint(p, 5) == Ok::<(i32, usize), DecodeErrorView>((protocol, n1)));
    let p1 = p.skip(n1 as int);
    assert(p1 =~= address + (port + tail));
    let n2 = address.len() as usize;
    assert(spec_read_string(p1) == Ok::<(Seq<char>, usize), DecodeErrorView>(
        (h.server_address, n2),
    ));
    let p2 = p1.skip(n2 as int);
    assert(p2 =~= port + tail);
    lemma_u16_roundtrip(h.server_port, tail);
    assert(<u16 as Decode>::spec_decode(p2) == Ok::<(u16, usize), DecodeErrorView>(
        (h.server_port, 2usize),
    ));
    let p3 = p2.skip(2);
    assert(p3 =~= tail + Seq::<u8>::empty());
    lemma_varint_roundtrip(number, Seq::<u8>::empty(), 5);
    assert(spec_read_varint(p3, 5) == Ok::<(i32, usize), DecodeErrorView>(
        (number, tail.len() as usize),
    ));
    lemma_version_number_roundtrip(h.protocol_version);
}

/// The payload of a handshake as a client writes it: the protocol number of
/// `version`, the address, the port, then the intent number `number`.
pub open spec fn handshake_payload(
    version: ConnectionProtocolVersion,
    address: Seq<char>,
    port: u16,
    number: i32,
) -> Seq<u8> {
    varint_bytes(protocol_number(version) as i32) + spec_write_string(address)->Ok_0 + be_bytes(
        port as u64,
        2,
    ) + varint_bytes(number)
}

proof fn lemma_read_handshake_payload(
    version: ConnectionProtocolVersion,
    address: Seq<char>,
    port: u16,
    number: i32,
)
    requires
        encode_utf8(address).len() < MAX_STRING_BYTES,
    ensures
        spec_handshake(handshake_payload(version, address, port, number)) == match intent_of(
            number,
        ) {
            Some(intent) => Ok::<HandshakePacketView, DecodeErrorView>(
                HandshakePacketView {
                    protocol_version: version,
                    server_address: address,
                    server_port: port,
                    intent,
                },
            ),
            None => Err(DecodeErrorView::Invalid(invalid_intent_text(number))),
        },
{
    let protocol = protocol_number(version) as i32;
    lemma_string_roundtrip(address, be_bytes(port as u64, 2) + varint_bytes(number));
    let written = spec_write_string(address)->Ok_0;
    let p0 = varint_bytes(protocol);
    let port_bytes = be_bytes(port as u64, 2);
    let tail = varint_bytes(number);
    let p = handshake_payload(version, address, port, number);
    assert(p =~= p0 + (written + port_bytes + tail));
    lemma_varint_roundtrip(protocol, written + port_bytes + tail, 5);
    let n1 = p0.len() as usize;
    let p1 = p.skip(n1 as int);
    assert(p1 =~= written + (port_bytes + tail));
    let n2 = written.len() as usize;
    assert(spec_read_string(p1) == Ok::<(Seq<char>, usize), DecodeErrorView>((address, n2)));
    let p2 = p1.skip(n2 as int);
    assert(p2 =~= port_bytes + tail);
    lemma_u16_roundtrip(port, tail);
    let p3 = p2.skip(2);
    assert(p3 =~= tail + Seq::<u8>::empty());
    lemma_varint_roundtrip(number, Seq::<u8>::empty(), 5);
    lemma_version_number_roundtrip(version);
}

/// Law: in a handshake as a client writes it, intent number 1 means a status
/// request, 2 a login and 3 a transfer, and every other number is refused;
/// the version, address and port are read back as written.
pub proof fn lemma_handshake_intents(
    version: ConnectionProtocolVersion,
    address: Seq<char>,
    port: u16,
    number: i32,
)
    requires
        encode_utf8(address).len() < MAX_STRING_BYTES,
    ensures
        spec_handshake(handshake_payload(version, address, port, number)) is Ok <==> (1 <= number
            <= 3),
        number == 1 ==> spec_handshake(handshake_payload(version, address, port, number)) == Ok::<
            HandshakePacketView,
            DecodeErrorView,
        >(
            HandshakePacketView {
                protocol_version: version,
                server_address: address,
                server_port: port,
                intent: HandshakeIntent::Status,
            },
        ),
        number == 2 ==> spec_handshake(handshake_payload(version, address, port, number)) == Ok::<
            HandshakePacketView,
            DecodeErrorView,
        >(
            HandshakePacketView {
                protocol_version: version,
                server_address: address,
                server_port: port,
                intent: HandshakeIntent::Login,
            },
        ),
        number == 3 ==> spec_handshake(handshake_payload(version, address, port, number)) == Ok::<
            HandshakePacketView,
            DecodeErrorView,
        >(
            HandshakePacketView {
                protocol_version: version,
                server_address: address,
                server_port: port,
                intent: HandshakeIntent::Transfer,
            },
        ),
{
    lemma_read_handshake_payload(version, address, port, number);
}

} // verus!
