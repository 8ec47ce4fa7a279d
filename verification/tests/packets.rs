use bytes::{Bytes, BytesMut};
use netherconduit_core::connection::ConnectionState;
use netherconduit_core::packet::RawPacket;
use netherconduit_core::packet::builder::RawPacketBuilder;
use netherconduit_core::packet::decoder::RawPacketDecoder;
use netherconduit_core::packet::primitives::VarInt;
use netherconduit_core::packet::stream::decoder::{
    FrameError, MAX_PACKET_SIZE, MinecraftPacketDecoder,
};
use netherconduit_core::packet::stream::{DecodeError, Decode, Encode, EncodeError};
use netherconduit_core::packet::types::handshake::{HandshakeIntent, HandshakePacket};
use netherconduit_core::packet::types::{
    MinecraftPacket, MinecraftPacketType, PingRequestPacket,
};
use netherconduit_core::player_connection::{
    Delivery, PacketAction, handle_handshake, handle_status, plan_action,
};
use netherconduit_core::server::protocol_version::ConnectionProtocolVersion;
use netherconduit_core::server::status::ServerStatus;
use netherconduit_core::text::to_lower_hex;

fn handshake_bytes(protocol: i32, address: &str, port: u16, intent: i32) -> RawPacket {
    RawPacketBuilder::new(0)
        .var_int(VarInt::new(protocol))
        .unwrap()
        .string_slice(address)
        .unwrap()
        .unsigned_short(port)
        .unwrap()
        .var_int(VarInt::new(intent))
        .unwrap()
        .build()
}

#[test]
fn raw_packet_from_data_prefixes_length() {
    let packet = RawPacket::from_data(Bytes::from(vec![0x05, 0xaa, 0xbb]));
    assert_eq!(packet.raw_data().as_ref(), &[0x03, 0x05, 0xaa, 0xbb]);
    assert_eq!(packet.data().as_ref(), &[0x05, 0xaa, 0xbb]);
    assert_eq!(packet.data_len(), 3);
    assert_eq!(packet.id().unwrap(), VarInt::new(5));
    assert_eq!(packet.payload().unwrap().as_ref(), &[0xaa, 0xbb]);
    let (id, payload) = packet.split().unwrap();
    assert_eq!(id.value(), 5);
    assert_eq!(payload.as_ref(), &[0xaa, 0xbb]);
    assert!(!packet.is_empty());
}

#[test]
fn raw_packet_construct_long_length() {
    let payload = Bytes::from(vec![0x07; 200]);
    let packet = RawPacket::construct(300, payload.clone());
    // id 300 takes two bytes, so the data has 202 bytes: length 0xca 0x01.
    assert_eq!(&packet.raw_data().as_ref()[..4], &[0xca, 0x01, 0xac, 0x02]);
    assert_eq!(packet.id().unwrap().value(), 300);
    assert_eq!(packet.payload().unwrap(), payload);
}

#[test]
fn raw_packet_without_payload_is_empty() {
    let packet = RawPacket::construct(0, Bytes::new());
    assert!(packet.is_empty());
    assert_eq!(packet.to_string(), "(id:0,None)");
}

#[test]
fn raw_packet_text_shows_payload_in_hex() {
    let packet = RawPacket::construct(1, Bytes::from(vec![0x00, 0xab, 0x0f]));
    assert_eq!(packet.to_string(), "(id:1,0x00ab0f)");
}

#[test]
fn raw_packet_without_id_reports_error() {
    let packet = RawPacket::new(Bytes::from(vec![0x01, 0x80]), 1);
    assert!(packet.is_well_formed());
    assert_eq!(packet.id(), Err(DecodeError::Incomplete));
    assert_eq!(packet.payload(), Err(DecodeError::Incomplete));
    assert_eq!(packet.split(), Err(DecodeError::Incomplete));
}

#[test]
fn raw_packet_new_keeps_its_offset() {
    let packet = RawPacket::new(Bytes::from(vec![0x02, 0x09, 0x01]), 1);
    assert_eq!(packet.data().as_ref(), &[0x09, 0x01]);
    assert!(!RawPacket::new(Bytes::from(vec![0x01]), 2).is_well_formed());
}

#[test]
fn builder_then_decoder_reads_fields_back() {
    let packet = RawPacketBuilder::new(9)
        .bool(true)
        .unwrap()
        .byte(-2)
        .unwrap()
        .unsigned_byte(200)
        .unwrap()
        .short(-300)
        .unwrap()
        .unsigned_short(60000)
        .unwrap()
        .integer(-70000)
        .unwrap()
        .long(1 << 40)
        .unwrap()
        .string("héllo".to_string())
        .unwrap()
        .var_int(VarInt::new(-1))
        .unwrap()
        .put(7u8)
        .unwrap()
        .build();
    assert_eq!(packet.id().unwrap().value(), 9);
    let mut decoder = RawPacketDecoder::new(packet.payload().unwrap());
    assert_eq!(decoder.boolean(), Ok(true));
    assert_eq!(decoder.byte(), Ok(-2));
    assert_eq!(decoder.unsigned_byte(), Ok(200));
    assert_eq!(decoder.short(), Ok(-300));
    assert_eq!(decoder.unsigned_short(), Ok(60000));
    assert_eq!(decoder.integer(), Ok(-70000));
    assert_eq!(decoder.long(), Ok(1 << 40));
    assert_eq!(decoder.string(), Ok("héllo".to_string()));
    assert_eq!(decoder.var_int(), Ok(VarInt::new(-1)));
    assert_eq!(decoder.unsigned_byte(), Ok(7));
    assert_eq!(decoder.boolean(), Err(DecodeError::Incomplete));
}

#[test]
fn builder_writes_big_endian() {
    let packet = RawPacketBuilder::new(0).integer(0x01020304).unwrap().build();
    assert_eq!(packet.raw_data().as_ref(), &[0x00, 0x01, 0x02, 0x03, 0x04]);
    let packet: RawPacket = RawPacketBuilder::new(0).short(-2).unwrap().into();
    assert_eq!(packet.raw_data().as_ref(), &[0x00, 0xff, 0xfe]);
}

#[test]
fn builder_refuses_long_string() {
    let long = "a".repeat(32767);
    let result = RawPacketBuilder::new(0).string_slice(&long);
    match result {
        Err(EncodeError::Invalid(text)) => {
            assert_eq!(text, format!("String is too long: {long}"))
        }
        Ok(_) => panic!("a string of 32767 bytes must be refused"),
    }
    assert!(RawPacketBuilder::new(0).string_slice(&"a".repeat(32766)).is_ok());
}

#[test]
fn decoder_on_bad_bool_keeps_position() {
    let mut decoder = RawPacketDecoder::new(Bytes::from(vec![0x02, 0x01]));
    assert_eq!(
        decoder.boolean(),
        Err(DecodeError::Invalid("Bool is not valid value: 2".to_string()))
    );
    assert_eq!(decoder.unsigned_byte(), Ok(2));
    assert_eq!(decoder.boolean(), Ok(true));
}

#[test]
fn string_decode_errors() {
    assert_eq!(String::decode(&[0x03, b'a']), Err(DecodeError::Incomplete));
    assert_eq!(
        String::decode(&[0x02, 0xff, 0xfe]),
        Err(DecodeError::Invalid(
            "Failed to decode string, not valid UTF-8".to_string()
        ))
    );
    assert!(matches!(
        String::decode(&[0xff, 0xff, 0xff, 0xff, 0x0f]),
        Err(DecodeError::Invalid(_))
    ));
    assert_eq!(String::decode(&[0x02, b'h', b'i', 0x00]), Ok(("hi".to_string(), 3)));
}

#[test]
fn string_encoded_length_counts_bytes() {
    assert_eq!("é".get_encoded_length(), 3);
    assert_eq!("a".repeat(200).get_encoded_length(), 202);
}

#[test]
fn number_errors_and_values() {
    assert_eq!(i16::decode(&[0x80]), Err(DecodeError::Incomplete));
    assert_eq!(i16::decode(&[0x80, 0x00]), Ok((i16::MIN, 2)));
    assert_eq!(u16::decode(&[0x63, 0xdd, 0x00]), Ok((25565, 2)));
    assert_eq!(i64::decode(&[0; 7]), Err(DecodeError::Incomplete));
    assert_eq!(u8::decode(&[]), Err(DecodeError::Incomplete));
    assert_eq!(i8::decode(&[0xff]), Ok((-1, 1)));
    assert_eq!(bool::decode(&[0x00]), Ok((false, 1)));
}

#[test]
fn var_int_text_and_bounds() {
    assert_eq!(VarInt::new(-42).to_string(), "-42");
    assert_eq!(VarInt::new(25565).get_encoded_length(), 3);
    assert_eq!(
        VarInt::decode_bounded(&[0x80, 0x80, 0x80, 0x01], 3),
        Err(DecodeError::Invalid(
            "VarInt is longer than its maximum length".to_string()
        ))
    );
    assert_eq!(VarInt::decode_bounded(&[0x80, 0x80], 3), Err(DecodeError::Incomplete));
    assert_eq!(i32::from(VarInt::from(7)), 7);
    let mut buffer = BytesMut::new();
    let (value, used) = VarInt::decode_consuming_buffer(&mut {
        let _ = VarInt::new(300).encode(&mut buffer);
        buffer.extend_from_slice(&[0x42]);
        buffer
    })
    .unwrap();
    assert_eq!((value.value(), used), (300, 2));
}

#[test]
fn frame_length_limit() {
    assert_eq!(MAX_PACKET_SIZE, 22);
    let mut decoder = MinecraftPacketDecoder::new();
    let mut data = BytesMut::from(&[23u8, 0x00][..]);
    assert_eq!(decoder.decode(&mut data), Err(FrameError::TooLong(23)));
    assert_eq!(data.len(), 2);
    assert_eq!(
        FrameError::TooLong(23).to_string(),
        "Packet Length is defined too long: 23"
    );
    let mut data = BytesMut::from(&[22u8][..]);
    assert_eq!(decoder.decode(&mut data), Ok(None));
}

#[test]
fn frame_length_prefix_of_four_bytes_is_invalid() {
    let mut decoder = MinecraftPacketDecoder::new();
    let mut data = BytesMut::from(&[0x80u8, 0x80, 0x80, 0x01][..]);
    let result = decoder.decode(&mut data);
    assert_eq!(
        result,
        Err(FrameError::InvalidLength(
            "VarInt is longer than its maximum length".to_string()
        ))
    );
    assert_eq!(
        result.unwrap_err().to_string(),
        "Packet Length is invalid value: VarInt is longer than its maximum length"
    );
}

#[test]
fn frame_with_non_canonical_length_prefix() {
    // A length of 0 written in two bytes is read as an empty packet.
    let mut decoder = MinecraftPacketDecoder::new();
    let mut data = BytesMut::from(&[0x80u8, 0x00, 0x05][..]);
    let packet = decoder.decode(&mut data).unwrap().unwrap();
    assert_eq!(packet.data_len(), 0);
    assert_eq!(data.as_ref(), &[0x05]);
}

#[test]
fn handshake_from_client_bytes() {
    let raw = handshake_bytes(776, "localhost", 25565, 2);
    let packet = HandshakePacket::from_raw(&raw).unwrap();
    assert_eq!(
        packet,
        HandshakePacket::new(
            ConnectionProtocolVersion::MC776,
            "localhost",
            25565,
            HandshakeIntent::Login
        )
    );
    assert_eq!(
        packet.to_string(),
        "(Handshake Packet: MC776, \"localhost\", 25565, Login)"
    );
    assert_eq!(HandshakePacket::packet_type(), MinecraftPacketType::Handshake);
}

#[test]
fn handshake_errors() {
    let raw = handshake_bytes(776, "localhost", 25565, 4);
    assert_eq!(
        HandshakePacket::from_raw(&raw),
        Err(DecodeError::Invalid("Invalid handshake intent: 4".to_string()))
    );
    let raw = handshake_bytes(5, "localhost", 25565, 1);
    assert_eq!(
        HandshakePacket::from_raw(&raw),
        Err(DecodeError::Invalid("Invalid protocol versino: 5".to_string()))
    );
    let raw = RawPacketBuilder::new(0).var_int(VarInt::new(776)).unwrap().build();
    assert_eq!(HandshakePacket::from_raw(&raw), Err(DecodeError::Incomplete));
}

#[test]
fn handshake_written_then_read() {
    let login = HandshakePacket::new(
        ConnectionProtocolVersion::MC772,
        "example.org",
        25566,
        HandshakeIntent::Login,
    );
    let raw = login.into_raw().unwrap();
    assert_eq!(raw.id().unwrap().value(), 0);
    // The intent is written as its position among the variants, so a login
    // comes back as a status request.
    let read = HandshakePacket::from_raw(&raw).unwrap();
    assert_eq!(read.protocol_version, ConnectionProtocolVersion::MC772);
    assert_eq!(read.server_address, "example.org");
    assert_eq!(read.server_port, 25566);
    assert_eq!(read.intent, HandshakeIntent::Status);
    let status = HandshakePacket::new(
        ConnectionProtocolVersion::MC776,
        "a",
        1,
        HandshakeIntent::Status,
    );
    assert_eq!(
        HandshakePacket::from_raw(&status.into_raw().unwrap()),
        Err(DecodeError::Invalid("Invalid handshake intent: 0".to_string()))
    );
}

#[test]
fn ping_request_round_trip() {
    let ping = PingRequestPacket { payload: -123456789 };
    assert_eq!(ping.to_string(), "(PingRequestPacket Packet: -123456789)");
    let raw = ping.clone().into_raw().unwrap();
    assert_eq!(raw.id().unwrap().value(), 1);
    assert_eq!(PingRequestPacket::from_raw(&raw), Ok(ping));
    assert_eq!(PingRequestPacket::packet_type(), MinecraftPacketType::PingRequest);
}

#[test]
fn handshake_decides_state() {
    let status = handshake_bytes(772, "x", 1, 1);
    assert_eq!(
        handle_handshake(&status),
        (ConnectionState::Status, ConnectionProtocolVersion::MC772)
    );
    let transfer = handshake_bytes(776, "x", 1, 3);
    assert_eq!(
        handle_handshake(&transfer),
        (ConnectionState::Login, ConnectionProtocolVersion::MC776)
    );
    let broken = handshake_bytes(1, "x", 1, 3);
    assert_eq!(
        handle_handshake(&broken),
        (ConnectionState::LoginDisconnect, ConnectionProtocolVersion::MC776)
    );
}

const VERSION_JSON: &str = "{\"name\":\"26.2\",\"protocol\":776}";

fn status() -> ServerStatus {
    ServerStatus::new(ConnectionProtocolVersion::MC776, None, "{\"text\":\"hi\"}")
}

#[test]
fn status_request_is_answered_with_status() {
    let request = RawPacket::construct(0, Bytes::new());
    match handle_status(status(), VERSION_JSON, &request) {
        PacketAction::Return(answer) => {
            assert_eq!(answer.id().unwrap().value(), 0);
            let mut decoder = RawPacketDecoder::new(answer.payload().unwrap());
            assert_eq!(
                decoder.string().unwrap(),
                "{\"version\":{\"name\":\"26.2\",\"protocol\":776},\"description\":{\"text\":\"hi\"}}"
            );
        }
        other => panic!("unexpected action {other:?}"),
    }
}

#[test]
fn ping_is_answered_then_disconnected() {
    let ping = PingRequestPacket { payload: 77 }.into_raw().unwrap();
    match handle_status(status(), VERSION_JSON, &ping) {
        PacketAction::ReturnAnd(answer, next) => {
            assert_eq!(answer.data().as_ref(), &[1, 0, 0, 0, 0, 0, 0, 0, 77]);
            assert_eq!(*next, PacketAction::Disconnect);
        }
        other => panic!("unexpected action {other:?}"),
    }
    let short_ping = RawPacket::construct(1, Bytes::from(vec![0, 0]));
    assert_eq!(handle_status(status(), VERSION_JSON, &short_ping), PacketAction::Disconnect);
    let other = RawPacket::construct(2, Bytes::new());
    assert_eq!(handle_status(status(), VERSION_JSON, &other), PacketAction::Disconnect);
}

#[test]
fn actions_are_planned_in_order() {
    let answer = RawPacket::construct(1, Bytes::from(vec![9]));
    let action = PacketAction::ForwardAnd(Box::new(PacketAction::ReturnAnd(
        answer.clone(),
        Box::new(PacketAction::UpdateState(ConnectionState::Play)),
    )));
    let (deliveries, state) = plan_action(action);
    assert_eq!(
        deliveries,
        vec![Delivery::ForwardOriginal, Delivery::ToClient(answer)]
    );
    assert_eq!(state, Some(ConnectionState::Play));
    assert_eq!(plan_action(PacketAction::Forward), (vec![Delivery::ForwardOriginal], None));
    assert_eq!(
        plan_action(PacketAction::Disconnect),
        (vec![], Some(ConnectionState::Closed))
    );
}

#[test]
fn texts_shown_to_people() {
    assert_eq!(ConnectionState::LoginDisconnect.to_string(), "LoginDisconnect");
    assert_eq!(ConnectionProtocolVersion::MC772.to_string(), "MC772");
    assert_eq!(ConnectionProtocolVersion::MC776.name(), "26.2");
    assert_eq!(ConnectionProtocolVersion::MC772.protocol(), 772);
    assert_eq!(ConnectionProtocolVersion::default(), ConnectionProtocolVersion::MC776);
    assert!(ConnectionProtocolVersion::MC772 < ConnectionProtocolVersion::MC776);
    assert_eq!(
        DecodeError::Incomplete.to_string(),
        "Decode Error: Incomplete input"
    );
    assert_eq!(
        DecodeError::Invalid("x".to_string()).to_string(),
        "Decode Error: Invalid value for data type: x"
    );
    assert_eq!(to_lower_hex(&[0x00, 0x7f, 0xff]), "007fff");
}

#[test]
fn protocol_version_from_number() {
    assert_eq!(
        ConnectionProtocolVersion::from_var_int(VarInt::new(776)),
        Ok(ConnectionProtocolVersion::MC776)
    );
    assert_eq!(
        ConnectionProtocolVersion::from_var_int(VarInt::new(-3)),
        Err(DecodeError::Invalid("Invalid protocol versino: -3".to_string()))
    );
}

#[test]
fn conversion_errors_become_invalid() {
    let error = u8::try_from(300i32).unwrap_err();
    assert_eq!(
        DecodeError::from(error),
        DecodeError::Invalid(error.to_string())
    );
    assert_eq!(
        EncodeError::from(error),
        EncodeError::Invalid(format!("TryFromIntError: {error}"))
    );
}
