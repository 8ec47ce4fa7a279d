use bytes::{BufMut, Bytes, BytesMut};
use netherconduit_core::packet::RawPacket;
use netherconduit_core::packet::primitives::VarInt;
use netherconduit_core::packet::stream::decoder::MinecraftPacketDecoder;
use netherconduit_core::packet::stream::encoder::MinecraftPacketEncoder;

// Decoder

#[test]
fn no_packet() {
    let mut decoder = MinecraftPacketDecoder::new();
    let mut test_data: BytesMut = BytesMut::new();
    let output = decoder.decode(&mut test_data).unwrap();
    assert!(matches!(output, None));
}

#[test]
fn decoder_well_sized_packet() {
    let mut decoder = MinecraftPacketDecoder::new();
    let mut test_data: BytesMut = BytesMut::from(&[0x10; 17][..]);
    let output_packet = decoder.decode(&mut test_data).unwrap().unwrap();
    assert_eq!(output_packet.id().unwrap(), VarInt::new(16));
    assert_eq!(
        output_packet.payload().unwrap(),
        Bytes::from(&[0x10; 15][..])
    );
}

#[test]
fn too_short_packet() {
    let mut decoder = MinecraftPacketDecoder::new();
    let mut test_data: BytesMut = BytesMut::from(&[0x10; 16][..]);
    let output = decoder.decode(&mut test_data).unwrap();
    assert!(matches!(output, None));
}

#[test]
fn decoder_repeated_well_sized_packets() {
    let mut decoder = MinecraftPacketDecoder::new();

    let mut test_data: BytesMut = BytesMut::from(&[0x10; 17][..]);
    let output_packet = decoder.decode(&mut test_data).unwrap().unwrap();
    assert_eq!(output_packet.id().unwrap(), VarInt::new(16));
    assert_eq!(
        output_packet.payload().unwrap(),
        Bytes::from(&[0x10; 15][..])
    );

    test_data.put_bytes(0x11, 18);
    let output_packet = decoder.decode(&mut test_data).unwrap().unwrap();
    assert_eq!(output_packet.id().unwrap(), VarInt::new(17));
    assert_eq!(
        output_packet.payload().unwrap(),
        Bytes::from(&[0x11; 16][..])
    );
}

#[test]
fn decoder_double_well_sized_packets() {
    let mut decoder = MinecraftPacketDecoder::new();

    let mut test_data: BytesMut = BytesMut::from(&[0x10; 17][..]);
    test_data.put_bytes(0x11, 18);

    let output_packet = decoder.decode(&mut test_data).unwrap().unwrap();
    assert_eq!(output_packet.id().unwrap(), VarInt::new(16));
    assert_eq!(
        output_packet.payload().unwrap(),
        Bytes::from(&[0x10; 15][..])
    );
    let output_packet = decoder.decode(&mut test_data).unwrap().unwrap();
    assert_eq!(output_packet.id().unwrap(), VarInt::new(17));
    assert_eq!(
        output_packet.payload().unwrap(),
        Bytes::from(&[0x11; 16][..])
    );
}

// Encoder

#[test]
fn encoder_zero_length_packet() {
    let mut encoder = MinecraftPacketEncoder::new();

    let test_data: RawPacket = RawPacket::construct(0, Bytes::new());

    let mut test_output = BytesMut::new();
    encoder.encode(test_data, &mut test_output).unwrap();
    assert_eq!(test_output, vec![0x01, 0x0]);
}

#[test]
fn encoder_well_sized_packet() {
    let mut encoder = MinecraftPacketEncoder::new();

    let mut payload = BytesMut::new();
    payload.put_bytes(0x10, 15);
    let test_data: RawPacket = RawPacket::construct(16, payload.freeze());

    let mut test_output = BytesMut::new();
    encoder.encode(test_data, &mut test_output).unwrap();
    assert_eq!(test_output, vec![0x10; 17]);
}

#[test]
fn encoder_repeated_well_sized_packets() {
    let mut encoder = MinecraftPacketEncoder::new();

    let mut payload = BytesMut::new();
    payload.put_bytes(0x10, 15);
    let test_data: RawPacket = RawPacket::construct(16, payload.freeze());

    let mut test_output = BytesMut::new();
    encoder.encode(test_data, &mut test_output).unwrap();

    let mut payload = BytesMut::new();
    payload.put_bytes(0x11, 16);
    let test_data: RawPacket = RawPacket::construct(17, payload.freeze());

    encoder.encode(test_data, &mut test_output).unwrap();

    let mut expected_result = vec![0x10; 17];
    expected_result.extend(vec![0x11; 18]);
    assert_eq!(test_output, expected_result);
}

// Decoder and encoder together

#[test]
fn mod_zero_length_packet() {
    // Setup codec
    let mut decoder = MinecraftPacketDecoder::new();
    let mut encoder = MinecraftPacketEncoder::new();

    // setup test data
    let test_data: BytesMut = BytesMut::from(vec![0x01, 0x00].as_slice());
    let mut test_input = test_data.clone();

    // decode data into packet
    let output = decoder.decode(&mut test_input).unwrap().unwrap();

    // Reencode back into stream
    let mut test_output = BytesMut::new();
    encoder.encode(output, &mut test_output).unwrap();

    assert_eq!(test_data, test_output);
}

#[test]
fn mod_well_sized_packet() {
    // Setup codec
    let mut decoder = MinecraftPacketDecoder::new();
    let mut encoder = MinecraftPacketEncoder::new();

    // setup test data
    let test_data: BytesMut = BytesMut::from(vec![0x10; 17].as_slice());
    let mut test_input = test_data.clone();

    // decode data into packet
    let output = decoder.decode(&mut test_input).unwrap().unwrap();

    // Reencode back into stream
    let mut test_output = BytesMut::new();
    encoder.encode(output, &mut test_output).unwrap();

    assert_eq!(test_data, test_output);
}

#[test]
fn mod_repeated_well_sized_packets() {
    // Setup codec
    let mut decoder = MinecraftPacketDecoder::new();
    let mut encoder = MinecraftPacketEncoder::new();

    // setup first test data
    let mut test_data: BytesMut = BytesMut::from(vec![0x10; 17].as_slice());
    let mut test_input = test_data.clone();
    let mut test_output = BytesMut::new();

    // decode data into packet
    let first_output = decoder.decode(&mut test_input).unwrap().unwrap();
    encoder.encode(first_output, &mut test_output).unwrap();

    // Add next packet
    test_data.put_bytes(0x11, 18);
    test_input.put_bytes(0x11, 18);

    // decode second
    let second_output = decoder.decode(&mut test_input).unwrap().unwrap();
    encoder.encode(second_output, &mut test_output).unwrap();

    assert_eq!(test_data, test_output);
}

#[test]
fn mod_double_well_sized_packets() {
    // Setup codec
    let mut decoder = MinecraftPacketDecoder::new();
    let mut encoder = MinecraftPacketEncoder::new();

    // setup first test data
    let mut test_data: BytesMut = BytesMut::from(vec![0x10; 17].as_slice());
    test_data.put_bytes(0x11, 18);
    let test_data = test_data;
    let mut test_input = test_data.clone();
    let mut test_output = BytesMut::new();

    // decode both
    let first_output = decoder.decode(&mut test_input).unwrap().unwrap();
    let second_output = decoder.decode(&mut test_input).unwrap().unwrap();

    // Reencode both
    encoder.encode(first_output, &mut test_output).unwrap();
    encoder.encode(second_output, &mut test_output).unwrap();

    assert_eq!(test_data, test_output);
}
