//! Tests of the packet codec: flags, profiles, header and packet
//! serialization, and the codec's boundary behaviour.

use llp::errors::{HandshakeError, LlpError, PacketError};
use llp::packet::{
    LlpPacket, MimicryProfile, PacketHeader, AUTH_TAG_SIZE, FLAG_ACK, FLAG_CONTROL, FLAG_DATA,
    FLAG_FRAGMENT, FLAG_KEEPALIVE, FLAG_LAST_FRAG, HEADER_SIZE, MAX_PAYLOAD_SIZE,
};

#[test]
fn test_packet_flags() {
    let flags = FLAG_DATA | FLAG_FRAGMENT;
    assert!(flags & FLAG_DATA != 0);
    assert!(flags & FLAG_FRAGMENT != 0);
    assert!(flags & FLAG_CONTROL == 0);
}

#[test]
fn test_mimicry_profile_conversion() {
    assert_eq!(MimicryProfile::from_u16(1), Some(MimicryProfile::VkVideo));
    assert_eq!(MimicryProfile::VkVideo.to_u16(), 1);
    assert_eq!(MimicryProfile::from_u16(999), None);
}

#[test]
fn test_header_serialization() {
    let header = PacketHeader::new(FLAG_DATA, 12345, 67890, MimicryProfile::VkVideo, 1000);

    let mut buf: Vec<u8> = Vec::new();
    header.serialize(&mut buf);

    assert_eq!(buf.len(), HEADER_SIZE);

    let deserialized = PacketHeader::deserialize(&buf).unwrap();

    assert_eq!(deserialized.version, llp::PROTOCOL_VERSION);
    assert_eq!(deserialized.flags, FLAG_DATA);
    assert_eq!(deserialized.session_id, 12345);
    assert_eq!(deserialized.sequence_number, 67890);
    assert_eq!(deserialized.mimicry_profile, MimicryProfile::VkVideo);
}

#[test]
fn test_packet_serialization_deserialization() {
    let header = PacketHeader::new(
        FLAG_DATA | FLAG_ACK,
        12345,
        67890,
        MimicryProfile::RuTube,
        1000,
    );

    let payload = b"Hello, LLP!".to_vec();
    let padding = b"pad".to_vec();
    let auth_tag = vec![0x42u8; AUTH_TAG_SIZE];

    let packet = LlpPacket::new(header, payload.clone(), padding.clone(), auth_tag.clone())
        .unwrap();

    let serialized = packet.serialize().unwrap();
    let deserialized = LlpPacket::deserialize(&serialized).unwrap();

    assert_eq!(deserialized.header.session_id, 12345);
    assert_eq!(deserialized.header.sequence_number, 67890);
    assert_eq!(deserialized.header.flags, FLAG_DATA | FLAG_ACK);
    assert_eq!(deserialized.encrypted_payload, payload);
    assert_eq!(deserialized.padding, padding);
    assert_eq!(deserialized.auth_tag, auth_tag);
}

#[test]
fn test_packet_too_large() {
    let header = PacketHeader::new(FLAG_DATA, 1, 1, MimicryProfile::Plain, 1000);

    let huge_payload = vec![0u8; MAX_PAYLOAD_SIZE + 1];
    let result = LlpPacket::new(header, huge_payload, Vec::new(), vec![0u8; AUTH_TAG_SIZE]);

    assert!(result.is_err());
}

#[test]
fn test_invalid_version() {
    let mut buf: Vec<u8> = vec![0u8; HEADER_SIZE];
    buf[0] = 99;
    buf[1] = FLAG_DATA;

    let result = PacketHeader::deserialize(&buf);
    assert!(result.is_err());
}

#[test]
fn test_packet_type_checks() {
    let header = PacketHeader::new(FLAG_DATA, 1, 1, MimicryProfile::Plain, 1000);

    let packet = LlpPacket::new(header, Vec::new(), Vec::new(), vec![0u8; AUTH_TAG_SIZE])
        .unwrap();

    assert!(packet.is_data());
    assert!(!packet.is_control());
    assert!(!packet.is_keepalive());

    let header2 = PacketHeader::new(FLAG_KEEPALIVE, 1, 1, MimicryProfile::Plain, 1000);
    let keepalive_packet =
        LlpPacket::new(header2, Vec::new(), Vec::new(), vec![0u8; AUTH_TAG_SIZE]).unwrap();

    assert!(keepalive_packet.is_keepalive());
    assert!(!keepalive_packet.is_data());
}

#[test]
fn test_fragment_flags() {
    let header = PacketHeader::new(
        FLAG_DATA | FLAG_FRAGMENT,
        1,
        1,
        MimicryProfile::Plain,
        1000,
    );

    let packet = LlpPacket::new(header, Vec::new(), Vec::new(), vec![0u8; AUTH_TAG_SIZE])
        .unwrap();

    assert!(packet.is_fragment());
    assert!(!packet.is_last_fragment());

    let header_last = PacketHeader::new(
        FLAG_DATA | FLAG_FRAGMENT | FLAG_LAST_FRAG,
        1,
        2,
        MimicryProfile::Plain,
        1000,
    );

    let last_packet =
        LlpPacket::new(header_last, Vec::new(), Vec::new(), vec![0u8; AUTH_TAG_SIZE]).unwrap();

    assert!(last_packet.is_last_fragment());
}

#[test]
fn test_zero_payload_packet() {
    let header = PacketHeader::new(FLAG_KEEPALIVE, 1, 1, MimicryProfile::Plain, 1000);

    let packet = LlpPacket::new(header, Vec::new(), Vec::new(), vec![0xAAu8; AUTH_TAG_SIZE])
        .unwrap();

    let serialized = packet.serialize().unwrap();
    let deserialized = LlpPacket::deserialize(&serialized).unwrap();

    assert_eq!(deserialized.encrypted_payload.len(), 0);
    assert_eq!(deserialized.padding.len(), 0);
    assert_eq!(deserialized.auth_tag, vec![0xAAu8; AUTH_TAG_SIZE]);
}

#[test]
fn test_keepalive_is_valid_packet() {
    // a packet with no payload and no padding is valid: 40 bytes on the wire
    let header = PacketHeader::new(FLAG_KEEPALIVE, 7, 0, MimicryProfile::Plain, 500);
    let packet = LlpPacket::new(header, Vec::new(), Vec::new(), vec![0u8; AUTH_TAG_SIZE])
        .unwrap();
    let serialized = packet.serialize().unwrap();
    assert_eq!(serialized.len(), 40);
    assert!(LlpPacket::deserialize(&serialized).is_ok());
}

#[test]
fn test_padding_boundary() {
    // padding of 1024 is accepted; a wire value of 1025 is rejected
    let header = PacketHeader::new(FLAG_DATA, 9, 1, MimicryProfile::Plain, 500);
    let payload = vec![0x55u8; 10];
    let padding = vec![0u8; 1024];
    let packet = LlpPacket::new(header, payload.clone(), padding.clone(), vec![1u8; 16]).unwrap();
    let mut wire = packet.serialize().unwrap();

    let parsed = LlpPacket::deserialize(&wire).unwrap();
    assert_eq!(parsed.encrypted_payload, payload);
    assert_eq!(parsed.padding, padding);
    assert_eq!(parsed.header.padding_length, 1024);

    // rewrite padding_length (big-endian at offsets 22..24) to 1025
    wire[22] = 0x04;
    wire[23] = 0x01;
    let reparsed = LlpPacket::deserialize(&wire);
    assert_eq!(
        reparsed.unwrap_err(),
        LlpError::PacketError(PacketError::InvalidPaddingSize { size: 1025, max: 1024 })
    );
}

#[test]
fn test_version_two_rejected() {
    // a version byte of 2 is rejected whatever follows
    let header = PacketHeader::new(FLAG_DATA, 9, 1, MimicryProfile::Plain, 500);
    let packet = LlpPacket::new(header, vec![1, 2, 3], Vec::new(), vec![0u8; 16]).unwrap();
    let mut wire = packet.serialize().unwrap();
    wire[0] = 2;
    let reparsed = LlpPacket::deserialize(&wire);
    assert_eq!(
        reparsed.unwrap_err(),
        LlpError::PacketError(PacketError::UnsupportedVersion(2))
    );
}

#[test]
fn test_reserved_flag_rejected() {
    let mut buf: Vec<u8> = vec![0u8; HEADER_SIZE];
    buf[0] = llp::PROTOCOL_VERSION;
    buf[1] = 0x80;
    let result = PacketHeader::deserialize(&buf);
    assert_eq!(
        result.unwrap_err(),
        LlpError::PacketError(PacketError::InvalidFlags(0x80))
    );
}

#[test]
fn test_unknown_profile_rejected() {
    let mut buf: Vec<u8> = vec![0u8; HEADER_SIZE];
    buf[0] = llp::PROTOCOL_VERSION;
    buf[1] = FLAG_DATA;
    buf[20] = 0x00;
    buf[21] = 0x09;
    let result = PacketHeader::deserialize(&buf);
    assert_eq!(
        result.unwrap_err(),
        LlpError::HandshakeError(HandshakeError::UnsupportedMimicryProfile(9))
    );
}

#[test]
fn test_truncated_header_rejected() {
    let buf: Vec<u8> = vec![1u8; 10];
    let result = PacketHeader::deserialize(&buf);
    assert_eq!(
        result.unwrap_err(),
        LlpError::PacketError(PacketError::InsufficientData { required: 24, available: 10 })
    );
}

#[test]
fn test_size_mismatch_rejected() {
    let header = PacketHeader::new(FLAG_DATA, 9, 1, MimicryProfile::Plain, 500);
    let packet = LlpPacket::new(header, vec![1, 2, 3, 4], Vec::new(), vec![0u8; 16]).unwrap();
    let mut wire = packet.serialize().unwrap();
    // an extra trailing byte makes the buffer longer than the header declares
    wire.push(0);
    let result = LlpPacket::deserialize(&wire);
    assert_eq!(
        result.unwrap_err(),
        LlpError::PacketError(PacketError::InvalidPacketSize { expected: 44, actual: 45 })
    );
}
