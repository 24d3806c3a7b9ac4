use rid_simulator::message::base_message::BaseMessage;
use rid_simulator::message::message::{Message, MessageError};
use rid_simulator::message::packet_message::PacketMessage;
use rid_simulator::message::position_vector_message::PositionVectorMessage;
use rid_simulator::message::system_message::SystemMessage;

fn sample_base() -> BaseMessage {
    BaseMessage {
        id_type: 1,
        ua_type: 2,
        uas_id: String::from("DRONE123"),
        reserved: [0u8; 3],
    }
}

fn sample_system() -> SystemMessage {
    SystemMessage {
        coordinate_system: 5,
        reserved_bits: 1,
        classification_region: 2,
        station_type: 3,
        latitude: 123456789,
        longitude: -123456789,
        operation_count: 0x1234,
        operation_radius: 7,
        altitude_upper: 0xaabb,
        altitude_lower: 0xccdd,
        ua_category: 9,
        ua_level: 4,
        station_altitude: 0x0102,
        timestamp: 0x65432100,
        reserved: 0,
    }
}

fn sample_position() -> PositionVectorMessage {
    PositionVectorMessage {
        op_status: 2,
        flags: 5,
        direction: 90,
        speed: 25,
        vertical_speed: 3,
        latitude: 228271234,
        longitude: -1134271234,
        pressure_altitude: 2000,
        geodetic_altitude: 2100,
        height: 150,
        horizontal_accuracy: 10,
        vertical_accuracy: 11,
        speed_accuracy: 3,
        timestamp: 1800,
        reserved: 9,
    }
}

#[test]
fn base_encode_layout_is_fixed() {
    let bytes = sample_base().encode();
    assert_eq!(bytes.len(), 24);
    let mut expected = vec![0x01u8, 0x12];
    expected.extend_from_slice(b"DRONE123");
    expected.extend_from_slice(&[0u8; 14]);
    assert_eq!(bytes, expected);
}

#[test]
fn base_encode_length_is_independent_of_fields() {
    let mut long = sample_base();
    long.uas_id = String::from("AN-IDENTIFIER-FAR-LONGER-THAN-TWENTY-BYTES");
    let mut empty = sample_base();
    empty.uas_id = String::new();
    assert_eq!(long.encode().len(), 24);
    assert_eq!(empty.encode().len(), 24);
    assert_eq!(sample_base().encode().len(), 24);
}

#[test]
fn base_round_trip_recovers_fields() {
    let m = sample_base();
    let decoded = BaseMessage::from_bytes(&m.encode()).unwrap();
    assert_eq!(decoded.id_type, 1);
    assert_eq!(decoded.ua_type, 2);
    assert_eq!(decoded.uas_id, "DRONE123");
    assert_eq!(decoded.reserved, [0u8; 3]);
}

#[test]
fn base_truncates_overlong_identifier_at_encode() {
    let mut m = sample_base();
    m.uas_id = String::from("ABCDEFGHIJKLMNOPQRSTUVWXYZ");
    let bytes = m.encode();
    assert_eq!(bytes.len(), 24);
    assert_eq!(&bytes[2..22], b"ABCDEFGHIJKLMNOPQRST");
    let decoded = BaseMessage::from_bytes(&bytes).unwrap();
    assert_eq!(decoded.uas_id, "ABCDEFGHIJKLMNOPQRST");
}

#[test]
fn base_decode_strips_zero_padding_and_whitespace() {
    let mut bytes = vec![0x01u8, 0x12];
    bytes.extend_from_slice(b"AB \0\0");
    bytes.extend_from_slice(&[0u8; 17]);
    let decoded = BaseMessage::from_bytes(&bytes).unwrap();
    assert_eq!(decoded.uas_id, "AB");
}

#[test]
fn base_rejects_invalid_identifier_encoding() {
    let mut bytes = sample_base().encode();
    bytes[2] = 0xff;
    assert_eq!(
        BaseMessage::from_bytes(&bytes),
        Err(MessageError::InvalidIdentifierEncoding)
    );
}

#[test]
fn base_rejects_short_buffer_with_exact_lengths() {
    assert_eq!(
        BaseMessage::from_bytes(&[0u8; 10]),
        Err(MessageError::InsufficientLength(24, 10))
    );
    assert_eq!(
        BaseMessage::from_bytes(&[]),
        Err(MessageError::InsufficientLength(24, 0))
    );
}

#[test]
fn system_encode_layout_is_fixed() {
    let bytes = sample_system().encode();
    assert_eq!(bytes.len(), 24);
    let expected = vec![
        0x41u8, 0xab, // tag, packed byte
        0x15, 0xcd, 0x5b, 0x07, // latitude 123456789
        0xeb, 0x32, 0xa4, 0xf8, // longitude -123456789
        0x34, 0x12, // operation count
        0x07, // operation radius
        0xbb, 0xaa, // altitude upper
        0xdd, 0xcc, // altitude lower
        0x94, // category and level nibbles
        0x02, 0x01, // station altitude
        0x00, 0x21, 0x43, 0x65, // timestamp
    ];
    assert_eq!(bytes, expected);
}

#[test]
fn system_round_trip_recovers_fields() {
    let m = sample_system();
    let decoded = SystemMessage::from_bytes(&m.encode()).unwrap();
    assert_eq!(decoded.coordinate_system, 5);
    // The reserved bits overlap the classification region on the
    // wire and come back as its upper bit.
    assert_eq!(decoded.reserved_bits, m.classification_region >> 1);
    assert_eq!(decoded.classification_region, 2);
    assert_eq!(decoded.station_type, 3);
    assert_eq!(decoded.latitude, 123456789);
    assert_eq!(decoded.longitude, -123456789);
    assert_eq!(decoded.operation_count, 0x1234);
    assert_eq!(decoded.operation_radius, 7);
    assert_eq!(decoded.altitude_upper, 0xaabb);
    assert_eq!(decoded.altitude_lower, 0xccdd);
    assert_eq!(decoded.ua_category, 9);
    assert_eq!(decoded.ua_level, 4);
    assert_eq!(decoded.station_altitude, 0x0102);
    assert_eq!(decoded.timestamp, 0x65432100);
    assert_eq!(decoded.reserved, 0);
}

#[test]
fn system_classification_region_restricts_decode() {
    for region in [0u8, 4, 5, 6, 7] {
        let mut bytes = [0u8; 24];
        bytes[1] = region << 2;
        assert_eq!(
            SystemMessage::from_bytes(&bytes),
            Err(MessageError::UnknownClassification(region)),
            "region {region} must be rejected"
        );
    }
    for region in [1u8, 2, 3] {
        let mut bytes = [0u8; 24];
        bytes[1] = region << 2;
        let decoded = SystemMessage::from_bytes(&bytes).unwrap();
        assert_eq!(decoded.classification_region, region);
    }
}

#[test]
fn system_rejects_short_buffer_with_exact_lengths() {
    assert_eq!(
        SystemMessage::from_bytes(&[0u8; 23]),
        Err(MessageError::InsufficientLength(24, 23))
    );
}

#[test]
fn position_round_trip_recovers_fields() {
    let m = sample_position();
    let bytes = m.encode();
    assert_eq!(bytes.len(), 24);
    assert_eq!(bytes[0], 0x11);
    let decoded = PositionVectorMessage::from_bytes(&bytes).unwrap();
    assert_eq!(decoded, m);
}

#[test]
fn position_rejects_short_buffer_with_exact_lengths() {
    assert_eq!(
        PositionVectorMessage::from_bytes(&[0u8; 5]),
        Err(MessageError::InsufficientLength(24, 5))
    );
}

#[test]
fn packet_encode_is_81_bytes_with_live_checksum() {
    let packet = PacketMessage::new(sample_base(), sample_system(), sample_position());
    let bytes = packet.encode();
    assert_eq!(bytes.len(), 81);
    assert_eq!(bytes[0], 0xf1); // protocol version doubles as the tag
    assert_eq!(bytes[1], 1); // stored message counter
    assert_eq!(bytes[2], 24); // per-message size
    assert_eq!(bytes[3], 3); // message quantity
    assert_eq!(bytes[4], 0x01); // base tag
    assert_eq!(bytes[28], 0x11); // position tag
    assert_eq!(bytes[52], 0x41); // system tag
    // Recompute the checksum independently over the covered bytes.
    let recomputed = crc16::State::<crc16::XMODEM>::calculate(&bytes[..76]);
    let stored = u16::from_le_bytes([bytes[76], bytes[77]]);
    assert_eq!(stored, recomputed);
    assert_ne!(recomputed, 0, "a zero checksum here would mean it was never computed");
    assert_eq!(&bytes[78..81], &[0u8, 0, 0]);
}

#[test]
fn packet_round_trip_recovers_fields() {
    let packet = PacketMessage::new(sample_base(), sample_system(), sample_position());
    let bytes = packet.encode();
    let decoded = PacketMessage::from_bytes(&bytes).unwrap();
    assert_eq!(decoded.protocol_version, 0xf1);
    assert_eq!(decoded.message_counter, 1);
    assert_eq!(decoded.message_size, 24);
    assert_eq!(decoded.message_quantity, 3);
    assert_eq!(decoded.base_message.uas_id, "DRONE123");
    assert_eq!(decoded.position_message, sample_position());
    assert_eq!(decoded.system_message.latitude, 123456789);
    // The decoded checksum is the one on the wire, read back as-is.
    let recomputed = crc16::State::<crc16::XMODEM>::calculate(&bytes[..76]);
    assert_eq!(decoded.checksum, recomputed);
}

#[test]
fn packet_decode_propagates_submessage_errors() {
    let packet = PacketMessage::new(sample_base(), sample_system(), sample_position());
    let mut bytes = packet.encode();
    bytes[6] = 0xff; // corrupt the identifier inside the base message
    assert_eq!(
        PacketMessage::from_bytes(&bytes),
        Err(MessageError::InvalidIdentifierEncoding)
    );
    let mut bytes2 = packet.encode();
    bytes2[53] = 0; // clear the system packed byte: classification 0
    assert_eq!(
        PacketMessage::from_bytes(&bytes2),
        Err(MessageError::UnknownClassification(0))
    );
}

#[test]
fn packet_rejects_short_buffer_with_exact_lengths() {
    assert_eq!(
        PacketMessage::from_bytes(&[0u8; 80]),
        Err(MessageError::InsufficientLength(81, 80))
    );
}

#[test]
fn packet_derives_prefixed_ssid() {
    let packet = PacketMessage::new(sample_base(), sample_system(), sample_position());
    assert_eq!(packet.get_ssid(), "RID-DRONE123");
}
