use rid_simulator::handle_publish_packet;
use rid_simulator::message::base_message::BaseMessage;
use rid_simulator::message::message::Message;
use rid_simulator::message::packet_message::PacketMessage;
use rid_simulator::message::position_vector_message::PositionVectorMessage;
use rid_simulator::message::system_message::SystemMessage;
use rid_simulator::mqtt_manager::MqttManager;
use rid_simulator::rid_simulator::RidSimulator;
use rid_simulator::{send_log_to_frontend, HandleError};

fn packet_from_json(json: &str) -> PacketMessage {
    let v: serde_json::Value = serde_json::from_str(json).expect("well-formed telemetry");
    let base = &v["base_message"];
    let system = &v["system_message"];
    let position = &v["position_message"];
    let base = BaseMessage {
        id_type: base["id_type"].as_u64().unwrap() as u8,
        ua_type: base["ua_type"].as_u64().unwrap() as u8,
        uas_id: base["uas_id"].as_str().unwrap().to_string(),
        reserved: [0u8; 3],
    };
    let system = SystemMessage {
        coordinate_system: system["coordinate_system"].as_u64().unwrap() as u8,
        reserved_bits: 0,
        classification_region: system["classification_region"].as_u64().unwrap() as u8,
        station_type: system["station_type"].as_u64().unwrap() as u8,
        latitude: system["latitude"].as_i64().unwrap() as i32,
        longitude: system["longitude"].as_i64().unwrap() as i32,
        operation_count: system["operation_count"].as_u64().unwrap() as u16,
        operation_radius: system["operation_radius"].as_u64().unwrap() as u8,
        altitude_upper: system["altitude_upper"].as_u64().unwrap() as u16,
        altitude_lower: system["altitude_lower"].as_u64().unwrap() as u16,
        ua_category: 0,
        ua_level: 0,
        station_altitude: 0,
        timestamp: system["timestamp"].as_u64().unwrap() as u32,
        reserved: 0,
    };
    let position = PositionVectorMessage {
        op_status: position["op_status"].as_u64().unwrap() as u8,
        flags: 0,
        direction: position["direction"].as_u64().unwrap() as u8,
        speed: position["speed"].as_u64().unwrap() as u8,
        vertical_speed: 0,
        latitude: position["latitude"].as_i64().unwrap() as i32,
        longitude: position["longitude"].as_i64().unwrap() as i32,
        pressure_altitude: 0,
        geodetic_altitude: 0,
        height: position["height"].as_u64().unwrap() as u16,
        horizontal_accuracy: 0,
        vertical_accuracy: 0,
        speed_accuracy: 0,
        timestamp: 0,
        reserved: 0,
    };
    PacketMessage::new(base, system, position)
}

const TELEMETRY: &str = r#"{
    "protocol_version": 241,
    "message_counter": 77,
    "message_size": 24,
    "message_quantity": 3,
    "base_message": { "id_type": 1, "ua_type": 2, "uas_id": "DRONE123" },
    "system_message": {
        "coordinate_system": 1,
        "classification_region": 2,
        "station_type": 1,
        "latitude": 228271234,
        "longitude": -1134271234,
        "operation_count": 1,
        "operation_radius": 5,
        "altitude_upper": 1200,
        "altitude_lower": 800,
        "timestamp": 1700000000
    },
    "position_message": {
        "op_status": 2,
        "direction": 180,
        "speed": 12,
        "latitude": 228271240,
        "longitude": -1134271240,
        "height": 90
    },
    "checksum": 0
}"#;

#[test]
fn json_telemetry_yields_prefixed_ssid_and_embedded_packet() {
    let mut packet = packet_from_json(TELEMETRY);
    assert_eq!(packet.get_ssid(), "RID-DRONE123");

    let mut sim = RidSimulator::new();
    let frame = handle_publish_packet(&mut sim, &mut packet, 1710000000, 55).unwrap();

    // Live values won: the counter came from the process-wide
    // counter, the timestamp from the clock handed in.
    assert_eq!(packet.message_counter, 1);
    assert_eq!(packet.system_message.timestamp, 1710000000);

    // The SSID element carries the derived name.
    let ssid = "RID-DRONE123".as_bytes();
    assert_eq!(frame[38 + 36], 0x00);
    assert_eq!(frame[38 + 37] as usize, ssid.len());
    assert_eq!(&frame[38 + 38..38 + 38 + ssid.len()], ssid);

    // The vendor element's payload equals, byte for byte, the
    // codec's encoding of the packet as transmitted.
    let expected = packet.encode();
    let vendor_data_start = 38 + 36 + 2 + ssid.len() + 3 + 6;
    assert_eq!(frame.len(), vendor_data_start + expected.len());
    assert_eq!(&frame[vendor_data_start..], expected.as_slice());
}

#[test]
fn pipeline_rejects_oversize_network_name() {
    let mut packet = packet_from_json(TELEMETRY);
    packet.base_message.uas_id = "X".repeat(300);
    let before = packet.clone();
    let mut sim = RidSimulator::new();
    let r = handle_publish_packet(&mut sim, &mut packet, 0, 0);
    assert_eq!(r, Err(HandleError::SsidTooLong));
    assert_eq!(packet, before);
    assert_eq!(sim.sequence_counter, 0);
    assert_eq!(sim.message_counter, 1);
}

#[test]
fn consecutive_packets_step_the_counters() {
    let mut sim = RidSimulator::new();
    let mut first = packet_from_json(TELEMETRY);
    let mut second = packet_from_json(TELEMETRY);
    handle_publish_packet(&mut sim, &mut first, 1, 1).unwrap();
    handle_publish_packet(&mut sim, &mut second, 2, 2).unwrap();
    assert_eq!(first.message_counter, 1);
    assert_eq!(second.message_counter, 2);
    assert_eq!(sim.sequence_counter, 32);
}

#[test]
fn rate_limiter_protects_the_pipeline() {
    let mut mgr = MqttManager::new();
    assert!(mgr.accept_message(100));
    assert!(!mgr.accept_message(120));
    assert!(mgr.accept_message(151));
}

#[test]
fn log_sink_appends_in_order() {
    let mut log: Vec<String> = Vec::new();
    send_log_to_frontend(&mut log, String::from("connected"));
    send_log_to_frontend(&mut log, String::from("packet sent"));
    assert_eq!(log, vec![String::from("connected"), String::from("packet sent")]);
}
