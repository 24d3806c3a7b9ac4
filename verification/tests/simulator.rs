use libwifi::frame::components::{
    FrameControl, MacAddress, ManagementHeader, SequenceControl, StationInfo, VendorSpecificInfo,
};
use libwifi::frame::Beacon;
use libwifi::{FrameProtocolVersion, FrameSubType, FrameType};
use rid_simulator::rid_simulator::{is_wifi_device_name, RidSimulator, StartupError};

#[test]
fn wifi_name_allow_list_matches_expected_adapters() {
    assert!(is_wifi_device_name("wlxabcdef012345"));
    assert!(is_wifi_device_name("wlan1"));
    assert!(is_wifi_device_name("wlp4s0"));
    assert!(!is_wifi_device_name("eth0"));
    assert!(!is_wifi_device_name("wlan0"));
    assert!(!is_wifi_device_name("lo"));
    assert!(!is_wifi_device_name(""));
}

#[test]
fn start_simulator_without_radio_is_a_typed_error() {
    let mut sim = RidSimulator::new();
    let names = vec![String::from("eth0"), String::from("lo")];
    assert_eq!(sim.start_simulator(names), Err(StartupError::NoWifiDevice));
    assert!(sim.wifi_devices.is_empty());
}

#[test]
fn start_simulator_keeps_matching_names_in_order() {
    let mut sim = RidSimulator::new();
    let names = vec![
        String::from("eth0"),
        String::from("wlan1"),
        String::from("docker0"),
        String::from("wlxaabbcc"),
    ];
    assert_eq!(sim.start_simulator(names), Ok(()));
    assert_eq!(sim.wifi_devices, vec![String::from("wlan1"), String::from("wlxaabbcc")]);
}

#[test]
fn radiotap_header_layout_is_fixed() {
    let sim = RidSimulator::new();
    let ts: u64 = 0x1122334455667788;
    let bytes = sim.build_radiotap_header(ts);
    assert_eq!(bytes.len(), 38);
    let mut expected = vec![
        0x00u8, 0x00, 38, 0x00, // version, pad, header length
        0x2f, 0x40, 0x00, 0xa0, // present bitmask 1
        0x20, 0x08, 0x00, 0xa0, // present bitmask 2
        0x20, 0x08, 0x00, 0x00, // present bitmask 3
    ];
    expected.extend_from_slice(&ts.to_le_bytes());
    expected.extend_from_slice(&[
        0x10, 0x0c, // flags, data rate
        0x85, 0x09, // channel frequency 2437
        0xc0, 0x00, // channel flags
        0xc4, 0x00, // antenna signal, reserved
        0x00, 0x00, // receive flags
        0xc3, 0x00, 0xc4, 0x01, // signal and antenna samples
    ]);
    assert_eq!(bytes, expected);
}

#[test]
fn beacon_sequence_number_steps_by_16() {
    let mut sim = RidSimulator::new();
    let first = sim.build_rid_beacon("RID-A", &[0u8; 4], 0);
    assert_eq!(sim.sequence_counter, 16);
    let second = sim.build_rid_beacon("RID-A", &[0u8; 4], 0);
    assert_eq!(sim.sequence_counter, 32);
    // The sequence-control field keeps the low nibble for the
    // fragment number: the counter sits in the upper 12 bits.
    let first_ctl = u16::from_le_bytes([first[22], first[23]]);
    let second_ctl = u16::from_le_bytes([second[22], second[23]]);
    assert_eq!(first_ctl, 0 << 4);
    assert_eq!(second_ctl, 16 << 4);
}

#[test]
fn beacon_sequence_counter_wraps_modulo_65536() {
    let mut sim = RidSimulator::new();
    sim.sequence_counter = 0xfff0;
    sim.build_rid_beacon("RID-A", &[0u8; 4], 0);
    assert_eq!(sim.sequence_counter, 0);
}

#[test]
fn beacon_vendor_element_carries_payload_unmodified() {
    let mut sim = RidSimulator::new();
    let payload: Vec<u8> = (0u8..81).collect();
    let ssid = "RID-DRONE123";
    let bytes = sim.build_rid_beacon(ssid, &payload, 42);
    // Fixed part (36), SSID element (2 + 12), DS element (3),
    // vendor element header (6), then the payload.
    assert_eq!(bytes[36], 0x00);
    assert_eq!(bytes[37], 12);
    assert_eq!(&bytes[38..50], ssid.as_bytes());
    assert_eq!(&bytes[50..53], &[0x03, 0x01, 0x06]);
    assert_eq!(
        &bytes[53..59],
        &[0xdd, payload.len() as u8, 0xfa, 0x0b, 0xbc, 0x0d]
    );
    assert_eq!(&bytes[59..], payload.as_slice());
}

#[test]
fn beacon_bytes_match_reference_encoder() {
    let mut sim = RidSimulator::new();
    sim.sequence_counter = 32;
    let ours = sim.build_rid_beacon("RID-TEST", &[1, 2, 3, 4], 123456789);

    let header = ManagementHeader {
        frame_control: FrameControl {
            protocol_version: FrameProtocolVersion::PV0,
            frame_type: FrameType::Management,
            frame_subtype: FrameSubType::Beacon,
            flags: 0,
        },
        duration: [0, 0],
        address_1: MacAddress([0xff, 0xff, 0xff, 0xff, 0xff, 0xff]),
        address_2: MacAddress([0x00, 0xe0, 0x4b, 0xd3, 0xde, 0xd6]),
        address_3: MacAddress([0x00, 0xe0, 0x4b, 0xd3, 0xde, 0xd6]),
        sequence_control: SequenceControl {
            fragment_number: 0,
            sequence_number: 32,
        },
    };
    let mut station_info = StationInfo {
        ssid: Some("RID-TEST".to_string()),
        ssid_length: Some(8),
        ds_parameter_set: Some(6),
        ..Default::default()
    };
    station_info.vendor_specific.push(VendorSpecificInfo {
        element_id: 221,
        length: 4,
        oui: [0xfa, 0x0b, 0xbc],
        oui_type: 13,
        data: vec![1, 2, 3, 4],
    });
    let beacon = Beacon {
        header,
        timestamp: 123456789,
        beacon_interval: 100,
        capability_info: 0x1104,
        station_info,
    };
    assert_eq!(ours, beacon.encode());
}

#[test]
fn full_frame_is_radiotap_then_beacon() {
    let mut sim = RidSimulator::new();
    let frame = sim.build_rid_frame("RID-A", &[9u8; 10], 7);
    let mut check = RidSimulator::new();
    let head = check.build_radiotap_header(7);
    let beacon = check.build_rid_beacon("RID-A", &[9u8; 10], 7);
    assert_eq!(&frame[..38], head.as_slice());
    assert_eq!(&frame[38..], beacon.as_slice());
}

#[test]
fn message_counter_wraps_at_256() {
    let mut sim = RidSimulator::new();
    assert_eq!(sim.next_message_counter(), 1);
    assert_eq!(sim.next_message_counter(), 2);
    sim.message_counter = 255;
    assert_eq!(sim.next_message_counter(), 255);
    assert_eq!(sim.message_counter, 0);
    assert_eq!(sim.next_message_counter(), 0);
    assert_eq!(sim.message_counter, 1);
}
