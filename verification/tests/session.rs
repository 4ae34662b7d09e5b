//! Version negotiation, version gating, packet framing, and the shapes of
//! the session's request packets.

use openrgb::{
    Color, DeserFromBuf, OpenRgbError, OpenRgbMessageHeader, OpenRgbProtocol, PacketId,
    ProtocolErrorKind, ProtocolOption, ReceivedMessage, SerToBuf, WriteMessage, DEFAULT_PROTOCOL,
};

fn header_bytes(device_id: u32, packet_id: u32, size: u32) -> Vec<u8> {
    let mut v = b"ORGB".to_vec();
    v.extend_from_slice(&device_id.to_le_bytes());
    v.extend_from_slice(&packet_id.to_le_bytes());
    v.extend_from_slice(&size.to_le_bytes());
    v
}

#[test]
fn test_negotiate_protocol_version_3() {
    let client = OpenRgbProtocol::new(3);
    assert_eq!(client.get_protocol_version(), 3);
}

#[test]
fn test_negotiate_protocol_version_2() {
    let client = OpenRgbProtocol::new(2);
    assert_eq!(client.get_protocol_version(), 2);
}

#[test]
fn negotiation_caps_at_client_maximum() {
    let client = OpenRgbProtocol::new(9);
    assert_eq!(client.get_protocol_version(), DEFAULT_PROTOCOL);
}

#[test]
fn negotiation_request_advertises_client_maximum() {
    let req = OpenRgbProtocol::request_protocol_version_request();
    assert_eq!(req.device_id, 0);
    assert_eq!(req.packet_id, PacketId::RequestProtocolVersion);
    assert_eq!(req.payload, DEFAULT_PROTOCOL.to_le_bytes().to_vec());
    let bytes = req.to_bytes().unwrap();
    let mut expected = header_bytes(0, 40, 4);
    expected.extend_from_slice(&DEFAULT_PROTOCOL.to_le_bytes());
    assert_eq!(bytes, expected);
}

#[test]
fn negotiation_response_is_the_advertised_version() {
    let payload = 2_u32.to_le_bytes();
    assert_eq!(OpenRgbProtocol::parse_protocol_version_response(&payload).unwrap(), 2);
}

#[test]
fn gated_operation_fails_before_any_bytes_are_built() {
    // server at 2, client up to 5: session at 2; save-mode needs 3
    let server_version = OpenRgbProtocol::parse_protocol_version_response(
        &2_u32.to_le_bytes(),
    )
    .unwrap();
    let session = OpenRgbProtocol::new(server_version);
    assert_eq!(session.get_protocol_version(), 2);
    let mode = sample_mode();
    let err = session.save_mode_request(1, &mode).unwrap_err();
    assert_eq!(
        err,
        OpenRgbError::UnsupportedOperation {
            operation: "Save mode".to_string(),
            current_protocol_version: 2,
            min_protocol_version: 3,
        }
    );
}

fn sample_mode() -> openrgb::ModeData {
    openrgb::ModeData {
        name: "m".to_string(),
        value: 0,
        flags: openrgb::ModeFlags::empty(),
        speed_min: 0,
        speed_max: 0,
        speed: 0,
        brightness_min: ProtocolOption::UnsupportedVersion,
        brightness_max: ProtocolOption::UnsupportedVersion,
        brightness: ProtocolOption::UnsupportedVersion,
        color_mode: openrgb::ColorMode::NoColor,
        colors: Vec::new(),
        colors_min: 0,
        colors_max: 0,
        direction: openrgb::Direction::Left,
        index: 0,
        protocol_version: 2,
    }
}

#[test]
fn version_gates_of_each_operation() {
    let v2 = OpenRgbProtocol::new(2);
    assert!(v2.get_profiles_request().is_ok());
    assert!(v2.load_profile_request("p").is_ok());
    assert!(v2.save_profile_request(&"p".to_string()).is_ok());
    assert!(v2.delete_profile_request(&"p".to_string()).is_ok());
    assert!(v2.get_plugins_request().is_err());
    assert!(v2.clear_segments_request(0).is_err());
    assert!(v2.rescan_devices_request().is_err());
    let v1 = OpenRgbProtocol::new(1);
    assert!(v1.get_profiles_request().is_err());
    let v4 = OpenRgbProtocol::new(4);
    assert!(v4.get_plugins_request().is_ok());
    assert!(v4.clear_segments_request(0).is_err());
    let v5 = OpenRgbProtocol::new(5);
    assert!(v5.clear_segments_request(0).is_ok());
    assert!(v5.rescan_devices_request().is_ok());
}

#[test]
fn test_set_name() {
    let session = OpenRgbProtocol::new(DEFAULT_PROTOCOL);
    let req = session.set_name_request("test");
    let bytes = req.to_bytes().unwrap();
    let mut expected = header_bytes(0, 50, 5);
    expected.extend_from_slice(b"test\0");
    assert_eq!(bytes, expected);
}

#[test]
fn update_leds_payload_embeds_its_own_length() {
    let session = OpenRgbProtocol::new(DEFAULT_PROTOCOL);
    let colors = vec![Color { r: 9, g: 8, b: 7 }];
    let req = session.update_leds_request(4, &colors).unwrap();
    assert_eq!(req.device_id, 4);
    assert_eq!(req.packet_id, PacketId::RGBControllerUpdateLeds);
    // inner: u16 count + one 4-byte color = 6 bytes; prefix counts itself
    let mut expected = 10_u32.to_le_bytes().to_vec();
    expected.extend_from_slice(&1_u16.to_le_bytes());
    expected.extend_from_slice(&[9, 8, 7, 0]);
    assert_eq!(req.payload, expected);
}

#[test]
fn update_zone_leds_payload_has_zone_id_after_length() {
    let session = OpenRgbProtocol::new(DEFAULT_PROTOCOL);
    let colors = vec![Color { r: 1, g: 1, b: 1 }, Color { r: 2, g: 2, b: 2 }];
    let req = session.update_zone_leds_request(3, 1, &colors).unwrap();
    let mut expected = 18_u32.to_le_bytes().to_vec();
    expected.extend_from_slice(&1_u32.to_le_bytes());
    expected.extend_from_slice(&2_u16.to_le_bytes());
    expected.extend_from_slice(&[1, 1, 1, 0, 2, 2, 2, 0]);
    assert_eq!(req.payload, expected);
}

#[test]
fn update_led_payload_is_id_then_color() {
    let session = OpenRgbProtocol::new(DEFAULT_PROTOCOL);
    let req = session.update_led_request(2, 5, Color { r: 255, g: 0, b: 0 });
    assert_eq!(req.device_id, 2);
    assert_eq!(req.packet_id, PacketId::RGBControllerUpdateSingleLed);
    let mut expected = 5_i32.to_le_bytes().to_vec();
    expected.extend_from_slice(&[255, 0, 0, 0]);
    assert_eq!(req.payload, expected);
}

#[test]
fn resize_zone_payload_is_zone_then_size() {
    let session = OpenRgbProtocol::new(DEFAULT_PROTOCOL);
    let req = session.resize_zone_request(1, 2, 30);
    let mut expected = 2_u32.to_le_bytes().to_vec();
    expected.extend_from_slice(&30_u32.to_le_bytes());
    assert_eq!(req.payload, expected);
}

#[test]
fn get_controller_request_carries_the_version() {
    let session = OpenRgbProtocol::new(4);
    let req = session.get_controller_request(6);
    assert_eq!(req.device_id, 6);
    assert_eq!(req.packet_id, PacketId::RequestControllerData);
    assert_eq!(req.payload, 4_u32.to_le_bytes().to_vec());
}

#[test]
fn header_parses_and_validates() {
    let bytes = header_bytes(3, 1, 99);
    let h = OpenRgbMessageHeader::parse(&bytes).unwrap();
    assert_eq!(h.device_id, 3);
    assert_eq!(h.packet_id, PacketId::RequestControllerData);
    assert_eq!(h.packet_size, 99);
    assert_eq!(h.check_expected(3, PacketId::RequestControllerData).unwrap(), 99);
}

#[test]
fn header_bad_magic_is_protocol_error() {
    let mut bytes = header_bytes(0, 0, 0);
    bytes[0] = b'X';
    assert_eq!(
        OpenRgbMessageHeader::parse(&bytes).unwrap_err(),
        OpenRgbError::ProtocolError(ProtocolErrorKind::BadMagic)
    );
}

#[test]
fn header_too_short_is_short_read() {
    let bytes = b"ORGB".to_vec();
    assert_eq!(
        OpenRgbMessageHeader::parse(&bytes).unwrap_err(),
        OpenRgbError::ProtocolError(ProtocolErrorKind::ShortRead)
    );
}

#[test]
fn header_mismatches_name_expected_and_found() {
    let bytes = header_bytes(3, 1, 0);
    let h = OpenRgbMessageHeader::parse(&bytes).unwrap();
    assert_eq!(
        h.check_expected(3, PacketId::RequestControllerCount).unwrap_err(),
        OpenRgbError::ProtocolError(ProtocolErrorKind::UnexpectedPacketId { expected: 0, got: 1 })
    );
    assert_eq!(
        h.check_expected(4, PacketId::RequestControllerData).unwrap_err(),
        OpenRgbError::ProtocolError(ProtocolErrorKind::UnexpectedDeviceId { expected: 4, got: 3 })
    );
}

#[test]
fn parse_response_header_returns_payload_length() {
    let session = OpenRgbProtocol::new(DEFAULT_PROTOCOL);
    let bytes = header_bytes(0, 0, 4);
    let n = session
        .parse_response_header(&bytes, 0, PacketId::RequestControllerCount)
        .unwrap();
    assert_eq!(n, 4);
}

#[test]
fn profiles_response_drops_the_leading_size() {
    let session = OpenRgbProtocol::new(2);
    let mut payload = 0_u32.to_le_bytes().to_vec();
    let mut names = WriteMessage::new(2);
    names.write_value(&vec!["daylight".to_string(), "night".to_string()]).unwrap();
    payload.extend_from_slice(names.bytes());
    let profiles = session.parse_profiles_response(&payload).unwrap();
    assert_eq!(profiles, vec!["daylight".to_string(), "night".to_string()]);
}

#[test]
fn version_gated_field_encodes_to_zero_bytes_below_gate() {
    // a gated field below its minimum version writes nothing and reads
    // back as unsupported without consuming bytes
    let gated: ProtocolOption<3, u32> = ProtocolOption::new(7, 2);
    assert_eq!(gated, ProtocolOption::UnsupportedVersion);
    let mut msg = WriteMessage::new(2);
    msg.write_value(&gated).unwrap();
    assert_eq!(msg.len(), 0);
    let bytes = [1_u8, 2, 3, 4];
    let mut rd = ReceivedMessage::new(&bytes, 2);
    let back: ProtocolOption<3, u32> = rd.read_value().unwrap();
    assert_eq!(back, ProtocolOption::UnsupportedVersion);
    assert_eq!(rd.available_buf().len(), 4);
}

#[test]
fn version_gated_field_behaves_as_plain_value_at_gate() {
    let gated: ProtocolOption<3, u32> = ProtocolOption::new(7, 3);
    assert_eq!(gated, ProtocolOption::Present(7));
    let mut msg = WriteMessage::new(3);
    msg.write_value(&gated).unwrap();
    assert_eq!(msg.bytes(), &7_u32.to_le_bytes());
    let bytes = msg.bytes().to_vec();
    let mut rd = ReceivedMessage::new(&bytes, 3);
    let back: ProtocolOption<3, u32> = rd.read_value().unwrap();
    assert_eq!(back, ProtocolOption::Present(7));
}

#[test]
fn protocol_option_accessors() {
    let mut p: ProtocolOption<3, u32> = ProtocolOption::some(1);
    assert_eq!(p.value(), Some(&1));
    p.replace(9);
    assert_eq!(p.value(), Some(&9));
    let mut u: ProtocolOption<3, u32> = ProtocolOption::new(1, 2);
    assert_eq!(u.value(), None);
    u.replace(9);
    assert_eq!(u.value(), None);
}

#[test]
fn packet_size_counts_payload_only() {
    let session = OpenRgbProtocol::new(DEFAULT_PROTOCOL);
    let req = session.set_name_request("abc");
    let bytes = req.to_bytes().unwrap();
    assert_eq!(bytes.len(), 16 + 4);
    let h = OpenRgbMessageHeader::parse(&bytes).unwrap();
    assert_eq!(h.packet_size as usize, bytes.len() - 16);
}

#[test]
fn size_agreement_for_a_length_prefixed_packet() {
    // precomputed size equals the bytes actually written, embedded length
    // included
    let colors = vec![Color { r: 1, g: 2, b: 3 }, Color { r: 4, g: 5, b: 6 }];
    let packet = openrgb::OpenRgbPacket::new(&colors);
    let mut msg = WriteMessage::new(DEFAULT_PROTOCOL);
    msg.write_value(&packet).unwrap();
    assert_eq!(packet.size(DEFAULT_PROTOCOL), msg.len());
}
