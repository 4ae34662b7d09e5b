//! Domain data: colors, LEDs, zones with matrices, segments, modes, and a
//! full controller fetch.

use openrgb::{
    Color, ColorMode, ControllerData, DeserFromBuf, DeviceType, Direction, Led, ModeData,
    ModeFlag, ModeFlags, OpenRgbProtocol, ProtocolOption, ReceivedMessage, SegmentData, SerToBuf,
    WriteMessage, ZoneData, ZoneType,
};

#[test]
fn color_test_read_001() {
    let bytes = [37_u8, 54, 126, 0];
    let mut msg = ReceivedMessage::new(&bytes, 5);
    let c: Color = msg.read_value().unwrap();
    assert_eq!(c, Color { r: 37, g: 54, b: 126 });
}

#[test]
fn color_test_write_001() {
    let mut msg = WriteMessage::new(5);
    msg.write_value(&Color { r: 37, g: 54, b: 126 }).unwrap();
    assert_eq!(msg.bytes(), &[37_u8, 54, 126, 0]);
}

#[test]
fn led_test_read_001() {
    let mut bytes = 5_u16.to_le_bytes().to_vec();
    bytes.extend_from_slice(b"test\0");
    bytes.extend_from_slice(&45_u32.to_le_bytes());
    let mut msg = ReceivedMessage::new(&bytes, 5);
    let led: Led = msg.read_value().unwrap();
    assert_eq!(led, Led { name: "test".to_string(), value: 45 });
}

fn zone_fixture_prefix() -> Vec<u8> {
    let mut bytes = 5_u16.to_le_bytes().to_vec();
    bytes.extend_from_slice(b"test\0");
    bytes.extend_from_slice(&1_u32.to_le_bytes());
    bytes.extend_from_slice(&3_u32.to_le_bytes());
    bytes.extend_from_slice(&18_u32.to_le_bytes());
    bytes.extend_from_slice(&15_u32.to_le_bytes());
    bytes
}

#[test]
fn zone_test_read_001() {
    let mut bytes = zone_fixture_prefix();
    bytes.extend_from_slice(&0_u16.to_le_bytes());
    // decoded below the segment minimum version, as the original fixture was
    let mut msg = ReceivedMessage::new(&bytes, 0);
    let zone: ZoneData = msg.read_value().unwrap();
    assert_eq!(zone.id, u32::MAX);
    assert_eq!(zone.name, "test".to_string());
    assert_eq!(zone.zone_type, ZoneType::Linear);
    assert_eq!(zone.leds_min, 3);
    assert_eq!(zone.leds_max, 18);
    assert_eq!(zone.leds_count, 15);
    assert!(zone.matrix.is_none());
    assert_eq!(zone.segments, ProtocolOption::UnsupportedVersion);
    assert_eq!(zone.flags, ProtocolOption::UnsupportedVersion);
}

#[test]
fn zone_test_read_002() {
    let mut bytes = zone_fixture_prefix();
    bytes.extend_from_slice(&32_u16.to_le_bytes());
    bytes.extend_from_slice(&2_u32.to_le_bytes());
    bytes.extend_from_slice(&3_u32.to_le_bytes());
    for cell in 0_u32..6 {
        bytes.extend_from_slice(&cell.to_le_bytes());
    }
    let mut msg = ReceivedMessage::new(&bytes, 0);
    let zone: ZoneData = msg.read_value().unwrap();
    let matrix = zone.matrix.unwrap();
    assert_eq!(matrix.height, 2);
    assert_eq!(matrix.width, 3);
    assert_eq!(matrix.cells, vec![0, 1, 2, 3, 4, 5]);
    // row-major: [[0, 1, 2], [3, 4, 5]]
    assert_eq!(matrix.get(0, 0), 0);
    assert_eq!(matrix.get(0, 2), 2);
    assert_eq!(matrix.get(1, 0), 3);
    assert_eq!(matrix.get(1, 2), 5);
}

#[test]
fn segment_round_trip_at_version_4() {
    let seg = SegmentData {
        name: "left half".to_string(),
        seg_type: 1,
        start_idx: 0,
        led_count: 10,
    };
    let mut msg = WriteMessage::new(4);
    msg.write_value(&seg).unwrap();
    let bytes = msg.bytes().to_vec();
    let mut rd = ReceivedMessage::new(&bytes, 4);
    let back: SegmentData = rd.read_value().unwrap();
    assert_eq!(back, seg);
}

#[test]
fn segment_below_version_4_is_hard_error() {
    let seg = SegmentData { name: "s".to_string(), seg_type: 0, start_idx: 0, led_count: 1 };
    let mut msg = WriteMessage::new(3);
    assert!(msg.write_value(&seg).is_err());
    let bytes = [0_u8; 16];
    let mut rd = ReceivedMessage::new(&bytes, 3);
    let r: Result<SegmentData, _> = rd.read_value();
    assert!(r.is_err());
}

fn sample_mode(ver: u32) -> ModeData {
    ModeData {
        name: "test".to_string(),
        value: 46,
        flags: ModeFlags::empty()
            .with(ModeFlag::HasDirection)
            .with(ModeFlag::HasSpeed)
            .with(ModeFlag::HasBrightness),
        speed_min: 10,
        speed_max: 1000,
        speed: 51,
        brightness_min: ProtocolOption::new(1, ver as usize),
        brightness_max: ProtocolOption::new(1024, ver as usize),
        brightness: ProtocolOption::new(512, ver as usize),
        color_mode: ColorMode::PerLED,
        colors: vec![Color { r: 37, g: 54, b: 126 }, Color { r: 37, g: 54, b: 255 }],
        colors_min: 0,
        colors_max: 256,
        direction: Direction::Horizontal,
        index: u32::MAX,
        protocol_version: ver,
    }
}

#[test]
fn mode_round_trip_at_version_4() {
    let mode = sample_mode(4);
    let mut msg = WriteMessage::new(4);
    msg.write_value(&mode).unwrap();
    let bytes = msg.bytes().to_vec();
    let mut rd = ReceivedMessage::new(&bytes, 4);
    let back: ModeData = rd.read_value().unwrap();
    assert_eq!(back, mode);
}

#[test]
fn mode_round_trip_at_version_2_drops_brightness() {
    // below the brightness minimum version the three brightness fields leave the wire
    let mode = sample_mode(2);
    assert_eq!(mode.brightness, ProtocolOption::UnsupportedVersion);
    let mut msg = WriteMessage::new(2);
    msg.write_value(&mode).unwrap();
    let bytes = msg.bytes().to_vec();
    let mut rd = ReceivedMessage::new(&bytes, 2);
    let back: ModeData = rd.read_value().unwrap();
    assert_eq!(back, mode);
    // the same value is 12 bytes shorter than at version 4
    let mut msg4 = WriteMessage::new(4);
    msg4.write_value(&sample_mode(4)).unwrap();
    assert_eq!(msg4.len(), bytes.len() + 12);
}

#[test]
fn mode_size_matches_encoding() {
    let mode = sample_mode(4);
    let mut msg = WriteMessage::new(4);
    msg.write_value(&mode).unwrap();
    assert_eq!(mode.size(4), msg.len());
}

#[test]
fn mode_getters_follow_flags() {
    let mode = sample_mode(4);
    assert_eq!(mode.speed(), Some(51));
    assert_eq!(mode.speed_min(), Some(10));
    assert_eq!(mode.speed_max(), Some(1000));
    assert_eq!(mode.brightness(), Some(512));
    assert_eq!(mode.direction(), Some(Direction::Horizontal));
    assert_eq!(mode.colors_min(), Some(0));
    assert_eq!(mode.colors_max(), Some(256));
    let mut bare = sample_mode(4);
    bare.flags = ModeFlags::empty();
    bare.colors = Vec::new();
    assert_eq!(bare.speed(), None);
    assert_eq!(bare.brightness(), None);
    assert_eq!(bare.direction(), None);
    assert_eq!(bare.colors_min(), None);
}

/// A full controller payload at protocol version 2, as the server would
/// send it: size, device type, six strings, one mode, one zone, one LED,
/// one color.
fn controller_payload(ver: u32) -> Vec<u8> {
    let mut msg = WriteMessage::new(ver);
    msg.write_u32(0); // payload size: read and discarded by the decoder
    msg.write_value(&DeviceType::Cooler).unwrap();
    msg.write_value(&"Thermaltake Riing".to_string()).unwrap();
    msg.write_value(&"Thermaltake".to_string()).unwrap();
    msg.write_value(&"Thermaltake Riing Device".to_string()).unwrap();
    msg.write_value(&String::new()).unwrap();
    msg.write_value(&String::new()).unwrap();
    msg.write_value(&"HID: /dev/hidraw10".to_string()).unwrap();
    msg.write_u16(1); // mode count
    msg.write_value(&0_i32).unwrap(); // active mode
    msg.write_value(&sample_mode(ver)).unwrap();
    msg.write_u16(1); // zone count
    msg.write_value(&"Riing Channel 1".to_string()).unwrap();
    msg.write_value(&ZoneType::Linear).unwrap();
    msg.write_u32(0); // leds_min
    msg.write_u32(20); // leds_max
    msg.write_u32(0); // leds_count
    msg.write_u16(0); // matrix byte length: no matrix
    if ver >= 4 {
        msg.write_u16(1); // segment count
        msg.write_value(&SegmentData {
            name: "front".to_string(),
            seg_type: 2,
            start_idx: 0,
            led_count: 1,
        })
        .unwrap();
    }
    if ver >= 5 {
        msg.write_u32(6); // zone flags
    }
    msg.write_u16(1); // led count
    msg.write_value(&"LED 1".to_string()).unwrap();
    msg.write_u32(7); // led value
    msg.write_u16(1); // color count
    msg.write_value(&Color { r: 1, g: 2, b: 3 }).unwrap();
    if ver >= 5 {
        msg.write_u16(1); // alternate LED name count
        msg.write_value(&"ALT 1".to_string()).unwrap();
        msg.write_u32(9); // controller flags
    }
    msg.into_bytes()
}

#[test]
fn controller_decode_assigns_positions_and_id() {
    let payload = controller_payload(2);
    let session = OpenRgbProtocol::new(2);
    let c: ControllerData = session.parse_controller_response(7, &payload).unwrap();
    assert_eq!(c.id, 7);
    assert_eq!(c.device_type, DeviceType::Cooler);
    assert_eq!(c.name, "Thermaltake Riing".to_string());
    assert_eq!(c.vendor, "Thermaltake".to_string());
    assert_eq!(c.location, "HID: /dev/hidraw10".to_string());
    assert_eq!(c.active_mode, 0);
    assert_eq!(c.modes.len(), 1);
    assert_eq!(c.modes[0].index, 0);
    assert_eq!(c.modes[0].name, "test".to_string());
    assert_eq!(c.zones.len(), 1);
    assert_eq!(c.zones[0].id, 0);
    assert_eq!(c.zones[0].name, "Riing Channel 1".to_string());
    assert_eq!(c.leds, vec![Led { name: "LED 1".to_string(), value: 7 }]);
    assert_eq!(c.colors, vec![Color { r: 1, g: 2, b: 3 }]);
    assert_eq!(c.led_alt_names, ProtocolOption::UnsupportedVersion);
    assert_eq!(c.flags, ProtocolOption::UnsupportedVersion);
}

#[test]
fn controller_fetch_is_idempotent() {
    // fetching the same controller data twice yields field-for-field
    // identical results
    let payload = controller_payload(2);
    let session = OpenRgbProtocol::new(2);
    let first: ControllerData = session.parse_controller_response(3, &payload).unwrap();
    let second: ControllerData = session.parse_controller_response(3, &payload).unwrap();
    assert_eq!(first, second);
}

#[test]
fn controller_truncated_payload_is_decode_error() {
    let payload = controller_payload(2);
    let session = OpenRgbProtocol::new(2);
    let r = session.parse_controller_response(0, &payload[..payload.len() - 3]);
    assert!(r.is_err());
}

#[test]
fn controller_decode_at_version_5_carries_gated_fields() {
    let payload = controller_payload(5);
    let session = OpenRgbProtocol::new(5);
    let c: ControllerData = session.parse_controller_response(0, &payload).unwrap();
    assert_eq!(c.led_alt_names, ProtocolOption::Present(vec!["ALT 1".to_string()]));
    assert_eq!(c.flags, ProtocolOption::Present(9));
    let zone = &c.zones[0];
    assert_eq!(zone.flags, ProtocolOption::Present(6));
    match &zone.segments {
        ProtocolOption::Present(segs) => {
            assert_eq!(segs.len(), 1);
            assert_eq!(segs[0].name, "front".to_string());
            assert_eq!(segs[0].seg_type, 2);
            assert_eq!(segs[0].led_count, 1);
        }
        ProtocolOption::UnsupportedVersion => panic!("segments must be present at version 5"),
    }
    assert_eq!(c.modes[0].brightness, ProtocolOption::Present(512));
}
