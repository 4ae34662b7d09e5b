//! Enumeration discriminants: the known mappings, the `Unknown` fallback
//! of device types, and the hard errors everywhere else.

use openrgb::{
    ColorMode, DeserFromBuf, DeviceType, Direction, ModeFlag, ModeFlags, OpenRgbError, PacketId,
    ProtocolErrorKind, ReceivedMessage, SerToBuf, WriteMessage, ZoneType, DEFAULT_PROTOCOL,
};

#[test]
fn color_mode_test_read_001() {
    let bytes = 3_u32.to_le_bytes();
    let mut msg = ReceivedMessage::new(&bytes, DEFAULT_PROTOCOL);
    let v: ColorMode = msg.read_value().unwrap();
    assert_eq!(v, ColorMode::Random);
}

#[test]
fn color_mode_test_write_001() {
    let mut msg = WriteMessage::new(DEFAULT_PROTOCOL);
    msg.write_value(&ColorMode::Random).unwrap();
    assert_eq!(msg.bytes(), &3_u32.to_le_bytes());
}

#[test]
fn device_type_test_read_001() {
    let bytes = 8_u32.to_le_bytes();
    let mut msg = ReceivedMessage::new(&bytes, DEFAULT_PROTOCOL);
    let v: DeviceType = msg.read_value().unwrap();
    assert_eq!(v, DeviceType::Headset);
}

#[test]
fn device_type_test_write_001() {
    let mut msg = WriteMessage::new(DEFAULT_PROTOCOL);
    msg.write_value(&DeviceType::Headset).unwrap();
    assert_eq!(msg.bytes(), &8_u32.to_le_bytes());
}

#[test]
fn device_type_unknown_discriminant_decodes_to_unknown() {
    let bytes = 100_u32.to_le_bytes();
    let mut msg = ReceivedMessage::new(&bytes, DEFAULT_PROTOCOL);
    let v: DeviceType = msg.read_value().unwrap();
    assert_eq!(v, DeviceType::Unknown);
}

#[test]
fn zone_type_unknown_discriminant_is_hard_error() {
    let bytes = 100_u32.to_le_bytes();
    let mut msg = ReceivedMessage::new(&bytes, DEFAULT_PROTOCOL);
    let r: Result<ZoneType, _> = msg.read_value();
    assert_eq!(
        r.unwrap_err(),
        OpenRgbError::ProtocolError(ProtocolErrorKind::UnknownZoneType { value: 100 })
    );
}

#[test]
fn direction_unknown_discriminant_is_hard_error() {
    let bytes = 100_u32.to_le_bytes();
    let mut msg = ReceivedMessage::new(&bytes, DEFAULT_PROTOCOL);
    let r: Result<Direction, _> = msg.read_value();
    assert_eq!(
        r.unwrap_err(),
        OpenRgbError::ProtocolError(ProtocolErrorKind::UnknownDirection { value: 100 })
    );
}

#[test]
fn color_mode_unknown_discriminant_is_hard_error() {
    let bytes = 100_u32.to_le_bytes();
    let mut msg = ReceivedMessage::new(&bytes, DEFAULT_PROTOCOL);
    let r: Result<ColorMode, _> = msg.read_value();
    assert_eq!(
        r.unwrap_err(),
        OpenRgbError::ProtocolError(ProtocolErrorKind::UnknownColorMode { value: 100 })
    );
}

#[test]
fn packet_id_unknown_discriminant_is_hard_error() {
    let bytes = 100000_u32.to_le_bytes();
    let mut msg = ReceivedMessage::new(&bytes, DEFAULT_PROTOCOL);
    let r: Result<PacketId, _> = msg.read_value();
    assert_eq!(
        r.unwrap_err(),
        OpenRgbError::ProtocolError(ProtocolErrorKind::UnknownPacketId { value: 100000 })
    );
}

#[test]
fn direction_test_read_001() {
    let bytes = 4_u32.to_le_bytes();
    let mut msg = ReceivedMessage::new(&bytes, DEFAULT_PROTOCOL);
    let v: Direction = msg.read_value().unwrap();
    assert_eq!(v, Direction::Horizontal);
}

#[test]
fn direction_test_write_001() {
    let mut msg = WriteMessage::new(DEFAULT_PROTOCOL);
    msg.write_value(&Direction::Horizontal).unwrap();
    assert_eq!(msg.bytes(), &4_u32.to_le_bytes());
}

#[test]
fn zone_type_test_read_001() {
    let bytes = 1_u32.to_le_bytes();
    let mut msg = ReceivedMessage::new(&bytes, DEFAULT_PROTOCOL);
    let v: ZoneType = msg.read_value().unwrap();
    assert_eq!(v, ZoneType::Linear);
}

#[test]
fn zone_type_test_write_001() {
    let mut msg = WriteMessage::new(DEFAULT_PROTOCOL);
    msg.write_value(&ZoneType::Linear).unwrap();
    assert_eq!(msg.bytes(), &1_u32.to_le_bytes());
}

#[test]
fn test_macro() {
    assert_eq!(ZoneType::from_u32(1).unwrap(), ZoneType::Linear);
    assert_eq!(ZoneType::from_u32(2).unwrap(), ZoneType::Matrix);
    assert!(ZoneType::from_u32(3).is_none());
    assert_eq!(ZoneType::Linear.to_u32(), 1);
    assert_eq!(ZoneType::Matrix.to_u32(), 2);
}

#[test]
fn packet_id_values_are_the_compatibility_contract() {
    assert_eq!(PacketId::RequestControllerCount.to_u32(), 0);
    assert_eq!(PacketId::RequestControllerData.to_u32(), 1);
    assert_eq!(PacketId::RequestProtocolVersion.to_u32(), 40);
    assert_eq!(PacketId::SetClientName.to_u32(), 50);
    assert_eq!(PacketId::DeviceListUpdated.to_u32(), 100);
    assert_eq!(PacketId::RequestProfileList.to_u32(), 150);
    assert_eq!(PacketId::RequestSaveProfile.to_u32(), 151);
    assert_eq!(PacketId::RequestLoadProfile.to_u32(), 152);
    assert_eq!(PacketId::RequestDeleteProfile.to_u32(), 153);
    assert_eq!(PacketId::RGBControllerResizeZone.to_u32(), 1000);
    assert_eq!(PacketId::RgbControllerClearSegments.to_u32(), 1001);
    assert_eq!(PacketId::RGBControllerAddSegment.to_u32(), 1002);
    assert_eq!(PacketId::RGBControllerUpdateLeds.to_u32(), 1050);
    assert_eq!(PacketId::RGBControllerUpdateZoneLeds.to_u32(), 1051);
    assert_eq!(PacketId::RGBControllerUpdateSingleLed.to_u32(), 1052);
    assert_eq!(PacketId::RGBControllerSetCustomMode.to_u32(), 1100);
    assert_eq!(PacketId::RGBControllerUpdateMode.to_u32(), 1101);
    assert_eq!(PacketId::RGBControllerSaveMode.to_u32(), 1102);
}

#[test]
fn mode_flag_test_read_001() {
    let bytes = 154_u32.to_le_bytes();
    let mut msg = ReceivedMessage::new(&bytes, DEFAULT_PROTOCOL);
    let flags: ModeFlags = msg.read_value().unwrap();
    let expected = ModeFlags::empty()
        .with(ModeFlag::HasDirectionLR)
        .with(ModeFlag::HasDirectionHV)
        .with(ModeFlag::HasBrightness)
        .with(ModeFlag::HasRandomColor);
    assert_eq!(flags, expected);
}

#[test]
fn mode_flag_test_write_001() {
    let flags = ModeFlags::empty()
        .with(ModeFlag::HasDirection)
        .with(ModeFlag::HasSpeed)
        .with(ModeFlag::HasBrightness);
    let mut msg = WriteMessage::new(DEFAULT_PROTOCOL);
    msg.write_value(&flags).unwrap();
    assert_eq!(msg.bytes(), &31_u32.to_le_bytes());
}

#[test]
fn mode_flag_bits_outside_universe_are_hard_error() {
    let bytes = 0x400_u32.to_le_bytes();
    let mut msg = ReceivedMessage::new(&bytes, DEFAULT_PROTOCOL);
    let r: Result<ModeFlags, _> = msg.read_value();
    assert_eq!(
        r.unwrap_err(),
        OpenRgbError::ProtocolError(ProtocolErrorKind::UnknownModeFlags { value: 0x400 })
    );
}

#[test]
fn mode_flag_contains_needs_every_bit() {
    let flags = ModeFlags::empty().with(ModeFlag::HasDirectionLR);
    assert!(flags.contains(ModeFlag::HasDirectionLR));
    assert!(!flags.contains(ModeFlag::HasDirection));
    let all = flags.with(ModeFlag::HasDirectionUD).with(ModeFlag::HasDirectionHV);
    assert!(all.contains(ModeFlag::HasDirection));
}
