//! Fixed-width integer and unit codecs, raw array reads, and buffer basics.

use openrgb::{DeserFromBuf, ReceivedMessage, SerToBuf, WriteMessage, DEFAULT_PROTOCOL};

#[test]
fn test_read_u8_001() {
    let bytes = [37_u8];
    let mut msg = ReceivedMessage::new(&bytes, DEFAULT_PROTOCOL);
    let v: u8 = msg.read_value().unwrap();
    assert_eq!(v, 37);
}

#[test]
fn test_write_u8_001() {
    let mut msg = WriteMessage::new(DEFAULT_PROTOCOL);
    msg.write_value(&37_u8).unwrap();
    assert_eq!(msg.bytes(), &[37_u8]);
}

#[test]
fn test_read_u16_001() {
    let bytes = 37_u16.to_le_bytes();
    let mut msg = ReceivedMessage::new(&bytes, DEFAULT_PROTOCOL);
    let v: u16 = msg.read_value().unwrap();
    assert_eq!(v, 37);
}

#[test]
fn test_write_u16_001() {
    let mut msg = WriteMessage::new(DEFAULT_PROTOCOL);
    msg.write_value(&37_u16).unwrap();
    assert_eq!(msg.bytes(), &37_u16.to_le_bytes());
}

#[test]
fn test_read_u32_001() {
    let bytes = 185851_u32.to_le_bytes();
    let mut msg = ReceivedMessage::new(&bytes, DEFAULT_PROTOCOL);
    let v: u32 = msg.read_value().unwrap();
    assert_eq!(v, 185851);
}

#[test]
fn test_write_u32_001() {
    let mut msg = WriteMessage::new(DEFAULT_PROTOCOL);
    msg.write_value(&185851_u32).unwrap();
    assert_eq!(msg.bytes(), &185851_u32.to_le_bytes());
}

#[test]
fn test_read_i32_001() {
    let bytes = (-185851_i32).to_le_bytes();
    let mut msg = ReceivedMessage::new(&bytes, DEFAULT_PROTOCOL);
    let v: i32 = msg.read_value().unwrap();
    assert_eq!(v, -185851);
}

#[test]
fn test_write_i32_001() {
    let mut msg = WriteMessage::new(DEFAULT_PROTOCOL);
    msg.write_value(&-185851_i32).unwrap();
    assert_eq!(msg.bytes(), &(-185851_i32).to_le_bytes());
}

#[test]
fn test_read_void_001() {
    let bytes: [u8; 0] = [];
    let mut msg = ReceivedMessage::new(&bytes, DEFAULT_PROTOCOL);
    let _v: () = msg.read_value().unwrap();
}

#[test]
fn test_write_void_001() {
    let mut msg = WriteMessage::new(DEFAULT_PROTOCOL);
    msg.write_value(&()).unwrap();
    assert_eq!(msg.len(), 0);
}

#[test]
fn test_deser_array() {
    let bytes = [0_u8, 1, 2, 3, 4, 5];
    let mut message = ReceivedMessage::new(&bytes, DEFAULT_PROTOCOL);
    let arr: [u8; 3] = message.read_value().unwrap();
    assert_eq!(arr, [0, 1, 2]);
    let arr2: [u8; 3] = message.read_value().unwrap();
    assert_eq!(arr2, [3, 4, 5]);
}

#[test]
fn test_copy_from_slice_without_alloc() {
    let mut vec = Vec::with_capacity(8);
    vec.resize(4, 0);
    vec[0..4].copy_from_slice(&[1, 2, 3, 4]);
    println!("vec: {0:?}", vec);
}

#[test]
fn read_u8_past_end_is_short_read() {
    let bytes: [u8; 0] = [];
    let mut msg = ReceivedMessage::new(&bytes, DEFAULT_PROTOCOL);
    assert!(msg.read_u8().is_err());
}

#[test]
fn read_u32_short_buffer_is_error_not_panic() {
    let bytes = [1_u8, 2, 3];
    let mut msg = ReceivedMessage::new(&bytes, DEFAULT_PROTOCOL);
    assert!(msg.read_u32().is_err());
}

#[test]
fn read_n_values_consumes_in_order() {
    let bytes = [10_u8, 20, 30, 40];
    let mut msg = ReceivedMessage::new(&bytes, DEFAULT_PROTOCOL);
    let vs: Vec<u8> = msg.read_n_values(3).unwrap();
    assert_eq!(vs, vec![10, 20, 30]);
    assert_eq!(msg.available_buf(), &[40_u8]);
}

#[test]
fn size_matches_encoding_for_primitives() {
    let ver = DEFAULT_PROTOCOL;
    let mut msg = WriteMessage::new(ver);
    msg.write_value(&7_u8).unwrap();
    assert_eq!(7_u8.size(ver), msg.len());
    let mut msg = WriteMessage::new(ver);
    msg.write_value(&7_u16).unwrap();
    assert_eq!(7_u16.size(ver), msg.len());
    let mut msg = WriteMessage::new(ver);
    msg.write_value(&7_u32).unwrap();
    assert_eq!(7_u32.size(ver), msg.len());
    let mut msg = WriteMessage::new(ver);
    msg.write_value(&-7_i32).unwrap();
    assert_eq!((-7_i32).size(ver), msg.len());
}

#[test]
fn test_read_usize_001() {
    let bytes = 185851_u32.to_le_bytes();
    let mut msg = ReceivedMessage::new(&bytes, DEFAULT_PROTOCOL);
    let v: usize = msg.read_value().unwrap();
    assert_eq!(v, 185851_usize);
}

#[test]
fn test_write_usize_001() {
    let mut msg = WriteMessage::new(DEFAULT_PROTOCOL);
    msg.write_value(&185851_usize).unwrap();
    assert_eq!(msg.bytes(), &185851_u32.to_le_bytes());
}

#[test]
fn tuple_test_read_001() {
    let mut bytes = 37_u8.to_le_bytes().to_vec();
    bytes.extend_from_slice(&1337_u32.to_le_bytes());
    bytes.extend_from_slice(&(-1337_i32).to_le_bytes());
    bytes.extend_from_slice(&4_u32.to_le_bytes());
    let mut msg = ReceivedMessage::new(&bytes, DEFAULT_PROTOCOL);
    let t: (u8, u32, i32, openrgb::DeviceType) = msg.read_value().unwrap();
    assert_eq!(t, (37, 1337, -1337, openrgb::DeviceType::LEDStrip));
}

#[test]
fn tuple_test_write_001() {
    let mut msg = WriteMessage::new(DEFAULT_PROTOCOL);
    msg.write_value(&(37_u8, 1337_u32, -1337_i32, openrgb::DeviceType::LEDStrip)).unwrap();
    let mut expected = 37_u8.to_le_bytes().to_vec();
    expected.extend_from_slice(&1337_u32.to_le_bytes());
    expected.extend_from_slice(&(-1337_i32).to_le_bytes());
    expected.extend_from_slice(&4_u32.to_le_bytes());
    assert_eq!(msg.bytes(), expected.as_slice());
}
