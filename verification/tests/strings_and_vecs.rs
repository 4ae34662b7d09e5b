//! Length-prefixed strings, bare raw strings, and counted sequences.

use openrgb::{
    DeserFromBuf, RawString, ReceivedMessage, SerToBuf, WriteMessage, DEFAULT_PROTOCOL,
};

#[test]
fn string_test_read_001() {
    let mut bytes = 5_u16.to_le_bytes().to_vec();
    bytes.extend_from_slice(b"test\0");
    let mut msg = ReceivedMessage::new(&bytes, DEFAULT_PROTOCOL);
    let s: String = msg.read_value().unwrap();
    assert_eq!(s, "test".to_string());
}

#[test]
fn string_test_write_001() {
    let mut msg = WriteMessage::new(DEFAULT_PROTOCOL);
    msg.write_value(&"test".to_string()).unwrap();
    let mut expected = 5_u16.to_le_bytes().to_vec();
    expected.extend_from_slice(b"test\0");
    assert_eq!(msg.bytes(), expected.as_slice());
}

#[test]
fn test_write_raw_001() {
    let mut msg = WriteMessage::new(DEFAULT_PROTOCOL);
    msg.write_value(&RawString("test")).unwrap();
    assert_eq!(msg.bytes(), b"test\0");
}

#[test]
fn vec_test_read_001() {
    let mut bytes = 3_u16.to_le_bytes().to_vec();
    bytes.extend_from_slice(&[37_u8, 54, 126]);
    let mut msg = ReceivedMessage::new(&bytes, DEFAULT_PROTOCOL);
    let v: Vec<u8> = msg.read_value().unwrap();
    assert_eq!(v, vec![37_u8, 54, 126]);
}

#[test]
fn vec_test_write_001() {
    let mut msg = WriteMessage::new(DEFAULT_PROTOCOL);
    msg.write_value(&vec![37_u8, 54, 126]).unwrap();
    let mut expected = 3_u16.to_le_bytes().to_vec();
    expected.extend_from_slice(&[37_u8, 54, 126]);
    assert_eq!(msg.bytes(), expected.as_slice());
}

#[test]
fn string_invalid_utf8_is_decode_error() {
    // length 3 counts the terminator; the body byte 0xff is not UTF-8
    let bytes = [3_u8, 0, 0xff, 0xfe, 0];
    let mut msg = ReceivedMessage::new(&bytes, DEFAULT_PROTOCOL);
    let r: Result<String, _> = msg.read_value();
    assert!(r.is_err());
}

#[test]
fn string_count_beyond_buffer_is_decode_error() {
    let bytes = [200_u8, 0, b'a'];
    let mut msg = ReceivedMessage::new(&bytes, DEFAULT_PROTOCOL);
    let r: Result<String, _> = msg.read_value();
    assert!(r.is_err());
}

#[test]
fn string_empty_round_trip() {
    let mut msg = WriteMessage::new(DEFAULT_PROTOCOL);
    msg.write_value(&String::new()).unwrap();
    assert_eq!(msg.bytes(), &[1_u8, 0, 0]);
    let bytes = msg.bytes().to_vec();
    let mut rd = ReceivedMessage::new(&bytes, DEFAULT_PROTOCOL);
    let s: String = rd.read_value().unwrap();
    assert_eq!(s, String::new());
}

#[test]
fn vec_count_beyond_buffer_is_decode_error() {
    let bytes = [5_u8, 0, 1, 2];
    let mut msg = ReceivedMessage::new(&bytes, DEFAULT_PROTOCOL);
    let r: Result<Vec<u8>, _> = msg.read_value();
    assert!(r.is_err());
}

#[test]
fn oversize_vec_is_encode_error() {
    let v = vec![0_u8; 65536];
    let mut msg = WriteMessage::new(DEFAULT_PROTOCOL);
    assert!(msg.write_value(&v).is_err());
}

#[test]
fn string_size_matches_encoding() {
    let s = "hello".to_string();
    let mut msg = WriteMessage::new(DEFAULT_PROTOCOL);
    msg.write_value(&s).unwrap();
    assert_eq!(s.size(DEFAULT_PROTOCOL), msg.len());
}

#[test]
fn vec_size_matches_encoding() {
    let v = vec![1_u32, 2, 3];
    let mut msg = WriteMessage::new(DEFAULT_PROTOCOL);
    msg.write_value(&v).unwrap();
    assert_eq!(v.size(DEFAULT_PROTOCOL), msg.len());
}

#[test]
fn nested_vec_round_trip() {
    let v: Vec<Vec<u16>> = vec![vec![1, 2], vec![], vec![65535]];
    let mut msg = WriteMessage::new(DEFAULT_PROTOCOL);
    msg.write_value(&v).unwrap();
    let bytes = msg.bytes().to_vec();
    let mut rd = ReceivedMessage::new(&bytes, DEFAULT_PROTOCOL);
    let back: Vec<Vec<u16>> = rd.read_value().unwrap();
    assert_eq!(back, v);
}
