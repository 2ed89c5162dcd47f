//! Field-reader behaviour: primitive decoding under both byte orders and
//! the length-prefixed string format.

use stdf2pq::reader::StdfReader;

#[test]
fn test_read_u1() {
    let reader = StdfReader::new();
    let data: Vec<u8> = vec![0x42];
    let mut pos: usize = 0;
    assert_eq!(reader.read_u1(&data, &mut pos).unwrap(), 0x42);
}

#[test]
fn test_read_u2_le() {
    let reader = StdfReader::new();
    let data: Vec<u8> = vec![0x01, 0x02];
    let mut pos: usize = 0;
    assert_eq!(reader.read_u2(&data, &mut pos).unwrap(), 0x0201);
}

#[test]
fn test_read_u2_be() {
    let reader = StdfReader {
        little_endian: false,
    };
    let data: Vec<u8> = vec![0x01, 0x02];
    let mut pos: usize = 0;
    assert_eq!(reader.read_u2(&data, &mut pos).unwrap(), 0x0102);
}

#[test]
fn test_read_u4_le() {
    let reader = StdfReader::new();
    // 210000 = 0x00033450 in LE: [0x50, 0x34, 0x03, 0x00]
    let data: Vec<u8> = vec![0x50, 0x34, 0x03, 0x00];
    let mut pos: usize = 0;
    assert_eq!(reader.read_u4(&data, &mut pos).unwrap(), 210000);
}

#[test]
fn test_read_cn() {
    let reader = StdfReader::new();
    let data: Vec<u8> = vec![0x05, b'H', b'e', b'l', b'l', b'o'];
    let mut pos: usize = 0;
    assert_eq!(reader.read_cn(&data, &mut pos).unwrap(), "Hello");
}

#[test]
fn test_read_cn_empty() {
    let reader = StdfReader::new();
    let data: Vec<u8> = vec![0x00];
    let mut pos: usize = 0;
    assert_eq!(reader.read_cn(&data, &mut pos).unwrap(), "");
}

#[test]
fn test_read_i1_negative() {
    let reader = StdfReader::new();
    let data: Vec<u8> = vec![0xFF];
    let mut pos: usize = 0;
    assert_eq!(reader.read_i1(&data, &mut pos).unwrap(), -1);
}

#[test]
fn test_read_i2_le_negative() {
    let reader = StdfReader::new();
    // -32768 = 0x8000 in LE: [0x00, 0x80]
    let data: Vec<u8> = vec![0x00, 0x80];
    let mut pos: usize = 0;
    assert_eq!(reader.read_i2(&data, &mut pos).unwrap(), -32768);
}

#[test]
fn test_read_u2_past_end_is_error() {
    let reader = StdfReader::new();
    let data: Vec<u8> = vec![0x01];
    let mut pos: usize = 0;
    assert!(reader.read_u2(&data, &mut pos).is_err());
    assert_eq!(pos, 0);
}

#[test]
fn test_read_cn_truncated_is_error() {
    let reader = StdfReader::new();
    // Length byte says five, but only two bytes follow.
    let data: Vec<u8> = vec![0x05, b'a', b'b'];
    let mut pos: usize = 0;
    assert!(reader.read_cn(&data, &mut pos).is_err());
}

#[test]
fn test_read_header_le() {
    let reader = StdfReader::new();
    let data: Vec<u8> = vec![0x02, 0x00, 0x00, 0x0A, 0xAA, 0xBB];
    let mut pos: usize = 0;
    let (rec_len, rec_typ, rec_sub) = reader.read_header(&data, &mut pos).unwrap();
    assert_eq!(rec_len, 2);
    assert_eq!(rec_typ, 0);
    assert_eq!(rec_sub, 10);
    assert_eq!(pos, 4);
}

#[test]
fn test_skip() {
    let reader = StdfReader::new();
    let data: Vec<u8> = vec![1, 2, 3, 4];
    let mut pos: usize = 0;
    assert!(reader.skip(&data, &mut pos, 3).is_ok());
    assert_eq!(pos, 3);
    assert!(reader.skip(&data, &mut pos, 2).is_err());
    assert_eq!(pos, 3);
}
