use mqtt_broker::text::{u16_to_string, u8_to_string, usize_to_string};
use bytes::BytesMut;
use mqtt_broker::codec::{
    decode_binary_data, decode_utf8_string, decode_variable_byte_int, encode_variable_byte_int,
    write_utf8_string, write_utf8_string_pair, write_usize_as_var_int, write_variable_byte_int,
};
use mqtt_broker::packets::CommonPacketError;
use std::io::Cursor;

fn decode_vbi(bytes: &[u8]) -> (Option<Result<usize, CommonPacketError>>, u64) {
    let mut cursor = Cursor::new(bytes);
    let res = decode_variable_byte_int(&mut cursor);
    (res, cursor.position())
}

#[test]
fn encode_variable_byte_int_known_values() {
    assert_eq!(encode_variable_byte_int(0), vec![0x00]);
    assert_eq!(encode_variable_byte_int(127), vec![0x7F]);
    assert_eq!(encode_variable_byte_int(128), vec![0x80, 0x01]);
    assert_eq!(encode_variable_byte_int(16_383), vec![0xFF, 0x7F]);
    assert_eq!(encode_variable_byte_int(16_384), vec![0x80, 0x80, 0x01]);
    assert_eq!(encode_variable_byte_int(2_097_151), vec![0xFF, 0xFF, 0x7F]);
    assert_eq!(encode_variable_byte_int(2_097_152), vec![0x80, 0x80, 0x80, 0x01]);
    assert_eq!(encode_variable_byte_int(268_435_455), vec![0xFF, 0xFF, 0xFF, 0x7F]);
}

#[test]
fn encode_variable_byte_int_beyond_four_bytes() {
    assert_eq!(encode_variable_byte_int(268_435_456), vec![0x80, 0x80, 0x80, 0x80, 0x01]);
    assert_eq!(encode_variable_byte_int(u32::MAX), vec![0xFF, 0xFF, 0xFF, 0xFF, 0x0F]);
}

#[test]
fn decode_variable_byte_int_known_values() {
    assert!(matches!(decode_vbi(&[0x00]), (Some(Ok(0)), 1)));
    assert!(matches!(decode_vbi(&[0x7F]), (Some(Ok(127)), 1)));
    assert!(matches!(decode_vbi(&[0x80, 0x01]), (Some(Ok(128)), 2)));
    assert!(matches!(decode_vbi(&[0xFF, 0x7F]), (Some(Ok(16_383)), 2)));
    assert!(matches!(decode_vbi(&[0xFF, 0xFF, 0xFF, 0x7F]), (Some(Ok(268_435_455)), 4)));
}

#[test]
fn decode_variable_byte_int_leaves_following_bytes() {
    assert!(matches!(decode_vbi(&[0x05, 0xAA, 0xBB]), (Some(Ok(5)), 1)));
}

#[test]
fn decode_variable_byte_int_rejects_fifth_byte() {
    let (res, _) = decode_vbi(&[0x80, 0x80, 0x80, 0x80, 0x01]);
    assert!(matches!(res, Some(Err(CommonPacketError::IntOverflow))));
}

#[test]
fn decode_variable_byte_int_truncated_is_none() {
    assert!(decode_vbi(&[]).0.is_none());
    assert!(decode_vbi(&[0x80]).0.is_none());
    assert!(decode_vbi(&[0xFF, 0xFF, 0xFF]).0.is_none());
}

#[test]
fn variable_byte_int_round_trip_values() {
    for v in [0u32, 1, 127, 128, 300, 16_383, 16_384, 2_097_151, 2_097_152, 268_435_455] {
        let encoded = encode_variable_byte_int(v);
        let (res, pos) = decode_vbi(&encoded);
        assert!(matches!(res, Some(Ok(d)) if d == v as usize));
        assert_eq!(pos as usize, encoded.len());
    }
}

#[test]
fn decode_utf8_string_reads_field() {
    let data = [0x00, 0x04, b'M', b'Q', b'T', b'T', 0x05];
    let mut cursor = Cursor::new(&data[..]);
    let res = decode_utf8_string(&mut cursor);
    assert!(matches!(res, Some(Ok(ref s)) if s == "MQTT"));
    assert_eq!(cursor.position(), 6);
}

#[test]
fn decode_utf8_string_errors() {
    let mut short_len = Cursor::new(&[0x00][..]);
    assert!(decode_utf8_string(&mut short_len).is_none());

    let mut missing = Cursor::new(&[0x00, 0x05, b'a'][..]);
    assert!(matches!(decode_utf8_string(&mut missing), Some(Err(CommonPacketError::UnexpectedError))));

    let mut invalid = Cursor::new(&[0x00, 0x02, 0xC3, 0x28][..]);
    assert!(matches!(decode_utf8_string(&mut invalid), Some(Err(CommonPacketError::UnexpectedError))));
}

#[test]
fn decode_binary_data_reads_field() {
    let data = [0x00, 0x03, 0x01, 0xFF, 0x02, 0x09];
    let mut cursor = Cursor::new(&data[..]);
    let res = decode_binary_data(&mut cursor);
    assert!(matches!(res, Some(Ok(ref b)) if &b[..] == &[0x01, 0xFF, 0x02]));
    assert_eq!(cursor.position(), 5);
}

#[test]
fn decode_binary_data_errors() {
    let mut short_len = Cursor::new(&[0x01][..]);
    assert!(decode_binary_data(&mut short_len).is_none());
    let mut missing = Cursor::new(&[0x00, 0x03, 0x01][..]);
    assert!(matches!(decode_binary_data(&mut missing), Some(Err(CommonPacketError::UnexpectedError))));
}

#[test]
fn write_variable_byte_int_appends() {
    let mut buf = BytesMut::new();
    buf.extend_from_slice(&[0xAA]);
    write_variable_byte_int(&mut buf, 321);
    assert_eq!(&buf[..], &[0xAA, 0xC1, 0x02]);
}

#[test]
fn write_usize_as_var_int_bounds() {
    let mut buf = BytesMut::new();
    assert!(write_usize_as_var_int(&mut buf, 200).is_ok());
    assert_eq!(&buf[..], &[0xC8, 0x01]);
    let mut big = BytesMut::new();
    assert!(matches!(
        write_usize_as_var_int(&mut big, u32::MAX as usize + 1),
        Err(CommonPacketError::IntOverflow)
    ));
}

#[test]
fn write_utf8_string_field() {
    let mut buf = BytesMut::new();
    assert!(write_utf8_string(&mut buf, "héllo").is_ok());
    assert_eq!(&buf[..], &[0x00, 0x06, b'h', 0xC3, 0xA9, b'l', b'l', b'o']);
}

#[test]
fn write_utf8_string_too_long() {
    let long = "a".repeat(65_536);
    let mut buf = BytesMut::new();
    assert!(matches!(write_utf8_string(&mut buf, &long), Err(CommonPacketError::IntOverflow)));
    assert!(buf.is_empty());
    let max = "a".repeat(65_535);
    assert!(write_utf8_string(&mut buf, &max).is_ok());
    assert_eq!(buf.len(), 65_537);
}

#[test]
fn write_utf8_string_pair_field() {
    let name = String::from("k");
    let value = String::from("vv");
    let mut buf = BytesMut::new();
    assert!(write_utf8_string_pair(&mut buf, (&name, &value)).is_ok());
    assert_eq!(&buf[..], &[0x00, 0x01, b'k', 0x00, 0x02, b'v', b'v']);
}

#[test]
fn utf8_string_round_trip() {
    let mut buf = BytesMut::new();
    assert!(write_utf8_string(&mut buf, "topic/ü").is_ok());
    buf.extend_from_slice(&[0x42]);
    let mut cursor = Cursor::new(&buf[..]);
    let res = decode_utf8_string(&mut cursor);
    assert!(matches!(res, Some(Ok(ref s)) if s == "topic/ü"));
    assert_eq!(cursor.position() as usize, buf.len() - 1);
}

#[test]
fn decode_variable_byte_int_largest_value() {
    let (res, pos) = decode_vbi(&[0xFF, 0xFF, 0xFF, 0x7F, 0x01]);
    assert!(matches!(res, Some(Ok(268_435_455))));
    assert_eq!(pos, 4);
    let (res, _) = decode_vbi(&[0xFF, 0xFF, 0xFF, 0xFF, 0x7F]);
    assert!(matches!(res, Some(Err(CommonPacketError::IntOverflow))));
}

#[test]
fn decimal_texts() {
    assert_eq!(u8_to_string(0), "0");
    assert_eq!(u8_to_string(7), "7");
    assert_eq!(u8_to_string(255), "255");
    assert_eq!(u16_to_string(65_535), "65535");
    assert_eq!(usize_to_string(1_000_000), "1000000");
}
