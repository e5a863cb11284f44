use mqtt_broker::protocol::{decoding, encoding, mqtt_data, validation, MalformedPacketError};
use std::io::Cursor;

#[test]
fn protocol_decode_variable_byte_int() {
    let mut cursor = Cursor::new(&[0xC1, 0x02, 0x00][..]);
    assert_eq!(decoding::decode_variable_byte_int(&mut cursor).unwrap(), 321);
    assert_eq!(cursor.position(), 2);

    let mut long = Cursor::new(&[0x80, 0x80, 0x80, 0x80, 0x01][..]);
    assert_eq!(decoding::decode_variable_byte_int(&mut long).unwrap_err().0, "Malformed variable byte integer");

    let mut short = Cursor::new(&[0x80][..]);
    assert_eq!(decoding::decode_variable_byte_int(&mut short).unwrap_err().0, "Unable to read variable byte integer");
}

#[test]
fn protocol_decode_utf8_string() {
    let mut cursor = Cursor::new(&[0x00, 0x02, b'h', b'i'][..]);
    assert_eq!(decoding::decode_utf8_string(&mut cursor).unwrap(), "hi");
    let mut no_len = Cursor::new(&[0x00][..]);
    assert_eq!(decoding::decode_utf8_string(&mut no_len).unwrap_err().0, "Failed to read UTF-8 string length");
    let mut no_data = Cursor::new(&[0x00, 0x03, b'h'][..]);
    assert_eq!(decoding::decode_utf8_string(&mut no_data).unwrap_err().0, "Failed to read UTF-8 string data");
    let mut invalid = Cursor::new(&[0x00, 0x01, 0xFF][..]);
    assert_eq!(decoding::decode_utf8_string(&mut invalid).unwrap_err().0, "String is not valid UTF-8");
}

#[test]
fn protocol_decode_binary_and_integers() {
    let mut cursor = Cursor::new(&[0x00, 0x02, 0x07, 0x08, 0x09, 0x01, 0x02][..]);
    assert_eq!(decoding::decode_binary_data(&mut cursor).unwrap(), vec![0x07, 0x08]);
    assert_eq!(decoding::decode_u8(&mut cursor).unwrap(), 0x09);
    assert_eq!(decoding::decode_u16(&mut cursor).unwrap(), 0x0102);
    assert_eq!(decoding::decode_u8(&mut cursor).unwrap_err().0, "Failed to read u8");
    assert_eq!(decoding::decode_u16(&mut cursor).unwrap_err().0, "Failed to read u16");
    let mut short = Cursor::new(&[0x00][..]);
    assert_eq!(decoding::decode_binary_data(&mut short).unwrap_err().0, "Failed to read binary data length");
    let mut missing = Cursor::new(&[0x00, 0x04, 0x01][..]);
    assert_eq!(decoding::decode_binary_data(&mut missing).unwrap_err().0, "Failed to read binary data");
}

#[test]
fn protocol_encode_strings() {
    assert_eq!(encoding::encode_utf8_string("ab").unwrap(), vec![0x00, 0x02, b'a', b'b']);
    assert_eq!(encoding::encode_variable_byte_int(16_384), vec![0x80, 0x80, 0x01]);
    let long = "x".repeat(65_536);
    assert_eq!(
        encoding::encode_utf8_string(&long).unwrap_err().0,
        "String length exceeds the maximum allowed"
    );
    let name = "n".to_string();
    let value = "vv".to_string();
    assert_eq!(
        encoding::encode_utf8_string_pair((&name, &value)).unwrap(),
        vec![0x00, 0x01, b'n', 0x00, 0x02, b'v', b'v']
    );
    assert_eq!(
        encoding::encode_utf8_string_pair((&name, &long)).unwrap_err().0,
        format!("Failed to encode UTF-8 string value {long}")
    );
}

#[test]
fn protocol_validate_strings() {
    assert!(validation::validate_utf8_string("topic").is_ok());
    assert!(validation::validate_utf8_string("").is_ok());
    assert!(validation::validate_utf8_string("ü/é").is_ok());
    assert_eq!(
        validation::validate_utf8_string("a\u{0}b").unwrap_err().0,
        "String contains invalid control characters"
    );
    assert!(validation::validate_utf8_string("a\u{1F}").is_err());
    assert!(validation::validate_utf8_string("a\u{85}").is_err());
    assert!(validation::validate_utf8_string("a\u{7F}").is_err());
    assert!(validation::validate_utf8_string("a\u{FDD0}").is_err());
    assert!(validation::validate_utf8_string("a\u{FFFF}").is_err());
    assert!(validation::validate_utf8_string("a\u{1FFFE}").is_err());
    assert!(validation::validate_utf8_string("a\u{A0}\u{FDF0}").is_ok());
    let long = "y".repeat(65_536);
    assert_eq!(validation::validate_utf8_string(&long).unwrap_err().0, "String length exceeds allowed maximum");
}

#[test]
fn malformed_packet_error_text() {
    assert_eq!(MalformedPacketError("bad".to_string()).describe(), "Malformed packet: bad");
}

#[test]
fn mqtt_data_variable_byte_int() {
    assert_eq!(mqtt_data::encode_variable_byte_int(127), vec![0x7F]);
    let mut cursor = Cursor::new(&[0xFF, 0x7F][..]);
    assert_eq!(mqtt_data::decode_variable_byte_int(&mut cursor).unwrap(), 16_383);
    let mut long = Cursor::new(&[0xFF, 0xFF, 0xFF, 0xFF, 0x7F][..]);
    assert_eq!(mqtt_data::decode_variable_byte_int(&mut long).unwrap_err().0, "Malformed Variable Byte Integer");
    let mut short = Cursor::new(&[0xFF][..]);
    assert_eq!(mqtt_data::decode_variable_byte_int(&mut short).unwrap_err().0, "Failed to read encoded byte");
}

#[test]
fn mqtt_data_strings() {
    let mut cursor = Cursor::new(&[0x00, 0x03, b'a', b'b', b'c'][..]);
    assert_eq!(mqtt_data::decode_utf8_string(&mut cursor).unwrap(), "abc");
    let mut no_len = Cursor::new(&[0x00][..]);
    assert_eq!(mqtt_data::decode_utf8_string(&mut no_len).unwrap_err().0, "Failed to decode string length");
    let mut no_data = Cursor::new(&[0x00, 0x05, b'a'][..]);
    assert_eq!(
        mqtt_data::decode_utf8_string(&mut no_data).unwrap_err().0,
        "Failed to read UTF-8 encoded string with length 5"
    );
    let mut invalid = Cursor::new(&[0x00, 0x01, 0xC0][..]);
    assert_eq!(
        mqtt_data::decode_utf8_string(&mut invalid).unwrap_err().0,
        "Failed to convert encoded_value into a String"
    );
    assert_eq!(mqtt_data::encode_utf8_string("hey").unwrap(), vec![0x00, 0x03, b'h', b'e', b'y']);
    let long = "z".repeat(65_536);
    assert_eq!(
        mqtt_data::encode_utf8_string(&long).unwrap_err().0,
        format!("Expected value {long} length (65536) to be less than or equal to 65535")
    );
}

#[test]
fn mqtt_data_validation_and_binary() {
    assert!(mqtt_data::validate_utf8_string("ok").is_ok());
    assert!(mqtt_data::validate_utf8_string("").is_ok());
    assert_eq!(mqtt_data::validate_utf8_string("x\u{0}").unwrap_err().0, "String include invalid characters");
    assert_eq!(mqtt_data::validate_utf8_string("\u{7}").unwrap_err().0, "String include invalid characters");
    let long = "q".repeat(70_000);
    assert_eq!(
        mqtt_data::validate_utf8_string(&long).unwrap_err().0,
        "String length 70000 exceeds maximum allowed size of 65535 bytes"
    );
    let mut cursor = Cursor::new(&[0x00, 0x01, 0x05, 0x06, 0x00, 0x07][..]);
    assert_eq!(mqtt_data::decode_binary_data(&mut cursor).unwrap(), vec![0x05]);
    assert_eq!(mqtt_data::decode_u8(&mut cursor).unwrap(), 0x06);
    assert_eq!(mqtt_data::decode_u16(&mut cursor).unwrap(), 0x0007);
    let mut missing = Cursor::new(&[0x00, 0x09][..]);
    assert_eq!(
        mqtt_data::decode_binary_data(&mut missing).unwrap_err().0,
        "Failed to read binary data with length 9"
    );
    let name = "a".to_string();
    let value = "b".to_string();
    assert_eq!(
        mqtt_data::encode_utf8_string_pair((&name, &value)).unwrap(),
        vec![0x00, 0x01, b'a', 0x00, 0x01, b'b']
    );
    assert_eq!(
        mqtt_data::encode_utf8_string_pair((&long, &value)).unwrap_err().0,
        format!("Failed to encode name {long}")
    );
}
