use mqtt_broker::handlers::connect_handler::{handle_connect, handle_packet};
use mqtt_broker::packets::conn_ack_packet::ConnectReasonCode;
use mqtt_broker::packets::connect_packet::{
    ConnectPacket, ConnectPacketDecodeError, ConnectPacketProperties,
};
use mqtt_broker::packets::CommonPacketError;

fn properties() -> ConnectPacketProperties {
    ConnectPacketProperties {
        session_expiry_interval: None,
        receive_maximum: None,
        maximum_packet_size: None,
        topic_alias_maximum: None,
        request_response_information: None,
        request_problem_information: None,
        user_properties: None,
        authentication_method: None,
        authentication_data: None,
    }
}

fn packet(name: &str, version: u8, client_id: &str) -> ConnectPacket {
    ConnectPacket {
        protocol_name: name.to_string(),
        protocol_version: version,
        clean_start: true,
        qos_level: 0,
        will_retain: false,
        keep_alive: 30,
        properties: properties(),
        client_id: client_id.to_string(),
        will_topic: None,
        username: None,
        password: None,
    }
}

fn connect_bytes(name: &[u8], version: u8, flags: u8, client_id: &[u8]) -> Vec<u8> {
    let mut body = vec![0x00, name.len() as u8];
    body.extend_from_slice(name);
    body.push(version);
    body.push(flags);
    body.extend_from_slice(&[0x00, 0x3C]);
    body.push(0x00);
    body.extend_from_slice(&[0x00, client_id.len() as u8]);
    body.extend_from_slice(client_id);
    let mut packet = vec![0x10, body.len() as u8];
    packet.extend_from_slice(&body);
    packet
}

fn answer_with_reason(code: u8, reason: &str) -> Vec<u8> {
    let props_len = 3 + 3 + reason.len();
    let mut bytes = vec![0x20, (2 + 1 + props_len) as u8, 0x00, code, props_len as u8, 0x22, 0xFF, 0xFF];
    bytes.extend_from_slice(&[0x1F, 0x00, reason.len() as u8]);
    bytes.extend_from_slice(reason.as_bytes());
    bytes
}

#[test]
fn handle_packet_accepts_valid_client() {
    let res = handle_packet(Ok(packet("MQTT", 5, "client42")));
    assert!(!res.session_present);
    assert_eq!(res.reason_code, ConnectReasonCode::Success);
    assert!(res.properties.reason_string.is_none());
    assert_eq!(res.properties.topic_alias_maximum, Some(0xFFFF));
}

#[test]
fn handle_packet_rejects_protocol_name() {
    let res = handle_packet(Ok(packet("MQIsdp", 5, "client42")));
    assert_eq!(res.reason_code, ConnectReasonCode::UnsupportedProtocolVersion);
    assert_eq!(res.properties.reason_string.as_deref(), Some("Unsupported protocol name: MQIsdp"));
}

#[test]
fn handle_packet_rejects_protocol_version() {
    let res = handle_packet(Ok(packet("MQTT", 4, "client42")));
    assert_eq!(res.reason_code, ConnectReasonCode::UnsupportedProtocolVersion);
    assert_eq!(res.properties.reason_string.as_deref(), Some("Unsupported protocol version: 4"));
}

#[test]
fn handle_packet_rejects_empty_client_id() {
    let res = handle_packet(Ok(packet("MQTT", 5, "")));
    assert_eq!(res.reason_code, ConnectReasonCode::ClientIdentifierNotValid);
    assert_eq!(res.properties.reason_string.as_deref(), Some("Client Identifier is empty"));
}

#[test]
fn handle_packet_rejects_long_client_id() {
    let res = handle_packet(Ok(packet("MQTT", 5, "abcdefghijklmnopqrstuvwx")));
    assert_eq!(res.reason_code, ConnectReasonCode::ClientIdentifierNotValid);
    assert_eq!(
        res.properties.reason_string.as_deref(),
        Some("Client Identifier too large. Expected value between 1 and 23 bytes")
    );
    let ok = handle_packet(Ok(packet("MQTT", 5, "abcdefghijklmnopqrstuvw")));
    assert_eq!(ok.reason_code, ConnectReasonCode::Success);
}

#[test]
fn handle_packet_rejects_non_alphanumeric_client_id() {
    let res = handle_packet(Ok(packet("MQTT", 5, "abc_1")));
    assert_eq!(res.reason_code, ConnectReasonCode::ClientIdentifierNotValid);
    assert_eq!(
        res.properties.reason_string.as_deref(),
        Some("Client Identifier contains non-alphanumeric characters")
    );
}

#[test]
fn handle_packet_answers_malformed_packet() {
    let err = ConnectPacketDecodeError::Common(CommonPacketError::MalformedPacket(Some(
        "Connect flags are reserved".to_string(),
    )));
    let res = handle_packet(Err(err));
    assert!(!res.session_present);
    assert_eq!(res.reason_code, ConnectReasonCode::MalformedPacket);
    assert_eq!(res.properties.reason_string.as_deref(), Some("Connect flags are reserved"));
}

#[test]
fn handle_packet_answers_other_errors() {
    let res = handle_packet(Err(ConnectPacketDecodeError::Common(CommonPacketError::IntOverflow)));
    assert_eq!(res.reason_code, ConnectReasonCode::UnspecifiedError);
    assert!(res.properties.reason_string.is_none());
    let res = handle_packet(Err(ConnectPacketDecodeError::ClientIdentifierNotValid(None)));
    assert_eq!(res.reason_code, ConnectReasonCode::UnspecifiedError);
}

#[test]
fn handle_connect_success() {
    let bytes = connect_bytes(b"MQTT", 5, 0x02, b"abc1");
    let answer = handle_connect(&bytes).unwrap();
    assert_eq!(&answer[..], &[0x20, 0x06, 0x00, 0x00, 0x03, 0x22, 0xFF, 0xFF]);
}

#[test]
fn handle_connect_malformed_flags() {
    let bytes = connect_bytes(b"MQTT", 5, 0x03, b"abc1");
    let answer = handle_connect(&bytes).unwrap();
    assert_eq!(&answer[..], &answer_with_reason(0x81, "Connect flags are reserved")[..]);
}

#[test]
fn handle_connect_wrong_fixed_header() {
    let mut bytes = connect_bytes(b"MQTT", 5, 0x02, b"abc1");
    bytes[0] = 0x11;
    let answer = handle_connect(&bytes).unwrap();
    assert_eq!(&answer[..], &answer_with_reason(0x81, "Fixed header flags are reserved")[..]);
}

#[test]
fn handle_connect_unsupported_version_is_unspecified() {
    let bytes = connect_bytes(b"MQTT", 4, 0x02, b"abc1");
    let answer = handle_connect(&bytes).unwrap();
    assert_eq!(&answer[..], &[0x20, 0x06, 0x00, 0x80, 0x03, 0x22, 0xFF, 0xFF]);
}

#[test]
fn handle_connect_incomplete_input() {
    let answer = handle_connect(&[]).unwrap();
    assert_eq!(&answer[..], &[0x20, 0x06, 0x00, 0x80, 0x03, 0x22, 0xFF, 0xFF]);
    let bytes = connect_bytes(b"MQTT", 5, 0x02, b"abc1");
    let answer = handle_connect(&bytes[..bytes.len() - 1]).unwrap();
    assert_eq!(&answer[..], &[0x20, 0x06, 0x00, 0x80, 0x03, 0x22, 0xFF, 0xFF]);
}
