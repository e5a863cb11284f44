use bytes::Bytes;
use mqtt_broker::connection::{decode_packet, peek_fixed_header, peek_packet_type, ConnectionError};
use mqtt_broker::packets::conn_ack_packet::{ConnAckPacket, ConnAckPacketEncodeError, ConnectReasonCode};
use mqtt_broker::packets::connect_packet::{ConnectPacket, ConnectPacketDecodeError};
use mqtt_broker::packets::disconnect_packet::{
    DisconnectPacket, DisconnectPacketDecodeError, DisconnectReasonCode,
};
use mqtt_broker::packets::ping_req_packet::{PingReqPacket, PingReqPacketDecodeError};
use mqtt_broker::packets::ping_resp_packet::PingRespPacket;
use mqtt_broker::packets::publish_packet::{PublishPacket, PublishPacketDecodeError};
use mqtt_broker::packets::subscribe_packet::{
    RetainHandling, SubscribePacket, SubscribePacketDecodeError,
};
use mqtt_broker::packets::{validate_fixed_header, CommonPacketError, DecodablePacket};
use std::io::Cursor;
use mqtt_broker::protocol::packet_type::PacketType;

fn connect_bytes(name: &[u8], version: u8, flags: u8, client_id: &[u8]) -> Vec<u8> {
    let mut body = vec![0x00, name.len() as u8];
    body.extend_from_slice(name);
    body.push(version);
    body.push(flags);
    body.extend_from_slice(&[0x00, 0x3C]);
    body.push(0x00);
    body.extend_from_slice(&[0x00, client_id.len() as u8]);
    body.extend_from_slice(client_id);
    let mut packet = vec![0x10, body.len() as u8];
    packet.extend_from_slice(&body);
    packet
}

#[test]
fn packet_type_numbers_round_trip() {
    for value in 0u8..=20 {
        match PacketType::from_u8(value) {
            Some(t) => {
                assert!((1..=15).contains(&value));
                assert_eq!(t.to_u8(), value);
            }
            None => assert!(value == 0 || value > 15),
        }
    }
}

#[test]
fn packet_type_control_bytes() {
    assert_eq!(PacketType::Connect.control_byte(), 0x10);
    assert_eq!(PacketType::Publish.control_byte(), 0x30);
    assert_eq!(PacketType::PubRel.control_byte(), 0x62);
    assert_eq!(PacketType::Subscribe.control_byte(), 0x82);
    assert_eq!(PacketType::Unsubscribe.control_byte(), 0xA2);
    assert_eq!(PacketType::Disconnect.control_byte(), 0xE0);
    assert_eq!(PacketType::Auth.control_byte(), 0xF0);
    assert_eq!(PacketType::PingReq.name(), "PINGREQ");
}

#[test]
fn connect_reason_code_numbers() {
    assert_eq!(ConnectReasonCode::Success.to_u8(), 0x00);
    assert_eq!(ConnectReasonCode::UnspecifiedError.to_u8(), 0x80);
    assert_eq!(ConnectReasonCode::MalformedPacket.to_u8(), 0x81);
    assert_eq!(ConnectReasonCode::UnsupportedProtocolVersion.to_u8(), 0x84);
    assert_eq!(ConnectReasonCode::ClientIdentifierNotValid.to_u8(), 0x85);
    assert_eq!(ConnectReasonCode::ConnectionRateExceeded.to_u8(), 0x9F);
}

#[test]
fn disconnect_reason_code_round_trip() {
    let mut known = 0;
    for value in 0u8..=255 {
        if let Some(code) = DisconnectReasonCode::from_u8(value) {
            assert_eq!(code.to_u8(), value);
            known += 1;
        }
    }
    assert_eq!(known, 29);
    assert!(DisconnectReasonCode::from_u8(0x03).is_none());
    assert_eq!(DisconnectReasonCode::from_u8(0x04), Some(DisconnectReasonCode::DisconnectWithWillMessage));
    assert_eq!(DisconnectReasonCode::ProtocolError.to_u8(), 0x82);
}

#[test]
fn validate_fixed_header_cases() {
    assert!(validate_fixed_header(0x10, 1, Some(0)).is_ok());
    assert!(validate_fixed_header(0x35, 3, None).is_ok());
    match validate_fixed_header(0x20, 1, Some(0)) {
        Err(CommonPacketError::MalformedPacket(Some(r))) => assert_eq!(r, "Invalid packet type: 2"),
        _ => panic!("expected an invalid packet type"),
    }
    match validate_fixed_header(0x11, 1, Some(0)) {
        Err(CommonPacketError::MalformedPacket(Some(r))) => {
            assert_eq!(r, "Fixed header flags are reserved")
        }
        _ => panic!("expected reserved flags"),
    }
}

#[test]
fn common_error_texts() {
    assert_eq!(CommonPacketError::IntOverflow.describe(), "Variable Int Overflow");
    assert_eq!(
        CommonPacketError::MalformedPacket(Some("x".to_string())).describe(),
        "Malformed Packet: x"
    );
    assert_eq!(CommonPacketError::ProtocolError(None).describe(), "Protocol Error");
}

#[test]
fn connack_encodes_success() {
    let packet = ConnAckPacket::builder().session_present(false).reason_code(ConnectReasonCode::Success).build();
    let bytes = packet.encode().unwrap();
    assert_eq!(&bytes[..], &[0x20, 0x06, 0x00, 0x00, 0x03, 0x22, 0xFF, 0xFF]);
}

#[test]
fn connack_encodes_session_present_and_reason() {
    let packet = ConnAckPacket::builder()
        .session_present(true)
        .reason_code(ConnectReasonCode::NotAuthorized)
        .reason_string("no".to_string())
        .build();
    assert!(!packet.session_present);
    let bytes = packet.encode().unwrap();
    assert_eq!(
        &bytes[..],
        &[0x20, 0x0B, 0x00, 0x87, 0x08, 0x22, 0xFF, 0xFF, 0x1F, 0x00, 0x02, b'n', b'o']
    );
}

#[test]
fn connack_reason_string_too_long() {
    let packet = ConnAckPacket::builder()
        .session_present(false)
        .reason_code(ConnectReasonCode::Success)
        .reason_string("r".repeat(65_536))
        .build();
    match packet.encode() {
        Err(ConnAckPacketEncodeError::Common(CommonPacketError::IntOverflow)) => {}
        _ => panic!("expected an overflow"),
    }
}

#[test]
fn disconnect_encodes_normal() {
    let packet = DisconnectPacket::builder().reason_code(DisconnectReasonCode::NormalDisconnection).build();
    assert_eq!(&packet.encode().unwrap()[..], &[0xE0, 0x02, 0x00, 0x00]);
}

#[test]
fn disconnect_encodes_reason_string() {
    let packet = DisconnectPacket::builder()
        .reason_code(DisconnectReasonCode::ProtocolError)
        .reason_string("bye".to_string())
        .build();
    assert_eq!(
        &packet.encode().unwrap()[..],
        &[0xE0, 0x08, 0x82, 0x06, 0x1F, 0x00, 0x03, b'b', b'y', b'e']
    );
}

#[test]
fn disconnect_round_trip() {
    let packet = DisconnectPacket::builder()
        .reason_code(DisconnectReasonCode::ServerShuttingDown)
        .reason_string("later".to_string())
        .build();
    let bytes = packet.encode().unwrap();
    match decode_packet::<DisconnectPacket>(&bytes) {
        Some(Ok(Some((decoded, consumed)))) => {
            assert_eq!(decoded.reason_code, DisconnectReasonCode::ServerShuttingDown);
            assert_eq!(consumed, bytes.len());
        }
        _ => panic!("expected a packet"),
    }
}

#[test]
fn disconnect_decodes_empty_body() {
    match decode_packet::<DisconnectPacket>(&[0xE0, 0x00]) {
        Some(Ok(Some((p, 2)))) => assert_eq!(p.reason_code, DisconnectReasonCode::NormalDisconnection),
        _ => panic!("expected a packet"),
    }
}

#[test]
fn disconnect_rejects_unknown_reason() {
    match decode_packet::<DisconnectPacket>(&[0xE0, 0x01, 0x03]) {
        Some(Err(ConnectionError::Decode(DisconnectPacketDecodeError::Common(
            CommonPacketError::MalformedPacket(Some(r)),
        )))) => assert_eq!(r, "Reason code is not a valid reason code: 3"),
        _ => panic!("expected a malformed packet"),
    }
}

#[test]
fn publish_encodes_topic_and_payload() {
    let packet = PublishPacket::new("a/b".to_string(), Some(Bytes::from_static(b"hi")));
    assert_eq!(
        &packet.encode().unwrap()[..],
        &[0x30, 0x08, 0x00, 0x03, b'a', b'/', b'b', 0x00, b'h', b'i']
    );
}

#[test]
fn publish_round_trip() {
    let packet = PublishPacket::new("sensors/t".to_string(), Some(Bytes::from_static(b"21.5")));
    let mut bytes = packet.encode().unwrap().to_vec();
    bytes.extend_from_slice(&[0xC0, 0x00]);
    match decode_packet::<PublishPacket>(&bytes) {
        Some(Ok(Some((decoded, consumed)))) => {
            assert_eq!(decoded.topic, "sensors/t");
            assert_eq!(decoded.payload.as_deref(), Some(&b"21.5"[..]));
            assert_eq!(consumed, bytes.len() - 2);
        }
        _ => panic!("expected a packet"),
    }
}

#[test]
fn publish_without_payload() {
    let packet = PublishPacket::new("t".to_string(), None);
    let bytes = packet.encode().unwrap();
    assert_eq!(&bytes[..], &[0x30, 0x04, 0x00, 0x01, b't', 0x00]);
    match decode_packet::<PublishPacket>(&bytes) {
        Some(Ok(Some((decoded, 6)))) => {
            assert_eq!(decoded.topic, "t");
            assert!(decoded.payload.is_none());
        }
        _ => panic!("expected a packet"),
    }
}

#[test]
fn publish_remaining_length_too_long() {
    match decode_packet::<PublishPacket>(&[0x30, 0xFF, 0xFF, 0xFF, 0xFF, 0x01]) {
        Some(Err(ConnectionError::Common(CommonPacketError::IntOverflow))) => {}
        _ => panic!("expected an overflow"),
    }
}

#[test]
fn publish_wrong_type() {
    match decode_packet::<PublishPacket>(&[0x40, 0x00]) {
        Some(Err(ConnectionError::Decode(PublishPacketDecodeError::Common(
            CommonPacketError::MalformedPacket(Some(r)),
        )))) => assert_eq!(r, "Invalid packet type: 4"),
        _ => panic!("expected an invalid type"),
    }
}

#[test]
fn pingresp_encodes() {
    assert_eq!(&PingRespPacket {}.encode().unwrap()[..], &[0xD0, 0x00]);
    assert_eq!(PingRespPacket::packet_type(), 0x0D);
}

#[test]
fn pingreq_decodes() {
    assert!(matches!(decode_packet::<PingReqPacket>(&[0xC0, 0x00]), Some(Ok(Some((_, 2))))));
    assert!(matches!(decode_packet::<PingReqPacket>(&[0xC0]), Some(Ok(None))));
    assert!(matches!(
        decode_packet::<PingReqPacket>(&[0xC1, 0x00]),
        Some(Err(ConnectionError::Decode(PingReqPacketDecodeError::Common(
            CommonPacketError::MalformedPacket(_)
        ))))
    ));
}

#[test]
fn incomplete_packet_waits() {
    assert!(matches!(decode_packet::<PublishPacket>(&[0x30, 0x05, 0x00]), Some(Ok(None))));
    assert!(matches!(decode_packet::<PublishPacket>(&[]), Some(Ok(None))));
}

#[test]
fn truncated_remaining_length_is_none() {
    assert!(decode_packet::<PublishPacket>(&[0x30, 0x80]).is_none());
}

#[test]
fn peeks_at_first_byte() {
    assert_eq!(peek_fixed_header(&[]), None);
    assert_eq!(peek_fixed_header(&[0x82, 0x00]), Some(0x82));
    assert_eq!(peek_packet_type(&[0x82, 0x00]), Some(8));
    assert_eq!(peek_packet_type(&[]), None);
}

#[test]
fn subscribe_decodes_topics() {
    let bytes = [
        0x82, 0x0D, 0x00, 0x07, 0x00, 0x00, 0x03, b'a', b'/', b'b', 0x01, 0x00, 0x01, b'c', 0x2E,
    ];
    match decode_packet::<SubscribePacket>(&bytes[..]) {
        Some(Ok(Some((packet, consumed)))) => {
            assert_eq!(consumed, 15);
            assert_eq!(packet.packet_id, 7);
            assert_eq!(packet.topics.len(), 2);
            assert_eq!(packet.topics[0].topic, "a/b");
            assert_eq!(packet.topics[0].qos_level, 1);
            assert!(!packet.topics[0].no_local);
            assert_eq!(packet.topics[0].retain_handling, RetainHandling::SendAllAtSubscribe);
            assert_eq!(packet.topics[1].topic, "c");
            assert_eq!(packet.topics[1].qos_level, 2);
            assert!(packet.topics[1].no_local);
            assert!(packet.topics[1].retain_as_published);
            assert_eq!(packet.topics[1].retain_handling, RetainHandling::DoNotSendAtSubscribe);
        }
        _ => panic!("expected a packet"),
    }
}

#[test]
fn subscribe_rejects_qos_three() {
    let bytes = [0x82, 0x07, 0x00, 0x01, 0x00, 0x00, 0x01, b'x', 0x03];
    match decode_packet::<SubscribePacket>(&bytes[..]) {
        Some(Err(ConnectionError::Decode(SubscribePacketDecodeError::Common(
            CommonPacketError::ProtocolError(Some(r)),
        )))) => assert_eq!(r, "Maximum QoS must be 0, 1 or 2. Got: 3"),
        _ => panic!("expected a protocol error"),
    }
}

#[test]
fn subscribe_rejects_reserved_bit() {
    let bytes = [0x82, 0x07, 0x00, 0x01, 0x00, 0x00, 0x01, b'x', 0x80];
    assert!(matches!(
        decode_packet::<SubscribePacket>(&bytes[..]),
        Some(Err(ConnectionError::Decode(SubscribePacketDecodeError::Common(
            CommonPacketError::MalformedPacket(_)
        ))))
    ));
}

#[test]
fn retain_handling_numbers() {
    assert_eq!(RetainHandling::from_u8(0), Some(RetainHandling::SendAllAtSubscribe));
    assert_eq!(RetainHandling::from_u8(2), Some(RetainHandling::DoNotSendAtSubscribe));
    assert_eq!(RetainHandling::from_u8(3), None);
}

#[test]
fn connect_decodes_fields() {
    let bytes = connect_bytes(b"MQTT", 5, 0x02, b"abc1");
    match decode_packet::<ConnectPacket>(&bytes) {
        Some(Ok(Some((packet, consumed)))) => {
            assert_eq!(consumed, bytes.len());
            assert_eq!(packet.protocol_name, "MQTT");
            assert_eq!(packet.protocol_version, 5);
            assert!(packet.clean_start);
            assert_eq!(packet.keep_alive, 60);
            assert_eq!(packet.client_id, "abc1");
            assert!(packet.username.is_none());
            assert!(packet.password.is_none());
        }
        _ => panic!("expected a packet"),
    }
}

#[test]
fn connect_rejects_protocol_name() {
    let bytes = connect_bytes(b"MQIs", 5, 0x02, b"abc1");
    match decode_packet::<ConnectPacket>(&bytes) {
        Some(Err(ConnectionError::Decode(ConnectPacketDecodeError::UnsupportedProtocolVersion(Some(r))))) => {
            assert_eq!(r, "Unsupported protocol name: MQIs")
        }
        _ => panic!("expected an unsupported protocol"),
    }
}

#[test]
fn connect_rejects_reserved_flag() {
    let bytes = connect_bytes(b"MQTT", 5, 0x03, b"abc1");
    match decode_packet::<ConnectPacket>(&bytes) {
        Some(Err(ConnectionError::Decode(ConnectPacketDecodeError::Common(
            CommonPacketError::MalformedPacket(Some(r)),
        )))) => assert_eq!(r, "Connect flags are reserved"),
        _ => panic!("expected a malformed packet"),
    }
}

#[test]
fn connect_rejects_will_qos_without_will() {
    let bytes = connect_bytes(b"MQTT", 5, 0x08, b"abc1");
    match decode_packet::<ConnectPacket>(&bytes) {
        Some(Err(ConnectionError::Decode(ConnectPacketDecodeError::Common(
            CommonPacketError::MalformedPacket(Some(r)),
        )))) => assert_eq!(r, "Will QoS must be 0 if will flag is 0"),
        _ => panic!("expected a malformed packet"),
    }
}

#[test]
fn connect_rejects_bad_client_id() {
    let bytes = connect_bytes(b"MQTT", 5, 0x02, b"a-b");
    match decode_packet::<ConnectPacket>(&bytes) {
        Some(Err(ConnectionError::Decode(ConnectPacketDecodeError::ClientIdentifierNotValid(Some(r))))) => {
            assert_eq!(r, "Client identifier is not valid")
        }
        _ => panic!("expected an invalid client identifier"),
    }
}

#[test]
fn connack_session_present_with_success() {
    let packet = ConnAckPacket::builder()
        .session_present(true)
        .reason_code(ConnectReasonCode::Success)
        .build();
    assert!(packet.session_present);
    assert_eq!(&packet.encode().unwrap()[..], &[0x20, 0x06, 0x01, 0x00, 0x03, 0x22, 0xFF, 0xFF]);
}

#[test]
fn connack_flags_before_reason_code() {
    let packet = ConnAckPacket::builder()
        .session_present(false)
        .reason_code(ConnectReasonCode::UnsupportedProtocolVersion)
        .build();
    assert_eq!(&packet.encode().unwrap()[..], &[0x20, 0x06, 0x00, 0x84, 0x03, 0x22, 0xFF, 0xFF]);
}

#[test]
fn subscribe_rejects_reserved_bit_six() {
    let bytes = [0x82, 0x07, 0x00, 0x0A, 0x00, 0x00, 0x01, b'a', 0x40];
    match decode_packet::<SubscribePacket>(&bytes[..]) {
        Some(Err(ConnectionError::Decode(SubscribePacketDecodeError::Common(
            CommonPacketError::MalformedPacket(Some(r)),
        )))) => assert_eq!(r, "Subscription options bits 6 and 7 are reserved"),
        _ => panic!("expected a malformed packet"),
    }
}

#[test]
fn subscribe_rejects_retain_handling_three() {
    let bytes = [0x82, 0x07, 0x00, 0x0A, 0x00, 0x00, 0x01, b'a', 0x30];
    match decode_packet::<SubscribePacket>(&bytes[..]) {
        Some(Err(ConnectionError::Decode(SubscribePacketDecodeError::Common(
            CommonPacketError::ProtocolError(Some(r)),
        )))) => assert_eq!(r, "Retain handling must be 0, 1 or 2. Got: 3"),
        _ => panic!("expected a protocol error"),
    }
}

#[test]
fn subscribe_decode_moves_cursor_to_end() {
    let body = [0x00, 0x0A, 0x00, 0x00, 0x03, b'a', b'/', b'b', 0x01];
    let mut cursor = Cursor::new(&body[..]);
    match SubscribePacket::decode(&mut cursor, 0x82, 9) {
        Some(Ok(p)) => {
            assert_eq!(p.packet_id, 10);
            assert_eq!(p.topics[0].topic, "a/b");
            assert_eq!(p.topics[0].retain_handling, RetainHandling::SendAllAtSubscribe);
        }
        _ => panic!("expected a packet"),
    }
    assert_eq!(cursor.position(), 9);
}

#[test]
fn disconnect_empty_body_leaves_next_packet() {
    let body = [0xC0, 0x00];
    let mut cursor = Cursor::new(&body[..]);
    match DisconnectPacket::decode(&mut cursor, 0xE0, 0) {
        Some(Ok(p)) => assert_eq!(p.reason_code, DisconnectReasonCode::NormalDisconnection),
        _ => panic!("expected a packet"),
    }
    assert_eq!(cursor.position(), 0);
    match decode_packet::<DisconnectPacket>(&[0xE0, 0x00, 0xC0, 0x00]) {
        Some(Ok(Some((p, 2)))) => assert_eq!(p.reason_code, DisconnectReasonCode::NormalDisconnection),
        _ => panic!("expected a packet"),
    }
}

#[test]
fn disconnect_decode_moves_cursor_to_end() {
    let mut cursor = Cursor::new(&[0x8E, 0x00][..]);
    match DisconnectPacket::decode(&mut cursor, 0xE0, 2) {
        Some(Ok(p)) => assert_eq!(p.reason_code, DisconnectReasonCode::SessionTakenOver),
        _ => panic!("expected a packet"),
    }
    assert_eq!(cursor.position(), 2);
    let mut bad = Cursor::new(&[0x01, 0x00][..]);
    assert!(matches!(
        DisconnectPacket::decode(&mut bad, 0xE0, 2),
        Some(Err(DisconnectPacketDecodeError::Common(CommonPacketError::MalformedPacket(Some(_)))))
    ));
}

#[test]
fn connect_decode_moves_cursor_to_end() {
    let body = [
        0x00, 0x04, b'M', b'Q', b'T', b'T', 0x05, 0x02, 0x00, 0x3C, 0x05, 0x11, 0x00, 0x00, 0x00,
        0x0A, 0x00, 0x03, b'a', b'b', b'c',
    ];
    let mut cursor = Cursor::new(&body[..]);
    match ConnectPacket::decode(&mut cursor, 0x10, 21) {
        Some(Ok(p)) => {
            assert_eq!(p.client_id, "abc");
            assert_eq!(p.keep_alive, 60);
        }
        _ => panic!("expected a packet"),
    }
    assert_eq!(cursor.position(), 21);
}

#[test]
fn publish_decode_moves_cursor_to_end() {
    let packet = PublishPacket::new("x/y".to_string(), Some(Bytes::from_static(b"data")));
    let bytes = packet.encode().unwrap();
    let n = bytes[1] as usize;
    let mut cursor = Cursor::new(&bytes[2..]);
    match PublishPacket::decode(&mut cursor, bytes[0], n) {
        Some(Ok(q)) => {
            assert_eq!(q.topic, "x/y");
            assert_eq!(q.payload.as_deref(), Some(&b"data"[..]));
        }
        _ => panic!("expected a packet"),
    }
    assert_eq!(cursor.position() as usize, n);
}

#[test]
fn decode_packet_takes_only_the_first_frame() {
    let mut buffer = vec![0x30, 0x04, 0x00, 0x01, b't', 0x00];
    buffer.extend_from_slice(&[0xE0, 0x00, 0xC0, 0x00]);
    match decode_packet::<PublishPacket>(&buffer) {
        Some(Ok(Some((p, consumed)))) => {
            assert_eq!(consumed, 6);
            assert_eq!(p.topic, "t");
            assert_eq!(&buffer[consumed..], &[0xE0, 0x00, 0xC0, 0x00]);
        }
        _ => panic!("expected a packet"),
    }
}

#[test]
fn disconnect_encoding_layout() {
    let packet = DisconnectPacket::builder()
        .reason_code(DisconnectReasonCode::KeepAliveTimeout)
        .reason_string("idle".to_string())
        .build();
    let b = packet.encode().unwrap();
    assert_eq!(b[0], 0xE0);
    assert_eq!(b[1] as usize, b.len() - 2);
    assert_eq!(b[2], DisconnectReasonCode::KeepAliveTimeout.to_u8());
}
