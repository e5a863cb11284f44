use bytes::Bytes;
use mqtt_broker::broker_state::{session_present, BrokerEvent, Subscriptions};
use mqtt_broker::connection::{after_read, ConnectionError, ReadStep};
use mqtt_broker::packets::conn_ack_packet::ConnectReasonCode;
use mqtt_broker::packets::disconnect_packet::DisconnectReasonCode;
use mqtt_broker::packets::CommonPacketError;
use mqtt_broker::session::{
    connection_accepted, incoming_packet_action, keep_alive_timeout_millis, session_step,
    IncomingAction, SessionEvent, SessionStep,
};

fn rejection(packet_type: u8) -> (DisconnectReasonCode, Option<String>) {
    match incoming_packet_action(Some(packet_type)) {
        IncomingAction::Reject(d) => (d.reason_code, d.properties.reason_string),
        _ => panic!("expected a rejection"),
    }
}

#[test]
fn incoming_closed_connection_ends_session() {
    let action = incoming_packet_action(None);
    assert!(matches!(action, IncomingAction::ConnectionClosed));
    assert!(action.ends_session());
}

#[test]
fn incoming_handled_packets() {
    assert!(matches!(incoming_packet_action(Some(8)), IncomingAction::Subscribe));
    assert!(matches!(incoming_packet_action(Some(3)), IncomingAction::Publish));
    assert!(matches!(incoming_packet_action(Some(12)), IncomingAction::Ping));
    let disconnect = incoming_packet_action(Some(14));
    assert!(matches!(disconnect, IncomingAction::Disconnect));
    assert!(disconnect.ends_session());
    assert!(!incoming_packet_action(Some(8)).ends_session());
    assert!(!incoming_packet_action(Some(12)).ends_session());
}

#[test]
fn incoming_not_implemented_packets() {
    for t in [4u8, 5, 6, 7, 10, 15] {
        assert!(matches!(incoming_packet_action(Some(t)), IncomingAction::NotImplemented(n) if n == t));
    }
}

#[test]
fn incoming_second_connect_is_rejected() {
    let (code, reason) = rejection(1);
    assert_eq!(code, DisconnectReasonCode::ProtocolError);
    assert_eq!(
        reason.as_deref(),
        Some("A Client can only send the CONNECT packet once over a Network Connection")
    );
}

#[test]
fn incoming_server_packets_are_rejected() {
    for t in [2u8, 9, 11, 13] {
        let (code, reason) = rejection(t);
        assert_eq!(code, DisconnectReasonCode::ProtocolError);
        assert_eq!(reason, Some(format!("Packet {t} is reserved for Server use")));
    }
    let action = incoming_packet_action(Some(13));
    assert!(action.ends_session());
}

#[test]
fn incoming_unknown_packet_is_rejected() {
    let (code, reason) = rejection(0);
    assert_eq!(code, DisconnectReasonCode::ProtocolError);
    assert!(reason.is_none());
    let (code, _) = rejection(16);
    assert_eq!(code, DisconnectReasonCode::ProtocolError);
}

#[test]
fn rejection_encodes() {
    match incoming_packet_action(Some(2)) {
        IncomingAction::Reject(d) => {
            let bytes = d.encode().unwrap();
            assert_eq!(bytes[0], 0xE0);
            assert_eq!(bytes[2], 0x82);
        }
        _ => panic!("expected a rejection"),
    }
}

#[test]
fn session_step_delivers_publish() {
    let event = SessionEvent::Broker(Some(BrokerEvent::Publish(
        "a/b".to_string(),
        Some(Bytes::from_static(b"x")),
    )));
    match session_step(event) {
        SessionStep::Deliver(p) => {
            assert_eq!(p.topic, "a/b");
            assert_eq!(p.payload.as_deref(), Some(&b"x"[..]));
        }
        _ => panic!("expected a delivery"),
    }
}

#[test]
fn session_step_endings() {
    assert!(matches!(session_step(SessionEvent::Broker(None)), SessionStep::End));
    assert!(matches!(session_step(SessionEvent::KeepAliveExpired), SessionStep::End));
    assert!(matches!(session_step(SessionEvent::Incoming(true)), SessionStep::End));
    assert!(matches!(session_step(SessionEvent::Incoming(false)), SessionStep::Touch));
}

#[test]
fn keep_alive_timeout_is_one_and_a_half() {
    assert_eq!(keep_alive_timeout_millis(0), 0);
    assert_eq!(keep_alive_timeout_millis(1), 1_500);
    assert_eq!(keep_alive_timeout_millis(60), 90_000);
    assert_eq!(keep_alive_timeout_millis(u16::MAX), 98_302_500);
}

#[test]
fn connection_accepted_packet() {
    let packet = connection_accepted(true);
    assert!(packet.session_present);
    assert_eq!(packet.reason_code, ConnectReasonCode::Success);
    assert_eq!(&packet.encode().unwrap()[..], &[0x20, 0x06, 0x01, 0x00, 0x03, 0x22, 0xFF, 0xFF]);
}

#[test]
fn session_present_rules() {
    assert!(session_present(true, false));
    assert!(!session_present(true, true));
    assert!(!session_present(false, false));
    assert!(!session_present(false, true));
}

#[test]
fn subscriptions_insert_and_contains() {
    let mut subs = Subscriptions::new();
    let topic = "sensors/t".to_string();
    assert!(!subs.contains(&topic));
    subs.insert(topic.clone());
    assert!(subs.contains(&topic));
    subs.insert(topic.clone());
    assert!(subs.contains(&topic));
    assert!(!subs.contains(&"sensors".to_string()));
    subs.insert("other".to_string());
    assert!(subs.contains(&topic));
    assert!(subs.contains(&"other".to_string()));
}

#[test]
fn after_read_decisions() {
    assert!(matches!(after_read::<()>(Some(10), 0), ReadStep::KeepReading));
    assert!(matches!(after_read::<()>(Some(0), 0), ReadStep::EndOfStream));
    assert!(matches!(after_read::<()>(Some(0), 3), ReadStep::Fail(ConnectionError::ConnectionReset)));
    assert!(matches!(
        after_read::<()>(None, 3),
        ReadStep::Fail(ConnectionError::Common(CommonPacketError::UnexpectedError))
    ));
}
