//! The decisions a session takes: what to do with the packet a client
//! sends next, and how the session loop goes on after each event.
use crate::packets::conn_ack_packet::{ConnAckPacket, ConnectReasonCode};
use crate::packets::disconnect_packet::{DisconnectPacket, DisconnectReasonCode};
use crate::packets::opt_text;
use crate::packets::publish_packet::PublishPacket;
use crate::broker_state::BrokerEvent;
use crate::text::{decimal_text, u8_to_string};
use vstd::prelude::*;
use vstd::string::StringExecFns;

verus! {

broadcast use vstd::string::group_string_axioms;

/// What a session does with the packet a client sends next, known from its
/// packet type.
pub enum IncomingAction {
    /// The client closed the connection: the session ends.
    ConnectionClosed,
    /// A packet type the broker does not handle yet (PUBACK, PUBREC,
    /// PUBREL, PUBCOMP, UNSUBSCRIBE, AUTH); its number is kept.
    NotImplemented(u8),
    /// Read a SUBSCRIBE packet and subscribe to each of its topics.
    Subscribe,
    /// Read a PUBLISH packet and hand it to the broker.
    Publish,
    /// Read a PINGREQ packet and answer with a PINGRESP packet.
    Ping,
    /// Read a DISCONNECT packet: the client's last packet, after which the
    /// session ends.
    Disconnect,
    /// Send this DISCONNECT packet, the last on the connection: the client
    /// broke the protocol and the session ends.
    Reject(DisconnectPacket),
}

/// The reason string with which a session rejects a packet of the given
/// type, where it rejects one with a reason string.
pub open spec fn rejection_reason(packet_type: u8) -> Option<Seq<char>> {
    if packet_type == 1 {
        Some("A Client can only send the CONNECT packet once over a Network Connection"@)
    } else if packet_type == 2 || packet_type == 9 || packet_type == 11 || packet_type == 13 {
        Some("Packet "@ + decimal_text(packet_type as nat) + " is reserved for Server use"@)
    } else {
        None
    }
}

/// The packet types a session does not handle yet.
pub open spec fn not_implemented(packet_type: u8) -> bool {
    packet_type == 4 || packet_type == 5 || packet_type == 6 || packet_type == 7 || packet_type
        == 10 || packet_type == 15
}

impl IncomingAction {
    /// Whether the session ends after the action: when the connection is
    /// closed and after a DISCONNECT packet, whichever side sends it.
    pub fn ends_session(&self) -> (res: bool)
        ensures
            res == (self is ConnectionClosed || self is Disconnect || self is Reject),
    {
        match self {
            IncomingAction::ConnectionClosed => true,
            IncomingAction::Disconnect => true,
            IncomingAction::Reject(_) => true,
            _ => false,
        }
    }
}

/// Decides what to do with the next packet from its packet type; `None`
/// when the client closed the connection.
///
/// SUBSCRIBE, PUBLISH, PINGREQ and DISCONNECT packets are read and handled;
/// a second CONNECT packet, a packet reserved for the server (CONNACK,
/// SUBACK, UNSUBACK, PINGRESP) or an unknown packet type is answered with
/// a DISCONNECT packet with the reason code `ProtocolError`.
pub fn incoming_packet_action(packet_type: Option<u8>) -> (res: IncomingAction)
    ensures
        match packet_type {
            None => res is ConnectionClosed,
            Some(t) => if not_implemented(t) {
                res == IncomingAction::NotImplemented(t)
            } else if t == 8 {
                res is Subscribe
            } else if t == 3 {
                res is Publish
            } else if t == 12 {
                res is Ping
            } else if t == 14 {
                res is Disconnect
            } else {
                res matches IncomingAction::Reject(d) && d.reason_code
                    == DisconnectReasonCode::ProtocolError && opt_text(d.properties.reason_string)
                    == rejection_reason(t) && d.properties.session_expiry_interval is None
                    && d.properties.user_properties is None && d.properties.server_reference is None
            },
        },
{
    let packet_type = match packet_type {
        None => {
            return IncomingAction::ConnectionClosed;
        },
        Some(t) => t,
    };
    if packet_type == 4 || packet_type == 5 || packet_type == 6 || packet_type == 7 || packet_type
        == 10 || packet_type == 15 {
        IncomingAction::NotImplemented(packet_type)
    } else if packet_type == 8 {
        IncomingAction::Subscribe
    } else if packet_type == 3 {
        IncomingAction::Publish
    } else if packet_type == 12 {
        IncomingAction::Ping
    } else if packet_type == 14 {
        IncomingAction::Disconnect
    } else if packet_type == 1 {
        let disconnect = DisconnectPacket::builder().reason_code(
            DisconnectReasonCode::ProtocolError,
        ).reason_string(
            String::from_str(
                "A Client can only send the CONNECT packet once over a Network Connection",
            ),
        ).build();
        IncomingAction::Reject(disconnect)
    } else if packet_type == 2 || packet_type == 9 || packet_type == 11 || packet_type == 13 {
        let reason = String::from_str("Packet ").concat(u8_to_string(packet_type).as_str()).concat(
            " is reserved for Server use",
        );
        let disconnect = DisconnectPacket::builder().reason_code(
            DisconnectReasonCode::ProtocolError,
        ).reason_string(reason).build();
        IncomingAction::Reject(disconnect)
    } else {
        let disconnect = DisconnectPacket::builder().reason_code(
            DisconnectReasonCode::ProtocolError,
        ).build();
        IncomingAction::Reject(disconnect)
    }
}

/// What happens next to a running session.
pub enum SessionEvent {
    /// The broker sent an event; `None` when the broker closed the channel.
    Broker(Option<BrokerEvent>),
    /// The client's next packet was handled; `true` when the session ends
    /// after it.
    Incoming(bool),
    /// The keep-alive timeout passed without a packet from the client.
    KeepAliveExpired,
}

/// How a running session goes on.
pub enum SessionStep {
    /// Send this PUBLISH packet to the client and go on.
    Deliver(PublishPacket),
    /// The client was active now; go on.
    Touch,
    /// The session ends without error.
    End,
}

/// Decides how a running session goes on after an event: a published
/// message is delivered to the client; a handled packet counts as activity
/// unless the session ends after it; a closed broker channel or an expired
/// keep-alive ends the session.
pub fn session_step(event: SessionEvent) -> (res: SessionStep)
    ensures
        match event {
            SessionEvent::Broker(Some(BrokerEvent::Publish(topic, payload))) => res matches SessionStep::Deliver(p)
                && p.topic == topic && p.payload == payload,
            SessionEvent::Broker(None) => res is End,
            SessionEvent::Incoming(ends) => if ends {
                res is End
            } else {
                res is Touch
            },
            SessionEvent::KeepAliveExpired => res is End,
        },
{
    match event {
        SessionEvent::Broker(Some(BrokerEvent::Publish(topic, payload))) => SessionStep::Deliver(
            PublishPacket::new(topic, payload),
        ),
        SessionEvent::Broker(None) => SessionStep::End,
        SessionEvent::Incoming(ends) => if ends {
            SessionStep::End
        } else {
            SessionStep::Touch
        },
        SessionEvent::KeepAliveExpired => SessionStep::End,
    }
}

/// The time a session waits for a packet before it ends: one and a half
/// times the keep-alive, in milliseconds.
pub fn keep_alive_timeout_millis(keep_alive_secs: u16) -> (res: u64)
    ensures
        res == keep_alive_secs as nat * 1500,
{
    keep_alive_secs as u64 * 1500
}

/// The CONNACK packet that accepts a client's connection: the reason code
/// `Success`, with the session present flag that registering decided.
pub fn connection_accepted(session_present: bool) -> (res: ConnAckPacket)
    ensures
        res.session_present == session_present,
        res.reason_code == ConnectReasonCode::Success,
        res.properties.reason_string is None,
        res.properties.topic_alias_maximum == Some(0xFFFFu16),
        res.properties.only_reason_and_alias(),
{
    ConnAckPacket::builder().session_present(session_present).reason_code(
        ConnectReasonCode::Success,
    ).build()
}

} // verus!
