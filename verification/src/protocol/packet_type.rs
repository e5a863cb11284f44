//! The MQTT control packet types and the first byte of the fixed header.
use vstd::prelude::*;

verus! {

/// Represents the MQTT Control Packet Types.
#[derive(Debug, Clone, Copy, PartialEq, Eq, Structural)]
pub enum PacketType {
    /// Connection request.
    /// Sent by: Client to Server.
    Connect,
    /// Connect acknowledgment.
    /// Sent by: Server to Client.
    ConnAck,
    /// Publish message.
    /// Sent by: Client to Server or Server to Client.
    Publish,
    /// Publish acknowledgment (`QoS` 1).
    /// Sent by: Client to Server or Server to Client.
    PubAck,
    /// Publish received (`QoS` 2 delivery part 1).
    /// Sent by: Client to Server or Server to Client.
    PubRec,
    /// Publish release (`QoS` 2 delivery part 2).
    /// Sent by: Client to Server or Server to Client.
    PubRel,
    /// Publish complete (`QoS` 2 delivery part 3).
    /// Sent by: Client to Server or Server to Client.
    PubComp,
    /// Subscribe request.
    /// Sent by: Client to Server.
    Subscribe,
    /// Subscribe acknowledgment.
    /// Sent by: Server to Client.
    SubAck,
    /// Unsubscribe request.
    /// Sent by: Client to Server.
    Unsubscribe,
    /// Unsubscribe acknowledgment.
    /// Sent by: Server to Client.
    UnsubAck,
    /// PING request.
    /// Sent by: Client to Server.
    PingReq,
    /// PING response.
    /// Sent by: Server to Client.
    PingResp,
    /// Disconnect notification.
    /// Sent by: Client to Server or Server to Client.
    Disconnect,
    /// Authentication exchange.
    /// Sent by: Client to Server or Server to Client.
    Auth,
}

/// The number that identifies each packet type (`1` to `15`).
pub open spec fn packet_type_number(t: PacketType) -> u8 {
    match t {
        PacketType::Connect => 0x01,
        PacketType::ConnAck => 0x02,
        PacketType::Publish => 0x03,
        PacketType::PubAck => 0x04,
        PacketType::PubRec => 0x05,
        PacketType::PubRel => 0x06,
        PacketType::PubComp => 0x07,
        PacketType::Subscribe => 0x08,
        PacketType::SubAck => 0x09,
        PacketType::Unsubscribe => 0x0A,
        PacketType::UnsubAck => 0x0B,
        PacketType::PingReq => 0x0C,
        PacketType::PingResp => 0x0D,
        PacketType::Disconnect => 0x0E,
        PacketType::Auth => 0x0F,
    }
}

/// The reserved flags (four low bits) of the fixed header: `0010` for
/// PUBREL, SUBSCRIBE and UNSUBSCRIBE, `0000` for the others (PUBLISH's
/// dynamic flags left out).
pub open spec fn packet_type_flags(t: PacketType) -> u8 {
    match t {
        PacketType::PubRel | PacketType::Subscribe | PacketType::Unsubscribe => 0b0000_0010,
        _ => 0,
    }
}

impl PacketType {
    /// Converts a numeric value to an `PacketType`.
    ///
    /// Returns `None` if the value does not match a known type.
    pub fn from_u8(value: u8) -> (res: Option<Self>)
        ensures
            res is Some <==> 1 <= value <= 15,
            res matches Some(t) ==> packet_type_number(t) == value,
    {
        match value {
            0x01 => Some(Self::Connect),
            0x02 => Some(Self::ConnAck),
            0x03 => Some(Self::Publish),
            0x04 => Some(Self::PubAck),
            0x05 => Some(Self::PubRec),
            0x06 => Some(Self::PubRel),
            0x07 => Some(Self::PubComp),
            0x08 => Some(Self::Subscribe),
            0x09 => Some(Self::SubAck),
            0x0A => Some(Self::Unsubscribe),
            0x0B => Some(Self::UnsubAck),
            0x0C => Some(Self::PingReq),
            0x0D => Some(Self::PingResp),
            0x0E => Some(Self::Disconnect),
            0x0F => Some(Self::Auth),
            _ => None,
        }
    }

    /// Converts the `PacketType` to its numeric value.
    pub fn to_u8(self) -> (res: u8)
        ensures
            res == packet_type_number(self),
    {
        match self {
            Self::Connect => 0x01,
            Self::ConnAck => 0x02,
            Self::Publish => 0x03,
            Self::PubAck => 0x04,
            Self::PubRec => 0x05,
            Self::PubRel => 0x06,
            Self::PubComp => 0x07,
            Self::Subscribe => 0x08,
            Self::SubAck => 0x09,
            Self::Unsubscribe => 0x0A,
            Self::UnsubAck => 0x0B,
            Self::PingReq => 0x0C,
            Self::PingResp => 0x0D,
            Self::Disconnect => 0x0E,
            Self::Auth => 0x0F,
        }
    }

    /// Computes the control byte for the MQTT fixed header: the packet type
    /// in the four most significant bits, the packet flags in the four
    /// least significant bits.
    ///
    /// For the `Publish` packet type, dynamic flags such as `QoS`, retain,
    /// and DUP are left out, as they must be handled separately.
    pub fn control_byte(self) -> (res: u8)
        ensures
            res == packet_type_number(self) * 16 + packet_type_flags(self),
    {
        let number = self.to_u8();
        assert(number <= 15 ==> (number << 4) == number * 16 && ((number << 4) | 0b0000_0010)
            == number * 16 + 2) by (bit_vector);
        match self {
            // For these packets, the 4 LSB are reserved and must be: 0000
            Self::Connect
            | Self::ConnAck
            | Self::PubAck
            | Self::PubRec
            | Self::PubComp
            | Self::SubAck
            | Self::UnsubAck
            | Self::PingReq
            | Self::PingResp
            | Self::Disconnect
            | Self::Auth
            | Self::Publish => {
                // Shift packet type to MSB. For example, with Connect it becomes: 0000_0001 -> 0001_0000
                number << 4
            },
            // For these packets, the 4 LSB are reserved and must be: 0010
            Self::PubRel | Self::Subscribe | Self::Unsubscribe => {
                // Shift packet type to MSB and mask it. For example, with PubRel it becomes: 0000_0110 -> 0110_0010
                number << 4 | 0b0000_0010
            },
        }
    }

    /// The name of the packet type, as the protocol spells it.
    pub fn name(&self) -> (res: &'static str)
        ensures
            res@ == packet_type_name(*self),
    {
        match self {
            Self::Connect => "CONNECT",
            Self::ConnAck => "CONNACK",
            Self::Publish => "PUBLISH",
            Self::PubAck => "PUBACK",
            Self::PubRec => "PUBREC",
            Self::PubRel => "PUBREL",
            Self::PubComp => "PUBCOMP",
            Self::Subscribe => "SUBSCRIBE",
            Self::SubAck => "SUBACK",
            Self::Unsubscribe => "UNSUBSCRIBE",
            Self::UnsubAck => "UNSUBACK",
            Self::PingReq => "PINGREQ",
            Self::PingResp => "PINGRESP",
            Self::Disconnect => "DISCONNECT",
            Self::Auth => "AUTH",
        }
    }
}

/// The name of each packet type.
pub open spec fn packet_type_name(t: PacketType) -> Seq<char> {
    match t {
        PacketType::Connect => "CONNECT"@,
        PacketType::ConnAck => "CONNACK"@,
        PacketType::Publish => "PUBLISH"@,
        PacketType::PubAck => "PUBACK"@,
        PacketType::PubRec => "PUBREC"@,
        PacketType::PubRel => "PUBREL"@,
        PacketType::PubComp => "PUBCOMP"@,
        PacketType::Subscribe => "SUBSCRIBE"@,
        PacketType::SubAck => "SUBACK"@,
        PacketType::Unsubscribe => "UNSUBSCRIBE"@,
        PacketType::UnsubAck => "UNSUBACK"@,
        PacketType::PingReq => "PINGREQ"@,
        PacketType::PingResp => "PINGRESP"@,
        PacketType::Disconnect => "DISCONNECT"@,
        PacketType::Auth => "AUTH"@,
    }
}

/// Converting a packet type to its number and back gives the same type.
pub proof fn lemma_packet_type_round_trip(t: PacketType)
    ensures
        1 <= packet_type_number(t) <= 15,
        forall|u: PacketType| packet_type_number(u) == packet_type_number(t) ==> u == t,
{
}

/// The control byte of a packet type carries the type's number in its four
/// high bits and the reserved flags in its four low bits.
pub proof fn lemma_control_byte_layout(t: PacketType)
    ensures
        (packet_type_number(t) * 16 + packet_type_flags(t)) / 16 == packet_type_number(t),
        (packet_type_number(t) * 16 + packet_type_flags(t)) % 16 == packet_type_flags(t),
{
}

} // verus!
