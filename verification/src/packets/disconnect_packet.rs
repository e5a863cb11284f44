//! The DISCONNECT packet: the last packet sent on a connection, by either
//! side.
use crate::bytes_io::{
    bytes_mut_as_slice, bytes_mut_contents, bytes_mut_len, bytes_mut_new, cursor_advance,
    cursor_data, cursor_get_u8, cursor_pos, cursor_remaining, put_slice, put_u8,
};
use crate::text::{decimal_text, u8_to_string};
use crate::codec::{
    decode_variable_byte_int, encode_variable_byte_int, lemma_read_var_int_shift,
    lemma_user_properties_bytes_len, lemma_variable_byte_int_round_trip, lemma_vbi_encode_len,
    lemma_vbi_encode_u32_len, pow128, read_var_int, vbi_len, string_fits, string_property, string_size,
    u32_property, user_properties_bytes, user_properties_fit, user_properties_of,
    user_property_names_unique,
    user_properties_size, vbi_encode, write_string_property, write_u32_property,
    write_user_properties, write_usize_as_var_int, VarIntRead,
};
use crate::packets::{
    header_error, opt_text, validate_fixed_header, CommonError, CommonPacketError, DecodablePacket,
};
use crate::protocol::MAX_PACKET_SIZE;
use bytes::BytesMut;
use std::io::Cursor;
use vstd::prelude::*;
use vstd::seq_lib::lemma_concat_associative;
use vstd::string::StringExecFns;

verus! {

pub const SESSION_EXPIRY_INTERVAL_IDENTIFIER: u8 = 0x11;

pub const REASON_STRING_IDENTIFIER: u8 = 0x1F;

pub const USER_PROPERTY_IDENTIFIER: u8 = 0x26;

pub const SERVER_REFERENCE_IDENTIFIER: u8 = 0x1C;

/// Identifier of the DISCONNECT packet type.
pub const DISCONNECT_PACKET_TYPE: u8 = 0x0E;

/// Represents the Reason Codes sent when disconnecting from an MQTT connection.
#[derive(Debug, Clone, Copy, PartialEq, Eq, Structural)]
pub enum DisconnectReasonCode {
    /// Close the connection normally. Do not send the Will Message.
    NormalDisconnection,
    /// The Client wishes to disconnect but requires that the Server also publishes its Will Message.
    DisconnectWithWillMessage,
    /// The Connection is closed but the sender either does not wish to reveal the reason, or none of the other Reason Codes apply.
    UnspecifiedError,
    /// The received packet does not conform to this specification.
    MalformedPacket,
    /// An unexpected or out of order packet was received.
    ProtocolError,
    /// The packet received is valid but cannot be processed by this implementation.
    ImplementationSpecificError,
    /// The request is not authorized.
    NotAuthorized,
    /// The Server is busy and cannot continue processing requests from this Client.
    ServerBusy,
    /// The Server is shutting down.
    ServerShuttingDown,
    /// The Connection is closed because no packet has been received for 1.5 times the Keep alive time.
    KeepAliveTimeout,
    /// Another Connection using the same `ClientID` has connected causing this Connection to be closed.
    SessionTakenOver,
    /// The Topic Filter is correctly formed, but is not accepted by this Server.
    TopicFilterInvalid,
    /// The Topic Name is correctly formed, but is not accepted by this Client or Server.
    TopicNameInvalid,
    /// The Client or Server has received more than Receive Maximum publications for which it has not sent PUBACK or PUBCOMP.
    ReceiveMaximumExceeded,
    /// The Client or Server has received a PUBLISH packet containing a Topic Alias which is greater than the Maximum Topic Alias it sent in the CONNECT or CONNACK packet.
    TopicAliasInvalid,
    /// The packet size is greater than Maximum Packet Size for this Client or Server.
    PacketTooLarge,
    /// The received data rate is too high.
    MessageRateTooHigh,
    /// An implementation or administrative imposed limit has been exceeded.
    QuotaExceeded,
    /// The Connection is closed due to an administrative action.
    AdministrativeAction,
    /// The payload format does not match the one specified by the Payload Format Indicator.
    PayloadFormatInvalid,
    /// The Server does not support retained messages.
    RetainNotSupported,
    /// The Client specified a `QoS` greater than the `QoS` specified in a Maximum `QoS` in the CONNACK.
    QosNotSupported,
    /// The Client should temporarily change its Server.
    UseAnotherServer,
    /// The Server has moved and the Client should permanently change its server location.
    ServerMoved,
    /// The Server does not support Shared Subscriptions.
    SharedSubscriptionsNotSupported,
    /// This connection is closed because the connection rate is too high.
    ConnectionRateExceeded,
    /// The maximum connection time authorized for this connection has been exceeded.
    MaximumConnectTime,
    /// The Server does not support Subscription Identifiers; the subscription is not accepted.
    SubscriptionIdentifiersNotSupported,
    /// The Server does not support Wildcard Subscriptions; the subscription is not accepted.
    WildcardSubscriptionsNotSupported,
}

/// The byte that stands for each disconnect reason code on the wire.
pub open spec fn disconnect_reason_number(c: DisconnectReasonCode) -> u8 {
    match c {
        DisconnectReasonCode::NormalDisconnection => 0x00,
        DisconnectReasonCode::DisconnectWithWillMessage => 0x04,
        DisconnectReasonCode::UnspecifiedError => 0x80,
        DisconnectReasonCode::MalformedPacket => 0x81,
        DisconnectReasonCode::ProtocolError => 0x82,
        DisconnectReasonCode::ImplementationSpecificError => 0x83,
        DisconnectReasonCode::NotAuthorized => 0x87,
        DisconnectReasonCode::ServerBusy => 0x89,
        DisconnectReasonCode::ServerShuttingDown => 0x8B,
        DisconnectReasonCode::KeepAliveTimeout => 0x8D,
        DisconnectReasonCode::SessionTakenOver => 0x8E,
        DisconnectReasonCode::TopicFilterInvalid => 0x8F,
        DisconnectReasonCode::TopicNameInvalid => 0x90,
        DisconnectReasonCode::ReceiveMaximumExceeded => 0x93,
        DisconnectReasonCode::TopicAliasInvalid => 0x94,
        DisconnectReasonCode::PacketTooLarge => 0x95,
        DisconnectReasonCode::MessageRateTooHigh => 0x96,
        DisconnectReasonCode::QuotaExceeded => 0x97,
        DisconnectReasonCode::AdministrativeAction => 0x98,
        DisconnectReasonCode::PayloadFormatInvalid => 0x99,
        DisconnectReasonCode::RetainNotSupported => 0x9A,
        DisconnectReasonCode::QosNotSupported => 0x9B,
        DisconnectReasonCode::UseAnotherServer => 0x9C,
        DisconnectReasonCode::ServerMoved => 0x9D,
        DisconnectReasonCode::SharedSubscriptionsNotSupported => 0x9E,
        DisconnectReasonCode::ConnectionRateExceeded => 0x9F,
        DisconnectReasonCode::MaximumConnectTime => 0xA0,
        DisconnectReasonCode::SubscriptionIdentifiersNotSupported => 0xA1,
        DisconnectReasonCode::WildcardSubscriptionsNotSupported => 0xA2,
    }
}

/// Whether a byte stands for a disconnect reason code.
pub open spec fn is_disconnect_reason_number(v: u8) -> bool {
    exists|c: DisconnectReasonCode| disconnect_reason_number(c) == v
}

/// The text of each disconnect reason code.
pub open spec fn disconnect_reason_text(c: DisconnectReasonCode) -> Seq<char> {
    match c {
        DisconnectReasonCode::NormalDisconnection => "Normal disconnection"@,
        DisconnectReasonCode::DisconnectWithWillMessage => "Disconnect with will message"@,
        DisconnectReasonCode::UnspecifiedError => "Unspecified error"@,
        DisconnectReasonCode::MalformedPacket => "Malformed packet"@,
        DisconnectReasonCode::ProtocolError => "Protocol error"@,
        DisconnectReasonCode::ImplementationSpecificError => "Implementation specific error"@,
        DisconnectReasonCode::NotAuthorized => "Not authorized"@,
        DisconnectReasonCode::ServerBusy => "Server busy"@,
        DisconnectReasonCode::ServerShuttingDown => "Server shutting down"@,
        DisconnectReasonCode::KeepAliveTimeout => "Keep alive timeout"@,
        DisconnectReasonCode::SessionTakenOver => "Session taken over"@,
        DisconnectReasonCode::TopicFilterInvalid => "Topic filter invalid"@,
        DisconnectReasonCode::TopicNameInvalid => "Topic name invalid"@,
        DisconnectReasonCode::ReceiveMaximumExceeded => "Receive maximum exceeded"@,
        DisconnectReasonCode::TopicAliasInvalid => "Topic alias invalid"@,
        DisconnectReasonCode::PacketTooLarge => "Packet too large"@,
        DisconnectReasonCode::MessageRateTooHigh => "Message rate too high"@,
        DisconnectReasonCode::QuotaExceeded => "Quota exceeded"@,
        DisconnectReasonCode::AdministrativeAction => "Administrative action"@,
        DisconnectReasonCode::PayloadFormatInvalid => "Payload format invalid"@,
        DisconnectReasonCode::RetainNotSupported => "Retain not supported"@,
        DisconnectReasonCode::QosNotSupported => "QoS not supported"@,
        DisconnectReasonCode::UseAnotherServer => "Use another server"@,
        DisconnectReasonCode::ServerMoved => "Server moved"@,
        DisconnectReasonCode::SharedSubscriptionsNotSupported => "Shared subscriptions not supported"@,
        DisconnectReasonCode::ConnectionRateExceeded => "Connection rate exceeded"@,
        DisconnectReasonCode::MaximumConnectTime => "Maximum connect time"@,
        DisconnectReasonCode::SubscriptionIdentifiersNotSupported => "Subscription identifiers not supported"@,
        DisconnectReasonCode::WildcardSubscriptionsNotSupported => "Wildcard subscriptions not supported"@,
    }
}

impl DisconnectReasonCode {
    /// The reason code that a byte stands for, if any.
    pub fn from_u8(value: u8) -> (res: Option<Self>)
        ensures
            res is Some <==> is_disconnect_reason_number(value),
            res matches Some(c) ==> disconnect_reason_number(c) == value,
    {
        let res = match value {
            0x00 => Some(Self::NormalDisconnection),
            0x04 => Some(Self::DisconnectWithWillMessage),
            0x80 => Some(Self::UnspecifiedError),
            0x81 => Some(Self::MalformedPacket),
            0x82 => Some(Self::ProtocolError),
            0x83 => Some(Self::ImplementationSpecificError),
            0x87 => Some(Self::NotAuthorized),
            0x89 => Some(Self::ServerBusy),
            0x8B => Some(Self::ServerShuttingDown),
            0x8D => Some(Self::KeepAliveTimeout),
            0x8E => Some(Self::SessionTakenOver),
            0x8F => Some(Self::TopicFilterInvalid),
            0x90 => Some(Self::TopicNameInvalid),
            0x93 => Some(Self::ReceiveMaximumExceeded),
            0x94 => Some(Self::TopicAliasInvalid),
            0x95 => Some(Self::PacketTooLarge),
            0x96 => Some(Self::MessageRateTooHigh),
            0x97 => Some(Self::QuotaExceeded),
            0x98 => Some(Self::AdministrativeAction),
            0x99 => Some(Self::PayloadFormatInvalid),
            0x9A => Some(Self::RetainNotSupported),
            0x9B => Some(Self::QosNotSupported),
            0x9C => Some(Self::UseAnotherServer),
            0x9D => Some(Self::ServerMoved),
            0x9E => Some(Self::SharedSubscriptionsNotSupported),
            0x9F => Some(Self::ConnectionRateExceeded),
            0xA0 => Some(Self::MaximumConnectTime),
            0xA1 => Some(Self::SubscriptionIdentifiersNotSupported),
            0xA2 => Some(Self::WildcardSubscriptionsNotSupported),
            _ => None,
        };
        proof {
            if res is None {
                assert forall|c: DisconnectReasonCode| disconnect_reason_number(c) != value by {}
            } else {
                assert(disconnect_reason_number(res->0) == value);
            }
        }
        res
    }

    /// The byte that stands for the reason code on the wire.
    pub fn to_u8(self) -> (res: u8)
        ensures
            res == disconnect_reason_number(self),
    {
        match self {
            Self::NormalDisconnection => 0x00,
            Self::DisconnectWithWillMessage => 0x04,
            Self::UnspecifiedError => 0x80,
            Self::MalformedPacket => 0x81,
            Self::ProtocolError => 0x82,
            Self::ImplementationSpecificError => 0x83,
            Self::NotAuthorized => 0x87,
            Self::ServerBusy => 0x89,
            Self::ServerShuttingDown => 0x8B,
            Self::KeepAliveTimeout => 0x8D,
            Self::SessionTakenOver => 0x8E,
            Self::TopicFilterInvalid => 0x8F,
            Self::TopicNameInvalid => 0x90,
            Self::ReceiveMaximumExceeded => 0x93,
            Self::TopicAliasInvalid => 0x94,
            Self::PacketTooLarge => 0x95,
            Self::MessageRateTooHigh => 0x96,
            Self::QuotaExceeded => 0x97,
            Self::AdministrativeAction => 0x98,
            Self::PayloadFormatInvalid => 0x99,
            Self::RetainNotSupported => 0x9A,
            Self::QosNotSupported => 0x9B,
            Self::UseAnotherServer => 0x9C,
            Self::ServerMoved => 0x9D,
            Self::SharedSubscriptionsNotSupported => 0x9E,
            Self::ConnectionRateExceeded => 0x9F,
            Self::MaximumConnectTime => 0xA0,
            Self::SubscriptionIdentifiersNotSupported => 0xA1,
            Self::WildcardSubscriptionsNotSupported => 0xA2,
        }
    }

    /// The text that the reason code shows to a reader.
    pub fn describe(&self) -> (res: &'static str)
        ensures
            res@ == disconnect_reason_text(*self),
    {
        match self {
            Self::NormalDisconnection => "Normal disconnection",
            Self::DisconnectWithWillMessage => "Disconnect with will message",
            Self::UnspecifiedError => "Unspecified error",
            Self::MalformedPacket => "Malformed packet",
            Self::ProtocolError => "Protocol error",
            Self::ImplementationSpecificError => "Implementation specific error",
            Self::NotAuthorized => "Not authorized",
            Self::ServerBusy => "Server busy",
            Self::ServerShuttingDown => "Server shutting down",
            Self::KeepAliveTimeout => "Keep alive timeout",
            Self::SessionTakenOver => "Session taken over",
            Self::TopicFilterInvalid => "Topic filter invalid",
            Self::TopicNameInvalid => "Topic name invalid",
            Self::ReceiveMaximumExceeded => "Receive maximum exceeded",
            Self::TopicAliasInvalid => "Topic alias invalid",
            Self::PacketTooLarge => "Packet too large",
            Self::MessageRateTooHigh => "Message rate too high",
            Self::QuotaExceeded => "Quota exceeded",
            Self::AdministrativeAction => "Administrative action",
            Self::PayloadFormatInvalid => "Payload format invalid",
            Self::RetainNotSupported => "Retain not supported",
            Self::QosNotSupported => "QoS not supported",
            Self::UseAnotherServer => "Use another server",
            Self::ServerMoved => "Server moved",
            Self::SharedSubscriptionsNotSupported => "Shared subscriptions not supported",
            Self::ConnectionRateExceeded => "Connection rate exceeded",
            Self::MaximumConnectTime => "Maximum connect time",
            Self::SubscriptionIdentifiersNotSupported => "Subscription identifiers not supported",
            Self::WildcardSubscriptionsNotSupported => "Wildcard subscriptions not supported",
        }
    }
}

/// Reading the byte of a reason code gives the reason code back, and every
/// byte read as a reason code is the byte of that code.
pub proof fn lemma_disconnect_reason_round_trip(c: DisconnectReasonCode)
    ensures
        is_disconnect_reason_number(disconnect_reason_number(c)),
        forall|d: DisconnectReasonCode|
            disconnect_reason_number(d) == disconnect_reason_number(c) ==> d == c,
{
}

/// The DISCONNECT packet is the final MQTT Control Packet sent from the Client or the Server.
#[derive(Debug)]
pub struct DisconnectPacket {
    /// The Reason Code indicating why the DISCONNECT is occurring.
    pub reason_code: DisconnectReasonCode,
    /// Disconnect properties.
    pub properties: DisconnectPacketProperties,
}

/// Errors that decoding a DISCONNECT packet can run into.
#[derive(Debug)]
pub enum DisconnectPacketDecodeError {
    Common(CommonPacketError),
}

/// Errors that encoding a DISCONNECT packet can run into.
#[derive(Debug)]
pub enum DisconnectPacketEncodeError {
    Common(CommonPacketError),
}

/// Disconnect properties.
#[derive(Debug)]
pub struct DisconnectPacketProperties {
    /// Represents the Session Expiry Interval in seconds.
    /// The Session Expiry Interval MUST NOT be sent on a DISCONNECT by the Server.
    pub session_expiry_interval: Option<u32>,
    /// A human-readable reason string for diagnostic purposes. Should NOT be parsed programmatically.
    pub reason_string: Option<String>,
    /// User properties in key-value pairs; no name occurs twice.
    pub user_properties: Option<Vec<(String, String)>>,
    /// Encoded String which can be used by the Client to identify another Server to use.
    pub server_reference: Option<String>,
}

impl DisconnectPacketProperties {
    /// Whether the properties are well formed: no user property name
    /// occurs twice.
    pub open spec fn well_formed(&self) -> bool {
        user_property_names_unique(user_properties_of(self.user_properties))
    }

    /// Whether no property is present.
    pub open spec fn is_empty(&self) -> bool {
        &&& self.session_expiry_interval is None
        &&& self.reason_string is None
        &&& self.user_properties is None
        &&& self.server_reference is None
    }

    /// Whether every string in the properties fits in a UTF-8 string field.
    pub open spec fn fits(&self) -> bool {
        &&& string_fits(self.server_reference)
        &&& string_fits(self.reason_string)
        &&& user_properties_fit(user_properties_of(self.user_properties))
    }

    /// An upper bound on the bytes that writing the properties takes.
    pub open spec fn size_bound(&self) -> nat {
        8 + string_size(self.server_reference) + string_size(self.reason_string)
            + user_properties_size(user_properties_of(self.user_properties))
    }

    /// The bytes of the properties that follow the reason code `reason`:
    /// none for a normal disconnection without properties.
    pub open spec fn bytes(&self, reason: DisconnectReasonCode) -> Seq<u8> {
        if reason == DisconnectReasonCode::NormalDisconnection && self.is_empty() {
            Seq::empty()
        } else {
            u32_property(SESSION_EXPIRY_INTERVAL_IDENTIFIER, self.session_expiry_interval)
                + string_property(SERVER_REFERENCE_IDENTIFIER, self.server_reference)
                + string_property(REASON_STRING_IDENTIFIER, self.reason_string)
                + user_properties_bytes(
                USER_PROPERTY_IDENTIFIER,
                user_properties_of(self.user_properties),
            )
        }
    }
}

/// The reason code that a byte stands for.
pub open spec fn disconnect_reason_of(v: u8) -> DisconnectReasonCode {
    choose|c: DisconnectReasonCode| disconnect_reason_number(c) == v
}

/// What decoding a DISCONNECT body at `pos` gives: the reason code (a
/// normal disconnection when no byte is left), an error, or `None` where the
/// body runs past the end of `data`.
pub open spec fn disconnect_decoding(data: Seq<u8>, pos: int, remaining_len: nat) -> Option<
    Result<DisconnectReasonCode, CommonError>,
> {
    if remaining_len == 0 || pos >= data.len() {
        Some(Ok(DisconnectReasonCode::NormalDisconnection))
    } else if !is_disconnect_reason_number(data[pos]) {
        Some(
            Err(
                CommonError::MalformedPacket(
                    Some(
                        "Reason code is not a valid reason code: "@ + decimal_text(data[pos] as nat),
                    ),
                ),
            ),
        )
    } else {
        match read_var_int(data, pos + 1) {
            VarIntRead::Truncated => None,
            VarIntRead::TooLong => Some(Err(CommonError::IntOverflow)),
            VarIntRead::Value(len, n) => if len > 0 && pos + 1 + n + len > data.len() {
                None
            } else {
                Some(Ok(disconnect_reason_of(data[pos])))
            },
        }
    }
}

/// Where decoding a DISCONNECT body at `pos` stops: at `pos` for a normal
/// disconnection without a reason code, otherwise after the reason code,
/// the property length and the properties.
pub open spec fn disconnect_end(data: Seq<u8>, pos: int, remaining_len: nat) -> int {
    if remaining_len == 0 || pos >= data.len() {
        pos
    } else {
        match read_var_int(data, pos + 1) {
            VarIntRead::Value(len, n) => pos + 1 + n + len,
            _ => pos,
        }
    }
}

impl DisconnectPacketProperties {
    /// Skips the `len` bytes of properties at the cursor; no property is
    /// kept. `None` where fewer than `len` bytes are left.
    pub fn decode(cursor: &mut Cursor<&[u8]>, len: usize) -> (res: Option<
        Result<DisconnectPacketProperties, DisconnectPacketDecodeError>,
    >)
        ensures
            cursor_data(*final(cursor)) == cursor_data(*old(cursor)),
            res is None <==> len > 0 && cursor_pos(*old(cursor)) + len > cursor_data(
                *old(cursor),
            ).len(),
            res is Some ==> cursor_pos(*final(cursor)) == cursor_pos(*old(cursor)) + len,
            res matches Some(r) ==> (r matches Ok(p) && p.is_empty()),
    {
        if len > 0 {
            if cursor_remaining(cursor) < len {
                return None;
            }
            cursor_advance(cursor, len);
        }
        Some(
            Ok(
                DisconnectPacketProperties {
                    session_expiry_interval: None,
                    reason_string: None,
                    user_properties: None,
                    server_reference: None,
                },
            ),
        )
    }
}

impl DecodablePacket for DisconnectPacket {
    type Error = DisconnectPacketDecodeError;

    open spec fn accepts_header(fixed_header: u8) -> bool {
        fixed_header == 0xE0
    }

    open spec fn rejects_with(fixed_header: u8, e: Self::Error) -> bool {
        e matches DisconnectPacketDecodeError::Common(c) && c@ == header_error(fixed_header, DISCONNECT_PACKET_TYPE)
    }

    open spec fn decodes_to(
        data: Seq<u8>,
        pos: int,
        fixed_header: u8,
        remaining_len: usize,
        res: Option<Result<Self, Self::Error>>,
    ) -> bool {
        match disconnect_decoding(data, pos, remaining_len as nat) {
            None => res is None,
            Some(Ok(c)) => res matches Some(Ok(p)) && p.reason_code == c && p.properties.is_empty(),
            Some(Err(e)) => res matches Some(Err(DisconnectPacketDecodeError::Common(f))) && f@ == e,
        }
    }

    open spec fn decoded_end(data: Seq<u8>, pos: int, fixed_header: u8, remaining_len: usize) -> int {
        disconnect_end(data, pos, remaining_len as nat)
    }

    fn packet_type() -> (res: u8)
        ensures
            res == DISCONNECT_PACKET_TYPE,
    {
        DISCONNECT_PACKET_TYPE
    }

    fn validate_header(fixed_header: u8) -> (res: Result<(), Self::Error>) {
        // Reserved flags (4 LSB) must be equal to 0000
        match validate_fixed_header(fixed_header, DISCONNECT_PACKET_TYPE, Some(0)) {
            Ok(()) => Ok(()),
            Err(e) => Err(DisconnectPacketDecodeError::Common(e)),
        }
    }

    fn decode(cursor: &mut Cursor<&[u8]>, _fixed_header: u8, remaining_len: usize) -> (res: Option<
        Result<Self, Self::Error>,
    >) {
        // if the remaining length is less than 1, normal disconnection can be assumed
        if remaining_len == 0 || cursor_remaining(cursor) == 0 {
            return Some(
                Ok(
                    Self {
                        reason_code: DisconnectReasonCode::NormalDisconnection,
                        properties: DisconnectPacketProperties {
                            session_expiry_interval: None,
                            reason_string: None,
                            user_properties: None,
                            server_reference: None,
                        },
                    },
                ),
            );
        }
        let raw_reason_code = cursor_get_u8(cursor);
        let reason_code = match DisconnectReasonCode::from_u8(raw_reason_code) {
            Some(c) => c,
            None => {
                let reason = String::from_str("Reason code is not a valid reason code: ").concat(
                    u8_to_string(raw_reason_code).as_str(),
                );
                return Some(
                    Err(
                        DisconnectPacketDecodeError::Common(
                            CommonPacketError::MalformedPacket(Some(reason)),
                        ),
                    ),
                );
            },
        };
        proof {
            lemma_disconnect_reason_round_trip(reason_code);
        }
        let properties_len = match decode_variable_byte_int(cursor) {
            None => {
                return None;
            },
            Some(Err(e)) => {
                return Some(Err(DisconnectPacketDecodeError::Common(e)));
            },
            Some(Ok(len)) => len,
        };
        let properties = match DisconnectPacketProperties::decode(cursor, properties_len) {
            None => {
                return None;
            },
            Some(Err(e)) => {
                return Some(Err(e));
            },
            Some(Ok(p)) => p,
        };
        Some(Ok(Self { reason_code, properties }))
    }
}

impl DisconnectPacketProperties {
    /// Writes the properties after the reason code `reason_code`: nothing
    /// for a normal disconnection without properties, otherwise each
    /// property that is present, as its identifier followed by its value.
    ///
    /// Fails with `IntOverflow` when a string is longer than `65_535` bytes.
    pub fn write_properties(&self, buf: &mut BytesMut, reason_code: DisconnectReasonCode) -> (res:
        Result<(), DisconnectPacketEncodeError>)
        requires
            bytes_mut_contents(*old(buf)).len() + self.size_bound() + 200_000 <= isize::MAX,
            self.well_formed(),
        ensures
            res is Ok <==> (reason_code == DisconnectReasonCode::NormalDisconnection
                && self.is_empty()) || self.fits(),
            res is Ok ==> bytes_mut_contents(*final(buf)) == bytes_mut_contents(*old(buf))
                + self.bytes(reason_code),
            res matches Err(DisconnectPacketEncodeError::Common(e)) ==> e@
                == CommonError::IntOverflow,
    {
        let ghost start = bytes_mut_contents(*buf);
        // Check if we have any properties at all
        let has_properties = self.session_expiry_interval.is_some() || self.reason_string.is_some()
            || self.user_properties.is_some() || self.server_reference.is_some();

        // If reason code is NormalDisconnection (0x00) and no properties, we can omit them.
        if matches!(reason_code, DisconnectReasonCode::NormalDisconnection) && !has_properties {
            assert(bytes_mut_contents(*buf) =~= start + self.bytes(reason_code));
            return Ok(());
        }

        write_u32_property(buf, SESSION_EXPIRY_INTERVAL_IDENTIFIER, self.session_expiry_interval);
        let ghost acc1 = u32_property(SESSION_EXPIRY_INTERVAL_IDENTIFIER, self.session_expiry_interval);
        if let Err(e) = write_string_property(buf, SERVER_REFERENCE_IDENTIFIER, &self.server_reference) {
            return Err(DisconnectPacketEncodeError::Common(e));
        }
        let ghost acc2 = acc1 + string_property(SERVER_REFERENCE_IDENTIFIER, self.server_reference);
        proof {
            lemma_concat_associative(
                start,
                acc1,
                string_property(SERVER_REFERENCE_IDENTIFIER, self.server_reference),
            );
        }
        if let Err(e) = write_string_property(buf, REASON_STRING_IDENTIFIER, &self.reason_string) {
            return Err(DisconnectPacketEncodeError::Common(e));
        }
        let ghost acc3 = acc2 + string_property(REASON_STRING_IDENTIFIER, self.reason_string);
        proof {
            lemma_concat_associative(
                start,
                acc2,
                string_property(REASON_STRING_IDENTIFIER, self.reason_string),
            );
        }
        assert(acc3.len() <= 5 + string_size(self.server_reference) + string_size(
            self.reason_string,
        ));
        if let Some(user_properties) = &self.user_properties {
            if let Err(e) = write_user_properties(buf, USER_PROPERTY_IDENTIFIER, user_properties) {
                return Err(DisconnectPacketEncodeError::Common(e));
            }
        }
        proof {
            let piece = user_properties_bytes(
                USER_PROPERTY_IDENTIFIER,
                user_properties_of(self.user_properties),
            );
            if self.user_properties is None {
                assert(piece =~= Seq::<u8>::empty());
            }
            lemma_concat_associative(start, acc3, piece);
        }
        Ok(())
    }
}

/// The bytes of a DISCONNECT packet with the given reason code and
/// property bytes: the fixed header, the remaining length, the reason code,
/// the property length and the properties.
pub open spec fn disconnect_bytes(reason: u8, properties: Seq<u8>) -> Seq<u8> {
    seq![0xE0u8] + vbi_encode(1 + vbi_encode(properties.len()).len() + properties.len()) + seq![
        reason,
    ] + vbi_encode(properties.len()) + properties
}

impl DisconnectPacket {
    /// Whether the packet can be encoded: its strings fit (when it has
    /// properties to write) and it stays within the maximum packet size.
    pub open spec fn encodable(&self) -> bool {
        &&& (self.reason_code == DisconnectReasonCode::NormalDisconnection
            && self.properties.is_empty()) || self.properties.fits()
        &&& disconnect_bytes(
            disconnect_reason_number(self.reason_code),
            self.properties.bytes(self.reason_code),
        ).len() <= MAX_PACKET_SIZE
    }

    /// Encodes the packet: the fixed header, the remaining length (reason
    /// code, property length and properties), the reason code and the
    /// properties.
    ///
    /// Fails with `IntOverflow` when a property string is longer than
    /// `65_535` bytes, and with `PacketTooLarge` when the packet is larger
    /// than `MAX_PACKET_SIZE`.
    pub fn encode(&self) -> (res: Result<BytesMut, DisconnectPacketEncodeError>)
        requires
            self.properties.size_bound() + 200_000 <= isize::MAX,
            self.properties.well_formed(),
        ensures
            res is Ok <==> self.encodable(),
            res matches Ok(b) ==> bytes_mut_contents(b) == disconnect_bytes(
                disconnect_reason_number(self.reason_code),
                self.properties.bytes(self.reason_code),
            ),
            res matches Err(DisconnectPacketEncodeError::Common(e)) ==> (if !((self.reason_code
                == DisconnectReasonCode::NormalDisconnection && self.properties.is_empty())
                || self.properties.fits()) || self.properties.bytes(self.reason_code).len() + 7
                > u32::MAX {
                e@ == CommonError::IntOverflow
            } else {
                e@ == CommonError::PacketTooLarge(None)
            }),
    {
        let mut properties_buf = bytes_mut_new();
        self.properties.write_properties(&mut properties_buf, self.reason_code)?;
        let ghost props = self.properties.bytes(self.reason_code);
        assert(bytes_mut_contents(properties_buf) =~= props);

        let props_len = bytes_mut_len(&properties_buf);
        if props_len > 0xFFFF_FFF8 {
            return Err(DisconnectPacketEncodeError::Common(CommonPacketError::IntOverflow));
        }
        let properties_len = encode_variable_byte_int(props_len as u32);
        proof {
            lemma_vbi_encode_u32_len(props_len as u32);
            lemma_disconnect_properties_len(&self.properties, self.reason_code);
        }

        let mut buf = bytes_mut_new();

        // Fixed header
        assert((DISCONNECT_PACKET_TYPE << 4) == 0xE0) by (bit_vector);
        put_u8(&mut buf, DISCONNECT_PACKET_TYPE << 4);

        // Remaining length: reason code + properties len + properties
        let remaining_len = 1 + properties_len.len() + props_len;
        if let Err(e) = write_usize_as_var_int(&mut buf, remaining_len) {
            return Err(DisconnectPacketEncodeError::Common(e));
        }
        proof {
            lemma_vbi_encode_u32_len(remaining_len as u32);
        }

        // Reason code
        put_u8(&mut buf, self.reason_code.to_u8());

        // Properties
        put_slice(&mut buf, properties_len.as_slice());
        put_slice(&mut buf, bytes_mut_as_slice(&properties_buf));
        assert(bytes_mut_contents(buf) =~= disconnect_bytes(
            disconnect_reason_number(self.reason_code),
            props,
        ));

        if bytes_mut_len(&buf) > MAX_PACKET_SIZE {
            return Err(
                DisconnectPacketEncodeError::Common(CommonPacketError::PacketTooLarge(None)),
            );
        }

        Ok(buf)
    }

    /// Starts building a DISCONNECT packet: the reason code comes first.
    pub fn builder() -> (res: DisconnectPacketBuilder<NeedsReasonCode>) {
        DisconnectPacketBuilder(NeedsReasonCode(()))
    }
}

/// The bytes of the properties that get written take at most the size
/// bound.
proof fn lemma_disconnect_properties_len(p: &DisconnectPacketProperties, reason: DisconnectReasonCode)
    requires
        (reason == DisconnectReasonCode::NormalDisconnection && p.is_empty()) || p.fits(),
    ensures
        p.bytes(reason).len() <= p.size_bound(),
{
    if !(reason == DisconnectReasonCode::NormalDisconnection && p.is_empty()) {
        if p.user_properties is Some {
            lemma_user_properties_bytes_len(
                USER_PROPERTY_IDENTIFIER,
                user_properties_of(p.user_properties),
            );
        } else {
            assert(user_properties_bytes(
                USER_PROPERTY_IDENTIFIER,
                user_properties_of(p.user_properties),
            ) =~= Seq::<u8>::empty());
        }
    }
}

/// Builds a DISCONNECT packet step by step; `State` says which step is next.
pub struct DisconnectPacketBuilder<State>(State);

/// The reason code is still to be given.
pub struct NeedsReasonCode(());

/// Everything needed is given; a reason string may still be added.
pub struct ReadyToBuild {
    reason_code: DisconnectReasonCode,
    reason_string: Option<String>,
}

impl DisconnectPacketBuilder<NeedsReasonCode> {
    /// Gives the reason code.
    pub fn reason_code(self, reason_code: DisconnectReasonCode) -> (res: DisconnectPacketBuilder<
        ReadyToBuild,
    >)
        ensures
            res.given_reason_code() == reason_code,
            res.given_reason_string() is None,
    {
        DisconnectPacketBuilder(ReadyToBuild { reason_code, reason_string: None })
    }
}

impl DisconnectPacketBuilder<ReadyToBuild> {
    /// The reason code given.
    pub closed spec fn given_reason_code(&self) -> DisconnectReasonCode {
        self.0.reason_code
    }

    /// The reason string given, if any.
    pub closed spec fn given_reason_string(&self) -> Option<Seq<char>> {
        opt_text(self.0.reason_string)
    }

    /// Adds a human readable reason string.
    pub fn reason_string(self, reason_string: String) -> (res: DisconnectPacketBuilder<ReadyToBuild>)
        ensures
            res.given_reason_code() == self.given_reason_code(),
            res.given_reason_string() == Some(reason_string@),
    {
        DisconnectPacketBuilder(
            ReadyToBuild { reason_code: self.0.reason_code, reason_string: Some(reason_string) },
        )
    }

    /// Builds the packet: the given reason code and reason string, and no
    /// other property.
    pub fn build(self) -> (res: DisconnectPacket)
        ensures
            res.reason_code == self.given_reason_code(),
            opt_text(res.properties.reason_string) == self.given_reason_string(),
            res.properties.session_expiry_interval is None,
            res.properties.user_properties is None,
            res.properties.server_reference is None,
            res.properties.well_formed(),
    {
        DisconnectPacket {
            reason_code: self.0.reason_code,
            properties: DisconnectPacketProperties {
                session_expiry_interval: None,
                reason_string: self.0.reason_string,
                user_properties: None,
                server_reference: None,
            },
        }
    }
}

/// Reading back the bytes of a DISCONNECT packet of at most
/// `MAX_PACKET_SIZE` bytes gives its reason code: the fixed header is
/// accepted, the remaining length reads back as the number of bytes after
/// it, the byte after it is the reason code, and the body decodes to the
/// reason code, whatever the property bytes are and whatever bytes follow
/// the packet.
#[verifier::spinoff_prover]
pub proof fn lemma_disconnect_round_trip(
    reason_code: DisconnectReasonCode,
    properties: Seq<u8>,
    rest: Seq<u8>,
)
    requires
        disconnect_bytes(disconnect_reason_number(reason_code), properties).len()
            <= MAX_PACKET_SIZE,
    ensures
        ({
            let packet = disconnect_bytes(disconnect_reason_number(reason_code), properties);
            let data = packet + rest;
            let remaining_len = 1 + vbi_encode(properties.len()).len() + properties.len();
            &&& DisconnectPacket::accepts_header(data[0])
            &&& read_var_int(data, 1) == VarIntRead::Value(remaining_len, vbi_len(remaining_len))
            &&& packet.len() == 1 + vbi_len(remaining_len) + remaining_len
            &&& data[(1 + vbi_len(remaining_len)) as int] == disconnect_reason_number(reason_code)
            &&& disconnect_decoding(data, (1 + vbi_len(remaining_len)) as int, remaining_len)
                == Some(
                Ok::<DisconnectReasonCode, CommonError>(reason_code),
            )
        }),
{
    let number = disconnect_reason_number(reason_code);
    let pl = properties.len();
    let rl0 = 1 + vbi_encode(pl).len() + pl;
    assert(vbi_encode(rl0).len() >= 1) by {
        reveal_with_fuel(vbi_encode, 2);
    }
    assert(pl < 268_435_456);
    assert(1 <= vbi_encode(pl).len() <= 4) by {
        reveal_with_fuel(pow128, 5);
        lemma_vbi_encode_len(pl, 4);
    }
    let rl = 1 + vbi_encode(pl).len() + pl;
    let data = disconnect_bytes(number, properties) + rest;
    let head = seq![0xE0u8];
    let tail = seq![number] + vbi_encode(pl) + properties + rest;
    assert(data =~= head + (vbi_encode(rl) + tail));
    lemma_read_var_int_shift(head, vbi_encode(rl) + tail, 0);
    lemma_variable_byte_int_round_trip(rl, tail);
    let pos: int = (1 + vbi_len(rl)) as int;
    let pre = head + vbi_encode(rl) + seq![number];
    let after = properties + rest;
    assert(data[pos] == number);
    assert(data =~= pre + (vbi_encode(pl) + after));
    assert(read_var_int(data, pos + 1) == VarIntRead::Value(pl, vbi_len(pl)) && vbi_len(pl)
        == vbi_encode(pl).len()) by {
        lemma_read_var_int_shift(pre, vbi_encode(pl) + after, 0);
        lemma_variable_byte_int_round_trip(pl, after);
    }
    assert(is_disconnect_reason_number(number) && disconnect_reason_of(number) == reason_code)
        by {
        lemma_disconnect_reason_round_trip(reason_code);
    }
    assert(data.len() >= pos + 1 + vbi_len(pl) + pl);
    assert(data[0] == 0xE0);
}

/// The byte that each DISCONNECT reason code is written as and read from on
/// the wire, as the MQTT 5 table of disconnect reason codes gives it:
/// `NormalDisconnection` is 0x00, `UnspecifiedError` 0x80,
/// `ImplementationSpecificError` 0x83, and so on; and the bytes that stand
/// for a reason code are exactly these. With `from_u8`, `to_u8`, `encode`
/// and the decoder, whose contracts go through `disconnect_reason_number`,
/// this fixes what each reason byte decodes to and is encoded from.
pub proof fn lemma_disconnect_reason_code_bytes()
    ensures
        disconnect_reason_number(DisconnectReasonCode::NormalDisconnection) == 0x00,
        disconnect_reason_number(DisconnectReasonCode::DisconnectWithWillMessage) == 0x04,
        disconnect_reason_number(DisconnectReasonCode::UnspecifiedError) == 0x80,
        disconnect_reason_number(DisconnectReasonCode::MalformedPacket) == 0x81,
        disconnect_reason_number(DisconnectReasonCode::ProtocolError) == 0x82,
        disconnect_reason_number(DisconnectReasonCode::ImplementationSpecificError) == 0x83,
        disconnect_reason_number(DisconnectReasonCode::NotAuthorized) == 0x87,
        disconnect_reason_number(DisconnectReasonCode::ServerBusy) == 0x89,
        disconnect_reason_number(DisconnectReasonCode::ServerShuttingDown) == 0x8B,
        disconnect_reason_number(DisconnectReasonCode::KeepAliveTimeout) == 0x8D,
        disconnect_reason_number(DisconnectReasonCode::SessionTakenOver) == 0x8E,
        disconnect_reason_number(DisconnectReasonCode::TopicFilterInvalid) == 0x8F,
        disconnect_reason_number(DisconnectReasonCode::TopicNameInvalid) == 0x90,
        disconnect_reason_number(DisconnectReasonCode::ReceiveMaximumExceeded) == 0x93,
        disconnect_reason_number(DisconnectReasonCode::TopicAliasInvalid) == 0x94,
        disconnect_reason_number(DisconnectReasonCode::PacketTooLarge) == 0x95,
        disconnect_reason_number(DisconnectReasonCode::MessageRateTooHigh) == 0x96,
        disconnect_reason_number(DisconnectReasonCode::QuotaExceeded) == 0x97,
        disconnect_reason_number(DisconnectReasonCode::AdministrativeAction) == 0x98,
        disconnect_reason_number(DisconnectReasonCode::PayloadFormatInvalid) == 0x99,
        disconnect_reason_number(DisconnectReasonCode::RetainNotSupported) == 0x9A,
        disconnect_reason_number(DisconnectReasonCode::QosNotSupported) == 0x9B,
        disconnect_reason_number(DisconnectReasonCode::UseAnotherServer) == 0x9C,
        disconnect_reason_number(DisconnectReasonCode::ServerMoved) == 0x9D,
        disconnect_reason_number(DisconnectReasonCode::SharedSubscriptionsNotSupported) == 0x9E,
        disconnect_reason_number(DisconnectReasonCode::ConnectionRateExceeded) == 0x9F,
        disconnect_reason_number(DisconnectReasonCode::MaximumConnectTime) == 0xA0,
        disconnect_reason_number(DisconnectReasonCode::SubscriptionIdentifiersNotSupported) == 0xA1,
        disconnect_reason_number(DisconnectReasonCode::WildcardSubscriptionsNotSupported) == 0xA2,
        forall|v: u8|
            is_disconnect_reason_number(v) <==> (v == 0x00 || v == 0x04 || v == 0x80 || v == 0x81 || v == 0x82 ||
                v == 0x83 || v == 0x87 || v == 0x89 || v == 0x8B || v == 0x8D ||
                v == 0x8E || v == 0x8F || v == 0x90 || v == 0x93 || v == 0x94 ||
                v == 0x95 || v == 0x96 || v == 0x97 || v == 0x98 || v == 0x99 ||
                v == 0x9A || v == 0x9B || v == 0x9C || v == 0x9D || v == 0x9E ||
                v == 0x9F || v == 0xA0 || v == 0xA1 || v == 0xA2),
{
    assert forall|v: u8| is_disconnect_reason_number(v) implies (v == 0x00 || v == 0x04 || v == 0x80 || v == 0x81 || v == 0x82 ||
                v == 0x83 || v == 0x87 || v == 0x89 || v == 0x8B || v == 0x8D ||
                v == 0x8E || v == 0x8F || v == 0x90 || v == 0x93 || v == 0x94 ||
                v == 0x95 || v == 0x96 || v == 0x97 || v == 0x98 || v == 0x99 ||
                v == 0x9A || v == 0x9B || v == 0x9C || v == 0x9D || v == 0x9E ||
                v == 0x9F || v == 0xA0 || v == 0xA1 || v == 0xA2) by {
        let c = choose|c: DisconnectReasonCode| disconnect_reason_number(c) == v;
        match c {
            DisconnectReasonCode::NormalDisconnection => {},
            DisconnectReasonCode::DisconnectWithWillMessage => {},
            DisconnectReasonCode::UnspecifiedError => {},
            DisconnectReasonCode::MalformedPacket => {},
            DisconnectReasonCode::ProtocolError => {},
            DisconnectReasonCode::ImplementationSpecificError => {},
            DisconnectReasonCode::NotAuthorized => {},
            DisconnectReasonCode::ServerBusy => {},
            DisconnectReasonCode::ServerShuttingDown => {},
            DisconnectReasonCode::KeepAliveTimeout => {},
            DisconnectReasonCode::SessionTakenOver => {},
            DisconnectReasonCode::TopicFilterInvalid => {},
            DisconnectReasonCode::TopicNameInvalid => {},
            DisconnectReasonCode::ReceiveMaximumExceeded => {},
            DisconnectReasonCode::TopicAliasInvalid => {},
            DisconnectReasonCode::PacketTooLarge => {},
            DisconnectReasonCode::MessageRateTooHigh => {},
            DisconnectReasonCode::QuotaExceeded => {},
            DisconnectReasonCode::AdministrativeAction => {},
            DisconnectReasonCode::PayloadFormatInvalid => {},
            DisconnectReasonCode::RetainNotSupported => {},
            DisconnectReasonCode::QosNotSupported => {},
            DisconnectReasonCode::UseAnotherServer => {},
            DisconnectReasonCode::ServerMoved => {},
            DisconnectReasonCode::SharedSubscriptionsNotSupported => {},
            DisconnectReasonCode::ConnectionRateExceeded => {},
            DisconnectReasonCode::MaximumConnectTime => {},
            DisconnectReasonCode::SubscriptionIdentifiersNotSupported => {},
            DisconnectReasonCode::WildcardSubscriptionsNotSupported => {},
        }
    }
    assert forall|v: u8| (v == 0x00 || v == 0x04 || v == 0x80 || v == 0x81 || v == 0x82 ||
                v == 0x83 || v == 0x87 || v == 0x89 || v == 0x8B || v == 0x8D ||
                v == 0x8E || v == 0x8F || v == 0x90 || v == 0x93 || v == 0x94 ||
                v == 0x95 || v == 0x96 || v == 0x97 || v == 0x98 || v == 0x99 ||
                v == 0x9A || v == 0x9B || v == 0x9C || v == 0x9D || v == 0x9E ||
                v == 0x9F || v == 0xA0 || v == 0xA1 || v == 0xA2) implies is_disconnect_reason_number(v) by {
        if v == 0x00 {
            assert(disconnect_reason_number(DisconnectReasonCode::NormalDisconnection) == v);
        }
        if v == 0x04 {
            assert(disconnect_reason_number(DisconnectReasonCode::DisconnectWithWillMessage) == v);
        }
        if v == 0x80 {
            assert(disconnect_reason_number(DisconnectReasonCode::UnspecifiedError) == v);
        }
        if v == 0x81 {
            assert(disconnect_reason_number(DisconnectReasonCode::MalformedPacket) == v);
        }
        if v == 0x82 {
            assert(disconnect_reason_number(DisconnectReasonCode::ProtocolError) == v);
        }
        if v == 0x83 {
            assert(disconnect_reason_number(DisconnectReasonCode::ImplementationSpecificError) == v);
        }
        if v == 0x87 {
            assert(disconnect_reason_number(DisconnectReasonCode::NotAuthorized) == v);
        }
        if v == 0x89 {
            assert(disconnect_reason_number(DisconnectReasonCode::ServerBusy) == v);
        }
        if v == 0x8B {
            assert(disconnect_reason_number(DisconnectReasonCode::ServerShuttingDown) == v);
        }
        if v == 0x8D {
            assert(disconnect_reason_number(DisconnectReasonCode::KeepAliveTimeout) == v);
        }
        if v == 0x8E {
            assert(disconnect_reason_number(DisconnectReasonCode::SessionTakenOver) == v);
        }
        if v == 0x8F {
            assert(disconnect_reason_number(DisconnectReasonCode::TopicFilterInvalid) == v);
        }
        if v == 0x90 {
            assert(disconnect_reason_number(DisconnectReasonCode::TopicNameInvalid) == v);
        }
        if v == 0x93 {
            assert(disconnect_reason_number(DisconnectReasonCode::ReceiveMaximumExceeded) == v);
        }
        if v == 0x94 {
            assert(disconnect_reason_number(DisconnectReasonCode::TopicAliasInvalid) == v);
        }
        if v == 0x95 {
            assert(disconnect_reason_number(DisconnectReasonCode::PacketTooLarge) == v);
        }
        if v == 0x96 {
            assert(disconnect_reason_number(DisconnectReasonCode::MessageRateTooHigh) == v);
        }
        if v == 0x97 {
            assert(disconnect_reason_number(DisconnectReasonCode::QuotaExceeded) == v);
        }
        if v == 0x98 {
            assert(disconnect_reason_number(DisconnectReasonCode::AdministrativeAction) == v);
        }
        if v == 0x99 {
            assert(disconnect_reason_number(DisconnectReasonCode::PayloadFormatInvalid) == v);
        }
        if v == 0x9A {
            assert(disconnect_reason_number(DisconnectReasonCode::RetainNotSupported) == v);
        }
        if v == 0x9B {
            assert(disconnect_reason_number(DisconnectReasonCode::QosNotSupported) == v);
        }
        if v == 0x9C {
            assert(disconnect_reason_number(DisconnectReasonCode::UseAnotherServer) == v);
        }
        if v == 0x9D {
            assert(disconnect_reason_number(DisconnectReasonCode::ServerMoved) == v);
        }
        if v == 0x9E {
            assert(disconnect_reason_number(DisconnectReasonCode::SharedSubscriptionsNotSupported) == v);
        }
        if v == 0x9F {
            assert(disconnect_reason_number(DisconnectReasonCode::ConnectionRateExceeded) == v);
        }
        if v == 0xA0 {
            assert(disconnect_reason_number(DisconnectReasonCode::MaximumConnectTime) == v);
        }
        if v == 0xA1 {
            assert(disconnect_reason_number(DisconnectReasonCode::SubscriptionIdentifiersNotSupported) == v);
        }
        if v == 0xA2 {
            assert(disconnect_reason_number(DisconnectReasonCode::WildcardSubscriptionsNotSupported) == v);
        }
    }
}

} // verus!
