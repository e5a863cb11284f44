//! The CONNACK packet: the server's answer to a CONNECT.
use crate::bytes_io::{
    be_u16_bytes, be_u32_bytes, bytes_as_slice, bytes_contents, bytes_mut_as_slice,
    bytes_mut_contents, bytes_mut_len, bytes_mut_new, put_slice, put_u8,
};
use crate::codec::{
    bool_property, encode_variable_byte_int, lemma_user_properties_bytes_len,
    lemma_vbi_encode_u32_len, raw_property, raw_size, string_fits, string_property, string_size,
    u16_property, u32_property, u8_property, user_properties_bytes, user_properties_fit,
    user_property_names_unique,
    user_properties_of, user_properties_size, vbi_encode, write_bool_property, write_raw_property,
    write_string_property, write_u16_property, write_u32_property, write_u8_property,
    write_user_properties, write_usize_as_var_int,
};
use crate::packets::{opt_text, CommonError, CommonPacketError};
use crate::protocol::MAX_PACKET_SIZE;
use bytes::{Bytes, BytesMut};
use vstd::prelude::*;
use vstd::seq_lib::lemma_concat_associative;

verus! {

pub const SESSION_EXPIRY_INTERVAL_IDENTIFIER: u8 = 0x11;

pub const RECEIVE_MAXIMUM_IDENTIFIER: u8 = 0x21;

pub const MAXIMUM_QOS_IDENTIFIER: u8 = 0x24;

pub const RETAIN_AVAILABLE_IDENTIFIER: u8 = 0x25;

pub const MAXIMUM_PACKET_SIZE_IDENTIFIER: u8 = 0x27;

pub const ASSIGNED_CLIENT_IDENTIFIER: u8 = 0x12;

pub const TOPIC_ALIAS_MAXIMUM_IDENTIFIER: u8 = 0x22;

pub const REASON_STRING_IDENTIFIER: u8 = 0x1F;

pub const USER_PROPERTY_IDENTIFIER: u8 = 0x26;

pub const WILDCARD_SUBSCRIPTION_AVAILABLE_IDENTIFIER: u8 = 0x28;

pub const SUBSCRIPTION_IDENTIFIERS_AVAILABLE_IDENTIFIER: u8 = 0x29;

pub const SHARED_SUBSCRIPTION_AVAILABLE_IDENTIFIER: u8 = 0x2A;

pub const SERVER_KEEP_ALIVE_IDENTIFIER: u8 = 0x13;

pub const RESPONSE_INFORMATION_IDENTIFIER: u8 = 0x1A;

pub const SERVER_REFERENCE_IDENTIFIER: u8 = 0x1C;

pub const AUTHENTICATION_METHOD_IDENTIFIER: u8 = 0x15;

pub const AUTHENTICATION_DATA_IDENTIFIER: u8 = 0x16;

/// Identifier of the CONNACK packet type.
pub const CONNACK_PACKET_TYPE: u8 = 0x02;

/// Represents the possible reason codes returned when attempting to connect to an MQTT server.
#[derive(Debug, Clone, Copy, PartialEq, Eq, Structural)]
pub enum ConnectReasonCode {
    /// Success connection is accepted.
    Success,
    /// The server does not wish to reveal the reason for the failure, or none of the other reason codes apply.
    UnspecifiedError,
    /// Data within the connect packet could not be correctly parsed.
    MalformedPacket,
    /// Data in the connect packet does not conform to this specification.
    ProtocolError,
    /// The connect is valid but is not accepted by this server.
    ImplementationSpecificError,
    /// The server does not support the version of the mqtt protocol requested by the client.
    UnsupportedProtocolVersion,
    /// The client identifier is a valid string but is not allowed by the server.
    ClientIdentifierNotValid,
    /// The server does not accept the user name or password specified by the client.
    BadUserNameOrPassword,
    /// The client is not authorized to connect.
    NotAuthorized,
    /// The mqtt server is not available.
    ServerUnavailable,
    /// The server is busy. try again later.
    ServerBusy,
    /// This client has been banned by administrative action. contact the server administrator.
    Banned,
    /// The authentication method is not supported or does not match the authentication method currently in use.
    BadAuthenticationMethod,
    /// The will topic name is not malformed, but is not accepted by this server.
    TopicNameInvalid,
    /// The connect packet exceeded the maximum permissible size.
    PacketTooLarge,
    /// An implementation or administrative imposed limit has been exceeded.
    QuotaExceeded,
    /// The will payload does not match the specified payload format indicator.
    PayloadFormatInvalid,
    /// The server does not support retained messages, and will retain was set to 1.
    RetainNotSupported,
    /// The server does not support the `qos` set in will `qos`.
    QosNotSupported,
    /// The client should temporarily use another server.
    UseAnotherServer,
    /// The client should permanently use another server.
    ServerMoved,
    /// The connection rate limit has been exceeded.
    ConnectionRateExceeded,
}

/// The byte that stands for each connect reason code on the wire.
pub open spec fn connect_reason_number(c: ConnectReasonCode) -> u8 {
    match c {
        ConnectReasonCode::Success => 0x00,
        ConnectReasonCode::UnspecifiedError => 0x80,
        ConnectReasonCode::MalformedPacket => 0x81,
        ConnectReasonCode::ProtocolError => 0x82,
        ConnectReasonCode::ImplementationSpecificError => 0x83,
        ConnectReasonCode::UnsupportedProtocolVersion => 0x84,
        ConnectReasonCode::ClientIdentifierNotValid => 0x85,
        ConnectReasonCode::BadUserNameOrPassword => 0x86,
        ConnectReasonCode::NotAuthorized => 0x87,
        ConnectReasonCode::ServerUnavailable => 0x88,
        ConnectReasonCode::ServerBusy => 0x89,
        ConnectReasonCode::Banned => 0x8A,
        ConnectReasonCode::BadAuthenticationMethod => 0x8C,
        ConnectReasonCode::TopicNameInvalid => 0x90,
        ConnectReasonCode::PacketTooLarge => 0x95,
        ConnectReasonCode::QuotaExceeded => 0x97,
        ConnectReasonCode::PayloadFormatInvalid => 0x99,
        ConnectReasonCode::RetainNotSupported => 0x9A,
        ConnectReasonCode::QosNotSupported => 0x9B,
        ConnectReasonCode::UseAnotherServer => 0x9C,
        ConnectReasonCode::ServerMoved => 0x9D,
        ConnectReasonCode::ConnectionRateExceeded => 0x9F,
    }
}

/// The text of each connect reason code.
pub open spec fn connect_reason_text(c: ConnectReasonCode) -> Seq<char> {
    match c {
        ConnectReasonCode::Success => "Success"@,
        ConnectReasonCode::UnspecifiedError => "Unspecified error"@,
        ConnectReasonCode::MalformedPacket => "Malformed packet"@,
        ConnectReasonCode::ProtocolError => "Protocol error"@,
        ConnectReasonCode::ImplementationSpecificError => "Implementation specific error"@,
        ConnectReasonCode::UnsupportedProtocolVersion => "Unsupported protocol version"@,
        ConnectReasonCode::ClientIdentifierNotValid => "Client identifier not valid"@,
        ConnectReasonCode::BadUserNameOrPassword => "Bad user name or password"@,
        ConnectReasonCode::NotAuthorized => "Not authorized"@,
        ConnectReasonCode::ServerUnavailable => "Server unavailable"@,
        ConnectReasonCode::ServerBusy => "Server busy"@,
        ConnectReasonCode::Banned => "Banned"@,
        ConnectReasonCode::BadAuthenticationMethod => "Bad authentication method"@,
        ConnectReasonCode::TopicNameInvalid => "Topic name invalid"@,
        ConnectReasonCode::PacketTooLarge => "Packet too large"@,
        ConnectReasonCode::QuotaExceeded => "Quota exceeded"@,
        ConnectReasonCode::PayloadFormatInvalid => "Payload format invalid"@,
        ConnectReasonCode::RetainNotSupported => "Retain not supported"@,
        ConnectReasonCode::QosNotSupported => "QoS not supported"@,
        ConnectReasonCode::UseAnotherServer => "Use another server"@,
        ConnectReasonCode::ServerMoved => "Server moved"@,
        ConnectReasonCode::ConnectionRateExceeded => "Connection rate exceeded"@,
    }
}

impl ConnectReasonCode {
    /// The byte that stands for the reason code on the wire.
    pub fn to_u8(self) -> (res: u8)
        ensures
            res == connect_reason_number(self),
    {
        match self {
            Self::Success => 0x00,
            Self::UnspecifiedError => 0x80,
            Self::MalformedPacket => 0x81,
            Self::ProtocolError => 0x82,
            Self::ImplementationSpecificError => 0x83,
            Self::UnsupportedProtocolVersion => 0x84,
            Self::ClientIdentifierNotValid => 0x85,
            Self::BadUserNameOrPassword => 0x86,
            Self::NotAuthorized => 0x87,
            Self::ServerUnavailable => 0x88,
            Self::ServerBusy => 0x89,
            Self::Banned => 0x8A,
            Self::BadAuthenticationMethod => 0x8C,
            Self::TopicNameInvalid => 0x90,
            Self::PacketTooLarge => 0x95,
            Self::QuotaExceeded => 0x97,
            Self::PayloadFormatInvalid => 0x99,
            Self::RetainNotSupported => 0x9A,
            Self::QosNotSupported => 0x9B,
            Self::UseAnotherServer => 0x9C,
            Self::ServerMoved => 0x9D,
            Self::ConnectionRateExceeded => 0x9F,
        }
    }

    /// The text that the reason code shows to a reader.
    pub fn describe(&self) -> (res: &'static str)
        ensures
            res@ == connect_reason_text(*self),
    {
        match self {
            Self::Success => "Success",
            Self::UnspecifiedError => "Unspecified error",
            Self::MalformedPacket => "Malformed packet",
            Self::ProtocolError => "Protocol error",
            Self::ImplementationSpecificError => "Implementation specific error",
            Self::UnsupportedProtocolVersion => "Unsupported protocol version",
            Self::ClientIdentifierNotValid => "Client identifier not valid",
            Self::BadUserNameOrPassword => "Bad user name or password",
            Self::NotAuthorized => "Not authorized",
            Self::ServerUnavailable => "Server unavailable",
            Self::ServerBusy => "Server busy",
            Self::Banned => "Banned",
            Self::BadAuthenticationMethod => "Bad authentication method",
            Self::TopicNameInvalid => "Topic name invalid",
            Self::PacketTooLarge => "Packet too large",
            Self::QuotaExceeded => "Quota exceeded",
            Self::PayloadFormatInvalid => "Payload format invalid",
            Self::RetainNotSupported => "Retain not supported",
            Self::QosNotSupported => "QoS not supported",
            Self::UseAnotherServer => "Use another server",
            Self::ServerMoved => "Server moved",
            Self::ConnectionRateExceeded => "Connection rate exceeded",
        }
    }
}

/// Different connect reason codes stand for different bytes.
pub proof fn lemma_connect_reason_number_injective(a: ConnectReasonCode, b: ConnectReasonCode)
    ensures
        connect_reason_number(a) == connect_reason_number(b) ==> a == b,
{
}

/// The CONNACK packet is the packet sent by the Server in response to a CONNECT packet received from a Client.
#[derive(Debug)]
pub struct ConnAckPacket {
    /// It informs the client whether the server is using session state from a previous connection for this client id.
    /// If a server sends a connack packet containing a non-zero reason code it must set session present to 0.
    pub session_present: bool,
    /// If a well formed CONNECT packet is received by the server, but the server is unable to complete the connection the server may send a CONNACK packet containing the appropriate Connect Reason code.
    pub reason_code: ConnectReasonCode,
    /// Connection acknowledgment properties.
    pub properties: ConnAckPacketProperties,
}

/// Errors that encoding a CONNACK packet can run into.
#[derive(Debug)]
pub enum ConnAckPacketEncodeError {
    Common(CommonPacketError),
}

/// Connection acknowledgment properties.
#[derive(Debug)]
pub struct ConnAckPacketProperties {
    /// Session expiry interval in seconds.
    pub session_expiry_interval: Option<u32>,
    /// The Server uses this value to limit the number of `QoS` 1 and `QoS` 2 publications that it is willing to process concurrently for the Client.
    pub receive_maximum: Option<u16>,
    /// If a Server does not support `QoS` 1 or `QoS` 2 PUBLISH packets it MUST send a Maximum `QoS` in the CONNACK packet specifying the highest `QoS` it supports.
    pub maximum_qos: Option<u8>,
    /// It declares whether the Server supports retained messages. If not present, then retained messages are supported.
    pub retain_available: Option<bool>,
    /// The Maximum Packet Size the Server is willing to accept.
    pub maximum_packet_size: Option<u32>,
    /// The Client Identifier which was assigned by the Server because a zero length Client Identifier was found in the CONNECT packet.
    pub assigned_client_identifier: Option<String>,
    /// This value indicates the highest value that the Server will accept as a Topic Alias sent by the Client.
    pub topic_alias_maximum: Option<u16>,
    /// Human readable string designed for diagnostics and SHOULD NOT be parsed by the Client.
    pub reason_string: Option<String>,
    /// User Properties that can be used to provide additional information to the Client including diagnostic information.
    /// No name occurs twice.
    pub user_properties: Option<Vec<(String, String)>>,
    /// Declares whether the Server supports Wildcard Subscriptions.
    pub wildcard_subscription_available: Option<bool>,
    /// Declares whether the Server supports Subscription Identifiers.
    pub subscription_identifiers_available: Option<bool>,
    /// Declares whether the Server supports Shared Subscriptions.
    pub shared_subscription_available: Option<bool>,
    /// If the Server sends a Server Keep Alive on the CONNACK packet, the Client MUST use this value instead of the Keep Alive value the Client sent on CONNECT.
    pub server_keep_alive: Option<u16>,
    /// Basis for creating a Response Topic.
    pub response_information: Option<String>,
    /// It can be used by the Client to identify another Server to use.
    pub server_reference: Option<String>,
    /// It contains the name of the authentication method.
    pub authentication_method: Option<String>,
    /// The contents of this data are defined by the authentication method.
    pub authentication_data: Option<Bytes>,
}

impl ConnAckPacketProperties {
    /// Whether the properties are well formed: no user property name
    /// occurs twice.
    pub open spec fn well_formed(&self) -> bool {
        user_property_names_unique(user_properties_of(self.user_properties))
    }

    /// Whether every string in the properties fits in a UTF-8 string field.
    pub open spec fn fits(&self) -> bool {
        &&& string_fits(self.assigned_client_identifier)
        &&& string_fits(self.reason_string)
        &&& user_properties_fit(user_properties_of(self.user_properties))
        &&& string_fits(self.response_information)
        &&& string_fits(self.server_reference)
        &&& string_fits(self.authentication_method)
    }

    /// An upper bound on the bytes that writing the properties takes.
    pub open spec fn size_bound(&self) -> nat {
        64 + string_size(self.assigned_client_identifier) + string_size(self.reason_string)
            + user_properties_size(user_properties_of(self.user_properties)) + string_size(
            self.response_information,
        ) + string_size(self.server_reference) + string_size(self.authentication_method)
            + raw_size(self.authentication_data)
    }

    /// The bytes of the properties, in the order they are written.
    pub open spec fn bytes(&self) -> Seq<u8> {
        u32_property(SESSION_EXPIRY_INTERVAL_IDENTIFIER, self.session_expiry_interval)
            + u16_property(RECEIVE_MAXIMUM_IDENTIFIER, self.receive_maximum) + u8_property(
            MAXIMUM_QOS_IDENTIFIER,
            self.maximum_qos,
        ) + bool_property(RETAIN_AVAILABLE_IDENTIFIER, self.retain_available) + u32_property(
            MAXIMUM_PACKET_SIZE_IDENTIFIER,
            self.maximum_packet_size,
        ) + string_property(ASSIGNED_CLIENT_IDENTIFIER, self.assigned_client_identifier)
            + u16_property(TOPIC_ALIAS_MAXIMUM_IDENTIFIER, self.topic_alias_maximum)
            + string_property(REASON_STRING_IDENTIFIER, self.reason_string)
            + user_properties_bytes(
            USER_PROPERTY_IDENTIFIER,
            user_properties_of(self.user_properties),
        ) + bool_property(
            WILDCARD_SUBSCRIPTION_AVAILABLE_IDENTIFIER,
            self.wildcard_subscription_available,
        ) + bool_property(
            SUBSCRIPTION_IDENTIFIERS_AVAILABLE_IDENTIFIER,
            self.subscription_identifiers_available,
        ) + bool_property(
            SHARED_SUBSCRIPTION_AVAILABLE_IDENTIFIER,
            self.shared_subscription_available,
        ) + u16_property(SERVER_KEEP_ALIVE_IDENTIFIER, self.server_keep_alive) + string_property(
            RESPONSE_INFORMATION_IDENTIFIER,
            self.response_information,
        ) + string_property(SERVER_REFERENCE_IDENTIFIER, self.server_reference)
            + string_property(AUTHENTICATION_METHOD_IDENTIFIER, self.authentication_method)
            + raw_property(AUTHENTICATION_DATA_IDENTIFIER, self.authentication_data)
    }
}

impl ConnAckPacketProperties {
    /// Writes the properties that are present into `buf`, each as its
    /// identifier followed by its value, in a fixed order.
    ///
    /// Fails with `IntOverflow` when a string is longer than `65_535` bytes.
    #[verifier::rlimit(100)]
    #[verifier::spinoff_prover]
    pub fn write_properties(&self, buf: &mut BytesMut) -> (res: Result<(), ConnAckPacketEncodeError>)
        requires
            bytes_mut_contents(*old(buf)).len() + self.size_bound() + 200_000 <= isize::MAX,
            self.well_formed(),
        ensures
            res is Ok <==> self.fits(),
            res is Ok ==> bytes_mut_contents(*final(buf)) == bytes_mut_contents(*old(buf))
                + self.bytes(),
            res matches Err(ConnAckPacketEncodeError::Common(e)) ==> e@ == CommonError::IntOverflow,
    {
        let ghost start = bytes_mut_contents(*buf);
        let ghost mut acc: Seq<u8> = Seq::empty();
        assert(bytes_mut_contents(*buf) =~= start + acc);
        write_u32_property(buf, SESSION_EXPIRY_INTERVAL_IDENTIFIER, self.session_expiry_interval);
        proof {
            let piece = u32_property(SESSION_EXPIRY_INTERVAL_IDENTIFIER, self.session_expiry_interval);
            lemma_concat_associative(start, acc, piece);
            assert(acc + piece =~= piece);
            acc = piece;
        }
        write_u16_property(buf, RECEIVE_MAXIMUM_IDENTIFIER, self.receive_maximum);
        proof {
            let piece = u16_property(RECEIVE_MAXIMUM_IDENTIFIER, self.receive_maximum);
            lemma_concat_associative(start, acc, piece);
            acc = acc + piece;
        }
        write_u8_property(buf, MAXIMUM_QOS_IDENTIFIER, self.maximum_qos);
        proof {
            let piece = u8_property(MAXIMUM_QOS_IDENTIFIER, self.maximum_qos);
            lemma_concat_associative(start, acc, piece);
            acc = acc + piece;
        }
        write_bool_property(buf, RETAIN_AVAILABLE_IDENTIFIER, self.retain_available);
        proof {
            let piece = bool_property(RETAIN_AVAILABLE_IDENTIFIER, self.retain_available);
            lemma_concat_associative(start, acc, piece);
            acc = acc + piece;
        }
        write_u32_property(buf, MAXIMUM_PACKET_SIZE_IDENTIFIER, self.maximum_packet_size);
        proof {
            let piece = u32_property(MAXIMUM_PACKET_SIZE_IDENTIFIER, self.maximum_packet_size);
            lemma_concat_associative(start, acc, piece);
            acc = acc + piece;
        }
        assert(acc.len() <= 20);
        if let Err(e) = write_string_property(buf, ASSIGNED_CLIENT_IDENTIFIER, &self.assigned_client_identifier) { return Err(ConnAckPacketEncodeError::Common(e)); }
        proof {
            let piece = string_property(ASSIGNED_CLIENT_IDENTIFIER, self.assigned_client_identifier);
            lemma_concat_associative(start, acc, piece);
            acc = acc + piece;
        }
        write_u16_property(buf, TOPIC_ALIAS_MAXIMUM_IDENTIFIER, self.topic_alias_maximum);
        proof {
            let piece = u16_property(TOPIC_ALIAS_MAXIMUM_IDENTIFIER, self.topic_alias_maximum);
            lemma_concat_associative(start, acc, piece);
            acc = acc + piece;
        }
        if let Err(e) = write_string_property(buf, REASON_STRING_IDENTIFIER, &self.reason_string) { return Err(ConnAckPacketEncodeError::Common(e)); }
        proof {
            let piece = string_property(REASON_STRING_IDENTIFIER, self.reason_string);
            lemma_concat_associative(start, acc, piece);
            acc = acc + piece;
        }
        assert(acc.len() <= 23 + string_size(self.assigned_client_identifier) + string_size(
            self.reason_string,
        ));
        if let Some(user_properties) = &self.user_properties {
            if let Err(e) = write_user_properties(buf, USER_PROPERTY_IDENTIFIER, user_properties) {
                return Err(ConnAckPacketEncodeError::Common(e));
            }
            proof {
                lemma_user_properties_bytes_len(USER_PROPERTY_IDENTIFIER, user_properties@);
            }
        }
        proof {
            let piece = user_properties_bytes(
                USER_PROPERTY_IDENTIFIER,
                user_properties_of(self.user_properties),
            );
            if self.user_properties is None {
                assert(piece =~= Seq::<u8>::empty());
            }
            lemma_concat_associative(start, acc, piece);
            acc = acc + piece;
        }
        assert(acc.len() <= 23 + string_size(self.assigned_client_identifier) + string_size(
            self.reason_string,
        ) + user_properties_size(user_properties_of(self.user_properties)));
        write_bool_property(buf, WILDCARD_SUBSCRIPTION_AVAILABLE_IDENTIFIER, self.wildcard_subscription_available);
        proof {
            let piece = bool_property(WILDCARD_SUBSCRIPTION_AVAILABLE_IDENTIFIER, self.wildcard_subscription_available);
            lemma_concat_associative(start, acc, piece);
            acc = acc + piece;
        }
        write_bool_property(buf, SUBSCRIPTION_IDENTIFIERS_AVAILABLE_IDENTIFIER, self.subscription_identifiers_available);
        proof {
            let piece = bool_property(SUBSCRIPTION_IDENTIFIERS_AVAILABLE_IDENTIFIER, self.subscription_identifiers_available);
            lemma_concat_associative(start, acc, piece);
            acc = acc + piece;
        }
        write_bool_property(buf, SHARED_SUBSCRIPTION_AVAILABLE_IDENTIFIER, self.shared_subscription_available);
        proof {
            let piece = bool_property(SHARED_SUBSCRIPTION_AVAILABLE_IDENTIFIER, self.shared_subscription_available);
            lemma_concat_associative(start, acc, piece);
            acc = acc + piece;
        }
        write_u16_property(buf, SERVER_KEEP_ALIVE_IDENTIFIER, self.server_keep_alive);
        proof {
            let piece = u16_property(SERVER_KEEP_ALIVE_IDENTIFIER, self.server_keep_alive);
            lemma_concat_associative(start, acc, piece);
            acc = acc + piece;
        }
        if let Err(e) = write_string_property(buf, RESPONSE_INFORMATION_IDENTIFIER, &self.response_information) { return Err(ConnAckPacketEncodeError::Common(e)); }
        proof {
            let piece = string_property(RESPONSE_INFORMATION_IDENTIFIER, self.response_information);
            lemma_concat_associative(start, acc, piece);
            acc = acc + piece;
        }
        if let Err(e) = write_string_property(buf, SERVER_REFERENCE_IDENTIFIER, &self.server_reference) { return Err(ConnAckPacketEncodeError::Common(e)); }
        proof {
            let piece = string_property(SERVER_REFERENCE_IDENTIFIER, self.server_reference);
            lemma_concat_associative(start, acc, piece);
            acc = acc + piece;
        }
        if let Err(e) = write_string_property(buf, AUTHENTICATION_METHOD_IDENTIFIER, &self.authentication_method) { return Err(ConnAckPacketEncodeError::Common(e)); }
        proof {
            let piece = string_property(AUTHENTICATION_METHOD_IDENTIFIER, self.authentication_method);
            lemma_concat_associative(start, acc, piece);
            acc = acc + piece;
        }
        write_raw_property(buf, AUTHENTICATION_DATA_IDENTIFIER, &self.authentication_data);
        proof {
            let piece = raw_property(AUTHENTICATION_DATA_IDENTIFIER, self.authentication_data);
            lemma_concat_associative(start, acc, piece);
            acc = acc + piece;
        }
        assert(acc == self.bytes());
        Ok(())
    }
}

/// The bytes of a CONNACK packet with the given flag, reason code and
/// property bytes: the fixed header, the remaining length, the acknowledge
/// flags, the reason code, the property length and the properties.
pub open spec fn connack_bytes(session_present: bool, reason: u8, properties: Seq<u8>) -> Seq<u8> {
    seq![0x20u8] + vbi_encode(
        2 + vbi_encode(properties.len()).len() + properties.len(),
    ) + seq![if session_present { 1u8 } else { 0u8 }, reason] + vbi_encode(properties.len())
        + properties
}

impl ConnAckPacket {
    /// Whether the packet can be encoded: its strings fit and it stays within
    /// the maximum packet size.
    pub open spec fn encodable(&self) -> bool {
        &&& self.properties.fits()
        &&& connack_bytes(
            self.session_present,
            connect_reason_number(self.reason_code),
            self.properties.bytes(),
        ).len() <= MAX_PACKET_SIZE
    }

    /// Encodes the packet: the fixed header, the remaining length, the
    /// acknowledge flags, the reason code and the properties.
    ///
    /// Fails with `IntOverflow` when a property string is longer than
    /// `65_535` bytes, and with `PacketTooLarge` when the packet is larger
    /// than `MAX_PACKET_SIZE`.
    pub fn encode(&self) -> (res: Result<BytesMut, ConnAckPacketEncodeError>)
        requires
            self.properties.size_bound() + 200_000 <= isize::MAX,
            self.properties.well_formed(),
        ensures
            res is Ok <==> self.encodable(),
            res matches Ok(b) ==> bytes_mut_contents(b) == connack_bytes(
                self.session_present,
                connect_reason_number(self.reason_code),
                self.properties.bytes(),
            ),
            res matches Err(ConnAckPacketEncodeError::Common(e)) ==> (if !self.properties.fits()
                || self.properties.bytes().len() + 7 > u32::MAX {
                e@ == CommonError::IntOverflow
            } else {
                e@ == CommonError::PacketTooLarge(None)
            }),
    {
        let mut properties_buf = bytes_mut_new();
        self.properties.write_properties(&mut properties_buf)?;
        let ghost props = self.properties.bytes();
        assert(bytes_mut_contents(properties_buf) =~= props);
        proof {
            lemma_properties_len(&self.properties);
        }

        let props_len = bytes_mut_len(&properties_buf);
        if props_len > 0xFFFF_FFF8 {
            return Err(ConnAckPacketEncodeError::Common(CommonPacketError::IntOverflow));
        }
        let properties_len = encode_variable_byte_int(props_len as u32);
        proof {
            lemma_vbi_encode_u32_len(props_len as u32);
        }

        let mut buf = bytes_mut_new();

        // Fixed header
        assert((CONNACK_PACKET_TYPE << 4) == 0x20) by (bit_vector);
        put_u8(&mut buf, CONNACK_PACKET_TYPE << 4);

        // Remaining length: acknowledge flags + reason code + properties len + properties
        let remaining_len = 2 + properties_len.len() + props_len;
        if let Err(e) = write_usize_as_var_int(&mut buf, remaining_len) {
            return Err(ConnAckPacketEncodeError::Common(e));
        }
        proof {
            lemma_vbi_encode_u32_len(remaining_len as u32);
        }
        assert(bytes_mut_contents(buf) =~= seq![0x20u8] + vbi_encode(
            2 + vbi_encode(props.len()).len() + props.len(),
        ));

        // Acknowledge flags
        put_u8(&mut buf, if self.session_present { 1 } else { 0 });

        // Reason code
        put_u8(&mut buf, self.reason_code.to_u8());

        // Properties
        put_slice(&mut buf, properties_len.as_slice());
        put_slice(&mut buf, bytes_mut_as_slice(&properties_buf));
        assert(bytes_mut_contents(buf) =~= connack_bytes(
            self.session_present,
            connect_reason_number(self.reason_code),
            props,
        ));

        if bytes_mut_len(&buf) > MAX_PACKET_SIZE {
            return Err(
                ConnAckPacketEncodeError::Common(CommonPacketError::PacketTooLarge(None)),
            );
        }

        Ok(buf)
    }
}

impl ConnAckPacket {
    /// Starts building a CONNACK packet: the session present flag comes
    /// first, then the reason code.
    pub fn builder() -> (res: ConnAckPacketBuilder<NeedsSessionPresent>) {
        ConnAckPacketBuilder(NeedsSessionPresent(()))
    }
}

/// Builds a CONNACK packet step by step; `State` says which step is next.
pub struct ConnAckPacketBuilder<State>(State);

/// The session present flag is still to be given.
pub struct NeedsSessionPresent(());

/// The reason code is still to be given.
pub struct NeedsReasonCode {
    session_present: bool,
}

/// Everything needed is given; a reason string may still be added.
pub struct ReadyToBuild {
    session_present: bool,
    reason_code: ConnectReasonCode,
    reason_string: Option<String>,
}

impl ConnAckPacketBuilder<NeedsSessionPresent> {
    /// Gives the session present flag.
    pub fn session_present(self, session_present: bool) -> (res: ConnAckPacketBuilder<
        NeedsReasonCode,
    >)
        ensures
            res.given_session_present() == session_present,
    {
        ConnAckPacketBuilder(NeedsReasonCode { session_present })
    }
}

impl ConnAckPacketBuilder<NeedsReasonCode> {
    /// The session present flag given so far.
    pub closed spec fn given_session_present(&self) -> bool {
        self.0.session_present
    }

    /// Gives the reason code.
    pub fn reason_code(self, reason_code: ConnectReasonCode) -> (res: ConnAckPacketBuilder<
        ReadyToBuild,
    >)
        ensures
            res.given_session_present() == self.given_session_present(),
            res.given_reason_code() == reason_code,
            res.given_reason_string() is None,
    {
        ConnAckPacketBuilder(
            ReadyToBuild { session_present: self.0.session_present, reason_code, reason_string: None },
        )
    }
}

impl ConnAckPacketBuilder<ReadyToBuild> {
    /// The session present flag given.
    pub closed spec fn given_session_present(&self) -> bool {
        self.0.session_present
    }

    /// The reason code given.
    pub closed spec fn given_reason_code(&self) -> ConnectReasonCode {
        self.0.reason_code
    }

    /// The reason string given, if any.
    pub closed spec fn given_reason_string(&self) -> Option<Seq<char>> {
        opt_text(self.0.reason_string)
    }

    /// Adds a human readable reason string.
    pub fn reason_string(self, reason_string: String) -> (res: ConnAckPacketBuilder<ReadyToBuild>)
        ensures
            res.given_session_present() == self.given_session_present(),
            res.given_reason_code() == self.given_reason_code(),
            res.given_reason_string() == Some(reason_string@),
    {
        ConnAckPacketBuilder(
            ReadyToBuild {
                session_present: self.0.session_present,
                reason_code: self.0.reason_code,
                reason_string: Some(reason_string),
            },
        )
    }

    /// Builds the packet: the given reason code and reason string, and a
    /// topic alias maximum of `65_535`; no other property. The session is
    /// present only where it was given so and the reason code is `Success`:
    /// a failure reason code comes with session present 0.
    pub fn build(self) -> (res: ConnAckPacket)
        ensures
            res.session_present == (self.given_session_present() && self.given_reason_code()
                == ConnectReasonCode::Success),
            res.reason_code == self.given_reason_code(),
            opt_text(res.properties.reason_string) == self.given_reason_string(),
            res.properties.topic_alias_maximum == Some(0xFFFFu16),
            res.properties.only_reason_and_alias(),
            res.properties.well_formed(),
    {
        let session_present = self.0.session_present && self.0.reason_code
            == ConnectReasonCode::Success;
        ConnAckPacket {
            session_present,
            reason_code: self.0.reason_code,
            properties: ConnAckPacketProperties {
                session_expiry_interval: None,
                receive_maximum: None,
                maximum_qos: None,
                retain_available: None,
                maximum_packet_size: None,
                assigned_client_identifier: None,
                topic_alias_maximum: Some(0xFFFF),
                reason_string: self.0.reason_string,
                user_properties: None,
                wildcard_subscription_available: None,
                subscription_identifiers_available: None,
                shared_subscription_available: None,
                server_keep_alive: None,
                response_information: None,
                server_reference: None,
                authentication_method: None,
                authentication_data: None,
            },
        }
    }
}

impl ConnAckPacketProperties {
    /// Whether no property is present but the topic alias maximum and the
    /// reason string.
    pub open spec fn only_reason_and_alias(&self) -> bool {
        &&& self.session_expiry_interval is None
        &&& self.receive_maximum is None
        &&& self.maximum_qos is None
        &&& self.retain_available is None
        &&& self.maximum_packet_size is None
        &&& self.assigned_client_identifier is None
        &&& self.user_properties is None
        &&& self.wildcard_subscription_available is None
        &&& self.subscription_identifiers_available is None
        &&& self.shared_subscription_available is None
        &&& self.server_keep_alive is None
        &&& self.response_information is None
        &&& self.server_reference is None
        &&& self.authentication_method is None
        &&& self.authentication_data is None
    }
}

/// The bytes of an optional string property that fits take at most its
/// size.
proof fn lemma_string_property_len(id: u8, v: Option<String>)
    requires
        string_fits(v),
    ensures
        string_property(id, v).len() <= string_size(v),
{
}

/// The bytes of properties whose strings fit take at most the size bound.
#[verifier::spinoff_prover]
proof fn lemma_properties_len(p: &ConnAckPacketProperties)
    requires
        p.fits(),
    ensures
        p.bytes().len() <= p.size_bound(),
{
    let s1 = u32_property(SESSION_EXPIRY_INTERVAL_IDENTIFIER, p.session_expiry_interval);
    let s2 = u16_property(RECEIVE_MAXIMUM_IDENTIFIER, p.receive_maximum);
    let s3 = u8_property(MAXIMUM_QOS_IDENTIFIER, p.maximum_qos);
    let s4 = bool_property(RETAIN_AVAILABLE_IDENTIFIER, p.retain_available);
    let s5 = u32_property(MAXIMUM_PACKET_SIZE_IDENTIFIER, p.maximum_packet_size);
    let s6 = string_property(ASSIGNED_CLIENT_IDENTIFIER, p.assigned_client_identifier);
    let s7 = u16_property(TOPIC_ALIAS_MAXIMUM_IDENTIFIER, p.topic_alias_maximum);
    let s8 = string_property(REASON_STRING_IDENTIFIER, p.reason_string);
    let s9 = user_properties_bytes(USER_PROPERTY_IDENTIFIER, user_properties_of(p.user_properties));
    let s10 = bool_property(WILDCARD_SUBSCRIPTION_AVAILABLE_IDENTIFIER, p.wildcard_subscription_available);
    let s11 = bool_property(SUBSCRIPTION_IDENTIFIERS_AVAILABLE_IDENTIFIER, p.subscription_identifiers_available);
    let s12 = bool_property(SHARED_SUBSCRIPTION_AVAILABLE_IDENTIFIER, p.shared_subscription_available);
    let s13 = u16_property(SERVER_KEEP_ALIVE_IDENTIFIER, p.server_keep_alive);
    let s14 = string_property(RESPONSE_INFORMATION_IDENTIFIER, p.response_information);
    let s15 = string_property(SERVER_REFERENCE_IDENTIFIER, p.server_reference);
    let s16 = string_property(AUTHENTICATION_METHOD_IDENTIFIER, p.authentication_method);
    let s17 = raw_property(AUTHENTICATION_DATA_IDENTIFIER, p.authentication_data);
    assert(p.bytes() == s1 + s2 + s3 + s4 + s5 + s6 + s7 + s8 + s9 + s10 + s11 + s12 + s13 + s14
        + s15 + s16 + s17);
    lemma_string_property_len(ASSIGNED_CLIENT_IDENTIFIER, p.assigned_client_identifier);
    lemma_string_property_len(REASON_STRING_IDENTIFIER, p.reason_string);
    lemma_string_property_len(RESPONSE_INFORMATION_IDENTIFIER, p.response_information);
    lemma_string_property_len(SERVER_REFERENCE_IDENTIFIER, p.server_reference);
    lemma_string_property_len(AUTHENTICATION_METHOD_IDENTIFIER, p.authentication_method);
    if p.user_properties is Some {
        lemma_user_properties_bytes_len(
            USER_PROPERTY_IDENTIFIER,
            user_properties_of(p.user_properties),
        );
    } else {
        assert(s9 =~= Seq::<u8>::empty());
    }
    assert(s1.len() <= 5 && s2.len() <= 3 && s3.len() <= 2 && s4.len() <= 2 && s5.len() <= 5
        && s7.len() <= 3 && s10.len() <= 2 && s11.len() <= 2 && s12.len() <= 2 && s13.len() <= 3);
    assert(s17.len() == raw_size(p.authentication_data));
}

/// The byte that each CONNACK reason code is written as on the wire, as the
/// MQTT 5 table of connect reason codes gives it: `Success` is 0x00, the
/// failures run from 0x80 (`UnspecifiedError`) up, `BadUserNameOrPassword`
/// is 0x86 and `ServerUnavailable` 0x88. With `to_u8` and `encode`, whose
/// contracts write `connect_reason_number`, this fixes every reason byte
/// that a CONNACK packet carries.
pub proof fn lemma_connect_reason_code_bytes()
    ensures
        connect_reason_number(ConnectReasonCode::Success) == 0x00,
        connect_reason_number(ConnectReasonCode::UnspecifiedError) == 0x80,
        connect_reason_number(ConnectReasonCode::MalformedPacket) == 0x81,
        connect_reason_number(ConnectReasonCode::ProtocolError) == 0x82,
        connect_reason_number(ConnectReasonCode::ImplementationSpecificError) == 0x83,
        connect_reason_number(ConnectReasonCode::UnsupportedProtocolVersion) == 0x84,
        connect_reason_number(ConnectReasonCode::ClientIdentifierNotValid) == 0x85,
        connect_reason_number(ConnectReasonCode::BadUserNameOrPassword) == 0x86,
        connect_reason_number(ConnectReasonCode::NotAuthorized) == 0x87,
        connect_reason_number(ConnectReasonCode::ServerUnavailable) == 0x88,
        connect_reason_number(ConnectReasonCode::ServerBusy) == 0x89,
        connect_reason_number(ConnectReasonCode::Banned) == 0x8A,
        connect_reason_number(ConnectReasonCode::BadAuthenticationMethod) == 0x8C,
        connect_reason_number(ConnectReasonCode::TopicNameInvalid) == 0x90,
        connect_reason_number(ConnectReasonCode::PacketTooLarge) == 0x95,
        connect_reason_number(ConnectReasonCode::QuotaExceeded) == 0x97,
        connect_reason_number(ConnectReasonCode::PayloadFormatInvalid) == 0x99,
        connect_reason_number(ConnectReasonCode::RetainNotSupported) == 0x9A,
        connect_reason_number(ConnectReasonCode::QosNotSupported) == 0x9B,
        connect_reason_number(ConnectReasonCode::UseAnotherServer) == 0x9C,
        connect_reason_number(ConnectReasonCode::ServerMoved) == 0x9D,
        connect_reason_number(ConnectReasonCode::ConnectionRateExceeded) == 0x9F,
{
}

} // verus!
