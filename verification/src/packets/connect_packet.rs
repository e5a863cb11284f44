//! The CONNECT packet: the first packet a client sends.
use crate::bytes_io::{
    be_u16_bytes, be_u16_value, bytes_mut_contents, cursor_advance, cursor_data, cursor_get_u16, cursor_get_u8,
    cursor_pos, cursor_remaining,
};
use crate::text::{all_alphanumeric, chars_all_alphanumeric, decimal_text, u8_to_string};
use crate::codec::{
    decode_binary_data, decode_utf8_string, decode_variable_byte_int,
    lemma_binary_data_round_trip, lemma_zero_var_int, lemma_utf8_string_round_trip, read_binary, read_string,
    read_var_int, string_field, text_bytes, user_properties_of, user_property_names_unique, FieldRead,
    VarIntRead,
};
use crate::packets::{
    header_error,
    opt_text, validate_fixed_header, CommonError, CommonPacketError, DecodablePacket,
};
use crate::protocol::{PROTOCOL_NAME, PROTOCOL_VERSION};
use bytes::{Bytes, BytesMut};
use std::io::Cursor;
use vstd::prelude::*;
use vstd::string::StringExecFns;

verus! {

/// Identifier of the CONNECT packet type.
pub const CONNECT_PACKET_TYPE: u8 = 0x01;

/// Represents a decoded MQTT CONNECT packet as defined in the MQTT protocol.
#[derive(Debug)]
pub struct ConnectPacket {
    /// The protocol name is a utf-8 encoded string that represents the protocol name “MQTT”.
    pub protocol_name: String,
    /// Represents the revision level of the protocol used by the client.
    pub protocol_version: u8,
    /// Specifies whether the connection starts a new session or is a continuation of an existing session.
    pub clean_start: bool,
    /// Specifies the `QoS` level to be used when publishing the will message.
    pub qos_level: u8,
    /// Specifies if the will message is to be retained when it is published.
    pub will_retain: bool,
    /// It is the maximum time interval that is permitted to elapse between the point at which the Client finishes transmitting one MQTT Control Packet and the point it starts sending the next.
    pub keep_alive: u16,
    /// Connect properties.
    pub properties: ConnectPacketProperties,
    /// The Client Identifier identifies the Client to the Server.
    pub client_id: String,
    /// The will topic.
    pub will_topic: Option<String>,
    /// It can be used by the Server for authentication and authorization.
    pub username: Option<String>,
    /// Although this field is called Password, it can be used to carry any credential information.
    pub password: Option<BytesMut>,
}

/// Errors that decoding a CONNECT packet can run into.
#[derive(Debug)]
pub enum ConnectPacketDecodeError {
    Common(CommonPacketError),
    UnsupportedProtocolVersion(Option<String>),
    ClientIdentifierNotValid(Option<String>),
}

/// `ConnectPacketDecodeError` with its texts as character sequences.
pub enum ConnectError {
    Common(CommonError),
    UnsupportedProtocolVersion(Option<Seq<char>>),
    ClientIdentifierNotValid(Option<Seq<char>>),
}

impl View for ConnectPacketDecodeError {
    type V = ConnectError;

    open spec fn view(&self) -> ConnectError {
        match self {
            ConnectPacketDecodeError::Common(e) => ConnectError::Common(e@),
            ConnectPacketDecodeError::UnsupportedProtocolVersion(r) => ConnectError::UnsupportedProtocolVersion(opt_text(*r)),
            ConnectPacketDecodeError::ClientIdentifierNotValid(r) => ConnectError::ClientIdentifierNotValid(opt_text(*r)),
        }
    }
}

/// Connect properties; the decoder skips them, so none is ever present.
#[derive(Debug)]
pub struct ConnectPacketProperties {
    /// Session Expiry Interval in seconds.
    pub session_expiry_interval: Option<u32>,
    /// The Client uses this value to limit the number of `QoS` 1 and `QoS` 2 publications that it is willing to process concurrently.
    pub receive_maximum: Option<u16>,
    /// Represents the Maximum Packet Size the Client is willing to accept.
    pub maximum_packet_size: Option<u32>,
    /// This value indicates the highest value that the Client will accept as a Topic Alias sent by the Server.
    pub topic_alias_maximum: Option<u16>,
    /// The Client uses this value to request the Server to return Response Information in the CONNACK.
    pub request_response_information: Option<bool>,
    /// The Client uses this value to indicate whether the Reason String or User Properties are sent in the case of failures.
    pub request_problem_information: Option<bool>,
    /// User Properties on the CONNECT packet; no name occurs twice.
    pub user_properties: Option<Vec<(String, String)>>,
    /// Contains the name of the authentication method used for extended authentication.
    pub authentication_method: Option<String>,
    /// The data used to authenticate.
    pub authentication_data: Option<Bytes>,
}

impl ConnectPacketProperties {
    /// Whether the properties are well formed: no user property name
    /// occurs twice.
    pub open spec fn well_formed(&self) -> bool {
        user_property_names_unique(user_properties_of(self.user_properties))
    }

    /// Whether no property is present.
    pub open spec fn is_empty(&self) -> bool {
        &&& self.session_expiry_interval is None
        &&& self.receive_maximum is None
        &&& self.maximum_packet_size is None
        &&& self.topic_alias_maximum is None
        &&& self.request_response_information is None
        &&& self.request_problem_information is None
        &&& self.user_properties is None
        &&& self.authentication_method is None
        &&& self.authentication_data is None
    }

    /// Skips the `len` bytes of properties at the cursor; no property is
    /// kept. `None` where fewer than `len` bytes are left.
    pub fn decode(cursor: &mut Cursor<&[u8]>, len: usize) -> (res: Option<
        Result<ConnectPacketProperties, ConnectPacketDecodeError>,
    >)
        ensures
            cursor_data(*final(cursor)) == cursor_data(*old(cursor)),
            res is None <==> len > 0 && cursor_pos(*old(cursor)) + len > cursor_data(
                *old(cursor),
            ).len(),
            res is Some ==> cursor_pos(*final(cursor)) == cursor_pos(*old(cursor)) + len,
            res matches Some(r) ==> (r matches Ok(p) && p.is_empty() && p.well_formed()),
    {
        if len > 0 {
            if cursor_remaining(cursor) < len {
                return None;
            }
            cursor_advance(cursor, len);
        }
        Some(
            Ok(
                ConnectPacketProperties {
                    session_expiry_interval: None,
                    receive_maximum: None,
                    maximum_packet_size: None,
                    topic_alias_maximum: None,
                    request_response_information: None,
                    request_problem_information: None,
                    user_properties: None,
                    authentication_method: None,
                    authentication_data: None,
                },
            ),
        )
    }
}

/// The fields of a CONNECT packet as they are read: the connect flags are
/// kept as their byte.
pub struct ConnectFields {
    pub protocol_name: Seq<char>,
    pub protocol_version: u8,
    pub flags: u8,
    pub keep_alive: u16,
    pub client_id: Seq<char>,
    pub will_topic: Option<Seq<char>>,
    pub username: Option<Seq<char>>,
    pub password: Option<Seq<u8>>,
    /// The position just after the last field read.
    pub end: int,
}

/// The clean start flag (bit 1 of the connect flags).
pub open spec fn clean_start_flag(flags: u8) -> bool {
    (flags / 2) % 2 == 1
}

/// The will flag (bit 2 of the connect flags).
pub open spec fn will_flag(flags: u8) -> bool {
    (flags / 4) % 2 == 1
}

/// The will retain flag (bit 5 of the connect flags).
pub open spec fn will_retain_flag(flags: u8) -> bool {
    (flags / 32) % 2 == 1
}

/// The password flag (bit 6 of the connect flags).
pub open spec fn password_flag(flags: u8) -> bool {
    (flags / 64) % 2 == 1
}

/// The user name flag (bit 7 of the connect flags).
pub open spec fn username_flag(flags: u8) -> bool {
    (flags / 128) % 2 == 1
}

/// The will QoS in the connect flags (bits 3 and 4).
pub open spec fn will_qos(flags: u8) -> u8 {
    (flags / 8) % 4
}

/// What is wrong with the connect flags, if anything: the text of the
/// malformed packet error.
pub open spec fn connect_flags_error(flags: u8) -> Option<Seq<char>> {
    if flags % 2 != 0 {
        Some("Connect flags are reserved"@)
    } else if !will_flag(flags) && will_retain_flag(flags) {
        Some("Will retain must be 0 if will flag is 1"@)
    } else if !will_flag(flags) && will_qos(flags) != 0 {
        Some("Will QoS must be 0 if will flag is 0"@)
    } else if will_qos(flags) > 2 {
        Some("Will QoS must be 0, 1 or 2. Got: "@ + decimal_text(will_qos(flags) as nat))
    } else {
        None
    }
}

/// Whether a client identifier is accepted: one to 23 bytes, all
/// alphanumeric.
pub open spec fn client_id_valid(id: Seq<char>) -> bool {
    &&& id.len() > 0
    &&& text_bytes(id).len() <= 23
    &&& all_alphanumeric(id)
}

/// Reading a string that is there only when `present`, as the packet
/// decoders read strings.
pub open spec fn read_optional_string(data: Seq<u8>, pos: int, present: bool) -> Option<
    Result<(Option<Seq<char>>, int), CommonError>,
> {
    if !present {
        Some(Ok((None, pos)))
    } else {
        match read_string(data, pos) {
            FieldRead::Value(s, end) => Some(Ok((Some(s), end))),
            FieldRead::MissingLength => None,
            _ => Some(Err(CommonError::UnexpectedError)),
        }
    }
}

/// Reading binary data that is there only when `present`, as the packet
/// decoders read binary data.
pub open spec fn read_optional_binary(data: Seq<u8>, pos: int, present: bool) -> Option<
    Result<(Option<Seq<u8>>, int), CommonError>,
> {
    if !present {
        Some(Ok((None, pos)))
    } else {
        match read_binary(data, pos) {
            FieldRead::Value(s, end) => Some(Ok((Some(s), end))),
            FieldRead::MissingLength => None,
            _ => Some(Err(CommonError::UnexpectedError)),
        }
    }
}

/// What decoding the payload of a CONNECT body gives, from the client
/// identifier at `pos` on, after the header fields and the flags.
#[verifier::opaque]
pub open spec fn connect_payload(
    data: Seq<u8>,
    pos: int,
    name: Seq<char>,
    version: u8,
    flags: u8,
    keep_alive: u16,
) -> Option<Result<ConnectFields, ConnectError>> {
    match read_optional_string(data, pos, true) {
        None => None,
        Some(Err(e)) => Some(Err(ConnectError::Common(e))),
        Some(Ok((client_id, p1))) => if !client_id_valid(client_id->0) {
            Some(Err(ConnectError::ClientIdentifierNotValid(Some("Client identifier is not valid"@))))
        } else {
            match read_optional_string(data, p1, will_flag(flags)) {
                None => None,
                Some(Err(e)) => Some(Err(ConnectError::Common(e))),
                Some(Ok((will_topic, p2))) => match read_optional_string(data, p2, username_flag(flags)) {
                    None => None,
                    Some(Err(e)) => Some(Err(ConnectError::Common(e))),
                    Some(Ok((username, p3))) => match read_optional_binary(data, p3, password_flag(flags)) {
                        None => None,
                        Some(Err(e)) => Some(Err(ConnectError::Common(e))),
                        Some(Ok((password, p4))) => Some(
                            Ok(
                                ConnectFields {
                                    protocol_name: name,
                                    protocol_version: version,
                                    flags,
                                    keep_alive,
                                    client_id: client_id->0,
                                    will_topic,
                                    username,
                                    password,
                                    end: p4,
                                },
                            ),
                        ),
                    },
                },
            }
        },
    }
}

/// What decoding a CONNECT body at `pos` gives: its fields, an error, or
/// `None` where the body runs past the end of `data`.
pub open spec fn connect_decoding(data: Seq<u8>, pos: int) -> Option<Result<ConnectFields, ConnectError>> {
    match read_optional_string(data, pos, true) {
        None => None,
        Some(Err(e)) => Some(Err(ConnectError::Common(e))),
        Some(Ok((name, p1))) => if name->0 != PROTOCOL_NAME@ {
            Some(
                Err(
                    ConnectError::UnsupportedProtocolVersion(
                        Some("Unsupported protocol name: "@ + name->0),
                    ),
                ),
            )
        } else if p1 >= data.len() {
            None
        } else if data[p1] != PROTOCOL_VERSION {
            Some(
                Err(
                    ConnectError::UnsupportedProtocolVersion(
                        Some("Unsupported protocol version: "@ + decimal_text(data[p1] as nat)),
                    ),
                ),
            )
        } else if p1 + 1 >= data.len() {
            None
        } else if connect_flags_error(data[p1 + 1]) is Some {
            Some(
                Err(
                    ConnectError::Common(
                        CommonError::MalformedPacket(connect_flags_error(data[p1 + 1])),
                    ),
                ),
            )
        } else if p1 + 4 > data.len() {
            None
        } else {
            match read_var_int(data, p1 + 4) {
                VarIntRead::Truncated => None,
                VarIntRead::TooLong => Some(Err(ConnectError::Common(CommonError::IntOverflow))),
                VarIntRead::Value(properties_len, n) => {
                    let p2 = p1 + 4 + n;
                    if properties_len > 0 && p2 + properties_len > data.len() {
                        None
                    } else {
                        connect_payload(
                            data,
                            p2 + properties_len,
                            name->0,
                            data[p1],
                            data[p1 + 1],
                            be_u16_value(data[p1 + 2], data[p1 + 3]),
                        )
                    }
                },
            }
        }
    }
}

/// Whether a decoded packet holds the fields read.
pub open spec fn connect_matches(p: ConnectPacket, f: ConnectFields) -> bool {
    &&& p.protocol_name@ == f.protocol_name
    &&& p.protocol_version == f.protocol_version
    &&& p.clean_start == clean_start_flag(f.flags)
    &&& p.qos_level == will_qos(f.flags)
    &&& p.will_retain == will_retain_flag(f.flags)
    &&& p.keep_alive == f.keep_alive
    &&& p.properties.is_empty()
    &&& p.client_id@ == f.client_id
    &&& opt_text(p.will_topic) == f.will_topic
    &&& opt_text(p.username) == f.username
    &&& match p.password {
        Some(b) => f.password == Some(bytes_mut_contents(b)),
        None => f.password is None,
    }
}

/// Reads a string that is there only when `present`.
fn decode_optional_string(cursor: &mut Cursor<&[u8]>, present: bool) -> (res: Option<
    Result<Option<String>, CommonPacketError>,
>)
    ensures
        cursor_data(*final(cursor)) == cursor_data(*old(cursor)),
        match read_optional_string(cursor_data(*old(cursor)), cursor_pos(*old(cursor)) as int, present) {
            None => res is None,
            Some(Ok((v, end))) => res matches Some(Ok(r)) && opt_text(r) == v && cursor_pos(
                *final(cursor),
            ) == end,
            Some(Err(e)) => res matches Some(Err(f)) && f@ == e,
        },
{
    if present {
        match decode_utf8_string(cursor) {
            None => None,
            Some(Err(e)) => Some(Err(e)),
            Some(Ok(s)) => Some(Ok(Some(s))),
        }
    } else {
        Some(Ok(None))
    }
}

/// Reads binary data that is there only when `present`.
fn decode_optional_binary(cursor: &mut Cursor<&[u8]>, present: bool) -> (res: Option<
    Result<Option<BytesMut>, CommonPacketError>,
>)
    ensures
        cursor_data(*final(cursor)) == cursor_data(*old(cursor)),
        match read_optional_binary(cursor_data(*old(cursor)), cursor_pos(*old(cursor)) as int, present) {
            None => res is None,
            Some(Ok((v, end))) => res matches Some(Ok(r)) && (match r {
                Some(b) => v == Some(bytes_mut_contents(b)),
                None => v is None,
            }) && cursor_pos(*final(cursor)) == end,
            Some(Err(e)) => res matches Some(Err(f)) && f@ == e,
        },
{
    if present {
        match decode_binary_data(cursor) {
            None => None,
            Some(Err(e)) => Some(Err(e)),
            Some(Ok(b)) => Some(Ok(Some(b))),
        }
    } else {
        Some(Ok(None))
    }
}

impl DecodablePacket for ConnectPacket {
    type Error = ConnectPacketDecodeError;

    open spec fn accepts_header(fixed_header: u8) -> bool {
        fixed_header == 0x10
    }

    open spec fn rejects_with(fixed_header: u8, e: Self::Error) -> bool {
        e matches ConnectPacketDecodeError::Common(c) && c@ == header_error(fixed_header, CONNECT_PACKET_TYPE)
    }

    open spec fn decodes_to(
        data: Seq<u8>,
        pos: int,
        fixed_header: u8,
        remaining_len: usize,
        res: Option<Result<Self, Self::Error>>,
    ) -> bool {
        match connect_decoding(data, pos) {
            None => res is None,
            Some(Ok(f)) => res matches Some(Ok(p)) && connect_matches(p, f),
            Some(Err(e)) => res matches Some(Err(err)) && err@ == e,
        }
    }

    open spec fn decoded_end(data: Seq<u8>, pos: int, fixed_header: u8, remaining_len: usize) -> int {
        match connect_decoding(data, pos) {
            Some(Ok(f)) => f.end,
            _ => pos,
        }
    }

    fn packet_type() -> (res: u8)
        ensures
            res == CONNECT_PACKET_TYPE,
    {
        CONNECT_PACKET_TYPE
    }

    fn validate_header(fixed_header: u8) -> (res: Result<(), Self::Error>) {
        // Reserved flags (4 LSB) must be equal to 0000
        match validate_fixed_header(fixed_header, CONNECT_PACKET_TYPE, Some(0)) {
            Ok(()) => Ok(()),
            Err(e) => Err(ConnectPacketDecodeError::Common(e)),
        }
    }

    #[verifier::spinoff_prover]
    fn decode(cursor: &mut Cursor<&[u8]>, _fixed_header: u8, _remaining_len: usize) -> (res: Option<
        Result<Self, Self::Error>,
    >) {
        let ghost data = cursor_data(*cursor);
        let ghost pos = cursor_pos(*cursor) as int;
        proof {
            reveal(connect_payload);
        }
        let protocol_name = match decode_utf8_string(cursor) {
            None => {
                return None;
            },
            Some(Err(e)) => {
                return Some(Err(ConnectPacketDecodeError::Common(e)));
            },
            Some(Ok(name)) => name,
        };
        let expected_name = String::from_str(PROTOCOL_NAME);
        if protocol_name != expected_name {
            let reason = String::from_str("Unsupported protocol name: ").concat(
                protocol_name.as_str(),
            );
            return Some(Err(ConnectPacketDecodeError::UnsupportedProtocolVersion(Some(reason))));
        }
        let ghost p1 = cursor_pos(*cursor) as int;

        if cursor_remaining(cursor) < 1 {
            return None;
        }
        let protocol_version = cursor_get_u8(cursor);
        if protocol_version != PROTOCOL_VERSION {
            let reason = String::from_str("Unsupported protocol version: ").concat(
                u8_to_string(protocol_version).as_str(),
            );
            return Some(Err(ConnectPacketDecodeError::UnsupportedProtocolVersion(Some(reason))));
        }

        if cursor_remaining(cursor) < 1 {
            return None;
        }
        let connect_flags = cursor_get_u8(cursor);
        assert((connect_flags & 0x1) == connect_flags % 2
            && (((connect_flags >> 1) & 1 == 1) <==> (connect_flags / 2) % 2 == 1)
            && (((connect_flags >> 2) & 1 == 1) <==> (connect_flags / 4) % 2 == 1)
            && ((connect_flags >> 3) & 0b0000_0011) == (connect_flags / 8) % 4
            && (((connect_flags >> 5) & 1 == 1) <==> (connect_flags / 32) % 2 == 1)
            && (((connect_flags >> 6) & 1 == 1) <==> (connect_flags / 64) % 2 == 1)
            && (((connect_flags >> 7) & 1 == 1) <==> (connect_flags / 128) % 2 == 1))
            by (bit_vector);

        // Reserved connect flag (last bit) must be set to 0
        if connect_flags & 0x1 != 0x0 {
            let e = CommonPacketError::MalformedPacket(
                Some(String::from_str("Connect flags are reserved")),
            );
            return Some(Err(ConnectPacketDecodeError::Common(e)));
        }

        let clean_start = (connect_flags >> 1) & 1 == 1;
        let will_flag = (connect_flags >> 2) & 1 == 1;
        let qos_level = (connect_flags >> 3) & 0b0000_0011;
        let will_retain = (connect_flags >> 5) & 1 == 1;
        let password_flag = (connect_flags >> 6) & 1 == 1;
        let username_flag = (connect_flags >> 7) & 1 == 1;

        // If the will_flag is set to 0, then will_retain must be set to 0
        if !will_flag && will_retain {
            let e = CommonPacketError::MalformedPacket(
                Some(String::from_str("Will retain must be 0 if will flag is 1")),
            );
            return Some(Err(ConnectPacketDecodeError::Common(e)));
        }

        // If the will_flag is set to 0, then will_qos must be set to 0
        if !will_flag && qos_level != 0 {
            let e = CommonPacketError::MalformedPacket(
                Some(String::from_str("Will QoS must be 0 if will flag is 0")),
            );
            return Some(Err(ConnectPacketDecodeError::Common(e)));
        }

        // If the will_flag is set to 1, then will_qos can be 0, 1, or 2
        if qos_level > 2 {
            let reason = String::from_str("Will QoS must be 0, 1 or 2. Got: ").concat(
                u8_to_string(qos_level).as_str(),
            );
            let e = CommonPacketError::MalformedPacket(Some(reason));
            return Some(Err(ConnectPacketDecodeError::Common(e)));
        }

        if cursor_remaining(cursor) < 2 {
            return None;
        }
        let keep_alive = cursor_get_u16(cursor);

        let properties_len = match decode_variable_byte_int(cursor) {
            None => {
                return None;
            },
            Some(Err(e)) => {
                return Some(Err(ConnectPacketDecodeError::Common(e)));
            },
            Some(Ok(len)) => len,
        };

        let properties = match ConnectPacketProperties::decode(cursor, properties_len) {
            None => {
                return None;
            },
            Some(Err(e)) => {
                return Some(Err(e));
            },
            Some(Ok(p)) => p,
        };
        assert(connect_decoding(data, pos) == connect_payload(
            data,
            cursor_pos(*cursor) as int,
            protocol_name@,
            protocol_version,
            connect_flags,
            keep_alive,
        ));

        let client_id = match decode_utf8_string(cursor) {
            None => {
                return None;
            },
            Some(Err(e)) => {
                return Some(Err(ConnectPacketDecodeError::Common(e)));
            },
            Some(Ok(id)) => id,
        };

        if client_id.as_str().is_empty() || client_id.as_str().as_bytes().len() > 23
            || !chars_all_alphanumeric(client_id.as_str()) {
            let reason = String::from_str("Client identifier is not valid");
            return Some(Err(ConnectPacketDecodeError::ClientIdentifierNotValid(Some(reason))));
        }

        let will_topic = match decode_optional_string(cursor, will_flag) {
            None => {
                return None;
            },
            Some(Err(e)) => {
                return Some(Err(ConnectPacketDecodeError::Common(e)));
            },
            Some(Ok(t)) => t,
        };

        let username = match decode_optional_string(cursor, username_flag) {
            None => {
                return None;
            },
            Some(Err(e)) => {
                return Some(Err(ConnectPacketDecodeError::Common(e)));
            },
            Some(Ok(u)) => u,
        };

        let password = match decode_optional_binary(cursor, password_flag) {
            None => {
                return None;
            },
            Some(Err(e)) => {
                return Some(Err(ConnectPacketDecodeError::Common(e)));
            },
            Some(Ok(p)) => p,
        };

        Some(
            Ok(
                Self {
                    protocol_name,
                    protocol_version,
                    clean_start,
                    qos_level,
                    will_retain,
                    keep_alive,
                    properties,
                    client_id,
                    will_topic,
                    username,
                    password,
                },
            ),
        )
    }
}

/// The connect flags of a CONNECT packet without a will, as a client sets
/// them: bit 1 for a clean start, bit 6 when a password follows and bit 7
/// when a user name follows.
pub open spec fn connect_flags_for(clean_start: bool, has_username: bool, has_password: bool) -> u8 {
    ((if has_username {
        128int
    } else {
        0
    }) + (if has_password {
        64int
    } else {
        0
    }) + (if clean_start {
        2int
    } else {
        0
    })) as u8
}

/// The fields after the protocol name of a CONNECT body that a client
/// wrote: the version, the flags, the keep alive and a property length of
/// zero.
pub open spec fn connect_header_bytes(flags: u8, keep_alive: u16) -> Seq<u8> {
    seq![PROTOCOL_VERSION, flags] + be_u16_bytes(keep_alive) + seq![0u8]
}

/// The user name field and the password field, where they are given.
pub open spec fn credential_bytes(username: Option<Seq<char>>, password: Option<Seq<u8>>) -> Seq<u8> {
    let user_field: Seq<u8> = match username {
        Some(u) => string_field(text_bytes(u)),
        None => Seq::empty(),
    };
    let pass_field: Seq<u8> = match password {
        Some(w) => string_field(w),
        None => Seq::empty(),
    };
    user_field + pass_field
}

/// The bytes of a CONNECT body without a will and without properties, as a
/// client writes it: the protocol name "MQTT" and version 5, the connect
/// flags, the keep alive, a property length of zero, the client
/// identifier, then the user name and the password where they are given.
pub open spec fn connect_body_bytes(
    clean_start: bool,
    keep_alive: u16,
    client_id: Seq<char>,
    username: Option<Seq<char>>,
    password: Option<Seq<u8>>,
) -> Seq<u8> {
    string_field(text_bytes(PROTOCOL_NAME@)) + connect_header_bytes(
        connect_flags_for(clean_start, username is Some, password is Some),
        keep_alive,
    ) + string_field(text_bytes(client_id)) + credential_bytes(username, password)
}

/// The flags a client sets without a will are accepted and read back: the
/// clean start, user name and password flags are the ones set, and there is
/// no will.
pub proof fn lemma_connect_flags_read_back(clean_start: bool, has_username: bool, has_password: bool)
    ensures
        ({
            let flags = connect_flags_for(clean_start, has_username, has_password);
            &&& connect_flags_error(flags) is None
            &&& clean_start_flag(flags) == clean_start
            &&& username_flag(flags) == has_username
            &&& password_flag(flags) == has_password
            &&& !will_flag(flags)
            &&& !will_retain_flag(flags)
            &&& will_qos(flags) == 0
        }),
{
}

/// Decoding a CONNECT body whose name, version, flags, keep alive and
/// property length are those a client writes comes down to decoding the
/// payload after them.
#[verifier::spinoff_prover]
proof fn lemma_connect_header_read_back(flags: u8, keep_alive: u16, payload: Seq<u8>)
    requires
        connect_flags_error(flags) is None,
    ensures
        string_field(text_bytes(PROTOCOL_NAME@)).len() == 6,
        ({
            let data = string_field(text_bytes(PROTOCOL_NAME@)) + connect_header_bytes(
                flags,
                keep_alive,
            ) + payload;
            connect_decoding(data, 0) == connect_payload(
                data,
                11,
                PROTOCOL_NAME@,
                PROTOCOL_VERSION,
                flags,
                keep_alive,
            )
        }),
{
    let name = PROTOCOL_NAME@;
    reveal_strlit("MQTT");
    vstd::utf8::is_ascii_chars_encode_utf8(name);
    let name_field = string_field(text_bytes(name));
    let data = name_field + connect_header_bytes(flags, keep_alive) + payload;
    let after_name = connect_header_bytes(flags, keep_alive) + payload;
    assert(data =~= Seq::<u8>::empty() + name_field + after_name);
    lemma_utf8_string_round_trip(Seq::<u8>::empty(), name, after_name);
    assert(data[6] == PROTOCOL_VERSION);
    assert(data[7] == flags);
    assert(data[8] == (keep_alive / 256) as u8 && data[9] == (keep_alive % 256) as u8);
    assert(be_u16_value(data[8], data[9]) == keep_alive);
    lemma_zero_var_int(data, 10);
}

/// Decoding the payload of a CONNECT packet without a will that a client
/// wrote gives the client identifier, the user name exactly when the user
/// name flag is set and the password exactly when the password flag is set.
#[verifier::spinoff_prover]
proof fn lemma_connect_payload_read_back(
    pre: Seq<u8>,
    flags: u8,
    keep_alive: u16,
    client_id: Seq<char>,
    username: Option<Seq<char>>,
    password: Option<Seq<u8>>,
    rest: Seq<u8>,
)
    requires
        client_id_valid(client_id),
        username matches Some(u) ==> text_bytes(u).len() <= 65_535,
        password matches Some(w) ==> w.len() <= 65_535,
        !will_flag(flags),
        username_flag(flags) == (username is Some),
        password_flag(flags) == (password is Some),
    ensures
        ({
            let data = pre + string_field(text_bytes(client_id)) + credential_bytes(
                username,
                password,
            ) + rest;
            connect_payload(data, pre.len() as int, PROTOCOL_NAME@, PROTOCOL_VERSION, flags, keep_alive)
                == Some(
                Ok::<ConnectFields, ConnectError>(
                    ConnectFields {
                        protocol_name: PROTOCOL_NAME@,
                        protocol_version: PROTOCOL_VERSION,
                        flags,
                        keep_alive,
                        client_id,
                        will_topic: None,
                        username,
                        password,
                        end: data.len() - rest.len(),
                    },
                ),
            )
        }),
{
    reveal(connect_payload);
    let id_field = string_field(text_bytes(client_id));
    let user_field: Seq<u8> = match username {
        Some(u) => string_field(text_bytes(u)),
        None => Seq::empty(),
    };
    let pass_field: Seq<u8> = match password {
        Some(w) => string_field(w),
        None => Seq::empty(),
    };
    let data = pre + id_field + credential_bytes(username, password) + rest;
    let after_id = user_field + pass_field + rest;
    assert(data =~= pre + id_field + after_id);
    lemma_utf8_string_round_trip(pre, client_id, after_id);
    let pos = pre.len() as int;
    let p1 = (pre.len() + id_field.len()) as int;
    assert(read_optional_string(data, pos, true) == Some(
        Ok::<(Option<Seq<char>>, int), CommonError>((Some(client_id), p1)),
    ));
    assert(read_optional_string(data, p1, will_flag(flags)) == Some(
        Ok::<(Option<Seq<char>>, int), CommonError>((None, p1)),
    ));
    let pre_user = pre + id_field;
    let p2 = (p1 + user_field.len()) as int;
    if let Some(u) = username {
        assert(data =~= pre_user + string_field(text_bytes(u)) + (pass_field + rest));
        lemma_utf8_string_round_trip(pre_user, u, pass_field + rest);
    }
    assert(read_optional_string(data, p1, username_flag(flags)) == Some(
        Ok::<(Option<Seq<char>>, int), CommonError>((username, p2)),
    ));
    let pre_pass = pre_user + user_field;
    let p3 = (p2 + pass_field.len()) as int;
    if let Some(w) = password {
        assert(data =~= pre_pass + string_field(w) + rest);
        lemma_binary_data_round_trip(pre_pass, w, rest);
    }
    assert(read_optional_binary(data, p2, password_flag(flags)) == Some(
        Ok::<(Option<Seq<u8>>, int), CommonError>((password, p3)),
    ));
    assert(data.len() - rest.len() == p3);
}

/// Decoding the body of a CONNECT packet that a client wrote gives back what
/// it wrote: the protocol name and version, the flags, the keep alive and
/// the client identifier, no will topic, the user name exactly when one was
/// written (bit 7) and the password exactly when one was written (bit 6);
/// decoding stops at the end of the body, whatever bytes follow it.
#[verifier::spinoff_prover]
pub proof fn lemma_connect_round_trip(
    clean_start: bool,
    keep_alive: u16,
    client_id: Seq<char>,
    username: Option<Seq<char>>,
    password: Option<Seq<u8>>,
    rest: Seq<u8>,
)
    requires
        client_id_valid(client_id),
        username matches Some(u) ==> text_bytes(u).len() <= 65_535,
        password matches Some(w) ==> w.len() <= 65_535,
    ensures
        ({
            let body = connect_body_bytes(clean_start, keep_alive, client_id, username, password);
            connect_decoding(body + rest, 0) == Some(
                Ok::<ConnectFields, ConnectError>(
                    ConnectFields {
                        protocol_name: PROTOCOL_NAME@,
                        protocol_version: PROTOCOL_VERSION,
                        flags: connect_flags_for(clean_start, username is Some, password is Some),
                        keep_alive,
                        client_id,
                        will_topic: None,
                        username,
                        password,
                        end: body.len() as int,
                    },
                ),
            )
        }),
{
    let flags = connect_flags_for(clean_start, username is Some, password is Some);
    lemma_connect_flags_read_back(clean_start, username is Some, password is Some);
    let name_field = string_field(text_bytes(PROTOCOL_NAME@));
    let header = connect_header_bytes(flags, keep_alive);
    let id_field = string_field(text_bytes(client_id));
    let credentials = credential_bytes(username, password);
    let pre = name_field + header;
    let payload = id_field + credentials + rest;
    let data = connect_body_bytes(clean_start, keep_alive, client_id, username, password) + rest;
    assert(data =~= name_field + header + payload);
    assert(data =~= pre + id_field + credentials + rest);
    lemma_connect_header_read_back(flags, keep_alive, payload);
    lemma_connect_payload_read_back(pre, flags, keep_alive, client_id, username, password, rest);
}

} // verus!
