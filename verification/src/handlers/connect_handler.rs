//! Answering a CONNECT packet with a CONNACK packet.
use crate::bytes_io::bytes_mut_contents;
use crate::text::{all_alphanumeric, chars_all_alphanumeric, decimal_text, u8_to_string};
use crate::codec::{
    lemma_vbi_encode_u32_len, read_var_int, string_field, text_bytes, u16_property, vbi_encode,
    VarIntRead,
};
use crate::connection::{decode_packet, ConnectionError};
use crate::packets::conn_ack_packet::{
    connack_bytes, connect_reason_number, ConnAckPacket, ConnAckPacketEncodeError,
    ConnectReasonCode, REASON_STRING_IDENTIFIER, TOPIC_ALIAS_MAXIMUM_IDENTIFIER,
};
use crate::packets::connect_packet::{
    connect_decoding, ConnectError, ConnectFields, ConnectPacket, ConnectPacketDecodeError,
};
use crate::packets::{header_error, opt_text, CommonError, CommonPacketError};
use crate::protocol::{PROTOCOL_NAME, PROTOCOL_VERSION};
use bytes::BytesMut;
use vstd::prelude::*;
use vstd::string::StringExecFns;

verus! {

broadcast use vstd::string::group_string_axioms;

/// The reason code and reason string with which the server answers a
/// CONNECT packet with the given protocol name, protocol version and client
/// identifier.
pub open spec fn connect_fields_answer(name: Seq<char>, version: u8, client_id: Seq<char>) -> (
    ConnectReasonCode,
    Option<Seq<char>>,
) {
    if name != PROTOCOL_NAME@ {
        (
            ConnectReasonCode::UnsupportedProtocolVersion,
            Some("Unsupported protocol name: "@ + name),
        )
    } else if version != PROTOCOL_VERSION {
        (
            ConnectReasonCode::UnsupportedProtocolVersion,
            Some("Unsupported protocol version: "@ + decimal_text(version as nat)),
        )
    } else if client_id.len() == 0 {
        (ConnectReasonCode::ClientIdentifierNotValid, Some("Client Identifier is empty"@))
    } else if text_bytes(client_id).len() > 23 {
        (
            ConnectReasonCode::ClientIdentifierNotValid,
            Some("Client Identifier too large. Expected value between 1 and 23 bytes"@),
        )
    } else if !all_alphanumeric(client_id) {
        (
            ConnectReasonCode::ClientIdentifierNotValid,
            Some("Client Identifier contains non-alphanumeric characters"@),
        )
    } else {
        (ConnectReasonCode::Success, None)
    }
}

/// The reason code and reason string with which the server answers a
/// CONNECT packet that did not decode: a malformed packet keeps its
/// reason, any other error is unspecified.
pub open spec fn connect_error_answer(e: ConnectError) -> (ConnectReasonCode, Option<Seq<char>>) {
    match e {
        ConnectError::Common(CommonError::MalformedPacket(reason)) => (
            ConnectReasonCode::MalformedPacket,
            reason,
        ),
        _ => (ConnectReasonCode::UnspecifiedError, None),
    }
}

/// The answer to the outcome of decoding a CONNECT packet.
pub open spec fn connect_answer(packet: Result<ConnectFields, ConnectError>) -> (
    ConnectReasonCode,
    Option<Seq<char>>,
) {
    match packet {
        Ok(f) => connect_fields_answer(f.protocol_name, f.protocol_version, f.client_id),
        Err(e) => connect_error_answer(e),
    }
}

/// What reading one CONNECT packet from the front of `data` gives: its
/// fields, or the error; input that ends before the packet does is an
/// unexpected error.
pub open spec fn connect_outcome(data: Seq<u8>) -> Result<ConnectFields, ConnectError> {
    if data.len() < 2 {
        Err(ConnectError::Common(CommonError::UnexpectedError))
    } else if data[0] != 0x10 {
        Err(ConnectError::Common(header_error(data[0], 1)))
    } else {
        match read_var_int(data, 1) {
            VarIntRead::Truncated => Err(ConnectError::Common(CommonError::UnexpectedError)),
            VarIntRead::TooLong => Err(ConnectError::Common(CommonError::IntOverflow)),
            VarIntRead::Value(remaining_len, n) => if 1 + n + remaining_len > data.len() {
                Err(ConnectError::Common(CommonError::UnexpectedError))
            } else {
                match connect_decoding(data, (1 + n) as int) {
                    None => Err(ConnectError::Common(CommonError::UnexpectedError)),
                    Some(r) => r,
                }
            },
        }
    }
}

/// The properties of the answer: a topic alias maximum of `65_535`, then
/// the reason string if there is one.
pub open spec fn answer_properties(reason: Option<Seq<char>>) -> Seq<u8> {
    u16_property(TOPIC_ALIAS_MAXIMUM_IDENTIFIER, Some(0xFFFFu16)) + match reason {
        Some(t) => seq![REASON_STRING_IDENTIFIER] + string_field(text_bytes(t)),
        None => Seq::empty(),
    }
}

/// The bytes of the CONNACK packet that answers with the given reason code
/// and reason string; the session is never present.
pub open spec fn answer_bytes(code: ConnectReasonCode, reason: Option<Seq<char>>) -> Seq<u8> {
    connack_bytes(false, connect_reason_number(code), answer_properties(reason))
}

/// Whether a reason string fits in a UTF-8 string field.
pub open spec fn reason_fits(reason: Option<Seq<char>>) -> bool {
    match reason {
        Some(t) => text_bytes(t).len() <= 65_535,
        None => true,
    }
}

/// Answers the outcome of decoding a CONNECT packet.
///
/// A packet whose protocol name is not "MQTT" or whose protocol version is
/// not 5 is answered with `UnsupportedProtocolVersion`; one whose client
/// identifier is empty, longer than 23 bytes or not alphanumeric with
/// `ClientIdentifierNotValid`; any other packet with `Success`. A packet
/// that did not decode because it is malformed is answered with
/// `MalformedPacket` and the reason; any other error with
/// `UnspecifiedError`. The session is never present.
pub fn handle_packet(packet: Result<ConnectPacket, ConnectPacketDecodeError>) -> (res: ConnAckPacket)
    ensures
        ({
            let (code, reason) = match packet {
                Ok(p) => connect_fields_answer(p.protocol_name@, p.protocol_version, p.client_id@),
                Err(e) => connect_error_answer(e@),
            };
            &&& !res.session_present
            &&& res.reason_code == code
            &&& opt_text(res.properties.reason_string) == reason
        }),
        res.properties.topic_alias_maximum == Some(0xFFFFu16),
        res.properties.only_reason_and_alias(),
{
    match packet {
        Ok(packet) => {
            let expected_name = String::from_str(PROTOCOL_NAME);
            if packet.protocol_name != expected_name {
                let reason = String::from_str("Unsupported protocol name: ").concat(
                    packet.protocol_name.as_str(),
                );
                return ConnAckPacket::builder().session_present(false).reason_code(
                    ConnectReasonCode::UnsupportedProtocolVersion,
                ).reason_string(reason).build();
            }
            if packet.protocol_version != PROTOCOL_VERSION {
                let reason = String::from_str("Unsupported protocol version: ").concat(
                    u8_to_string(packet.protocol_version).as_str(),
                );
                return ConnAckPacket::builder().session_present(false).reason_code(
                    ConnectReasonCode::UnsupportedProtocolVersion,
                ).reason_string(reason).build();
            }
            if packet.client_id.as_str().is_empty() {
                return ConnAckPacket::builder().session_present(false).reason_code(
                    ConnectReasonCode::ClientIdentifierNotValid,
                ).reason_string(String::from_str("Client Identifier is empty")).build();
            }
            if packet.client_id.as_str().as_bytes().len() > 23 {
                return ConnAckPacket::builder().session_present(false).reason_code(
                    ConnectReasonCode::ClientIdentifierNotValid,
                ).reason_string(
                    String::from_str(
                        "Client Identifier too large. Expected value between 1 and 23 bytes",
                    ),
                ).build();
            }
            if !chars_all_alphanumeric(packet.client_id.as_str()) {
                return ConnAckPacket::builder().session_present(false).reason_code(
                    ConnectReasonCode::ClientIdentifierNotValid,
                ).reason_string(
                    String::from_str("Client Identifier contains non-alphanumeric characters"),
                ).build();
            }
            ConnAckPacket::builder().session_present(false).reason_code(
                ConnectReasonCode::Success,
            ).build()
        },
        Err(e) => {
            if let ConnectPacketDecodeError::Common(CommonPacketError::MalformedPacket(reason)) = e {
                let builder = ConnAckPacket::builder().session_present(false).reason_code(
                    ConnectReasonCode::MalformedPacket,
                );
                return match reason {
                    Some(reason) => builder.reason_string(reason).build(),
                    None => builder.build(),
                };
            }
            ConnAckPacket::builder().session_present(false).reason_code(
                ConnectReasonCode::UnspecifiedError,
            ).build()
        },
    }
}

/// Reads one CONNECT packet from the front of `data` and answers it with
/// the bytes of a CONNACK packet, as `handle_packet` decides; input that
/// ends before the packet does is answered as an unspecified error.
///
/// Fails with `IntOverflow` only where the reason string of the answer is
/// longer than `65_535` bytes.
pub fn handle_connect(data: &[u8]) -> (res: Result<BytesMut, ConnAckPacketEncodeError>)
    ensures
        ({
            let (code, reason) = connect_answer(connect_outcome(data@));
            &&& res is Ok <==> reason_fits(reason)
            &&& res matches Ok(b) ==> bytes_mut_contents(b) == answer_bytes(code, reason)
            &&& res matches Err(ConnAckPacketEncodeError::Common(e)) ==> e@
                == CommonError::IntOverflow
        }),
{
    let decoded: Result<ConnectPacket, ConnectPacketDecodeError> = match decode_packet::<
        ConnectPacket,
    >(data) {
        Some(Ok(Some((packet, _)))) => Ok(packet),
        Some(Err(ConnectionError::Decode(e))) => Err(e),
        Some(Err(ConnectionError::Common(e))) => Err(ConnectPacketDecodeError::Common(e)),
        _ => Err(ConnectPacketDecodeError::Common(CommonPacketError::UnexpectedError)),
    };
    assert(match decoded {
        Ok(p) => connect_outcome(data@) matches Ok(f) && p.protocol_name@ == f.protocol_name
            && p.protocol_version == f.protocol_version && p.client_id@ == f.client_id,
        Err(e) => connect_outcome(data@) == Err::<ConnectFields, ConnectError>(e@),
    });
    let response = handle_packet(decoded);
    let ghost (code, reason) = connect_answer(connect_outcome(data@));
    let ghost props = response.properties.bytes();
    assert(props =~= answer_properties(reason));
    proof {
        lemma_vbi_encode_u32_len(props.len() as u32);
        lemma_vbi_encode_u32_len((2 + vbi_encode(props.len()).len() + props.len()) as u32);
    }
    response.encode()
}

} // verus!
