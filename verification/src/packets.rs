//! MQTT control packets and the error that all of them share.
pub mod conn_ack_packet;
pub mod connect_packet;
pub mod disconnect_packet;
pub mod ping_req_packet;
pub mod ping_resp_packet;
pub mod publish_packet;
pub mod subscribe_packet;

use crate::bytes_io::{cursor_data, cursor_pos};
use crate::text::{decimal_text, u8_to_string};
use std::io::Cursor;
use vstd::prelude::*;
use vstd::string::StringExecFns;

verus! {

/// Errors that decoding or encoding any packet can run into.
#[derive(Debug)]
pub enum CommonPacketError {
    PacketTooLarge(Option<String>),
    MalformedPacket(Option<String>),
    ProtocolError(Option<String>),
    UnexpectedError,
    IntOverflow,
}

/// `CommonPacketError` with its texts as character sequences.
pub enum CommonError {
    PacketTooLarge(Option<Seq<char>>),
    MalformedPacket(Option<Seq<char>>),
    ProtocolError(Option<Seq<char>>),
    UnexpectedError,
    IntOverflow,
}

/// The text of an optional string.
pub open spec fn opt_text(s: Option<String>) -> Option<Seq<char>> {
    match s {
        Some(t) => Some(t@),
        None => None,
    }
}

impl View for CommonPacketError {
    type V = CommonError;

    open spec fn view(&self) -> CommonError {
        match self {
            CommonPacketError::PacketTooLarge(r) => CommonError::PacketTooLarge(opt_text(*r)),
            CommonPacketError::MalformedPacket(r) => CommonError::MalformedPacket(opt_text(*r)),
            CommonPacketError::ProtocolError(r) => CommonError::ProtocolError(opt_text(*r)),
            CommonPacketError::UnexpectedError => CommonError::UnexpectedError,
            CommonPacketError::IntOverflow => CommonError::IntOverflow,
        }
    }
}

impl CommonPacketError {
    /// The text that the error shows to a reader.
    pub fn describe(&self) -> (s: String)
        ensures
            s@ == common_error_text(self@),
    {
        match self {
            CommonPacketError::PacketTooLarge(Some(reason)) => {
                String::from_str("Packet Too Large: ").concat(reason.as_str())
            },
            CommonPacketError::PacketTooLarge(None) => String::from_str("Packet Too Large"),
            CommonPacketError::MalformedPacket(Some(reason)) => {
                String::from_str("Malformed Packet: ").concat(reason.as_str())
            },
            CommonPacketError::MalformedPacket(None) => String::from_str("Malformed Packet"),
            CommonPacketError::ProtocolError(Some(reason)) => {
                String::from_str("Protocol Error: ").concat(reason.as_str())
            },
            CommonPacketError::ProtocolError(None) => String::from_str("Protocol Error"),
            CommonPacketError::UnexpectedError => String::from_str("Unexpected Error"),
            CommonPacketError::IntOverflow => String::from_str("Variable Int Overflow"),
        }
    }
}

/// The text of a packet error.
pub open spec fn common_error_text(e: CommonError) -> Seq<char> {
    match e {
        CommonError::PacketTooLarge(Some(r)) => "Packet Too Large: "@ + r,
        CommonError::PacketTooLarge(None) => "Packet Too Large"@,
        CommonError::MalformedPacket(Some(r)) => "Malformed Packet: "@ + r,
        CommonError::MalformedPacket(None) => "Malformed Packet"@,
        CommonError::ProtocolError(Some(r)) => "Protocol Error: "@ + r,
        CommonError::ProtocolError(None) => "Protocol Error"@,
        CommonError::UnexpectedError => "Unexpected Error"@,
        CommonError::IntOverflow => "Variable Int Overflow"@,
    }
}

/// A packet that can be read from the bytes after its fixed header.
pub trait DecodablePacket: Sized {
    /// What goes wrong when decoding the packet.
    type Error;

    /// Whether the packet accepts the given first byte of the fixed header.
    spec fn accepts_header(fixed_header: u8) -> bool;

    /// Whether `e` is the error with which the packet rejects the fixed
    /// header.
    spec fn rejects_with(fixed_header: u8, e: Self::Error) -> bool;

    /// Whether `res` is what decoding the packet body found at `pos` in
    /// `data` gives; `None` where the body runs past the end of `data`.
    spec fn decodes_to(
        data: Seq<u8>,
        pos: int,
        fixed_header: u8,
        remaining_len: usize,
        res: Option<Result<Self, Self::Error>>,
    ) -> bool;

    /// Where the cursor stands once the packet body found at `pos` in
    /// `data` has decoded.
    spec fn decoded_end(data: Seq<u8>, pos: int, fixed_header: u8, remaining_len: usize) -> int;

    /// The packet type number, which the four high bits of the fixed
    /// header carry.
    fn packet_type() -> (res: u8)
        ensures
            1 <= res <= 15,
            forall|fixed_header: u8| #[trigger]
                Self::accepts_header(fixed_header) ==> fixed_header / 16 == res,
    ;

    /// Checks the first byte of the fixed header.
    fn validate_header(fixed_header: u8) -> (res: Result<(), Self::Error>)
        ensures
            res is Ok <==> Self::accepts_header(fixed_header),
            res matches Err(e) ==> Self::rejects_with(fixed_header, e),
    ;

    /// Decodes the packet body at the cursor's position.
    fn decode(cursor: &mut Cursor<&[u8]>, fixed_header: u8, remaining_len: usize) -> (res: Option<
        Result<Self, Self::Error>,
    >)
        ensures
            cursor_data(*final(cursor)) == cursor_data(*old(cursor)),
            Self::decodes_to(
                cursor_data(*old(cursor)),
                cursor_pos(*old(cursor)) as int,
                fixed_header,
                remaining_len,
                res,
            ),
            res matches Some(Ok(_)) ==> cursor_pos(*final(cursor)) == Self::decoded_end(
                cursor_data(*old(cursor)),
                cursor_pos(*old(cursor)) as int,
                fixed_header,
                remaining_len,
            ),
    ;
}

/// The error for a fixed header of the wrong type or with the wrong flags.
pub open spec fn header_error(fixed_header: u8, packet_type: u8) -> CommonError {
    if fixed_header / 16 != packet_type {
        CommonError::MalformedPacket(
            Some("Invalid packet type: "@ + decimal_text((fixed_header / 16) as nat)),
        )
    } else {
        CommonError::MalformedPacket(Some("Fixed header flags are reserved"@))
    }
}

/// Checks that the fixed header carries `packet_type` in its four high
/// bits and, when `flags` is given, those flags in its four low bits.
pub fn validate_fixed_header(fixed_header: u8, packet_type: u8, flags: Option<u8>) -> (res: Result<
    (),
    CommonPacketError,
>)
    ensures
        res is Ok <==> fixed_header / 16 == packet_type && (flags matches Some(f) ==> fixed_header
            % 16 == f),
        res matches Err(e) ==> e@ == header_error(fixed_header, packet_type),
{
    let header_type = fixed_header >> 4;
    assert(header_type == fixed_header / 16) by (bit_vector)
        requires
            header_type == fixed_header >> 4,
    ;
    if header_type != packet_type {
        let reason = String::from_str("Invalid packet type: ").concat(
            u8_to_string(header_type).as_str(),
        );
        return Err(CommonPacketError::MalformedPacket(Some(reason)));
    }
    if let Some(f) = flags {
        let low = fixed_header & 0b0000_1111;
        assert(low == fixed_header % 16) by (bit_vector)
            requires
                low == fixed_header & 0b0000_1111,
        ;
        if low != f {
            return Err(
                CommonPacketError::MalformedPacket(
                    Some(String::from_str("Fixed header flags are reserved")),
                ),
            );
        }
    }
    Ok(())
}

} // verus!
