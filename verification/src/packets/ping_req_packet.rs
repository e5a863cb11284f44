//! The PINGREQ packet: a client's keep-alive.
use crate::packets::{
    header_error,validate_fixed_header, CommonPacketError, DecodablePacket};
use std::io::Cursor;
use vstd::prelude::*;

verus! {

/// Identifier of the PINGREQ packet type.
pub const PINGREQ_PACKET_TYPE: u8 = 0x0C;

/// The PINGREQ packet; it carries nothing.
#[derive(Debug)]
pub struct PingReqPacket {}

/// Errors that decoding a PINGREQ packet can run into.
#[derive(Debug)]
pub enum PingReqPacketDecodeError {
    Common(CommonPacketError),
}

impl DecodablePacket for PingReqPacket {
    type Error = PingReqPacketDecodeError;

    open spec fn accepts_header(fixed_header: u8) -> bool {
        fixed_header == 0xC0
    }

    open spec fn rejects_with(fixed_header: u8, e: Self::Error) -> bool {
        e matches PingReqPacketDecodeError::Common(c) && c@ == header_error(fixed_header, PINGREQ_PACKET_TYPE)
    }

    open spec fn decodes_to(
        data: Seq<u8>,
        pos: int,
        fixed_header: u8,
        remaining_len: usize,
        res: Option<Result<Self, Self::Error>>,
    ) -> bool {
        res matches Some(Ok(_))
    }

    open spec fn decoded_end(data: Seq<u8>, pos: int, fixed_header: u8, remaining_len: usize) -> int {
        pos
    }

    fn packet_type() -> (res: u8)
        ensures
            res == PINGREQ_PACKET_TYPE,
    {
        PINGREQ_PACKET_TYPE
    }

    fn validate_header(fixed_header: u8) -> (res: Result<(), Self::Error>) {
        // Reserved flags (4 LSB) must be equal to 0000
        match validate_fixed_header(fixed_header, PINGREQ_PACKET_TYPE, Some(0)) {
            Ok(()) => Ok(()),
            Err(e) => Err(PingReqPacketDecodeError::Common(e)),
        }
    }

    fn decode(_cursor: &mut Cursor<&[u8]>, _fixed_header: u8, _remaining_len: usize) -> (res: Option<
        Result<Self, Self::Error>,
    >) {
        Some(Ok(Self {  }))
    }
}

} // verus!
