//! The PINGRESP packet: the server's answer to a PINGREQ.
use crate::bytes_io::{bytes_mut_contents, bytes_mut_from_slice};
use bytes::BytesMut;
use vstd::prelude::*;

verus! {

/// Identifier of the PINGRESP packet type.
pub const PINGRESP_PACKET_TYPE: u8 = 0x0D;

/// The PINGRESP packet; it carries nothing.
#[derive(Debug)]
pub struct PingRespPacket {}

/// Encoding a PINGRESP packet cannot fail; the error has no value.
#[derive(Debug)]
pub struct PingRespPacketEncodeError {}

impl PingRespPacket {
    /// The packet type number.
    pub fn packet_type() -> (res: u8)
        ensures
            res == PINGRESP_PACKET_TYPE,
    {
        PINGRESP_PACKET_TYPE
    }

    /// Encodes the packet: the fixed header and a remaining length of zero.
    pub fn encode(&self) -> (res: Result<BytesMut, PingRespPacketEncodeError>)
        ensures
            res matches Ok(b) && bytes_mut_contents(b) == seq![0xD0u8, 0u8],
    {
        let header = Self::packet_type() << 4;
        assert((PINGRESP_PACKET_TYPE << 4) == 0xD0) by (bit_vector);
        let bytes: [u8; 2] = [header, 0];
        assert(bytes@ =~= seq![0xD0u8, 0u8]);
        Ok(bytes_mut_from_slice(&bytes))
    }
}

} // verus!
