//! Protocol constants, the error for data that cannot be parsed, and the
//! data representations read from and written to byte streams.
pub mod decoding;
pub mod encoding;
pub mod mqtt_data;
pub mod packet_type;
pub mod validation;

use vstd::prelude::*;
use vstd::string::StringExecFns;

verus! {

/// Protocol name.
pub const PROTOCOL_NAME: &'static str = "MQTT";

/// Protocol version.
pub const PROTOCOL_VERSION: u8 = 5;

/// Maximum allowed size for a packet.
pub const MAX_PACKET_SIZE: usize = 268_435_455;

/// Maximum allowed length for a UTF-8 encoded string.
pub const MAX_STRING_LENGTH: usize = 65_535;

/// Data within the packet could not be correctly parsed.
#[derive(Debug)]
pub struct MalformedPacketError(pub String);

impl MalformedPacketError {
    /// The text that the error shows to a reader.
    pub fn describe(&self) -> (s: String)
        ensures
            s@ == "Malformed packet: "@ + self.0@,
    {
        String::from_str("Malformed packet: ").concat(self.0.as_str())
    }
}

/// Data could not be encoded, decoded or validated; the text says why.
#[derive(Debug)]
pub struct DataError(pub String);

} // verus!
