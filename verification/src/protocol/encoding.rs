//! Writing the MQTT data representations as bytes.
use super::DataError;
use crate::codec::{string_field, text_bytes, vbi_encode};
use vstd::prelude::*;
use vstd::string::StringExecFns;

verus! {

/// Encode a variable byte integer: seven bits per byte, least significant
/// group first, with the top bit set on every byte after which more follow.
///
/// Reference: <https://docs.oasis-open.org/mqtt/mqtt/v5.0/os/mqtt-v5.0-os.html#_Toc3901011>
pub fn encode_variable_byte_int(value: u32) -> (encoded: Vec<u8>)
    ensures
        encoded@ == vbi_encode(value as nat),
{
    crate::codec::encode_variable_byte_int(value)
}

/// The bytes of `bytes` as a UTF-8 string field, in a fresh vector.
pub(crate) fn string_field_vec(bytes: &[u8]) -> (encoded: Vec<u8>)
    requires
        bytes@.len() <= 65_535,
    ensures
        encoded@ == string_field(bytes@),
{
    let len = bytes.len() as u16;
    let mut encoded_value: Vec<u8> = Vec::with_capacity(2 + bytes.len());
    // Big-endian ensures compatibility with the MQTT specification
    encoded_value.push((len / 256) as u8);
    encoded_value.push((len % 256) as u8);
    encoded_value.extend_from_slice(bytes);
    assert(encoded_value@ =~= string_field(bytes@));
    encoded_value
}

/// Encode a UTF-8 string: its length in bytes as two big-endian bytes,
/// then its bytes.
///
/// Reference: <https://docs.oasis-open.org/mqtt/mqtt/v5.0/os/mqtt-v5.0-os.html#_Toc3901010>
///
/// # Errors
/// - Returns an error if the string length exceeds the maximum allowed (`65_535` bytes).
pub fn encode_utf8_string(value: &str) -> (res: Result<Vec<u8>, DataError>)
    ensures
        res is Ok <==> text_bytes(value@).len() <= 65_535,
        res matches Ok(v) ==> v@ == string_field(text_bytes(value@)),
        res matches Err(e) ==> e.0@ == "String length exceeds the maximum allowed"@,
{
    // MQTT requires that the length of the string must fit within 2 bytes (0 to 65_535).
    let bytes = value.as_bytes();
    if bytes.len() > 65_535 {
        return Err(DataError(String::from_str("String length exceeds the maximum allowed")));
    }
    Ok(string_field_vec(bytes))
}

/// Encode a UTF-8 String Pair: the name, then the value, each as a UTF-8
/// string.
///
/// Reference: <https://docs.oasis-open.org/mqtt/mqtt/v5.0/os/mqtt-v5.0-os.html#_Toc3901013>
///
/// # Errors
/// - Returns an error if encoding either name or value fails.
pub fn encode_utf8_string_pair(pair: (&String, &String)) -> (res: Result<Vec<u8>, DataError>)
    ensures
        res is Ok <==> text_bytes(pair.0@).len() <= 65_535 && text_bytes(pair.1@).len() <= 65_535,
        res matches Ok(v) ==> v@ == string_field(text_bytes(pair.0@)) + string_field(
            text_bytes(pair.1@),
        ),
        res matches Err(e) ==> e.0@ == (if text_bytes(pair.0@).len() > 65_535 {
            "Failed to encode UTF-8 string name "@ + pair.0@
        } else {
            "Failed to encode UTF-8 string value "@ + pair.1@
        }),
{
    let (name, value) = pair;
    let mut name_bytes = match encode_utf8_string(name.as_str()) {
        Ok(v) => v,
        Err(_) => {
            return Err(
                DataError(String::from_str("Failed to encode UTF-8 string name ").concat(name.as_str())),
            );
        },
    };
    let mut value_bytes = match encode_utf8_string(value.as_str()) {
        Ok(v) => v,
        Err(_) => {
            return Err(
                DataError(
                    String::from_str("Failed to encode UTF-8 string value ").concat(value.as_str()),
                ),
            );
        },
    };
    name_bytes.append(&mut value_bytes);
    Ok(name_bytes)
}

} // verus!
