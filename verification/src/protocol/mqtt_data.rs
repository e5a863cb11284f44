//! The MQTT data representations, read from a byte stream and written as
//! bytes, with errors that carry a text only.
use super::{DataError, MAX_STRING_LENGTH};
use crate::bytes_io::{
    be_u16_value, cursor_data, cursor_pos, cursor_read_exact, string_from_utf8,
};
use crate::text::{chars_any_forbidden, decimal_text, has_forbidden_char, u16_to_string, usize_to_string};
use crate::codec::{
    lemma_variable_byte_int_bound, lemma_vbi_value_step, pow128, read_binary, read_string,
    read_var_int, read_var_int_from,
    string_field, text_bytes, vbi_encode, vbi_value, FieldRead, VarIntRead,
};
use crate::protocol::decoding::read_byte;
use crate::protocol::encoding::string_field_vec;
use std::io::Cursor;
use vstd::prelude::*;
use vstd::string::StringExecFns;

verus! {

/// Decode a variable byte integer.
///
/// Reference: <https://docs.oasis-open.org/mqtt/mqtt/v5.0/os/mqtt-v5.0-os.html#_Toc3901011>
///
/// # Errors
/// - Returns an error if the stream ends before the integer does, or if the integer has more
///   than four bytes.
pub fn decode_variable_byte_int(reader: &mut Cursor<&[u8]>) -> (res: Result<usize, DataError>)
    ensures
        cursor_data(*final(reader)) == cursor_data(*old(reader)),
        match read_var_int(cursor_data(*old(reader)), cursor_pos(*old(reader)) as int) {
            VarIntRead::Value(v, n) => res matches Ok(r) && r == v && cursor_pos(*final(reader))
                == cursor_pos(*old(reader)) + n,
            VarIntRead::TooLong => res matches Err(e) && e.0@ == "Malformed Variable Byte Integer"@,
            VarIntRead::Truncated => res matches Err(e) && e.0@ == "Failed to read encoded byte"@,
        },
        res matches Ok(r) ==> r <= 268_435_455,
{
    let ghost data = cursor_data(*reader);
    let ghost start = cursor_pos(*reader) as int;
    proof {
        lemma_variable_byte_int_bound(data, start);
    }
    let ghost mut i: nat = 0;
    let mut multiplier: usize = 1;
    let mut decoded_value: usize = 0;

    loop
        invariant
            data == cursor_data(*old(reader)),
            start == cursor_pos(*old(reader)),
            cursor_data(*reader) == data,
            cursor_pos(*reader) == start + i,
            i <= 4,
            multiplier == pow128(i),
            i > 0 ==> decoded_value == vbi_value(data.subrange(start, start + i)),
            i == 0 ==> decoded_value == 0,
            decoded_value < pow128(i),
            read_var_int(data, start) == read_var_int_from(data, start, i),
        decreases 4 - i,
    {
        // Read next byte
        let encoded_byte = match read_byte(reader) {
            Some(b) => b,
            None => {
                return Err(DataError(String::from_str("Failed to read encoded byte")));
            },
        };
        assert((encoded_byte & 127) == encoded_byte % 128 && ((encoded_byte & 128 == 0)
            <==> encoded_byte < 128)) by (bit_vector);
        proof {
            lemma_vbi_value_step(data, start, i);
        }

        // Take the 7 least significant bits
        let value = (encoded_byte & 127) as usize;

        // Prevent integer overflow
        if multiplier > 128 * 128 * 128 {
            return Err(DataError(String::from_str("Malformed Variable Byte Integer")));
        }

        // Multiply by current multiplier and add to decoded value
        assert(value * multiplier <= 127 * multiplier) by (nonlinear_arith)
            requires
                value <= 127,
        ;
        assert(i < 4 && multiplier <= 2_097_152) by {
            reveal_with_fuel(pow128, 5);
        }
        decoded_value = decoded_value + value * multiplier;
        multiplier = multiplier * 128;
        proof {
            i = i + 1;
        }

        // Check if continuation bit is not set
        if encoded_byte & 128 == 0 {
            return Ok(decoded_value);
        }
    }
}

/// Encode a variable byte integer: seven bits per byte, least significant
/// group first, with the top bit set on every byte after which more follow.
///
/// Reference: <https://docs.oasis-open.org/mqtt/mqtt/v5.0/os/mqtt-v5.0-os.html#_Toc3901011>
pub fn encode_variable_byte_int(value: u32) -> (encoded: Vec<u8>)
    ensures
        encoded@ == vbi_encode(value as nat),
{
    crate::codec::encode_variable_byte_int(value)
}

/// Decode a UTF-8 string: a two-byte length, then that many bytes of valid UTF-8.
///
/// Reference: <https://docs.oasis-open.org/mqtt/mqtt/v5.0/os/mqtt-v5.0-os.html#_Toc3901010>
///
/// # Errors
/// - Returns an error if reading the length or the string bytes fails, or if the bytes are not
///   valid UTF-8.
pub fn decode_utf8_string(reader: &mut Cursor<&[u8]>) -> (res: Result<String, DataError>)
    ensures
        cursor_data(*final(reader)) == cursor_data(*old(reader)),
        match read_string(cursor_data(*old(reader)), cursor_pos(*old(reader)) as int) {
            FieldRead::Value(text, end) => res matches Ok(s) && s@ == text && cursor_pos(
                *final(reader),
            ) == end,
            FieldRead::MissingLength => res matches Err(e) && e.0@
                == "Failed to decode string length"@,
            FieldRead::MissingData => res matches Err(e) && e.0@
                == "Failed to read UTF-8 encoded string with length "@ + decimal_text(
                crate::codec::length_at(
                    cursor_data(*old(reader)),
                    cursor_pos(*old(reader)) as int,
                ) as nat,
            ),
            FieldRead::InvalidUtf8 => res matches Err(e) && e.0@
                == "Failed to convert encoded_value into a String"@,
        },
{
    let len = match decode_u16(reader) {
        Ok(len) => len,
        Err(_) => {
            return Err(DataError(String::from_str("Failed to decode string length")));
        },
    };

    // Allocate a buffer with the exact size needed for the string
    let mut encoded_value: Vec<u8> = vec![0; len as usize];
    if !cursor_read_exact(reader, &mut encoded_value) {
        return Err(
            DataError(
                String::from_str("Failed to read UTF-8 encoded string with length ").concat(
                    u16_to_string(len).as_str(),
                ),
            ),
        );
    }

    // Convert the UTF-8 bytes into a String
    match string_from_utf8(encoded_value) {
        Some(s) => Ok(s),
        None => Err(DataError(String::from_str("Failed to convert encoded_value into a String"))),
    }
}

/// Encode a UTF-8 string: its length in bytes as two big-endian bytes,
/// then its bytes.
///
/// Reference: <https://docs.oasis-open.org/mqtt/mqtt/v5.0/os/mqtt-v5.0-os.html#_Toc3901010>
///
/// # Errors
/// - Returns an error if the string's length cannot be cast to a 16-bit integer.
pub fn encode_utf8_string(value: &str) -> (res: Result<Vec<u8>, DataError>)
    ensures
        res is Ok <==> text_bytes(value@).len() <= 65_535,
        res matches Ok(v) ==> v@ == string_field(text_bytes(value@)),
        res matches Err(e) ==> e.0@ == "Expected value "@ + value@ + " length ("@ + decimal_text(
            text_bytes(value@).len(),
        ) + ") to be less than or equal to 65535"@,
{
    // MQTT requires that the length of the string must fit within 2 bytes (0 to 65_535).
    let bytes = value.as_bytes();
    let len = bytes.len();
    if len > 65_535 {
        let text = String::from_str("Expected value ").concat(value).concat(" length (").concat(
            usize_to_string(len).as_str(),
        ).concat(") to be less than or equal to 65535");
        return Err(DataError(text));
    }
    Ok(string_field_vec(bytes))
}

/// Validates a UTF-8 string based on MQTT protocol requirements.
///
/// Reference: <https://docs.oasis-open.org/mqtt/mqtt/v5.0/os/mqtt-v5.0-os.html#_Toc3901010>
///
/// # Errors
/// - Returns an error if the string is longer than `MAX_STRING_LENGTH` bytes, or holds U+0000,
///   a control character U+0001..U+001F or U+007F..U+009F, or a code point that Unicode defines
///   as a non-character. Code points between U+D800 and U+DFFF never occur in a Rust string.
pub fn validate_utf8_string(value: &str) -> (res: Result<(), DataError>)
    ensures
        res is Ok <==> text_bytes(value@).len() <= MAX_STRING_LENGTH && !has_forbidden_char(value@),
        res matches Err(e) ==> e.0@ == (if text_bytes(value@).len() > MAX_STRING_LENGTH {
            "String length "@ + decimal_text(text_bytes(value@).len())
                + " exceeds maximum allowed size of 65535 bytes"@
        } else {
            "String include invalid characters"@
        }),
{
    // Unless stated otherwise all UTF-8 encoded strings can have any length in the range 0 to 65,535 bytes
    let len = value.as_bytes().len();
    if len > MAX_STRING_LENGTH {
        let text = String::from_str("String length ").concat(usize_to_string(len).as_str()).concat(
            " exceeds maximum allowed size of 65535 bytes",
        );
        return Err(DataError(text));
    }
    if chars_any_forbidden(value) {
        return Err(DataError(String::from_str("String include invalid characters")));
    }

    Ok(())
}

/// Decode binary data: a two-byte length followed by that many bytes.
///
/// Reference: <https://docs.oasis-open.org/mqtt/mqtt/v5.0/os/mqtt-v5.0-os.html#_Toc3901012>
///
/// # Errors
/// - Returns an error if reading the length bytes or binary data bytes fails.
pub fn decode_binary_data(reader: &mut Cursor<&[u8]>) -> (res: Result<Vec<u8>, DataError>)
    ensures
        cursor_data(*final(reader)) == cursor_data(*old(reader)),
        match read_binary(cursor_data(*old(reader)), cursor_pos(*old(reader)) as int) {
            FieldRead::Value(bytes, end) => res matches Ok(v) && v@ == bytes && cursor_pos(
                *final(reader),
            ) == end,
            FieldRead::MissingLength => res matches Err(e) && e.0@
                == "Failed to read binary data length"@,
            _ => res matches Err(e) && e.0@ == "Failed to read binary data with length "@
                + decimal_text(
                crate::codec::length_at(
                    cursor_data(*old(reader)),
                    cursor_pos(*old(reader)) as int,
                ) as nat,
            ),
        },
{
    let len = match decode_u16(reader) {
        Ok(len) => len,
        Err(_) => {
            return Err(DataError(String::from_str("Failed to read binary data length")));
        },
    };

    // Read binary data
    let mut decoded_value: Vec<u8> = vec![0; len as usize];
    if !cursor_read_exact(reader, &mut decoded_value) {
        return Err(
            DataError(
                String::from_str("Failed to read binary data with length ").concat(
                    u16_to_string(len).as_str(),
                ),
            ),
        );
    }
    Ok(decoded_value)
}

/// Decode a 1-byte unsigned integer.
///
/// Reference: <https://docs.oasis-open.org/mqtt/mqtt/v5.0/os/mqtt-v5.0-os.html#_Toc3901007>
///
/// # Errors
/// - Returns an error if reading the u8 fails.
pub fn decode_u8(reader: &mut Cursor<&[u8]>) -> (res: Result<u8, DataError>)
    ensures
        cursor_data(*final(reader)) == cursor_data(*old(reader)),
        cursor_pos(*old(reader)) < cursor_data(*old(reader)).len() ==> (res matches Ok(v) && v
            == cursor_data(*old(reader))[cursor_pos(*old(reader)) as int] && cursor_pos(
            *final(reader),
        ) == cursor_pos(*old(reader)) + 1),
        cursor_pos(*old(reader)) >= cursor_data(*old(reader)).len() ==> (res matches Err(e) && e.0@
            == "Failed to read u8"@),
{
    match read_byte(reader) {
        Some(b) => Ok(b),
        None => Err(DataError(String::from_str("Failed to read u8"))),
    }
}

/// Decode a 2-byte unsigned integer (big-endian).
///
/// Reference: <https://docs.oasis-open.org/mqtt/mqtt/v5.0/os/mqtt-v5.0-os.html#_Toc3901008>
///
/// # Errors
/// - Returns an error if reading the u16 fails.
pub fn decode_u16(reader: &mut Cursor<&[u8]>) -> (res: Result<u16, DataError>)
    ensures
        cursor_data(*final(reader)) == cursor_data(*old(reader)),
        cursor_pos(*old(reader)) + 2 <= cursor_data(*old(reader)).len() ==> (res matches Ok(v)
            && v == be_u16_value(
            cursor_data(*old(reader))[cursor_pos(*old(reader)) as int],
            cursor_data(*old(reader))[cursor_pos(*old(reader)) + 1int],
        ) && cursor_pos(*final(reader)) == cursor_pos(*old(reader)) + 2),
        cursor_pos(*old(reader)) + 2 > cursor_data(*old(reader)).len() ==> (res matches Err(e)
            && e.0@ == "Failed to read u16"@),
{
    let mut decoded_value: Vec<u8> = vec![0; 2];
    if !cursor_read_exact(reader, &mut decoded_value) {
        return Err(DataError(String::from_str("Failed to read u16")));
    }
    let hi = decoded_value[0];
    let lo = decoded_value[1];
    Ok((hi as u16) * 256 + (lo as u16))
}

/// Encode a UTF-8 String Pair: the name, then the value, each as a UTF-8
/// string.
///
/// Reference: <https://docs.oasis-open.org/mqtt/mqtt/v5.0/os/mqtt-v5.0-os.html#_Toc3901013>
///
/// # Errors
/// - Returns an error if encoding the name or the value fails.
pub fn encode_utf8_string_pair(pair: (&String, &String)) -> (res: Result<Vec<u8>, DataError>)
    ensures
        res is Ok <==> text_bytes(pair.0@).len() <= 65_535 && text_bytes(pair.1@).len() <= 65_535,
        res matches Ok(v) ==> v@ == string_field(text_bytes(pair.0@)) + string_field(
            text_bytes(pair.1@),
        ),
        res matches Err(e) ==> e.0@ == (if text_bytes(pair.0@).len() > 65_535 {
            "Failed to encode name "@ + pair.0@
        } else {
            "Failed to encode value "@ + pair.1@
        }),
{
    // UTF-8 String Pair are composed by:
    // - 2-byte name length
    // - name
    // - 2-byte value length
    // - value
    let (name, value) = pair;
    let mut encoded_value = match encode_utf8_string(name.as_str()) {
        Ok(v) => v,
        Err(_) => {
            return Err(DataError(String::from_str("Failed to encode name ").concat(name.as_str())));
        },
    };
    let mut value_bytes = match encode_utf8_string(value.as_str()) {
        Ok(v) => v,
        Err(_) => {
            return Err(
                DataError(String::from_str("Failed to encode value ").concat(value.as_str())),
            );
        },
    };
    encoded_value.append(&mut value_bytes);
    Ok(encoded_value)
}

} // verus!
