//! Reading the MQTT data representations from a byte stream; running out
//! of bytes is a malformed packet.
use super::MalformedPacketError;
use crate::bytes_io::{be_u16_value, cursor_data, cursor_pos, cursor_read_exact};
use crate::codec::{
    lemma_variable_byte_int_bound, lemma_vbi_value_step, pow128, read_binary, read_string,
    read_var_int, read_var_int_from,
    vbi_value, FieldRead, VarIntRead,
};
use std::io::Cursor;
use vstd::prelude::*;
use vstd::string::StringExecFns;

verus! {

/// A malformed packet error with the given text.
pub open spec fn malformed(res_err: MalformedPacketError, text: Seq<char>) -> bool {
    res_err.0@ == text
}

/// Reads one byte from the stream; `None` when the stream has ended.
pub(crate) fn read_byte(reader: &mut Cursor<&[u8]>) -> (res: Option<u8>)
    ensures
        cursor_data(*final(reader)) == cursor_data(*old(reader)),
        res is Some <==> cursor_pos(*old(reader)) < cursor_data(*old(reader)).len(),
        res matches Some(b) ==> b == cursor_data(*old(reader))[cursor_pos(*old(reader)) as int]
            && cursor_pos(*final(reader)) == cursor_pos(*old(reader)) + 1,
{
    let mut encoded_byte: Vec<u8> = vec![0; 1];
    if cursor_read_exact(reader, &mut encoded_byte) {
        Some(encoded_byte[0])
    } else {
        None
    }
}

/// Decode a variable byte integer.
///
/// Reference: <https://docs.oasis-open.org/mqtt/mqtt/v5.0/os/mqtt-v5.0-os.html#_Toc3901011>
///
/// # Errors
/// - A malformed packet error if the stream ends before the integer does, or if the integer
///   has more than four bytes.
pub fn decode_variable_byte_int(reader: &mut Cursor<&[u8]>) -> (res: Result<usize, MalformedPacketError>)
    ensures
        cursor_data(*final(reader)) == cursor_data(*old(reader)),
        match read_var_int(cursor_data(*old(reader)), cursor_pos(*old(reader)) as int) {
            VarIntRead::Value(v, n) => res matches Ok(r) && r == v && cursor_pos(*final(reader))
                == cursor_pos(*old(reader)) + n,
            VarIntRead::TooLong => res matches Err(e) && malformed(
                e,
                "Malformed variable byte integer"@,
            ),
            VarIntRead::Truncated => res matches Err(e) && malformed(
                e,
                "Unable to read variable byte integer"@,
            ),
        },
        res matches Ok(r) ==> r <= 268_435_455,
{
    let ghost data = cursor_data(*reader);
    let ghost start = cursor_pos(*reader) as int;
    proof {
        lemma_variable_byte_int_bound(data, start);
    }
    let ghost mut i: nat = 0;
    let mut multiplier: usize = 1;
    let mut decoded_value: usize = 0;

    loop
        invariant
            data == cursor_data(*old(reader)),
            start == cursor_pos(*old(reader)),
            cursor_data(*reader) == data,
            cursor_pos(*reader) == start + i,
            i <= 4,
            multiplier == pow128(i),
            i > 0 ==> decoded_value == vbi_value(data.subrange(start, start + i)),
            i == 0 ==> decoded_value == 0,
            decoded_value < pow128(i),
            read_var_int(data, start) == read_var_int_from(data, start, i),
        decreases 4 - i,
    {
        // Read next byte
        let encoded_byte = match read_byte(reader) {
            Some(b) => b,
            None => {
                return Err(
                    MalformedPacketError(
                        String::from_str("Unable to read variable byte integer"),
                    ),
                );
            },
        };
        assert((encoded_byte & 127) == encoded_byte % 128 && ((encoded_byte & 128 == 0)
            <==> encoded_byte < 128)) by (bit_vector);
        proof {
            lemma_vbi_value_step(data, start, i);
        }

        // Take the 7 least significant bits
        let value = (encoded_byte & 127) as usize;

        // Ensure multiplier does not exceed the specification limits
        if multiplier > 128 * 128 * 128 {
            return Err(MalformedPacketError(String::from_str("Malformed variable byte integer")));
        }

        // Multiply by current multiplier and add to decoded value
        assert(value * multiplier <= 127 * multiplier) by (nonlinear_arith)
            requires
                value <= 127,
        ;
        assert(i < 4 && multiplier <= 2_097_152) by {
            reveal_with_fuel(pow128, 5);
        }
        decoded_value = decoded_value + value * multiplier;
        multiplier = multiplier * 128;
        proof {
            i = i + 1;
        }

        // If the continuation bit is not set, we are done
        if encoded_byte & 128 == 0 {
            return Ok(decoded_value);
        }
    }
}

/// Decode a UTF-8 string: a two-byte length, then that many bytes of valid UTF-8.
///
/// Reference: <https://docs.oasis-open.org/mqtt/mqtt/v5.0/os/mqtt-v5.0-os.html#_Toc3901010>
///
/// # Errors
/// - A malformed packet error if reading fails or the string is invalid UTF-8.
pub fn decode_utf8_string(reader: &mut Cursor<&[u8]>) -> (res: Result<String, MalformedPacketError>)
    ensures
        cursor_data(*final(reader)) == cursor_data(*old(reader)),
        match read_string(cursor_data(*old(reader)), cursor_pos(*old(reader)) as int) {
            FieldRead::Value(text, end) => res matches Ok(s) && s@ == text && cursor_pos(
                *final(reader),
            ) == end,
            FieldRead::MissingLength => res matches Err(e) && malformed(
                e,
                "Failed to read UTF-8 string length"@,
            ),
            FieldRead::MissingData => res matches Err(e) && malformed(
                e,
                "Failed to read UTF-8 string data"@,
            ),
            FieldRead::InvalidUtf8 => res matches Err(e) && malformed(
                e,
                "String is not valid UTF-8"@,
            ),
        },
{
    let len = match decode_u16(reader) {
        Ok(len) => len as usize,
        Err(_) => {
            return Err(
                MalformedPacketError(String::from_str("Failed to read UTF-8 string length")),
            );
        },
    };

    let mut encoded_value: Vec<u8> = vec![0; len];
    if !cursor_read_exact(reader, &mut encoded_value) {
        return Err(MalformedPacketError(String::from_str("Failed to read UTF-8 string data")));
    }
    match crate::bytes_io::string_from_utf8(encoded_value) {
        Some(s) => Ok(s),
        None => Err(MalformedPacketError(String::from_str("String is not valid UTF-8"))),
    }
}

/// Decode binary data: a two-byte length followed by that many bytes of data.
///
/// Reference: <https://docs.oasis-open.org/mqtt/mqtt/v5.0/os/mqtt-v5.0-os.html#_Toc3901012>
///
/// # Errors
/// - A malformed packet error if reading fails.
pub fn decode_binary_data(reader: &mut Cursor<&[u8]>) -> (res: Result<Vec<u8>, MalformedPacketError>)
    ensures
        cursor_data(*final(reader)) == cursor_data(*old(reader)),
        match read_binary(cursor_data(*old(reader)), cursor_pos(*old(reader)) as int) {
            FieldRead::Value(bytes, end) => res matches Ok(v) && v@ == bytes && cursor_pos(
                *final(reader),
            ) == end,
            FieldRead::MissingLength => res matches Err(e) && malformed(
                e,
                "Failed to read binary data length"@,
            ),
            _ => res matches Err(e) && malformed(e, "Failed to read binary data"@),
        },
{
    let len = match decode_u16(reader) {
        Ok(len) => len as usize,
        Err(_) => {
            return Err(
                MalformedPacketError(String::from_str("Failed to read binary data length")),
            );
        },
    };

    let mut decoded_value: Vec<u8> = vec![0; len];
    if !cursor_read_exact(reader, &mut decoded_value) {
        return Err(MalformedPacketError(String::from_str("Failed to read binary data")));
    }
    Ok(decoded_value)
}

/// Decode a 1-byte unsigned integer.
///
/// Reference: <https://docs.oasis-open.org/mqtt/mqtt/v5.0/os/mqtt-v5.0-os.html#_Toc3901007>
///
/// # Errors
/// - A malformed packet error if reading fails.
pub fn decode_u8(reader: &mut Cursor<&[u8]>) -> (res: Result<u8, MalformedPacketError>)
    ensures
        cursor_data(*final(reader)) == cursor_data(*old(reader)),
        cursor_pos(*old(reader)) < cursor_data(*old(reader)).len() ==> (res matches Ok(v) && v
            == cursor_data(*old(reader))[cursor_pos(*old(reader)) as int] && cursor_pos(
            *final(reader),
        ) == cursor_pos(*old(reader)) + 1),
        cursor_pos(*old(reader)) >= cursor_data(*old(reader)).len() ==> (res matches Err(e)
            && malformed(e, "Failed to read u8"@)),
{
    match read_byte(reader) {
        Some(b) => Ok(b),
        None => Err(MalformedPacketError(String::from_str("Failed to read u8"))),
    }
}

/// Decode a 2-byte unsigned integer (big-endian).
///
/// Reference: <https://docs.oasis-open.org/mqtt/mqtt/v5.0/os/mqtt-v5.0-os.html#_Toc3901008>
///
/// # Errors
/// - A malformed packet error if reading fails.
pub fn decode_u16(reader: &mut Cursor<&[u8]>) -> (res: Result<u16, MalformedPacketError>)
    ensures
        cursor_data(*final(reader)) == cursor_data(*old(reader)),
        cursor_pos(*old(reader)) + 2 <= cursor_data(*old(reader)).len() ==> (res matches Ok(v)
            && v == be_u16_value(
            cursor_data(*old(reader))[cursor_pos(*old(reader)) as int],
            cursor_data(*old(reader))[cursor_pos(*old(reader)) + 1int],
        ) && cursor_pos(*final(reader)) == cursor_pos(*old(reader)) + 2),
        cursor_pos(*old(reader)) + 2 > cursor_data(*old(reader)).len() ==> (res matches Err(e)
            && malformed(e, "Failed to read u16"@)),
{
    let mut decoded_value: Vec<u8> = vec![0; 2];
    if !cursor_read_exact(reader, &mut decoded_value) {
        return Err(MalformedPacketError(String::from_str("Failed to read u16")));
    }
    let hi = decoded_value[0];
    let lo = decoded_value[1];
    Ok((hi as u16) * 256 + (lo as u16))
}

} // verus!
