//! The MQTT requirements on UTF-8 encoded strings.
use super::{DataError, MAX_STRING_LENGTH};
use crate::codec::text_bytes;
use crate::text::{chars_any_forbidden, has_forbidden_char};
use vstd::prelude::*;
use vstd::string::StringExecFns;

verus! {

/// Validates a UTF-8 string based on MQTT protocol requirements.
///
/// Reference: <https://docs.oasis-open.org/mqtt/mqtt/v5.0/os/mqtt-v5.0-os.html#_Toc3901010>
///
/// **Requirements checked:**
/// - Length must be ≤ `MAX_STRING_LENGTH` bytes.
/// - Must not contain U+0000, the control characters U+0001..U+001F and
///   U+007F..U+009F, or code points that Unicode defines as non-characters.
///   Code points between U+D800 and U+DFFF never occur in a Rust string.
///
/// # Errors
/// - Returns an error if the string fails any of the validations.
pub fn validate_utf8_string(value: &str) -> (res: Result<(), DataError>)
    ensures
        res is Ok <==> text_bytes(value@).len() <= MAX_STRING_LENGTH && !has_forbidden_char(value@),
        res matches Err(e) ==> e.0@ == (if text_bytes(value@).len() > MAX_STRING_LENGTH {
            "String length exceeds allowed maximum"@
        } else {
            "String contains invalid control characters"@
        }),
{
    let len = value.as_bytes().len();
    if len > MAX_STRING_LENGTH {
        return Err(DataError(String::from_str("String length exceeds allowed maximum")));
    }
    if chars_any_forbidden(value) {
        return Err(DataError(String::from_str("String contains invalid control characters")));
    }

    Ok(())
}

} // verus!
