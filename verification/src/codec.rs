//! The MQTT data representations: variable byte integers, UTF-8 encoded
//! strings and string pairs, and binary data, read from a cursor and written
//! into a buffer.
use crate::bytes_io::{
    be_u16_bytes, be_u16_value, be_u32_bytes, bytes_as_slice, bytes_contents, bytes_mut_contents, bytes_mut_from_slice, cursor_data, cursor_get_u16,
    cursor_get_u8, cursor_pos, cursor_read_exact, cursor_remaining, put_slice, put_u16, put_u32, put_u8, string_from_utf8,
};
use crate::packets::{CommonError, CommonPacketError};
use bytes::BytesMut;
use std::io::Cursor;
use vstd::prelude::*;
use vstd::string::StringSliceAdditionalSpecFns;

verus! {

/// `128` raised to the power `n`.
pub open spec fn pow128(n: nat) -> nat
    decreases n,
{
    if n == 0 {
        1
    } else {
        128 * pow128((n - 1) as nat)
    }
}

/// The number that the bytes of a variable byte integer stand for: the low
/// seven bits of each byte, least significant group first.
pub open spec fn vbi_value(s: Seq<u8>) -> nat
    decreases s.len(),
{
    if s.len() == 0 {
        0
    } else {
        vbi_value(s.drop_last()) + (s.last() % 128) as nat * pow128((s.len() - 1) as nat)
    }
}

/// The variable byte integer encoding of `v`: seven bits per byte, least
/// significant group first, the top bit set on every byte but the last.
pub open spec fn vbi_encode(v: nat) -> Seq<u8>
    decreases v,
{
    if v / 128 == 0 {
        seq![(v % 128) as u8]
    } else {
        seq![(v % 128 + 128) as u8] + vbi_encode(v / 128)
    }
}

/// The number of bytes that the encoding of `v` takes, for `v` below `2^28`.
pub open spec fn vbi_len(v: nat) -> nat {
    if v < 128 {
        1
    } else if v < 16_384 {
        2
    } else if v < 2_097_152 {
        3
    } else {
        4
    }
}

/// What reading a variable byte integer finds.
pub enum VarIntRead {
    /// The integer and the number of bytes it took.
    Value(nat, nat),
    /// A fifth byte was read: the integer is longer than the four bytes
    /// allowed.
    TooLong,
    /// The input ended before the integer did.
    Truncated,
}

/// Reading a variable byte integer at `start`, with `i` bytes of it read
/// already (all of them with the continuation bit set).
pub open spec fn read_var_int_from(data: Seq<u8>, start: int, i: nat) -> VarIntRead
    decreases 4 - i,
{
    if start + i >= data.len() {
        VarIntRead::Truncated
    } else if i >= 4 {
        VarIntRead::TooLong
    } else if data[start + i] < 128 {
        VarIntRead::Value(vbi_value(data.subrange(start, start + i + 1)), i + 1)
    } else {
        read_var_int_from(data, start, i + 1)
    }
}

/// Reading a variable byte integer that starts at `start` in `data`.
pub open spec fn read_var_int(data: Seq<u8>, start: int) -> VarIntRead {
    read_var_int_from(data, start, 0)
}

/// What reading a length-prefixed field finds.
pub enum FieldRead<T> {
    /// The field's value and the position just after it.
    Value(T, int),
    /// Fewer than two bytes are left for the length.
    MissingLength,
    /// Fewer bytes are left than the length announces.
    MissingData,
    /// The bytes are not valid UTF-8 (strings only).
    InvalidUtf8,
}

/// The two-byte big-endian length at `pos`.
pub open spec fn length_at(data: Seq<u8>, pos: int) -> int {
    be_u16_value(data[pos], data[pos + 1]) as int
}

/// Reading binary data (a two-byte length, then that many bytes) at `pos`.
pub open spec fn read_binary(data: Seq<u8>, pos: int) -> FieldRead<Seq<u8>> {
    if pos + 2 > data.len() {
        FieldRead::MissingLength
    } else if pos + 2 + length_at(data, pos) > data.len() {
        FieldRead::MissingData
    } else {
        FieldRead::Value(
            data.subrange(pos + 2, pos + 2 + length_at(data, pos)),
            pos + 2 + length_at(data, pos),
        )
    }
}

/// Reading a UTF-8 encoded string (a two-byte length, then that many bytes
/// of UTF-8) at `pos`.
pub open spec fn read_string(data: Seq<u8>, pos: int) -> FieldRead<Seq<char>> {
    match read_binary(data, pos) {
        FieldRead::Value(bytes, end) => {
            if vstd::utf8::valid_utf8(bytes) {
                FieldRead::Value(vstd::utf8::decode_utf8(bytes), end)
            } else {
                FieldRead::InvalidUtf8
            }
        },
        FieldRead::MissingLength => FieldRead::MissingLength,
        FieldRead::MissingData => FieldRead::MissingData,
        FieldRead::InvalidUtf8 => FieldRead::InvalidUtf8,
    }
}

/// The encoding of a UTF-8 string whose bytes are `bytes`: their number as
/// two big-endian bytes, then the bytes.
pub open spec fn string_field(bytes: Seq<u8>) -> Seq<u8> {
    be_u16_bytes(bytes.len() as u16) + bytes
}

/// The UTF-8 bytes of a text.
pub open spec fn text_bytes(t: Seq<char>) -> Seq<u8> {
    vstd::utf8::encode_utf8(t)
}

proof fn lemma_low_bits(b: u8)
    ensures
        (b & 127) == b % 128,
        (b & 128 == 0) <==> b < 128,
        b < 128 ==> (b | 128) == b + 128,
{
    assert((b & 127) == b % 128) by (bit_vector);
    assert((b & 128 == 0) <==> b < 128) by (bit_vector);
    assert(b < 128 ==> (b | 128) == b + 128) by (bit_vector);
}

pub proof fn lemma_vbi_value_step(data: Seq<u8>, start: int, i: nat)
    requires
        0 <= start,
        start + i < data.len(),
    ensures
        vbi_value(data.subrange(start, start + i + 1)) == vbi_value(data.subrange(start, start + i))
            + (data[start + i] % 128) as nat * pow128(i),
{
    let s = data.subrange(start, start + i + 1);
    assert(s.drop_last() =~= data.subrange(start, start + i));
}

proof fn lemma_vbi_value_prefix(s: Seq<u8>, n: nat)
    requires
        1 <= n <= 4,
        n <= s.len(),
    ensures
        vbi_value(s.subrange(0, n as int)) == (s[0] % 128) as nat + (if n >= 2 {
            (s[1] % 128) as nat * 128
        } else {
            0
        }) + (if n >= 3 {
            (s[2] % 128) as nat * 16_384
        } else {
            0
        }) + (if n >= 4 {
            (s[3] % 128) as nat * 2_097_152
        } else {
            0
        }),
    decreases n,
{
    reveal_with_fuel(pow128, 5);
    let t = s.subrange(0, n as int);
    assert(t.drop_last() =~= s.subrange(0, n - 1));
    assert(t.last() == s[n - 1]);
    assert(vbi_value(t) == vbi_value(t.drop_last()) + (s[n - 1] % 128) as nat * pow128(
        (n - 1) as nat,
    ));
    if n > 1 {
        lemma_vbi_value_prefix(s, (n - 1) as nat);
    } else {
        assert(t.drop_last() =~= Seq::<u8>::empty());
        assert(vbi_value(Seq::<u8>::empty()) == 0);
    }
}

/// Decoding the encoding of a number below `2^28` (the largest that four
/// bytes hold) gives the number back, whatever bytes follow it, and
/// consumes exactly the encoding, which is one to four bytes long.
#[verifier::spinoff_prover]
pub proof fn lemma_variable_byte_int_round_trip(v: nat, rest: Seq<u8>)
    requires
        v < 268_435_456,
    ensures
        vbi_encode(v).len() == vbi_len(v),
        1 <= vbi_len(v) <= 4,
        read_var_int(vbi_encode(v) + rest, 0) == VarIntRead::Value(v, vbi_len(v)),
{
    reveal_with_fuel(vbi_encode, 5);
    reveal_with_fuel(read_var_int_from, 5);
    let e = vbi_encode(v);
    let d = e + rest;
    let q1 = v / 128;
    let q2 = q1 / 128;
    let q3 = q2 / 128;
    assert(q3 / 128 == 0);
    if v < 128 {
        assert(e =~= seq![v as u8]);
    } else if v < 16_384 {
        assert(e =~= seq![(v % 128 + 128) as u8, q1 as u8]);
    } else if v < 2_097_152 {
        assert(e =~= seq![(v % 128 + 128) as u8, (q1 % 128 + 128) as u8, q2 as u8]);
    } else {
        assert(e =~= seq![
            (v % 128 + 128) as u8,
            (q1 % 128 + 128) as u8,
            (q2 % 128 + 128) as u8,
            q3 as u8,
        ]);
    }
    lemma_vbi_value_prefix(d, vbi_len(v));
}

/// The value of the bytes of a variable byte integer is below `128` raised
/// to their number.
proof fn lemma_vbi_value_bound(s: Seq<u8>)
    ensures
        vbi_value(s) < pow128(s.len()),
    decreases s.len(),
{
    if s.len() > 0 {
        lemma_vbi_value_bound(s.drop_last());
        let p = pow128((s.len() - 1) as nat);
        let d = (s.last() % 128) as nat;
        assert(d * p <= 127 * p) by (nonlinear_arith)
            requires
                d <= 127,
        ;
    }
}

/// What reading a variable byte integer finds is the value of the bytes it
/// read.
proof fn lemma_read_var_int_value(data: Seq<u8>, start: int, i: nat)
    requires
        0 <= start,
        i <= 4,
    ensures
        read_var_int_from(data, start, i) matches VarIntRead::Value(v, n) ==> v == vbi_value(
            data.subrange(start, start + n),
        ),
    decreases 4 - i,
{
    if start + i < data.len() && i < 4 && data[start + i] >= 128 {
        lemma_read_var_int_value(data, start, i + 1);
    }
}

/// Every variable byte integer that reads to a value is at most
/// `268_435_455` (the largest that four bytes hold) and took one to four
/// bytes, whatever the data.
pub proof fn lemma_variable_byte_int_bound(data: Seq<u8>, start: int)
    requires
        0 <= start,
    ensures
        read_var_int(data, start) matches VarIntRead::Value(v, n) ==> v <= 268_435_455 && 1 <= n
            <= 4 && start + n <= data.len(),
{
    lemma_read_var_int_bounds(data, start, 0);
    lemma_read_var_int_value(data, start, 0);
    if let VarIntRead::Value(v, n) = read_var_int(data, start) {
        let s = data.subrange(start, start + n);
        lemma_vbi_value_bound(s);
        assert(pow128(n) <= pow128(4)) by {
            reveal_with_fuel(pow128, 5);
        }
        assert(pow128(4) == 268_435_456) by {
            reveal_with_fuel(pow128, 5);
        }
    }
}

/// A zero byte reads as the variable byte integer zero, one byte long.
pub proof fn lemma_zero_var_int(data: Seq<u8>, pos: int)
    requires
        0 <= pos < data.len(),
        data[pos] == 0,
    ensures
        read_var_int(data, pos) == VarIntRead::Value(0, 1),
{
    assert(data.subrange(pos, pos + 1) =~= seq![0u8]);
    assert(seq![0u8].drop_last() =~= Seq::<u8>::empty());
    assert(vbi_value(Seq::<u8>::empty()) == 0);
    assert(pow128(0) == 1);
    assert(vbi_value(seq![0u8]) == 0);
}

/// Reading a variable byte integer depends only on the bytes from its start
/// on: whatever comes before it does not matter.
pub proof fn lemma_read_var_int_shift(pre: Seq<u8>, s: Seq<u8>, i: nat)
    requires
        i <= 4,
    ensures
        read_var_int_from(pre + s, pre.len() as int, i) == read_var_int_from(s, 0, i),
    decreases 4 - i,
{
    let d = pre + s;
    let k: int = (pre.len() + i) as int;
    if k < d.len() && i < 4 {
        assert(d[k] == s[i as int]);
        if d[k] < 128 {
            assert(d.subrange(pre.len() as int, k + 1) =~= s.subrange(0, (i + 1) as int));
        } else {
            lemma_read_var_int_shift(pre, s, i + 1);
        }
    }
}

/// Reading binary data gives back what writing it wrote: the bytes, and
/// the position just after them, whatever comes before or after the field.
pub proof fn lemma_binary_data_round_trip(pre: Seq<u8>, b: Seq<u8>, rest: Seq<u8>)
    requires
        b.len() <= 65_535,
    ensures
        read_binary(pre + string_field(b) + rest, pre.len() as int) == FieldRead::Value(
            b,
            (pre.len() + 2 + b.len()) as int,
        ),
{
    let d = pre + string_field(b) + rest;
    let p = pre.len() as int;
    let n = b.len() as u16;
    assert(d[p] == (n / 256) as u8 && d[p + 1] == (n % 256) as u8);
    assert(length_at(d, p) == b.len());
    assert(d.subrange(p + 2, p + 2 + b.len()) =~= b);
}

/// Reading a UTF-8 encoded string gives back the text that writing it
/// wrote, and the position just after it, whatever comes before or after
/// the field.
pub proof fn lemma_utf8_string_round_trip(pre: Seq<u8>, t: Seq<char>, rest: Seq<u8>)
    requires
        text_bytes(t).len() <= 65_535,
    ensures
        read_string(pre + string_field(text_bytes(t)) + rest, pre.len() as int)
            == FieldRead::Value(t, (pre.len() + 2 + text_bytes(t).len()) as int),
{
    lemma_binary_data_round_trip(pre, text_bytes(t), rest);
    vstd::utf8::encode_utf8_valid_utf8(t);
    vstd::utf8::encode_utf8_decode_utf8(t);
}

/// A variable byte integer that reads to a value took one to four bytes,
/// all of them inside the data.
pub proof fn lemma_read_var_int_bounds(data: Seq<u8>, start: int, i: nat)
    requires
        i <= 4,
    ensures
        read_var_int_from(data, start, i) matches VarIntRead::Value(v, n) ==> i < n <= 4 && start
            + n <= data.len(),
    decreases 4 - i,
{
    if start + i < data.len() && i < 4 && data[start + i] >= 128 {
        lemma_read_var_int_bounds(data, start, i + 1);
    }
}

/// Decode a variable byte integer from a cursor.
///
/// The result is `None` where the cursor runs out of bytes before the
/// integer ends (reading past the end is a fault of the caller's framing),
/// `Some(Err(IntOverflow))` when the integer has a fifth byte, and the
/// integer otherwise, with the cursor moved past it.
///
/// Reference: <https://docs.oasis-open.org/mqtt/mqtt/v5.0/os/mqtt-v5.0-os.html#_Toc3901011>
pub fn decode_variable_byte_int(buf: &mut Cursor<&[u8]>) -> (res: Option<Result<usize, CommonPacketError>>)
    ensures
        cursor_data(*final(buf)) == cursor_data(*old(buf)),
        match read_var_int(cursor_data(*old(buf)), cursor_pos(*old(buf)) as int) {
            VarIntRead::Value(v, n) => res matches Some(Ok(r)) && r == v && cursor_pos(*final(buf))
                == cursor_pos(*old(buf)) + n && 1 <= n <= 4 && cursor_pos(*old(buf)) + n
                <= cursor_data(*old(buf)).len(),
            VarIntRead::TooLong => res matches Some(Err(e)) && e@ == CommonError::IntOverflow,
            VarIntRead::Truncated => res is None,
        },
        res matches Some(Ok(r)) ==> r <= 268_435_455,
{
    let ghost data = cursor_data(*buf);
    let ghost start = cursor_pos(*buf) as int;
    proof {
        lemma_variable_byte_int_bound(data, start);
    }
    let ghost mut i: nat = 0;
    let mut multiplier: usize = 1;
    let mut decoded_value: usize = 0;
    proof {
        lemma_read_var_int_bounds(data, start, 0);
    }

    loop
        invariant
            data == cursor_data(*old(buf)),
            start == cursor_pos(*old(buf)),
            cursor_data(*buf) == data,
            cursor_pos(*buf) == start + i,
            i <= 4,
            multiplier == pow128(i),
            i > 0 ==> decoded_value == vbi_value(data.subrange(start, start + i)),
            i == 0 ==> decoded_value == 0,
            decoded_value < pow128(i),
            read_var_int(data, start) == read_var_int_from(data, start, i),
        decreases 4 - i,
    {
        if cursor_remaining(buf) < 1 {
            return None;
        }
        let encoded_byte = cursor_get_u8(buf);
        proof {
            lemma_low_bits(encoded_byte);
            lemma_vbi_value_step(data, start, i);
        }

        // Take the 7 least significant bits
        let value = (encoded_byte & 127) as usize;

        // Ensure multiplier does not exceed the specification limits
        if multiplier > 128 * 128 * 128 {
            return Some(Err(CommonPacketError::IntOverflow));
        }

        // Multiply by current multiplier and add to decoded value
        assert(value * multiplier <= 127 * multiplier) by (nonlinear_arith)
            requires
                value <= 127,
        ;
        assert(i < 4) by {
            reveal_with_fuel(pow128, 5);
        }
        assert(multiplier <= 2_097_152) by {
            reveal_with_fuel(pow128, 5);
        }
        decoded_value = decoded_value + value * multiplier;
        multiplier = multiplier * 128;
        proof {
            i = i + 1;
        }

        // If the continuation bit is not set, we are done
        if encoded_byte & 128 == 0 {
            return Some(Ok(decoded_value));
        }
    }
}

/// Encode a variable byte integer: seven bits per byte, least significant
/// group first, with the top bit set on every byte after which more follow.
///
/// Reference: <https://docs.oasis-open.org/mqtt/mqtt/v5.0/os/mqtt-v5.0-os.html#_Toc3901011>
pub fn encode_variable_byte_int(value: u32) -> (encoded: Vec<u8>)
    ensures
        encoded@ == vbi_encode(value as nat),
{
    let capacity: usize = if value <= 127 {
        1
    } else if value <= 16_383 {
        2
    } else if value <= 2_097_151 {
        3
    } else {
        4
    };
    let mut buf: Vec<u8> = Vec::with_capacity(capacity);
    let mut rest = value;

    loop
        invariant
            buf@ + vbi_encode(rest as nat) == vbi_encode(value as nat),
        decreases rest,
    {
        // Extract the 7 least significant bits from the current value
        let mut encoded_byte = (rest % 128) as u8;

        // Divide the value by 128 to remove the 7 bits just processed
        let ghost before = rest;
        rest = rest / 128;

        // If there are still remaining bits, mark this byte as continuation
        proof {
            lemma_low_bits(encoded_byte);
        }
        if rest > 0 {
            encoded_byte = encoded_byte | 128;
        }
        buf.push(encoded_byte);

        if rest == 0 {
            assert(buf@ =~= vbi_encode(value as nat));
            return buf;
        }
        assert(buf@ + vbi_encode(rest as nat) =~= vbi_encode(value as nat)) by {
            assert(vbi_encode(before as nat) == seq![encoded_byte] + vbi_encode(rest as nat));
        }
    }
}

/// An encoding of a number below `128^k` takes at most `k` bytes.
pub proof fn lemma_vbi_encode_len(v: nat, k: nat)
    requires
        1 <= k,
        v < pow128(k),
    ensures
        1 <= vbi_encode(v).len() <= k,
    decreases k,
{
    if v / 128 != 0 {
        assert(k > 1) by {
            if k == 1 {
                reveal_with_fuel(pow128, 2);
            }
        }
        assert(v / 128 < pow128((k - 1) as nat));
        lemma_vbi_encode_len(v / 128, (k - 1) as nat);
    }
}

/// A 32-bit number takes at most five bytes.
pub proof fn lemma_vbi_encode_u32_len(v: u32)
    ensures
        1 <= vbi_encode(v as nat).len() <= 5,
{
    reveal_with_fuel(pow128, 6);
    lemma_vbi_encode_len(v as nat, 5);
}

/// Decode a UTF-8 encoded string from a cursor: a two-byte length, then
/// that many bytes, which must be valid UTF-8.
///
/// The result is `None` where fewer than two bytes are left for the length,
/// `Some(Err(UnexpectedError))` when fewer bytes are left than the length
/// announces or they are not UTF-8, and the string otherwise, with the
/// cursor moved past it.
///
/// Reference: <https://docs.oasis-open.org/mqtt/mqtt/v5.0/os/mqtt-v5.0-os.html#_Toc3901010>
pub fn decode_utf8_string(buf: &mut Cursor<&[u8]>) -> (res: Option<Result<String, CommonPacketError>>)
    ensures
        cursor_data(*final(buf)) == cursor_data(*old(buf)),
        match read_string(cursor_data(*old(buf)), cursor_pos(*old(buf)) as int) {
            FieldRead::Value(text, end) => res matches Some(Ok(s)) && s@ == text
                && cursor_pos(*final(buf)) == end,
            FieldRead::MissingLength => res is None,
            _ => res matches Some(Err(e)) && e@ == CommonError::UnexpectedError,
        },
{
    // Read the length of the string
    if cursor_remaining(buf) < 2 {
        return None;
    }
    let len = cursor_get_u16(buf) as usize;

    // Read the string data
    let mut encoded_value: Vec<u8> = vec![0; len];
    if !cursor_read_exact(buf, &mut encoded_value) {
        return Some(Err(CommonPacketError::UnexpectedError));
    }

    // Convert to UTF-8 string
    match string_from_utf8(encoded_value) {
        Some(value) => Some(Ok(value)),
        None => Some(Err(CommonPacketError::UnexpectedError)),
    }
}

/// Decode binary data from a cursor: a two-byte length, then that many
/// bytes.
///
/// The result is `None` where fewer than two bytes are left for the length,
/// `Some(Err(UnexpectedError))` when fewer bytes are left than the length
/// announces, and the data otherwise, with the cursor moved past it.
///
/// Reference: <https://docs.oasis-open.org/mqtt/mqtt/v5.0/os/mqtt-v5.0-os.html#_Toc3901012>
pub fn decode_binary_data(buf: &mut Cursor<&[u8]>) -> (res: Option<Result<BytesMut, CommonPacketError>>)
    ensures
        cursor_data(*final(buf)) == cursor_data(*old(buf)),
        match read_binary(cursor_data(*old(buf)), cursor_pos(*old(buf)) as int) {
            FieldRead::Value(bytes, end) => res matches Some(Ok(b)) && bytes_mut_contents(b)
                == bytes && cursor_pos(*final(buf)) == end,
            FieldRead::MissingLength => res is None,
            _ => res matches Some(Err(e)) && e@ == CommonError::UnexpectedError,
        },
{
    // Read the length of the binary data
    if cursor_remaining(buf) < 2 {
        return None;
    }
    let len = cursor_get_u16(buf) as usize;

    // Read the binary data
    let mut decoded_value: Vec<u8> = vec![0; len];
    if cursor_read_exact(buf, &mut decoded_value) {
        Some(Ok(bytes_mut_from_slice(decoded_value.as_slice())))
    } else {
        Some(Err(CommonPacketError::UnexpectedError))
    }
}

/// Write a variable byte integer into a buffer.
///
/// Reference: <https://docs.oasis-open.org/mqtt/mqtt/v5.0/os/mqtt-v5.0-os.html#_Toc3901011>
pub fn write_variable_byte_int(buf: &mut BytesMut, value: u32)
    requires
        bytes_mut_contents(*old(buf)).len() + 5 <= isize::MAX,
    ensures
        bytes_mut_contents(*final(buf)) == bytes_mut_contents(*old(buf)) + vbi_encode(value as nat),
{
    let encoded = encode_variable_byte_int(value);
    proof {
        lemma_vbi_encode_u32_len(value);
    }
    put_slice(buf, encoded.as_slice());
}

/// Write a UTF-8 string into a buffer: its length in bytes as two
/// big-endian bytes, then its bytes. Fails with `IntOverflow`, writing
/// nothing, when the string is longer than `65_535` bytes.
///
/// Reference: <https://docs.oasis-open.org/mqtt/mqtt/v5.0/os/mqtt-v5.0-os.html#_Toc3901010>
pub fn write_utf8_string(buf: &mut BytesMut, value: &str) -> (res: Result<(), CommonPacketError>)
    requires
        bytes_mut_contents(*old(buf)).len() + 65_537 <= isize::MAX,
    ensures
        res is Ok <==> text_bytes(value@).len() <= 65_535,
        res is Ok ==> bytes_mut_contents(*final(buf)) == bytes_mut_contents(*old(buf))
            + string_field(text_bytes(value@)),
        res matches Err(e) ==> e@ == CommonError::IntOverflow && bytes_mut_contents(*final(buf))
            == bytes_mut_contents(*old(buf)),
{
    let bytes = value.as_bytes();
    let len = bytes.len();
    if len > 65_535 {
        return Err(CommonPacketError::IntOverflow);
    }
    let u16_len = len as u16;

    put_u16(buf, u16_len);
    put_slice(buf, bytes);
    assert(bytes_mut_contents(*buf) =~= bytes_mut_contents(*old(buf)) + string_field(text_bytes(value@)));

    Ok(())
}

/// Write a UTF-8 string pair into a buffer: the name, then the value, each
/// as a UTF-8 string. Fails with `IntOverflow` when either is longer than
/// `65_535` bytes; the name stays written when only the value is too long.
///
/// Reference: <https://docs.oasis-open.org/mqtt/mqtt/v5.0/os/mqtt-v5.0-os.html#_Toc3901013>
pub fn write_utf8_string_pair(buf: &mut BytesMut, pair: (&String, &String)) -> (res: Result<
    (),
    CommonPacketError,
>)
    requires
        bytes_mut_contents(*old(buf)).len() + 2 * 65_537 <= isize::MAX,
    ensures
        res is Ok <==> text_bytes(pair.0@).len() <= 65_535 && text_bytes(pair.1@).len() <= 65_535,
        res is Ok ==> bytes_mut_contents(*final(buf)) == bytes_mut_contents(*old(buf))
            + string_field(text_bytes(pair.0@)) + string_field(text_bytes(pair.1@)),
        res matches Err(e) ==> e@ == CommonError::IntOverflow,
        res is Err && text_bytes(pair.0@).len() > 65_535 ==> bytes_mut_contents(*final(buf))
            == bytes_mut_contents(*old(buf)),
        res is Err && text_bytes(pair.0@).len() <= 65_535 ==> bytes_mut_contents(*final(buf))
            == bytes_mut_contents(*old(buf)) + string_field(text_bytes(pair.0@)),
{
    let (name, value) = pair;
    write_utf8_string(buf, name.as_str())?;
    write_utf8_string(buf, value.as_str())?;

    Ok(())
}

/// Converts a `usize` to `u32` and writes it as a variable byte integer
/// into a buffer; fails with `IntOverflow`, writing nothing, when it does
/// not fit in 32 bits.
///
/// Reference: <https://docs.oasis-open.org/mqtt/mqtt/v5.0/os/mqtt-v5.0-os.html#_Toc3901011>
pub fn write_usize_as_var_int(buf: &mut BytesMut, value: usize) -> (res: Result<(), CommonPacketError>)
    requires
        bytes_mut_contents(*old(buf)).len() + 5 <= isize::MAX,
    ensures
        res is Ok <==> value <= u32::MAX,
        res is Ok ==> bytes_mut_contents(*final(buf)) == bytes_mut_contents(*old(buf)) + vbi_encode(
            value as nat,
        ),
        res matches Err(e) ==> e@ == CommonError::IntOverflow && bytes_mut_contents(*final(buf))
            == bytes_mut_contents(*old(buf)),
{
    if value <= 0xFFFF_FFFF {
        write_variable_byte_int(buf, value as u32);
        Ok(())
    } else {
        Err(CommonPacketError::IntOverflow)
    }
}

/// The bytes of a user property: its identifier, then the name and the
/// value as UTF-8 strings.
pub open spec fn user_property_bytes(id: u8, pair: (String, String)) -> Seq<u8> {
    seq![id] + string_field(text_bytes(pair.0@)) + string_field(text_bytes(pair.1@))
}

/// Whether no name occurs twice among the user properties (the names are
/// the keys of a map of user properties).
pub open spec fn user_property_names_unique(props: Seq<(String, String)>) -> bool {
    forall|i: int, j: int| 0 <= i < j < props.len() ==> props[i].0@ != props[j].0@
}

/// The bytes of a list of user properties, in order.
pub open spec fn user_properties_bytes(id: u8, props: Seq<(String, String)>) -> Seq<u8>
    decreases props.len(),
{
    if props.len() == 0 {
        Seq::empty()
    } else {
        user_properties_bytes(id, props.drop_last()) + user_property_bytes(id, props.last())
    }
}

/// Whether every name and value of the user properties fits in a UTF-8
/// string field.
pub open spec fn user_properties_fit(props: Seq<(String, String)>) -> bool {
    forall|i: int|
        0 <= i < props.len() ==> text_bytes((#[trigger] props[i]).0@).len() <= 65_535
            && text_bytes(props[i].1@).len() <= 65_535
}

/// An upper bound on the bytes that writing the user properties takes when
/// their strings fit: `131_075` bytes for each.
pub open spec fn user_properties_size(props: Seq<(String, String)>) -> nat {
    131_075 * props.len()
}

/// Writes each user property: its identifier, then the name and value as
/// UTF-8 strings; fails with `IntOverflow` at the first name or value
/// longer than `65_535` bytes.
pub fn write_user_properties(buf: &mut BytesMut, id: u8, props: &Vec<(String, String)>) -> (res:
    Result<(), CommonPacketError>)
    requires
        bytes_mut_contents(*old(buf)).len() + user_properties_size(props@) + 2 * 65_537 + 1
            <= isize::MAX,
        user_property_names_unique(props@),
    ensures
        res is Ok <==> user_properties_fit(props@),
        res is Ok ==> bytes_mut_contents(*final(buf)) == bytes_mut_contents(*old(buf))
            + user_properties_bytes(id, props@),
        res matches Err(e) ==> e@ == CommonError::IntOverflow,
{
    let mut i: usize = 0;
    while i < props.len()
        invariant
            i <= props@.len(),
            user_properties_fit(props@.take(i as int)),
            bytes_mut_contents(*buf) == bytes_mut_contents(*old(buf)) + user_properties_bytes(
                id,
                props@.take(i as int),
            ),
            user_properties_size(props@.take(i as int)) <= user_properties_size(props@),
            bytes_mut_contents(*old(buf)).len() + user_properties_size(props@) + 2 * 65_537 + 1
                <= isize::MAX,
            user_properties_bytes(id, props@.take(i as int)).len() <= user_properties_size(
                props@.take(i as int),
            ),
        decreases props@.len() - i,
    {
        let ghost before = bytes_mut_contents(*buf);
        assert(props@.take(i + 1).drop_last() =~= props@.take(i as int));
        proof {
            lemma_user_properties_size_prefix(props@, (i + 1) as nat);
        }
        put_u8(buf, id);
        let (name, value) = (&props[i].0, &props[i].1);
        match write_utf8_string_pair(buf, (name, value)) {
            Ok(()) => {},
            Err(e) => {
                assert(!user_properties_fit(props@)) by {
                    assert(text_bytes(props@[i as int].0@).len() > 65_535 || text_bytes(
                        props@[i as int].1@,
                    ).len() > 65_535);
                }
                return Err(e);
            },
        }
        assert(bytes_mut_contents(*buf) =~= bytes_mut_contents(*old(buf)) + user_properties_bytes(
            id,
            props@.take(i + 1),
        ));
        i = i + 1;
    }
    assert(props@.take(i as int) =~= props@);
    Ok(())
}

proof fn lemma_user_properties_size_prefix(props: Seq<(String, String)>, n: nat)
    requires
        n <= props.len(),
    ensures
        user_properties_size(props.take(n as int)) <= user_properties_size(props),
    decreases props.len() - n,
{
    if n < props.len() {
        lemma_user_properties_size_prefix(props, n + 1);
        assert(props.take(n + 1int).drop_last() =~= props.take(n as int));
    } else {
        assert(props.take(n as int) =~= props);
    }
}

/// The bytes of user properties whose strings fit take no more than the
/// size bound.
pub proof fn lemma_user_properties_bytes_len(id: u8, props: Seq<(String, String)>)
    requires
        user_properties_fit(props),
    ensures
        user_properties_bytes(id, props).len() <= user_properties_size(props),
    decreases props.len(),
{
    if props.len() > 0 {
        assert(user_properties_fit(props.drop_last())) by {
            assert forall|i: int| 0 <= i < props.drop_last().len() implies text_bytes(
                (#[trigger] props.drop_last()[i]).0@,
            ).len() <= 65_535 && text_bytes(props.drop_last()[i].1@).len() <= 65_535 by {
                assert(props.drop_last()[i] == props[i]);
            }
        }
        lemma_user_properties_bytes_len(id, props.drop_last());
        assert(text_bytes(props[props.len() - 1].0@).len() <= 65_535);
        assert(text_bytes(props[props.len() - 1].1@).len() <= 65_535);
    }
}

/// A property holding a 32-bit integer: its identifier, then the integer.
pub open spec fn u32_property(id: u8, v: Option<u32>) -> Seq<u8> {
    match v {
        Some(x) => seq![id] + be_u32_bytes(x),
        None => Seq::empty(),
    }
}

/// A property holding a 16-bit integer: its identifier, then the integer.
pub open spec fn u16_property(id: u8, v: Option<u16>) -> Seq<u8> {
    match v {
        Some(x) => seq![id] + be_u16_bytes(x),
        None => Seq::empty(),
    }
}

/// A property holding a byte: its identifier, then the byte.
pub open spec fn u8_property(id: u8, v: Option<u8>) -> Seq<u8> {
    match v {
        Some(x) => seq![id, x],
        None => Seq::empty(),
    }
}

/// A property holding a flag: its identifier, then `1` or `0`.
pub open spec fn bool_property(id: u8, v: Option<bool>) -> Seq<u8> {
    match v {
        Some(x) => seq![id, if x { 1u8 } else { 0u8 }],
        None => Seq::empty(),
    }
}

/// A property holding a string: its identifier, then the UTF-8 string.
pub open spec fn string_property(id: u8, v: Option<String>) -> Seq<u8> {
    match v {
        Some(s) => seq![id] + string_field(text_bytes(s@)),
        None => Seq::empty(),
    }
}

/// A property holding raw bytes: its identifier, then the bytes.
pub open spec fn raw_property(id: u8, v: Option<bytes::Bytes>) -> Seq<u8> {
    match v {
        Some(b) => seq![id] + bytes_contents(b),
        None => Seq::empty(),
    }
}

/// The user properties, when there are any.
pub open spec fn user_properties_of(v: Option<Vec<(String, String)>>) -> Seq<(String, String)> {
    match v {
        Some(props) => props@,
        None => Seq::empty(),
    }
}

/// Whether an optional string fits in a UTF-8 string field.
pub open spec fn string_fits(v: Option<String>) -> bool {
    match v {
        Some(s) => text_bytes(s@).len() <= 65_535,
        None => true,
    }
}

/// The bytes that an optional string property takes at most, when it fits.
pub open spec fn string_size(v: Option<String>) -> nat {
    match v {
        Some(_) => 65_538,
        None => 0,
    }
}

/// The bytes that an optional raw property takes.
pub open spec fn raw_size(v: Option<bytes::Bytes>) -> nat {
    match v {
        Some(b) => 1 + bytes_contents(b).len(),
        None => 0,
    }
}

/// Writes `id` and the big-endian integer when it is present.
pub fn write_u32_property(buf: &mut BytesMut, id: u8, v: Option<u32>)
    requires
        bytes_mut_contents(*old(buf)).len() + 5 <= isize::MAX,
    ensures
        bytes_mut_contents(*final(buf)) == bytes_mut_contents(*old(buf)) + u32_property(id, v),
{
    if let Some(x) = v {
        put_u8(buf, id);
        put_u32(buf, x);
    }
    assert(bytes_mut_contents(*buf) =~= bytes_mut_contents(*old(buf)) + u32_property(id, v));
}

/// Writes `id` and the big-endian integer when it is present.
pub fn write_u16_property(buf: &mut BytesMut, id: u8, v: Option<u16>)
    requires
        bytes_mut_contents(*old(buf)).len() + 3 <= isize::MAX,
    ensures
        bytes_mut_contents(*final(buf)) == bytes_mut_contents(*old(buf)) + u16_property(id, v),
{
    if let Some(x) = v {
        put_u8(buf, id);
        put_u16(buf, x);
    }
    assert(bytes_mut_contents(*buf) =~= bytes_mut_contents(*old(buf)) + u16_property(id, v));
}

/// Writes `id` and the byte when it is present.
pub fn write_u8_property(buf: &mut BytesMut, id: u8, v: Option<u8>)
    requires
        bytes_mut_contents(*old(buf)).len() + 2 <= isize::MAX,
    ensures
        bytes_mut_contents(*final(buf)) == bytes_mut_contents(*old(buf)) + u8_property(id, v),
{
    if let Some(x) = v {
        put_u8(buf, id);
        put_u8(buf, x);
    }
    assert(bytes_mut_contents(*buf) =~= bytes_mut_contents(*old(buf)) + u8_property(id, v));
}

/// Writes `id` and `1` or `0` when the flag is present.
pub fn write_bool_property(buf: &mut BytesMut, id: u8, v: Option<bool>)
    requires
        bytes_mut_contents(*old(buf)).len() + 2 <= isize::MAX,
    ensures
        bytes_mut_contents(*final(buf)) == bytes_mut_contents(*old(buf)) + bool_property(id, v),
{
    if let Some(x) = v {
        put_u8(buf, id);
        put_u8(buf, if x { 1 } else { 0 });
    }
    assert(bytes_mut_contents(*buf) =~= bytes_mut_contents(*old(buf)) + bool_property(id, v));
}

/// Writes `id` and the string as a UTF-8 string when it is present; fails
/// with `IntOverflow` when the string is longer than `65_535` bytes.
pub fn write_string_property(buf: &mut BytesMut, id: u8, v: &Option<String>) -> (res: Result<
    (),
    CommonPacketError,
>)
    requires
        bytes_mut_contents(*old(buf)).len() + 65_538 <= isize::MAX,
    ensures
        res is Ok <==> string_fits(*v),
        res is Ok ==> bytes_mut_contents(*final(buf)) == bytes_mut_contents(*old(buf))
            + string_property(id, *v),
        res is Ok ==> string_property(id, *v).len() <= string_size(*v),
        res matches Err(e) ==> e@ == CommonError::IntOverflow,
{
    if let Some(s) = v {
        put_u8(buf, id);
        write_utf8_string(buf, s.as_str())?;
    }
    assert(bytes_mut_contents(*buf) =~= bytes_mut_contents(*old(buf)) + string_property(id, *v));
    Ok(())
}

/// Writes `id` and the bytes, as they are, when they are present.
pub fn write_raw_property(buf: &mut BytesMut, id: u8, v: &Option<bytes::Bytes>)
    requires
        bytes_mut_contents(*old(buf)).len() + raw_size(*v) <= isize::MAX,
    ensures
        bytes_mut_contents(*final(buf)) == bytes_mut_contents(*old(buf)) + raw_property(id, *v),
{
    if let Some(b) = v {
        put_u8(buf, id);
        put_slice(buf, bytes_as_slice(b));
    }
    assert(bytes_mut_contents(*buf) =~= bytes_mut_contents(*old(buf)) + raw_property(id, *v));
}

} // verus!
