//! Byte buffers and byte cursors of the `bytes` crate and of std, as the rest
//! of the library sees them: a buffer is the sequence of bytes it holds, a
//! cursor is a byte slice together with a read position.
use bytes::{Buf, BufMut, Bytes, BytesMut};
use std::io::Cursor;
use std::io::Read;
use vstd::prelude::*;

verus! {

#[verifier::external_type_specification]
#[verifier::external_body]
pub struct ExBytesMut(BytesMut);

#[verifier::external_type_specification]
#[verifier::external_body]
pub struct ExBytes(Bytes);

#[verifier::external_type_specification]
#[verifier::external_body]
#[verifier::reject_recursive_types(T)]
pub struct ExCursor<T>(Cursor<T>);

/// The bytes that a `BytesMut` holds, in order.
pub uninterp spec fn bytes_mut_contents(b: BytesMut) -> Seq<u8>;

/// The bytes that a `Bytes` holds, in order.
pub uninterp spec fn bytes_contents(b: Bytes) -> Seq<u8>;

/// The slice that a cursor reads from.
pub uninterp spec fn cursor_data(c: Cursor<&[u8]>) -> Seq<u8>;

/// The position of a cursor in its slice.
pub uninterp spec fn cursor_pos(c: Cursor<&[u8]>) -> nat;

/// Whether a character beyond ASCII has the Unicode `Alphabetic` or
/// `Numeric` property.
pub uninterp spec fn char_alphanumeric(c: char) -> bool;

/// Whether an ASCII character is a letter or a digit.
pub open spec fn ascii_alphanumeric(c: char) -> bool {
    let v = c as u32;
    (0x30 <= v && v <= 0x39) || (0x41 <= v && v <= 0x5A) || (0x61 <= v && v <= 0x7A)
}

/// Whether a character is alphanumeric as `char::is_alphanumeric` says: an
/// ASCII character when it is a letter or a digit, any other character when
/// it has the Unicode `Alphabetic` or `Numeric` property.
pub open spec fn alphanumeric(c: char) -> bool {
    if (c as u32) < 0x80 {
        ascii_alphanumeric(c)
    } else {
        char_alphanumeric(c)
    }
}


/// The big-endian bytes of a 16-bit integer.
pub open spec fn be_u16_bytes(v: u16) -> Seq<u8> {
    seq![(v / 256) as u8, (v % 256) as u8]
}

/// The big-endian bytes of a 32-bit integer.
pub open spec fn be_u32_bytes(v: u32) -> Seq<u8> {
    seq![
        (v / 0x100_0000) as u8,
        ((v / 0x1_0000) % 256) as u8,
        ((v / 256) % 256) as u8,
        (v % 256) as u8,
    ]
}

/// The 16-bit integer whose big-endian bytes are `hi` and `lo`.
pub open spec fn be_u16_value(hi: u8, lo: u8) -> u16 {
    (hi as int * 256 + lo as int) as u16
}

/// `BytesMut::new`: an empty buffer.
#[verifier::external_body]
pub(crate) fn bytes_mut_new() -> (b: BytesMut)
    ensures
        bytes_mut_contents(b) == Seq::<u8>::empty(),
{
    BytesMut::new()
}

/// `BytesMut::from(&[u8])`: a buffer that holds a copy of the slice.
#[verifier::external_body]
pub(crate) fn bytes_mut_from_slice(s: &[u8]) -> (b: BytesMut)
    ensures
        bytes_mut_contents(b) == s@,
{
    BytesMut::from(s)
}

/// `BytesMut::len`: the number of bytes held.
#[verifier::external_body]
pub(crate) fn bytes_mut_len(b: &BytesMut) -> (n: usize)
    ensures
        n == bytes_mut_contents(*b).len(),
{
    b.len()
}

/// `BytesMut` as a slice (through `Deref`): the bytes held.
#[verifier::external_body]
pub(crate) fn bytes_mut_as_slice(b: &BytesMut) -> (s: &[u8])
    ensures
        s@ == bytes_mut_contents(*b),
{
    &b[..]
}

/// `BufMut::put_u8` on a `BytesMut`: appends one byte. The crate panics when
/// the buffer would grow past `isize::MAX` bytes.
#[verifier::external_body]
pub(crate) fn put_u8(b: &mut BytesMut, v: u8)
    requires
        bytes_mut_contents(*old(b)).len() + 1 <= isize::MAX,
    ensures
        bytes_mut_contents(*final(b)) == bytes_mut_contents(*old(b)).push(v),
{
    b.put_u8(v)
}

/// `BufMut::put_u16` on a `BytesMut`: appends the big-endian bytes of `v`.
#[verifier::external_body]
pub(crate) fn put_u16(b: &mut BytesMut, v: u16)
    requires
        bytes_mut_contents(*old(b)).len() + 2 <= isize::MAX,
    ensures
        bytes_mut_contents(*final(b)) == bytes_mut_contents(*old(b)) + be_u16_bytes(v),
{
    b.put_u16(v)
}

/// `BufMut::put_u32` on a `BytesMut`: appends the big-endian bytes of `v`.
#[verifier::external_body]
pub(crate) fn put_u32(b: &mut BytesMut, v: u32)
    requires
        bytes_mut_contents(*old(b)).len() + 4 <= isize::MAX,
    ensures
        bytes_mut_contents(*final(b)) == bytes_mut_contents(*old(b)) + be_u32_bytes(v),
{
    b.put_u32(v)
}

/// `BufMut::put_slice` on a `BytesMut`: appends the bytes of `s`.
#[verifier::external_body]
pub(crate) fn put_slice(b: &mut BytesMut, s: &[u8])
    requires
        bytes_mut_contents(*old(b)).len() + s@.len() <= isize::MAX,
    ensures
        bytes_mut_contents(*final(b)) == bytes_mut_contents(*old(b)) + s@,
{
    b.put_slice(s)
}

/// `Bytes::from(Vec<u8>)`: a buffer that holds the vector's bytes.
#[verifier::external_body]
pub(crate) fn bytes_from_vec(v: Vec<u8>) -> (b: Bytes)
    ensures
        bytes_contents(b) == v@,
{
    Bytes::from(v)
}

/// `Bytes` as a slice (through `Deref`): the bytes held.
#[verifier::external_body]
pub(crate) fn bytes_as_slice(b: &Bytes) -> (s: &[u8])
    ensures
        s@ == bytes_contents(*b),
{
    &b[..]
}

/// `Cursor::new`: a cursor at the start of `data`.
#[verifier::external_body]
pub(crate) fn cursor_new(data: &[u8]) -> (c: Cursor<&[u8]>)
    ensures
        cursor_data(c) == data@,
        cursor_pos(c) == 0,
{
    Cursor::new(data)
}

/// `Buf::remaining` on a cursor: the bytes left after the position (none
/// when the position is past the end).
#[verifier::external_body]
pub(crate) fn cursor_remaining(c: &Cursor<&[u8]>) -> (n: usize)
    ensures
        n == (if cursor_pos(*c) <= cursor_data(*c).len() {
            cursor_data(*c).len() - cursor_pos(*c)
        } else {
            0
        }),
{
    c.remaining()
}

/// `Buf::has_remaining` on a cursor: whether a byte is left after the
/// position.
#[verifier::external_body]
pub(crate) fn cursor_has_remaining(c: &Cursor<&[u8]>) -> (b: bool)
    ensures
        b == (cursor_pos(*c) < cursor_data(*c).len()),
{
    c.has_remaining()
}

/// `Buf::get_u8` on a cursor: the byte at the position, which then moves on
/// by one. The crate panics when no byte is left.
#[verifier::external_body]
pub(crate) fn cursor_get_u8(c: &mut Cursor<&[u8]>) -> (v: u8)
    requires
        cursor_pos(*old(c)) < cursor_data(*old(c)).len(),
    ensures
        v == cursor_data(*old(c))[cursor_pos(*old(c)) as int],
        cursor_data(*final(c)) == cursor_data(*old(c)),
        cursor_pos(*final(c)) == cursor_pos(*old(c)) + 1,
{
    c.get_u8()
}

/// `Buf::get_u16` on a cursor: the big-endian 16-bit integer at the
/// position, which then moves on by two. The crate panics when fewer than
/// two bytes are left.
#[verifier::external_body]
pub(crate) fn cursor_get_u16(c: &mut Cursor<&[u8]>) -> (v: u16)
    requires
        cursor_pos(*old(c)) + 2 <= cursor_data(*old(c)).len(),
    ensures
        v == be_u16_value(
            cursor_data(*old(c))[cursor_pos(*old(c)) as int],
            cursor_data(*old(c))[cursor_pos(*old(c)) + 1int],
        ),
        cursor_data(*final(c)) == cursor_data(*old(c)),
        cursor_pos(*final(c)) == cursor_pos(*old(c)) + 2,
{
    c.get_u16()
}

/// `Buf::advance` on a cursor: moves the position on by `n`. The crate
/// panics when fewer than `n` bytes are left (and `n` is not zero).
#[verifier::external_body]
pub(crate) fn cursor_advance(c: &mut Cursor<&[u8]>, n: usize)
    requires
        n == 0 || cursor_pos(*old(c)) + n <= cursor_data(*old(c)).len(),
    ensures
        cursor_data(*final(c)) == cursor_data(*old(c)),
        cursor_pos(*final(c)) == cursor_pos(*old(c)) + n,
{
    c.advance(n)
}

/// `Read::read_exact` on a cursor: fills `buf` with the next `buf.len()`
/// bytes and moves the position past them; fails when fewer bytes are
/// left. Reading no bytes succeeds wherever the position is. The position
/// after a failure is not stated (std leaves it open).
#[verifier::external_body]
pub(crate) fn cursor_read_exact(c: &mut Cursor<&[u8]>, buf: &mut Vec<u8>) -> (ok: bool)
    ensures
        ok <==> old(buf)@.len() == 0 || cursor_pos(*old(c)) + old(buf)@.len() <= cursor_data(
            *old(c),
        ).len(),
        cursor_data(*final(c)) == cursor_data(*old(c)),
        final(buf)@.len() == old(buf)@.len(),
        ok && cursor_pos(*old(c)) <= cursor_data(*old(c)).len() ==> final(buf)@ == cursor_data(*old(c)).subrange(
            cursor_pos(*old(c)) as int,
            (cursor_pos(*old(c)) + old(buf)@.len()) as int,
        ),
        ok ==> cursor_pos(*final(c)) == cursor_pos(*old(c)) + old(buf)@.len(),
{
    c.read_exact(buf.as_mut_slice()).is_ok()
}

/// `String::from_utf8`: the text the bytes encode, when they are valid
/// UTF-8.
#[verifier::external_body]
pub(crate) fn string_from_utf8(v: Vec<u8>) -> (s: Option<String>)
    ensures
        s is Some <==> vstd::utf8::valid_utf8(v@),
        s matches Some(t) ==> t@ == vstd::utf8::decode_utf8(v@),
{
    String::from_utf8(v).ok()
}

/// `char::is_alphanumeric`: for an ASCII character, whether it is a letter
/// or a digit (the ASCII characters with the `Alphabetic` or `Numeric`
/// property); beyond ASCII, the name `char_alphanumeric`.
#[verifier::external_body]
pub(crate) fn is_alphanumeric(c: char) -> (b: bool)
    ensures
        b == (if (c as u32) < 0x80 {
            ascii_alphanumeric(c)
        } else {
            char_alphanumeric(c)
        }),
{
    c.is_alphanumeric()
}

} // verus!
