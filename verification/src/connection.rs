//! Framing packets out of the bytes a connection has received.
use crate::bytes_io::{cursor_data, cursor_get_u8, cursor_new, cursor_pos, cursor_remaining};
use crate::codec::{
    decode_variable_byte_int, lemma_read_var_int_shift, lemma_variable_byte_int_round_trip,
    read_var_int, vbi_encode, vbi_len, VarIntRead,
};
use crate::packets::{CommonError, CommonPacketError, DecodablePacket};
use vstd::prelude::*;

verus! {

/// What can go wrong on a connection: a packet error, a packet that does
/// not decode, or a peer that closed the connection in the middle of a
/// packet.
#[derive(Debug)]
pub enum ConnectionError<E> {
    Common(CommonPacketError),
    Decode(E),
    ConnectionReset,
}

/// The first byte of the fixed header of the packet at the front of the
/// buffer, if a byte has arrived.
pub fn peek_fixed_header(buffer: &[u8]) -> (res: Option<u8>)
    ensures
        buffer@.len() == 0 ==> res is None,
        buffer@.len() > 0 ==> res == Some(buffer@[0]),
{
    if buffer.is_empty() || buffer.len() < 1 {
        return None;
    }
    Some(buffer[0])
}

/// The packet type number of the packet at the front of the buffer (the
/// four high bits of its first byte), if a byte has arrived.
pub fn peek_packet_type(buffer: &[u8]) -> (res: Option<u8>)
    ensures
        buffer@.len() == 0 ==> res is None,
        buffer@.len() > 0 ==> res == Some((buffer@[0] / 16) as u8),
{
    match peek_fixed_header(buffer) {
        Some(fixed_header) => {
            assert((fixed_header >> 4) == fixed_header / 16) by (bit_vector);
            Some(fixed_header >> 4)
        },
        None => None,
    }
}

/// Decodes the packet at the front of the buffer.
///
/// The result is `Ok(None)` while fewer than two bytes, or fewer than the
/// remaining length announces, have arrived; `Decode` when the fixed header
/// is not the packet's or the body does not decode; `Common(IntOverflow)`
/// when the remaining length has more than four bytes; otherwise the packet
/// and the number of bytes it takes at the front of the buffer. `None`
/// where the remaining length or the body runs past the end of the buffer,
/// which the framing rules out for well-formed input.
pub fn decode_packet<P: DecodablePacket>(buffer: &[u8]) -> (res: Option<
    Result<Option<(P, usize)>, ConnectionError<P::Error>>,
>)
    ensures
        buffer@.len() < 2 ==> (res matches Some(Ok(None))),
        buffer@.len() >= 2 && !P::accepts_header(buffer@[0]) ==> (res matches Some(
            Err(ConnectionError::Decode(e)),
        ) && P::rejects_with(buffer@[0], e)),
        buffer@.len() >= 2 && P::accepts_header(buffer@[0]) ==> match read_var_int(buffer@, 1) {
            VarIntRead::Truncated => res is None,
            VarIntRead::TooLong => res matches Some(Err(ConnectionError::Common(e))) && e@
                == CommonError::IntOverflow,
            VarIntRead::Value(remaining_len, n) => if 1 + n + remaining_len > buffer@.len() {
                res matches Some(Ok(None))
            } else {
                match res {
                    None => P::decodes_to(buffer@, (1 + n) as int, buffer@[0], remaining_len as usize, None),
                    Some(Ok(Some((p, consumed)))) => consumed == 1 + n + remaining_len
                        && P::decodes_to(
                        buffer@,
                        (1 + n) as int,
                        buffer@[0],
                        remaining_len as usize,
                        Some(Ok(p)),
                    ),
                    Some(Err(ConnectionError::Decode(e))) => P::decodes_to(
                        buffer@,
                        (1 + n) as int,
                        buffer@[0],
                        remaining_len as usize,
                        Some(Err(e)),
                    ),
                    _ => false,
                }
            },
        },
{
    if buffer.is_empty() || buffer.len() < 2 {
        return Some(Ok(None));
    }

    let mut cursor = cursor_new(buffer);

    let fixed_header = cursor_get_u8(&mut cursor);
    if let Err(e) = P::validate_header(fixed_header) {
        return Some(Err(ConnectionError::Decode(e)));
    }

    let remaining_len = match decode_variable_byte_int(&mut cursor) {
        None => {
            return None;
        },
        Some(Err(e)) => {
            return Some(Err(ConnectionError::Common(e)));
        },
        Some(Ok(len)) => len,
    };
    if remaining_len > cursor_remaining(&cursor) {
        return Some(Ok(None));
    }

    let start = buffer.len() - cursor_remaining(&cursor);
    let ghost body = cursor_pos(cursor) as int;

    match P::decode(&mut cursor, fixed_header, remaining_len) {
        None => None,
        Some(Ok(packet)) => Some(Ok(Some((packet, start + remaining_len)))),
        Some(Err(e)) => Some(Err(ConnectionError::Decode(e))),
    }
}

/// What a connection does after it read from its stream while it waits
/// for a packet.
pub enum ReadStep<E> {
    /// Bytes arrived: try the buffer again.
    KeepReading,
    /// The peer closed the connection between two packets.
    EndOfStream,
    /// Stop with this error.
    Fail(ConnectionError<E>),
}

/// Decides how reading goes on: `read` is the number of bytes a read gave,
/// `None` when the read failed, and `buffered` the number of bytes already
/// waiting in the buffer. A read of no bytes is the end of the stream when
/// nothing is buffered, and a reset connection in the middle of a packet.
pub fn after_read<E>(read: Option<usize>, buffered: usize) -> (res: ReadStep<E>)
    ensures
        match read {
            None => res matches ReadStep::Fail(ConnectionError::Common(e)) && e@
                == CommonError::UnexpectedError,
            Some(n) => if n > 0 {
                res is KeepReading
            } else if buffered == 0 {
                res is EndOfStream
            } else {
                res matches ReadStep::Fail(ConnectionError::ConnectionReset)
            },
        },
{
    match read {
        None => ReadStep::Fail(ConnectionError::Common(CommonPacketError::UnexpectedError)),
        Some(n) => {
            if n == 0 {
                if buffered == 0 {
                    return ReadStep::EndOfStream;
                }
                return ReadStep::Fail(ConnectionError::ConnectionReset);
            }
            ReadStep::KeepReading
        },
    }
}

/// A buffer that starts with a whole frame (a first byte, the variable byte
/// integer of the body's length, then the body) followed by any other bytes
/// has that frame, and only it, at its front: the remaining length reads
/// back as the body's length, the frame takes `1 + vbi_len(n) + n` bytes
/// (which `decode_packet` reports as consumed when the packet decodes, and
/// which it never reports as incomplete), and the bytes after the frame are
/// the other bytes, untouched.
pub proof fn lemma_frame_at_front(first: u8, body: Seq<u8>, rest: Seq<u8>)
    requires
        body.len() < 268_435_456,
    ensures
        ({
            let frame = seq![first] + vbi_encode(body.len()) + body;
            let buffer = frame + rest;
            &&& buffer.len() >= 2
            &&& buffer[0] == first
            &&& read_var_int(buffer, 1) == VarIntRead::Value(body.len(), vbi_len(body.len()))
            &&& frame.len() == 1 + vbi_len(body.len()) + body.len()
            &&& frame.len() <= buffer.len()
            &&& buffer.subrange(0, frame.len() as int) == frame
            &&& buffer.subrange(frame.len() as int, buffer.len() as int) == rest
        }),
{
    let head = seq![first];
    let tail = body + rest;
    let frame = head + vbi_encode(body.len()) + body;
    let buffer = frame + rest;
    assert(buffer =~= head + (vbi_encode(body.len()) + tail));
    lemma_read_var_int_shift(head, vbi_encode(body.len()) + tail, 0);
    lemma_variable_byte_int_round_trip(body.len(), tail);
    assert(buffer.subrange(0, frame.len() as int) =~= frame);
    assert(buffer.subrange(frame.len() as int, buffer.len() as int) =~= rest);
}

} // verus!
