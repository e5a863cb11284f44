//! The PUBLISH packet: an application message on a topic.
use crate::bytes_io::{
    bytes_as_slice, bytes_contents, bytes_from_vec, bytes_mut_as_slice, bytes_mut_contents,
    bytes_mut_len, bytes_mut_new, cursor_advance, cursor_data, cursor_pos, cursor_read_exact,
    cursor_remaining, put_slice, put_u8,
};
use crate::codec::{
    decode_utf8_string, decode_variable_byte_int, lemma_read_var_int_shift,
    lemma_utf8_string_round_trip, lemma_variable_byte_int_round_trip, lemma_vbi_encode_u32_len,
    pow128, read_string, read_var_int, string_field, text_bytes, vbi_encode, vbi_len, vbi_value,
    write_usize_as_var_int, write_utf8_string, FieldRead, VarIntRead,
};
use crate::packets::{
    header_error,validate_fixed_header, CommonError, CommonPacketError, DecodablePacket};
use crate::protocol::MAX_PACKET_SIZE;
use bytes::{Bytes, BytesMut};
use std::io::Cursor;
use vstd::prelude::*;

verus! {

/// Identifier of the PUBLISH packet type.
pub const PUBLISH_PACKET_TYPE: u8 = 0x03;

/// The PUBLISH packet: a topic and an optional payload.
#[derive(Debug)]
pub struct PublishPacket {
    pub topic: String,
    pub payload: Option<Bytes>,
}

/// Errors that decoding or encoding a PUBLISH packet can run into.
#[derive(Debug)]
pub enum PublishPacketDecodeError {
    Common(CommonPacketError),
}

/// The payload's bytes; none when there is no payload.
pub open spec fn payload_bytes(p: Option<Bytes>) -> Seq<u8> {
    match p {
        Some(b) => bytes_contents(b),
        None => Seq::empty(),
    }
}

/// What decoding a PUBLISH body at `pos`, `remaining_len` bytes long,
/// gives: the topic and the payload (`None` when the body ends right after
/// the properties), an error, or `None` where the body runs past the end
/// of `data` or its header parts are longer than `remaining_len`.
pub open spec fn publish_decoding(data: Seq<u8>, pos: int, remaining_len: nat) -> Option<
    Result<(Seq<char>, Option<Seq<u8>>), CommonError>,
> {
    match read_string(data, pos) {
        FieldRead::MissingLength => None,
        FieldRead::MissingData => Some(Err(CommonError::UnexpectedError)),
        FieldRead::InvalidUtf8 => Some(Err(CommonError::UnexpectedError)),
        FieldRead::Value(topic, p1) => match read_var_int(data, p1) {
            VarIntRead::Truncated => None,
            VarIntRead::TooLong => Some(Err(CommonError::IntOverflow)),
            VarIntRead::Value(properties_len, n) => {
                let p2 = p1 + n + properties_len;
                if p2 > data.len() || p2 - pos > remaining_len {
                    None
                } else {
                    let payload_len = remaining_len - (p2 - pos);
                    if payload_len == 0 {
                        Some(Ok((topic, None)))
                    } else if p2 + payload_len > data.len() {
                        Some(Err(CommonError::UnexpectedError))
                    } else {
                        Some(Ok((topic, Some(data.subrange(p2, p2 + payload_len)))))
                    }
                }
            },
        },
    }
}

impl PublishPacket {
    /// A PUBLISH packet for the topic and payload.
    pub fn new(topic: String, payload: Option<Bytes>) -> (res: Self)
        ensures
            res.topic == topic,
            res.payload == payload,
    {
        Self { topic, payload }
    }
}

impl DecodablePacket for PublishPacket {
    type Error = PublishPacketDecodeError;

    open spec fn accepts_header(fixed_header: u8) -> bool {
        fixed_header / 16 == PUBLISH_PACKET_TYPE
    }

    open spec fn rejects_with(fixed_header: u8, e: Self::Error) -> bool {
        e matches PublishPacketDecodeError::Common(c) && c@ == header_error(fixed_header, PUBLISH_PACKET_TYPE)
    }

    open spec fn decodes_to(
        data: Seq<u8>,
        pos: int,
        fixed_header: u8,
        remaining_len: usize,
        res: Option<Result<Self, Self::Error>>,
    ) -> bool {
        match publish_decoding(data, pos, remaining_len as nat) {
            None => res is None,
            Some(Ok((topic, payload))) => res matches Some(Ok(p)) && p.topic@ == topic && (
            match payload {
                None => p.payload is None,
                Some(b) => p.payload matches Some(q) && bytes_contents(q) == b,
            }),
            Some(Err(e)) => res matches Some(Err(PublishPacketDecodeError::Common(f))) && f@ == e,
        }
    }

    open spec fn decoded_end(data: Seq<u8>, pos: int, fixed_header: u8, remaining_len: usize) -> int {
        pos + remaining_len
    }

    fn packet_type() -> (res: u8)
        ensures
            res == PUBLISH_PACKET_TYPE,
    {
        PUBLISH_PACKET_TYPE
    }

    fn validate_header(fixed_header: u8) -> (res: Result<(), Self::Error>) {
        match validate_fixed_header(fixed_header, PUBLISH_PACKET_TYPE, None) {
            Ok(()) => Ok(()),
            Err(e) => Err(PublishPacketDecodeError::Common(e)),
        }
    }

    fn decode(cursor: &mut Cursor<&[u8]>, _fixed_header: u8, remaining_len: usize) -> (res: Option<
        Result<Self, Self::Error>,
    >) {
        let ghost data = cursor_data(*cursor);
        let ghost pos = cursor_pos(*cursor) as int;
        let start = cursor_remaining(cursor);

        let topic = match decode_utf8_string(cursor) {
            None => {
                return None;
            },
            Some(Err(e)) => {
                return Some(Err(PublishPacketDecodeError::Common(e)));
            },
            Some(Ok(t)) => t,
        };

        let properties_len = match decode_variable_byte_int(cursor) {
            None => {
                return None;
            },
            Some(Err(e)) => {
                return Some(Err(PublishPacketDecodeError::Common(e)));
            },
            Some(Ok(len)) => len,
        };
        if cursor_remaining(cursor) < properties_len {
            return None;
        }
        cursor_advance(cursor, properties_len);

        let consumed = start - cursor_remaining(cursor);
        if consumed > remaining_len {
            return None;
        }
        let payload_len = remaining_len - consumed;
        if payload_len > 0 {
            let mut buf: Vec<u8> = vec![0; payload_len];
            if !cursor_read_exact(cursor, &mut buf) {
                return Some(
                    Err(PublishPacketDecodeError::Common(CommonPacketError::UnexpectedError)),
                );
            }
            Some(Ok(Self { topic, payload: Some(bytes_from_vec(buf)) }))
        } else {
            Some(Ok(Self { topic, payload: None }))
        }
    }
}

/// The bytes of a PUBLISH packet with the given topic bytes and payload:
/// the fixed header, the remaining length, the topic as a UTF-8 string, a
/// property length of zero and the payload.
pub open spec fn publish_bytes(topic: Seq<u8>, payload: Seq<u8>) -> Seq<u8> {
    seq![0x30u8] + vbi_encode(string_field(topic).len() + 1 + payload.len()) + string_field(topic)
        + seq![0u8] + payload
}

impl PublishPacket {
    /// Whether the packet can be encoded: its topic fits in a UTF-8 string
    /// field and it stays within the maximum packet size.
    pub open spec fn encodable(&self) -> bool {
        &&& text_bytes(self.topic@).len() <= 65_535
        &&& publish_bytes(text_bytes(self.topic@), payload_bytes(self.payload)).len()
            <= MAX_PACKET_SIZE
    }

    /// Encodes the packet: the fixed header, the remaining length, the
    /// topic, an empty property list and the payload.
    ///
    /// Fails with `IntOverflow` when the topic is longer than `65_535` bytes
    /// or the remaining length does not fit in 32 bits, and with
    /// `PacketTooLarge` when the packet is larger than `MAX_PACKET_SIZE`.
    pub fn encode(&self) -> (res: Result<BytesMut, PublishPacketDecodeError>)
        requires
            payload_bytes(self.payload).len() + 200_000 <= isize::MAX,
        ensures
            res is Ok <==> self.encodable(),
            res matches Ok(b) ==> bytes_mut_contents(b) == publish_bytes(
                text_bytes(self.topic@),
                payload_bytes(self.payload),
            ),
            res matches Err(PublishPacketDecodeError::Common(e)) ==> (if text_bytes(self.topic@).len()
                > 65_535 || string_field(text_bytes(self.topic@)).len() + 1 + payload_bytes(
                self.payload,
            ).len() > u32::MAX {
                e@ == CommonError::IntOverflow
            } else {
                e@ == CommonError::PacketTooLarge(None)
            }),
    {
        // topic name
        let mut variable_header_buf = bytes_mut_new();
        if let Err(e) = write_utf8_string(&mut variable_header_buf, self.topic.as_str()) {
            return Err(PublishPacketDecodeError::Common(e));
        }
        let ghost topic = string_field(text_bytes(self.topic@));
        assert(bytes_mut_contents(variable_header_buf) =~= topic);

        let mut buf = bytes_mut_new();

        // Fixed header
        assert((PUBLISH_PACKET_TYPE << 4) == 0x30) by (bit_vector);
        put_u8(&mut buf, PUBLISH_PACKET_TYPE << 4);

        let payload_len = match &self.payload {
            Some(payload) => bytes_as_slice(payload).len(),
            None => 0,
        };

        // Remaining length: topic + properties len + payload
        let remaining_len = bytes_mut_len(&variable_header_buf) + 1 + payload_len;
        if let Err(e) = write_usize_as_var_int(&mut buf, remaining_len) {
            return Err(PublishPacketDecodeError::Common(e));
        }
        proof {
            lemma_vbi_encode_u32_len(remaining_len as u32);
        }

        put_slice(&mut buf, bytes_mut_as_slice(&variable_header_buf));

        // properties len
        put_u8(&mut buf, 0x0);

        // payload
        if let Some(payload) = &self.payload {
            put_slice(&mut buf, bytes_as_slice(payload));
        }
        assert(bytes_mut_contents(buf) =~= publish_bytes(
            text_bytes(self.topic@),
            payload_bytes(self.payload),
        ));

        if bytes_mut_len(&buf) > MAX_PACKET_SIZE {
            return Err(PublishPacketDecodeError::Common(CommonPacketError::PacketTooLarge(None)));
        }

        Ok(buf)
    }
}

/// The body of a PUBLISH packet with the given topic bytes and payload:
/// the topic as a UTF-8 string, a property length of zero and the payload.
pub open spec fn publish_body(topic: Seq<u8>, payload: Seq<u8>) -> Seq<u8> {
    string_field(topic) + seq![0u8] + payload
}

/// Reading back the body of a PUBLISH packet, with the body's length as the
/// remaining length, gives its topic and payload (none when the payload is
/// empty), whatever bytes come before or after the body.
#[verifier::spinoff_prover]
#[verifier::rlimit(40)]
pub proof fn lemma_publish_body_round_trip(
    pre: Seq<u8>,
    topic: Seq<char>,
    payload: Seq<u8>,
    rest: Seq<u8>,
)
    requires
        text_bytes(topic).len() <= 65_535,
    ensures
        ({
            let body = publish_body(text_bytes(topic), payload);
            publish_decoding(pre + body + rest, pre.len() as int, body.len()) == Some(
                Ok::<(Seq<char>, Option<Seq<u8>>), CommonError>(
                    (
                        topic,
                        if payload.len() == 0 {
                            None
                        } else {
                            Some(payload)
                        },
                    ),
                ),
            )
        }),
{
    let tb = text_bytes(topic);
    let sf = string_field(tb);
    let data = pre + publish_body(tb, payload) + rest;
    let after = seq![0u8] + payload + rest;
    assert(data =~= pre + sf + after);
    lemma_utf8_string_round_trip(pre, topic, after);
    let p1: int = (pre.len() + sf.len()) as int;
    assert(data[p1] == 0);
    assert(data.subrange(p1, p1 + 1) =~= seq![0u8]);
    assert(vbi_value(seq![0u8]) == 0) by {
        assert(seq![0u8].drop_last() =~= Seq::<u8>::empty());
        assert(vbi_value(Seq::<u8>::empty()) == 0);
        assert(pow128(0) == 1);
    }
    assert(read_var_int(data, p1) == VarIntRead::Value(0, 1));
    assert(data.subrange(p1 + 1, p1 + 1 + payload.len()) =~= payload);
}

/// Reading back the bytes of a PUBLISH packet gives its topic and payload:
/// the fixed header is accepted, the remaining length reads back, and the
/// body decodes to the topic and the payload (none when the payload is
/// empty), whatever bytes follow the packet.
#[verifier::spinoff_prover]
pub proof fn lemma_publish_round_trip(topic: Seq<char>, payload: Seq<u8>, rest: Seq<u8>)
    requires
        text_bytes(topic).len() <= 65_535,
        string_field(text_bytes(topic)).len() + 1 + payload.len() < 268_435_456,
    ensures
        ({
            let data = publish_bytes(text_bytes(topic), payload) + rest;
            let remaining_len = string_field(text_bytes(topic)).len() + 1 + payload.len();
            &&& PublishPacket::accepts_header(data[0])
            &&& read_var_int(data, 1) == VarIntRead::Value(remaining_len, vbi_len(remaining_len))
            &&& publish_decoding(data, (1 + vbi_len(remaining_len)) as int, remaining_len) == Some(
                Ok::<(Seq<char>, Option<Seq<u8>>), CommonError>(
                    (
                        topic,
                        if payload.len() == 0 {
                            None
                        } else {
                            Some(payload)
                        },
                    ),
                ),
            )
        }),
{
    let tb = text_bytes(topic);
    let body = publish_body(tb, payload);
    let rl = body.len();
    let data = publish_bytes(tb, payload) + rest;
    let head = seq![0x30u8];
    assert(data =~= head + (vbi_encode(rl) + (body + rest)));
    lemma_read_var_int_shift(head, vbi_encode(rl) + (body + rest), 0);
    lemma_variable_byte_int_round_trip(rl, body + rest);
    let pre = head + vbi_encode(rl);
    assert(data =~= pre + body + rest);
    lemma_publish_body_round_trip(pre, topic, payload, rest);
}

/// The body of a PUBLISH packet with the given topic bytes, property bytes
/// and payload: the topic as a UTF-8 string, the property length as a
/// variable byte integer, the properties and the payload.
pub open spec fn publish_body_with_properties(
    topic: Seq<u8>,
    properties: Seq<u8>,
    payload: Seq<u8>,
) -> Seq<u8> {
    string_field(topic) + vbi_encode(properties.len()) + properties + payload
}

/// Reading back the body of a PUBLISH packet that carries properties, with
/// the body's length as the remaining length, gives its topic and exactly
/// its payload (none when the payload is empty): the properties are
/// skipped, however many bytes they take, whatever bytes come before or
/// after the body.
#[verifier::spinoff_prover]
pub proof fn lemma_publish_properties_skipped(
    pre: Seq<u8>,
    topic: Seq<char>,
    properties: Seq<u8>,
    payload: Seq<u8>,
    rest: Seq<u8>,
)
    requires
        text_bytes(topic).len() <= 65_535,
        properties.len() < 268_435_456,
    ensures
        ({
            let body = publish_body_with_properties(text_bytes(topic), properties, payload);
            publish_decoding(pre + body + rest, pre.len() as int, body.len()) == Some(
                Ok::<(Seq<char>, Option<Seq<u8>>), CommonError>(
                    (
                        topic,
                        if payload.len() == 0 {
                            None
                        } else {
                            Some(payload)
                        },
                    ),
                ),
            )
        }),
{
    let tb = text_bytes(topic);
    let sf = string_field(tb);
    let k = properties.len();
    let data = pre + publish_body_with_properties(tb, properties, payload) + rest;
    let after = vbi_encode(k) + properties + payload + rest;
    assert(data =~= pre + sf + after);
    lemma_utf8_string_round_trip(pre, topic, after);
    let front = pre + sf;
    let tail = properties + payload + rest;
    assert(data =~= front + (vbi_encode(k) + tail));
    lemma_read_var_int_shift(front, vbi_encode(k) + tail, 0);
    lemma_variable_byte_int_round_trip(k, tail);
    let p2: int = (front.len() + vbi_len(k) + k) as int;
    assert(data.subrange(p2, p2 + payload.len()) =~= payload);
}

} // verus!
