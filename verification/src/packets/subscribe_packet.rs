//! The SUBSCRIBE packet: a client's request for the messages of some
//! topics.
use crate::bytes_io::{
    be_u16_bytes, be_u16_value, cursor_advance, cursor_data, cursor_get_u16, cursor_get_u8, cursor_has_remaining,
    cursor_pos, cursor_remaining,
};
use crate::text::{decimal_text, u8_to_string};
use crate::codec::{
    decode_utf8_string, decode_variable_byte_int, lemma_utf8_string_round_trip, lemma_zero_var_int,
    read_string, read_var_int, string_field, text_bytes, FieldRead, VarIntRead,
};
use crate::packets::{
    header_error,validate_fixed_header, CommonError, CommonPacketError, DecodablePacket};
use std::io::Cursor;
use vstd::prelude::*;
use vstd::string::StringExecFns;

verus! {

/// Identifier of the SUBSCRIBE packet type.
pub const SUBSCRIBE_PACKET_TYPE: u8 = 0x08;

/// Whether retained messages are sent when a subscription is made.
#[derive(Debug, Clone, Copy, PartialEq, Eq, Structural)]
pub enum RetainHandling {
    SendAllAtSubscribe,
    SendIfNewSubscription,
    DoNotSendAtSubscribe,
}

/// The retain handling that a number stands for (`0` to `2`).
pub open spec fn retain_handling_of(value: u8) -> Option<RetainHandling> {
    if value == 0 {
        Some(RetainHandling::SendAllAtSubscribe)
    } else if value == 1 {
        Some(RetainHandling::SendIfNewSubscription)
    } else if value == 2 {
        Some(RetainHandling::DoNotSendAtSubscribe)
    } else {
        None
    }
}

impl RetainHandling {
    /// The retain handling that a number stands for, if any.
    pub fn from_u8(value: u8) -> (res: Option<Self>)
        ensures
            res == retain_handling_of(value),
    {
        match value {
            0 => Some(Self::SendAllAtSubscribe),
            1 => Some(Self::SendIfNewSubscription),
            2 => Some(Self::DoNotSendAtSubscribe),
            _ => None,
        }
    }
}

/// A topic filter of a subscription, with its options.
#[derive(Debug)]
pub struct TopicFilter {
    pub topic: String,
    pub qos_level: u8,
    pub no_local: bool,
    pub retain_as_published: bool,
    pub retain_handling: RetainHandling,
}

/// The SUBSCRIBE packet.
#[derive(Debug)]
pub struct SubscribePacket {
    pub packet_id: u16,
    pub topics: Vec<TopicFilter>,
}

/// Errors that decoding a SUBSCRIBE packet can run into.
#[derive(Debug)]
pub enum SubscribePacketDecodeError {
    Common(CommonPacketError),
}

/// The maximum QoS in a subscription options byte (bits 0 and 1).
pub open spec fn options_qos(options: u8) -> u8 {
    options % 4
}

/// The retain handling number in a subscription options byte (bits 4 and
/// 5).
pub open spec fn options_retain_handling(options: u8) -> u8 {
    (options / 16) % 4
}

/// What checking a subscription options byte finds: `None` when the
/// options are acceptable, or the error.
pub open spec fn options_error(options: u8) -> Option<CommonError> {
    if options_qos(options) > 2 {
        Some(
            CommonError::ProtocolError(
                Some("Maximum QoS must be 0, 1 or 2. Got: "@ + decimal_text(options_qos(options) as nat)),
            ),
        )
    } else if options_retain_handling(options) > 2 {
        Some(
            CommonError::ProtocolError(
                Some(
                    "Retain handling must be 0, 1 or 2. Got: "@ + decimal_text(
                        options_retain_handling(options) as nat,
                    ),
                ),
            ),
        )
    } else if options >= 64 {
        Some(CommonError::MalformedPacket(Some("Subscription options bits 6 and 7 are reserved"@)))
    } else {
        None
    }
}

/// Whether a topic filter is the topic with the options of the given byte.
pub open spec fn filter_matches(f: TopicFilter, topic: Seq<char>, options: u8) -> bool {
    &&& f.topic@ == topic
    &&& f.qos_level == options_qos(options)
    &&& f.no_local == ((options / 4) % 2 == 1)
    &&& f.retain_as_published == ((options / 8) % 2 == 1)
    &&& retain_handling_of(options_retain_handling(options)) == Some(f.retain_handling)
}

/// What decoding the topic filters from `pos` to the end of `data` gives:
/// each topic with its options byte, an error, or `None` where a filter
/// runs past the end of `data`.
pub open spec fn subscription_list(data: Seq<u8>, pos: int) -> Option<
    Result<Seq<(Seq<char>, u8)>, CommonError>,
>
    decreases data.len() - pos,
{
    if pos >= data.len() {
        Some(Ok(Seq::empty()))
    } else {
        match read_string(data, pos) {
            FieldRead::MissingLength => None,
            FieldRead::MissingData => Some(Err(CommonError::UnexpectedError)),
            FieldRead::InvalidUtf8 => Some(Err(CommonError::UnexpectedError)),
            FieldRead::Value(topic, end) => {
                if end >= data.len() || end <= pos {
                    None
                } else {
                    match options_error(data[end]) {
                        Some(e) => Some(Err(e)),
                        None => match subscription_list(data, end + 1) {
                            None => None,
                            Some(Err(e)) => Some(Err(e)),
                            Some(Ok(rest)) => Some(Ok(seq![(topic, data[end])] + rest)),
                        },
                    }
                }
            },
        }
    }
}

/// What decoding a SUBSCRIBE body at `pos` gives: the packet identifier and
/// the topic filters, an error, or `None` where the body runs past the end
/// of `data`.
pub open spec fn subscribe_decoding(data: Seq<u8>, pos: int) -> Option<
    Result<(u16, Seq<(Seq<char>, u8)>), CommonError>,
> {
    if pos + 2 > data.len() {
        None
    } else {
        let packet_id = be_u16_value(data[pos], data[pos + 1]);
        match read_var_int(data, pos + 2) {
            VarIntRead::Truncated => None,
            VarIntRead::TooLong => Some(Err(CommonError::IntOverflow)),
            VarIntRead::Value(properties_len, n) => {
                let p = pos + 2 + n + properties_len;
                if p > data.len() {
                    None
                } else {
                    match subscription_list(data, p) {
                        None => None,
                        Some(Err(e)) => Some(Err(e)),
                        Some(Ok(list)) => Some(Ok((packet_id, list))),
                    }
                }
            },
        }
    }
}

/// `rest` with `prefix` in front of its list, when it is a list.
pub open spec fn prepend(
    prefix: Seq<(Seq<char>, u8)>,
    rest: Option<Result<Seq<(Seq<char>, u8)>, CommonError>>,
) -> Option<Result<Seq<(Seq<char>, u8)>, CommonError>> {
    match rest {
        Some(Ok(list)) => Some(Ok(prefix + list)),
        other => other,
    }
}

/// Whether the topic filters are the topics with the options of `list`.
pub open spec fn filters_match(filters: Seq<TopicFilter>, list: Seq<(Seq<char>, u8)>) -> bool {
    &&& filters.len() == list.len()
    &&& forall|i: int| 0 <= i < list.len() ==> filter_matches(#[trigger] filters[i], list[i].0, list[i].1)
}

impl DecodablePacket for SubscribePacket {
    type Error = SubscribePacketDecodeError;

    open spec fn accepts_header(fixed_header: u8) -> bool {
        fixed_header == 0x82
    }

    open spec fn rejects_with(fixed_header: u8, e: Self::Error) -> bool {
        e matches SubscribePacketDecodeError::Common(c) && c@ == header_error(fixed_header, SUBSCRIBE_PACKET_TYPE)
    }

    open spec fn decodes_to(
        data: Seq<u8>,
        pos: int,
        fixed_header: u8,
        remaining_len: usize,
        res: Option<Result<Self, Self::Error>>,
    ) -> bool {
        match subscribe_decoding(data, pos) {
            None => res is None,
            Some(Ok((packet_id, list))) => res matches Some(Ok(p)) && p.packet_id == packet_id
                && filters_match(p.topics@, list),
            Some(Err(e)) => res matches Some(Err(SubscribePacketDecodeError::Common(f))) && f@ == e,
        }
    }

    open spec fn decoded_end(data: Seq<u8>, pos: int, fixed_header: u8, remaining_len: usize) -> int {
        data.len() as int
    }

    fn packet_type() -> (res: u8)
        ensures
            res == SUBSCRIBE_PACKET_TYPE,
    {
        SUBSCRIBE_PACKET_TYPE
    }

    fn validate_header(fixed_header: u8) -> (res: Result<(), Self::Error>) {
        // Reserved flags (4 LSB) must be equal to 0010
        match validate_fixed_header(fixed_header, SUBSCRIBE_PACKET_TYPE, Some(0b0010)) {
            Ok(()) => Ok(()),
            Err(e) => Err(SubscribePacketDecodeError::Common(e)),
        }
    }

    fn decode(cursor: &mut Cursor<&[u8]>, _fixed_header: u8, _remaining_len: usize) -> (res: Option<
        Result<Self, Self::Error>,
    >) {
        let ghost data = cursor_data(*cursor);
        let ghost pos = cursor_pos(*cursor) as int;
        if cursor_remaining(cursor) < 2 {
            return None;
        }
        let packet_id = cursor_get_u16(cursor);

        let properties_len = match decode_variable_byte_int(cursor) {
            None => {
                return None;
            },
            Some(Err(e)) => {
                return Some(Err(SubscribePacketDecodeError::Common(e)));
            },
            Some(Ok(len)) => len,
        };
        if cursor_remaining(cursor) < properties_len {
            return None;
        }
        cursor_advance(cursor, properties_len);

        let ghost p0 = cursor_pos(*cursor) as int;
        let ghost mut parsed: Seq<(Seq<char>, u8)> = Seq::empty();
        let mut topics: Vec<TopicFilter> = Vec::new();
        assert(parsed + Seq::<(Seq<char>, u8)>::empty() =~= parsed);
        while cursor_has_remaining(cursor)
            invariant
                cursor_data(*cursor) == data,
                data == cursor_data(*old(cursor)),
                pos == cursor_pos(*old(cursor)),
                p0 <= cursor_pos(*cursor) <= data.len(),
                subscribe_decoding(data, pos) == match subscription_list(data, p0) {
                    None => None,
                    Some(Err(e)) => Some(Err(e)),
                    Some(Ok(list)) => Some(Ok((packet_id, list))),
                },
                subscription_list(data, p0) == prepend(
                    parsed,
                    subscription_list(data, cursor_pos(*cursor) as int),
                ),
                filters_match(topics@, parsed),
            decreases data.len() - cursor_pos(*cursor),
        {
            let ghost cur = cursor_pos(*cursor) as int;
            let topic = match decode_utf8_string(cursor) {
                None => {
                    return None;
                },
                Some(Err(e)) => {
                    return Some(Err(SubscribePacketDecodeError::Common(e)));
                },
                Some(Ok(t)) => t,
            };
            if !cursor_has_remaining(cursor) {
                return None;
            }
            let subscription_options = cursor_get_u8(cursor);
            assert((subscription_options & 0b0000_0011) == subscription_options % 4
                && ((subscription_options >> 2) & 1) == (subscription_options / 4) % 2
                && ((subscription_options >> 3) & 1) == (subscription_options / 8) % 2
                && ((subscription_options >> 4) & 0b0000_0011) == (subscription_options / 16) % 4
                && (((subscription_options >> 6) & 0b0000_0011) != 0 <==> subscription_options
                >= 64)) by (bit_vector);

            // It is a protocol error if the maximum QoS field has the value 3
            let qos_level = subscription_options & 0b0000_0011;
            if qos_level > 2 {
                let reason = String::from_str("Maximum QoS must be 0, 1 or 2. Got: ").concat(
                    u8_to_string(qos_level).as_str(),
                );
                return Some(
                    Err(
                        SubscribePacketDecodeError::Common(
                            CommonPacketError::ProtocolError(Some(reason)),
                        ),
                    ),
                );
            }

            // Bit 2 is the no local option, bit 3 retain as published
            let no_local = (subscription_options >> 2) & 1 == 1;

            let retain_as_published = (subscription_options >> 3) & 1 == 1;

            // Bits 4 and 5 are the retain handling option
            let raw_retain_handling = (subscription_options >> 4) & 0b0000_0011;
            let retain_handling = match RetainHandling::from_u8(raw_retain_handling) {
                Some(r) => r,
                None => {
                    // It is a Protocol Error to send a Retain Handling value of 3
                    let reason = String::from_str("Retain handling must be 0, 1 or 2. Got: ").concat(
                        u8_to_string(raw_retain_handling).as_str(),
                    );
                    return Some(
                        Err(
                            SubscribePacketDecodeError::Common(
                                CommonPacketError::ProtocolError(Some(reason)),
                            ),
                        ),
                    );
                },
            };

            let reserved_bits = (subscription_options >> 6) & 0b0000_0011;
            if reserved_bits != 0x0 {
                // If any of reserved bits in the payload are non-zero, it must be treated as malformed packet
                return Some(
                    Err(
                        SubscribePacketDecodeError::Common(
                            CommonPacketError::MalformedPacket(
                                Some(String::from_str("Subscription options bits 6 and 7 are reserved")),
                            ),
                        ),
                    ),
                );
            }
            let ghost entry = (topic@, subscription_options);
            topics.push(
                TopicFilter { topic, qos_level, no_local, retain_as_published, retain_handling },
            );
            proof {
                let next = cursor_pos(*cursor) as int;
                assert(subscription_list(data, cur) == prepend(
                    seq![entry],
                    subscription_list(data, next),
                ));
                match subscription_list(data, next) {
                    Some(Ok(rest)) => {
                        assert(parsed + (seq![entry] + rest) =~= parsed.push(entry) + rest);
                    },
                    _ => {},
                }
                parsed = parsed.push(entry);
            }
        }
        proof {
            assert(subscription_list(data, cursor_pos(*cursor) as int) == Some(
                Ok::<Seq<(Seq<char>, u8)>, CommonError>(Seq::<(Seq<char>, u8)>::empty()),
            ));
            assert(parsed + Seq::<(Seq<char>, u8)>::empty() =~= parsed);
        }
        Some(Ok(Self { packet_id, topics }))
    }
}

/// The topic filters of a SUBSCRIBE body as a client writes them: each
/// topic as a UTF-8 string followed by its options byte, in order.
pub open spec fn subscription_bytes(filters: Seq<(Seq<char>, u8)>) -> Seq<u8>
    decreases filters.len(),
{
    if filters.len() == 0 {
        Seq::empty()
    } else {
        string_field(text_bytes(filters[0].0)) + seq![filters[0].1] + subscription_bytes(
            filters.drop_first(),
        )
    }
}

/// The body of a SUBSCRIBE packet as a client writes it: the packet
/// identifier as two big-endian bytes, a property length of zero, then the
/// topic filters.
pub open spec fn subscribe_body_bytes(packet_id: u16, filters: Seq<(Seq<char>, u8)>) -> Seq<u8> {
    be_u16_bytes(packet_id) + seq![0u8] + subscription_bytes(filters)
}

/// Whether a client may write the topic filter: its topic fits in a UTF-8
/// string, its maximum QoS (bits 0 and 1) and its retain handling (bits 4
/// and 5) are 0, 1 or 2, and the reserved bits 6 and 7 are clear.
pub open spec fn well_formed_filter(filter: (Seq<char>, u8)) -> bool {
    &&& text_bytes(filter.0).len() <= 65_535
    &&& filter.1 % 4 <= 2
    &&& (filter.1 / 16) % 4 <= 2
    &&& filter.1 < 64
}

/// Reading back topic filters that a client wrote, up to the end of the
/// data, gives them back in order.
pub proof fn lemma_subscription_list_round_trip(pre: Seq<u8>, filters: Seq<(Seq<char>, u8)>)
    requires
        forall|i: int| 0 <= i < filters.len() ==> well_formed_filter(#[trigger] filters[i]),
    ensures
        subscription_list(pre + subscription_bytes(filters), pre.len() as int) == Some(
            Ok::<Seq<(Seq<char>, u8)>, CommonError>(filters),
        ),
    decreases filters.len(),
{
    let data = pre + subscription_bytes(filters);
    if filters.len() == 0 {
        assert(data =~= pre);
        assert(filters =~= Seq::<(Seq<char>, u8)>::empty());
    } else {
        let (topic, options) = filters[0];
        assert(well_formed_filter(filters[0]));
        let tail = filters.drop_first();
        assert forall|i: int| 0 <= i < tail.len() implies well_formed_filter(#[trigger] tail[i]) by {
            assert(tail[i] == filters[i + 1]);
        }
        let field = string_field(text_bytes(topic));
        let after = seq![options] + subscription_bytes(tail);
        assert(data =~= pre + field + after);
        lemma_utf8_string_round_trip(pre, topic, after);
        let end: int = (pre.len() + field.len()) as int;
        assert(data[end] == options);
        assert(options_error(options) is None);
        let next = pre + field + seq![options];
        assert(data =~= next + subscription_bytes(tail));
        lemma_subscription_list_round_trip(next, tail);
        assert(filters =~= seq![(topic, options)] + tail);
    }
}

/// Reading back the body of a SUBSCRIBE packet that a client wrote gives
/// its packet identifier, for every identifier from 0 to 65 535, and its
/// topic filters in order, whatever bytes come before the body.
pub proof fn lemma_subscribe_round_trip(
    pre: Seq<u8>,
    packet_id: u16,
    filters: Seq<(Seq<char>, u8)>,
)
    requires
        forall|i: int| 0 <= i < filters.len() ==> well_formed_filter(#[trigger] filters[i]),
    ensures
        subscribe_decoding(pre + subscribe_body_bytes(packet_id, filters), pre.len() as int)
            == Some(Ok::<(u16, Seq<(Seq<char>, u8)>), CommonError>((packet_id, filters))),
{
    let data = pre + subscribe_body_bytes(packet_id, filters);
    let pos = pre.len() as int;
    assert(data[pos] == (packet_id / 256) as u8 && data[pos + 1] == (packet_id % 256) as u8);
    assert(be_u16_value(data[pos], data[pos + 1]) == packet_id);
    lemma_zero_var_int(data, pos + 2);
    let next = pre + be_u16_bytes(packet_id) + seq![0u8];
    assert(data =~= next + subscription_bytes(filters));
    lemma_subscription_list_round_trip(next, filters);
}

} // verus!
