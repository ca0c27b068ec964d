//! Encoding followed by decoding gives the message back.

use vstd::prelude::*;
use vstd::utf8::{encode_utf8, encode_utf8_decode_utf8, encode_utf8_valid_utf8};
use crate::decode::{
    control_packet, control_shape_ok, control_valid, decoded, is_control_code, publish_id_len,
    publish_payload, publish_pid, publish_shape_ok, publish_topic, publish_topic_len, Decoded,
};
use crate::packet::{PacketView, PublishView, QoS};
use crate::wire::{
    be16, extent, length_field, publish_body, publish_first_byte, publish_frame, scan_length,
    Extent,
};

verus! {

/// The number of bytes of the length field of a body of `n` bytes, for a
/// body that takes a field of one or two bytes.
pub open spec fn short_width(n: int) -> int {
    if n < 128 {
        1
    } else {
        2
    }
}

/// A frame whose body is shorter than 16384 bytes is read back as a whole
/// frame with that body's length, whatever follows it.
pub proof fn lemma_extent_of_frame(first: u8, body: Seq<u8>, more: Seq<u8>)
    requires
        body.len() < 16384,
    ensures
        length_field(body.len() as int).len() == short_width(body.len() as int),
        extent(seq![first] + length_field(body.len() as int) + body + more) == (Extent::Frame {
            width: short_width(body.len() as int) as usize,
            len: body.len() as usize,
        }),
{
    reveal_with_fuel(length_field, 3);
    let n = body.len() as int;
    let field = length_field(n);
    let bytes = seq![first] + field + body + more;
    if n < 128 {
        assert(field =~= seq![n as u8]);
        assert(bytes[1] == n as u8);
        assert(bytes.len() == 2 + n + more.len());
        assert(scan_length(bytes, 0, 0) == (Extent::Frame { width: 1, len: n as usize }));
    } else {
        let low = (n % 128 + 128) as u8;
        let high = (n / 128) as u8;
        assert(field =~= seq![low, high]);
        assert(bytes[1] == low);
        assert(bytes[2] == high);
        assert(bytes.len() == 3 + n + more.len());
        assert(low % 128 == n % 128);
        assert(high % 128 == n / 128);
        assert(scan_length(bytes, 0, 0) == scan_length(bytes, 1, n % 128));
        assert((n % 128) + (n / 128) * 128 == n);
        assert(scan_length(bytes, 1, n % 128) == (Extent::Frame { width: 2, len: n as usize }));
    }
}

/// What the first byte of a PUBLISH frame says of the message.
pub proof fn lemma_first_byte(dup: bool, qos: QoS, retain: bool)
    ensures
        publish_first_byte(dup, qos, retain) as int / 16 == 3,
        (publish_first_byte(dup, qos, retain) as int % 8) / 2 == qos.level(),
        publish_first_byte(dup, qos, retain) as int % 16 >= 8 <==> dup,
        (publish_first_byte(dup, qos, retain) as int % 16) % 2 == 1 <==> retain,
{
}

/// Where the parts of a sequence lie that was put together from five.
pub proof fn lemma_parts(a: Seq<u8>, b: Seq<u8>, c: Seq<u8>, d: Seq<u8>, e: Seq<u8>)
    ensures
        ({
            let all = a + b + c + d + e;
            &&& all.len() == a.len() + b.len() + c.len() + d.len() + e.len()
            &&& forall|i: int| 0 <= i < a.len() ==> all[i] == a[i]
            &&& forall|i: int| 0 <= i < b.len() ==> all[a.len() + i] == b[i]
            &&& forall|i: int| 0 <= i < c.len() ==> all[a.len() + b.len() + i] == c[i]
            &&& forall|i: int| 0 <= i < d.len() ==> all[a.len() + b.len() + c.len() + i] == d[i]
        }),
{
}

/// The two bytes of a number under 65536 hold that number.
pub proof fn lemma_be16(n: int)
    requires
        0 <= n < 65536,
    ensures
        be16(n).len() == 2,
        be16(n)[0] * 256 + be16(n)[1] == n,
{
}

/// Where the parts of a PUBLISH frame lie: a frame that fits the buffer is
/// read back as a whole frame whose topic, packet identifier and payload are
/// those that it was made of, whatever follows it.
pub proof fn lemma_publish_layout(
    dup: bool,
    qos: QoS,
    retain: bool,
    pid: u16,
    topic: Seq<u8>,
    payload: Seq<u8>,
    more: Seq<u8>,
)
    requires
        publish_frame(dup, qos, retain, pid, topic, payload).len() <= 1024,
    ensures
        ({
            let bytes = publish_frame(dup, qos, retain, pid, topic, payload) + more;
            let len = publish_body(qos, pid, topic, payload).len() as int;
            let width = short_width(len);
            &&& extent(bytes) == (Extent::Frame { width: width as usize, len: len as usize })
            &&& bytes[0] == publish_first_byte(dup, qos, retain)
            &&& publish_shape_ok(bytes, width, len)
            &&& publish_topic(bytes, width) == topic
            &&& publish_payload(bytes, width, len) == payload
            &&& qos != QoS::AtMostOnce ==> publish_pid(bytes, width) == pid
        }),
{
    let first = publish_first_byte(dup, qos, retain);
    let body = publish_body(qos, pid, topic, payload);
    let field = length_field(body.len() as int);
    let bytes = publish_frame(dup, qos, retain, pid, topic, payload) + more;
    let id = if qos == QoS::AtMostOnce {
        Seq::<u8>::empty()
    } else {
        be16(pid as int)
    };
    let width = short_width(body.len() as int);
    let len = body.len() as int;
    let size = be16(topic.len() as int);
    let start = seq![first] + field + size;
    let tail = payload + more;
    assert(extent(bytes) == (Extent::Frame { width: width as usize, len: len as usize })
        && start.len() == 3 + width) by {
        lemma_extent_of_frame(first, body, more);
        assert(bytes =~= seq![first] + field + body + more);
    }
    assert(bytes == start + topic + id + payload + more) by {
        assert(bytes =~= start + topic + id + payload + more);
    }
    lemma_parts(start, topic, id, payload, more);
    lemma_parts(seq![first], field, size, topic, id + payload + more);
    assert(bytes == seq![first] + field + size + topic + (id + payload + more)) by {
        assert(bytes =~= seq![first] + field + size + topic + (id + payload + more));
    }
    lemma_first_byte(dup, qos, retain);
    lemma_be16(topic.len() as int);
    lemma_be16(pid as int);
    assert(bytes[1 + width] == size[0]);
    assert(bytes[2 + width] == size[1]);
    assert(publish_topic_len(bytes, width) == topic.len());
    assert(publish_id_len(bytes) == id.len());
    assert(len == 2 + topic.len() + id.len() + payload.len());
    assert(publish_topic(bytes, width) =~= topic);
    assert(publish_payload(bytes, width, len) =~= payload);
    if qos != QoS::AtMostOnce {
        assert(bytes[3 + width + topic.len()] == id[0]);
        assert(bytes[3 + width + topic.len() + 1] == id[1]);
    }
}

/// A PUBLISH frame that fits the buffer decodes to the message that it was
/// made of: the same flags, delivery guarantee, topic and payload, byte for
/// byte, and the packet identifier where the frame carries one. Bytes that
/// follow the frame change nothing. The packet identifier of a message that
/// is sent at least once or exactly once must not be zero: such a frame does
/// not decode.
pub proof fn lemma_publish_round_trip(
    dup: bool,
    qos: QoS,
    retain: bool,
    pid: u16,
    topic_name: Seq<char>,
    payload: Seq<u8>,
    more: Seq<u8>,
)
    requires
        publish_frame(dup, qos, retain, pid, encode_utf8(topic_name), payload).len() <= 1024,
        qos != QoS::AtMostOnce ==> pid != 0,
    ensures
        decoded(publish_frame(dup, qos, retain, pid, encode_utf8(topic_name), payload) + more) == Decoded::Packet(
            PacketView::Publish(
                PublishView {
                    dup,
                    qos,
                    pid: if qos == QoS::AtMostOnce {
                        None
                    } else {
                        Some(pid)
                    },
                    retain,
                    topic_name,
                    payload,
                },
            ),
        ),
{
    let topic = encode_utf8(topic_name);
    lemma_publish_layout(dup, qos, retain, pid, topic, payload, more);
    lemma_first_byte(dup, qos, retain);
    encode_utf8_valid_utf8(topic_name);
    encode_utf8_decode_utf8(topic_name);
}

/// The frame of four bytes that holds a packet other than PUBLISH with two
/// bytes of content: the first byte, the length 2, and the content.
pub open spec fn short_frame(first: u8, high: u8, low: u8) -> Seq<u8> {
    seq![first, 2u8, high, low]
}

/// A frame of four bytes of one of the broker's kinds decodes to the packet
/// of that kind with the frame's content, provided the frame is valid.
pub proof fn lemma_short_frame_round_trip(first: u8, high: u8, low: u8)
    requires
        is_control_code(first as int / 16),
        control_valid(short_frame(first, high, low), 1),
    ensures
        decoded(short_frame(first, high, low)) == Decoded::Packet(
            control_packet(short_frame(first, high, low), 1),
        ),
{
    let bytes = short_frame(first, high, low);
    reveal_with_fuel(scan_length, 2);
    assert(bytes[1] == 2u8);
    assert(extent(bytes) == (Extent::Frame { width: 1, len: 2 }));
    assert(control_shape_ok(bytes, 2));
}

/// The PINGRESP frame decodes to the PINGRESP packet.
pub proof fn lemma_pingresp_round_trip()
    ensures
        decoded(seq![208u8, 0u8]) == Decoded::Packet(PacketView::Pingresp),
{
    let bytes = seq![208u8, 0u8];
    reveal_with_fuel(scan_length, 2);
    assert(bytes[0] == 208u8 && bytes[1] == 0u8);
    assert(extent(bytes) == (Extent::Frame { width: 1, len: 0 }));
    assert(control_shape_ok(bytes, 0));
    assert(control_valid(bytes, 1));
}

} // verus!
