//! Decoding of received frames. The `mqttrust` crate reads the packet; this
//! module first checks that the frame is long enough for what its kind has
//! to hold, which `mqttrust` takes for granted, and accepts only the kinds
//! of packet that a broker sends.

use vstd::prelude::*;
use vstd::utf8::{decode_utf8, encode_utf8, valid_utf8};
use crate::error::TinyMqttError;
use crate::packet::{Packet, PacketView, Publish, PublishView, QoS};
use crate::wire::{extent, frame_extent, u16_at, Extent};

verus! {

/// The number of the packet's kind: the high half of the first byte.
pub open spec fn kind_code(bytes: Seq<u8>) -> int {
    bytes[0] as int / 16
}

/// The flags: the low half of the first byte.
pub open spec fn flag_bits(bytes: Seq<u8>) -> int {
    bytes[0] as int % 16
}

/// The two bits of the flags that hold a PUBLISH frame's delivery guarantee.
pub open spec fn qos_bits(bytes: Seq<u8>) -> int {
    (bytes[0] as int % 8) / 2
}

/// The number of bytes that the packet identifier takes in a PUBLISH frame.
pub open spec fn publish_id_len(bytes: Seq<u8>) -> int {
    if qos_bits(bytes) == 0 {
        0
    } else {
        2
    }
}

/// The length of the topic of a PUBLISH frame whose length field is `width`
/// bytes wide.
pub open spec fn publish_topic_len(bytes: Seq<u8>, width: int) -> int {
    u16_at(bytes, 1 + width)
}

/// Whether the body of a PUBLISH frame, `len` bytes long, has room for the
/// topic that it announces and for the packet identifier.
pub open spec fn publish_shape_ok(bytes: Seq<u8>, width: int, len: int) -> bool {
    len >= 2 && 2 + publish_topic_len(bytes, width) + publish_id_len(bytes) <= len
}

/// The topic of a PUBLISH frame, as bytes.
pub open spec fn publish_topic(bytes: Seq<u8>, width: int) -> Seq<u8> {
    bytes.subrange(3 + width, 3 + width + publish_topic_len(bytes, width))
}

/// The packet identifier of a PUBLISH frame that has one.
pub open spec fn publish_pid(bytes: Seq<u8>, width: int) -> int {
    u16_at(bytes, 3 + width + publish_topic_len(bytes, width))
}

/// The payload of a PUBLISH frame.
pub open spec fn publish_payload(bytes: Seq<u8>, width: int, len: int) -> Seq<u8> {
    bytes.subrange(
        3 + width + publish_topic_len(bytes, width) + publish_id_len(bytes),
        1 + width + len,
    )
}

/// Whether a PUBLISH frame of good shape holds a packet: the delivery
/// guarantee is one of the three, the topic is UTF-8, and the packet
/// identifier, where there is one, is not zero.
pub open spec fn publish_valid(bytes: Seq<u8>, width: int) -> bool {
    &&& qos_bits(bytes) <= 2
    &&& valid_utf8(publish_topic(bytes, width))
    &&& (qos_bits(bytes) == 0 || publish_pid(bytes, width) != 0)
}

/// The delivery guarantee that two bits stand for.
pub open spec fn qos_of(bits: int) -> QoS {
    if bits == 0 {
        QoS::AtMostOnce
    } else if bits == 1 {
        QoS::AtLeastOnce
    } else {
        QoS::ExactlyOnce
    }
}

/// The message that a valid PUBLISH frame holds.
pub open spec fn published(bytes: Seq<u8>, width: int, len: int) -> PublishView {
    PublishView {
        dup: flag_bits(bytes) >= 8,
        qos: qos_of(qos_bits(bytes)),
        pid: if qos_bits(bytes) == 0 {
            None
        } else {
            Some(publish_pid(bytes, width) as u16)
        },
        retain: flag_bits(bytes) % 2 == 1,
        topic_name: decode_utf8(publish_topic(bytes, width)),
        payload: publish_payload(bytes, width, len),
    }
}

/// The kinds of packet, other than PUBLISH, that a broker sends.
pub open spec fn is_control_code(code: int) -> bool {
    code == 2 || code == 4 || code == 5 || code == 6 || code == 7 || code == 9 || code == 11 || code
        == 13
}

/// Whether the body of such a frame, `len` bytes long, has room for what the
/// kind has to hold: nothing in a PINGRESP, two bytes in the others.
pub open spec fn control_shape_ok(bytes: Seq<u8>, len: int) -> bool {
    is_control_code(kind_code(bytes)) && (kind_code(bytes) == 13 || len >= 2)
}

/// Whether such a frame of good shape holds a packet: the flags are those of
/// its kind, a CONNACK's return code is one of the six, and a packet
/// identifier is not zero.
pub open spec fn control_valid(bytes: Seq<u8>, width: int) -> bool {
    &&& flag_bits(bytes) == (if kind_code(bytes) == 6 {
        2int
    } else {
        0int
    })
    &&& if kind_code(bytes) == 2 {
        bytes[2 + width] <= 5
    } else if kind_code(bytes) == 13 {
        true
    } else {
        u16_at(bytes, 1 + width) != 0
    }
}

/// The packet that a valid frame of one of the broker's other kinds holds.
pub open spec fn control_packet(bytes: Seq<u8>, width: int) -> PacketView {
    let pid = u16_at(bytes, 1 + width) as u16;
    let code = kind_code(bytes);
    if code == 2 {
        PacketView::Connack { session_present: bytes[1 + width] % 2 == 1, code: bytes[2 + width] }
    } else if code == 4 {
        PacketView::Puback(pid)
    } else if code == 5 {
        PacketView::Pubrec(pid)
    } else if code == 6 {
        PacketView::Pubrel(pid)
    } else if code == 7 {
        PacketView::Pubcomp(pid)
    } else if code == 9 {
        PacketView::Suback(pid)
    } else if code == 11 {
        PacketView::Unsuback(pid)
    } else {
        PacketView::Pingresp
    }
}

/// What the start of a byte sequence decodes to.
pub enum Decoded {
    /// No whole frame is there yet.
    Incomplete,
    /// There is a frame, or a length field gone wrong, but no packet in it.
    Malformed,
    /// A whole frame that holds this packet.
    Packet(PacketView),
}

/// What a whole frame decodes to, `width` and `len` being its extent.
pub open spec fn decoded_frame(bytes: Seq<u8>, width: int, len: int) -> Decoded {
    if kind_code(bytes) == 3 {
        if publish_shape_ok(bytes, width, len) && publish_valid(bytes, width) {
            Decoded::Packet(PacketView::Publish(published(bytes, width, len)))
        } else {
            Decoded::Malformed
        }
    } else if control_shape_ok(bytes, len) && control_valid(bytes, width) {
        Decoded::Packet(control_packet(bytes, width))
    } else {
        Decoded::Malformed
    }
}

/// What the start of `bytes` decodes to.
pub open spec fn decoded(bytes: Seq<u8>) -> Decoded {
    match extent(bytes) {
        Extent::Incomplete => Decoded::Incomplete,
        Extent::Invalid => Decoded::Malformed,
        Extent::Frame { width, len } => decoded_frame(bytes, width as int, len as int),
    }
}

/// What a whole frame decodes to does not depend on the bytes that follow
/// it.
pub proof fn lemma_decoded_frame_of_longer(bytes: Seq<u8>, more: Seq<u8>, width: int, len: int)
    requires
        1 <= width,
        0 <= len,
        1 + width + len <= bytes.len(),
    ensures
        decoded_frame(bytes + more, width, len) == decoded_frame(bytes, width, len),
{
    let longer = bytes + more;
    assert forall|i: int| 0 <= i < bytes.len() implies longer[i] == bytes[i] by {}
    assert(longer[0] == bytes[0]);
    if kind_code(bytes) == 3 {
        if len >= 2 {
            assert(longer[1 + width] == bytes[1 + width]);
            assert(longer[2 + width] == bytes[2 + width]);
            if publish_shape_ok(bytes, width, len) {
                let topic_len = publish_topic_len(bytes, width);
                assert(publish_topic(longer, width) =~= publish_topic(bytes, width));
                assert(publish_payload(longer, width, len) =~= publish_payload(bytes, width, len));
                if qos_bits(bytes) != 0 {
                    assert(longer[3 + width + topic_len] == bytes[3 + width + topic_len]);
                    assert(longer[4 + width + topic_len] == bytes[4 + width + topic_len]);
                }
            }
        }
    } else if control_shape_ok(bytes, len) {
        if kind_code(bytes) != 13 {
            assert(longer[1 + width] == bytes[1 + width]);
            assert(longer[2 + width] == bytes[2 + width]);
        }
    }
}

/// Whether the frame at the start of `bytes`, of one of the kinds that a
/// broker sends, has room in its body for what its kind has to hold.
pub open spec fn shape_ok(bytes: Seq<u8>, width: int, len: int) -> bool {
    if kind_code(bytes) == 3 {
        publish_shape_ok(bytes, width, len)
    } else {
        control_shape_ok(bytes, len)
    }
}

/// Whether a frame of good shape holds a packet.
pub open spec fn frame_valid(bytes: Seq<u8>, width: int) -> bool {
    if kind_code(bytes) == 3 {
        publish_valid(bytes, width)
    } else {
        control_valid(bytes, width)
    }
}

/// `mqttrust::encoding::v4::decode_slice` on a whole frame of one of the
/// kinds that a broker sends, whose body has room for what its kind holds.
/// It fails exactly when the frame is not valid. For a PUBLISH frame that
/// means a delivery guarantee of 3, a topic that is not UTF-8, or a packet
/// identifier of zero; for the other kinds, flags that are not those of the
/// kind, a CONNACK return code over 5, or a packet identifier of zero. Where
/// it succeeds it returns a packet. Of a PUBLISH packet the topic and the
/// payload are handed on: the topic that the frame announces, and the rest
/// of the body behind topic and packet identifier. Of any other packet
/// nothing is.
#[verifier::external_body]
fn decode_frame_slice(buf: &[u8]) -> (r: Result<
    Option<(String, Vec<u8>)>,
    mqttrust::encoding::v4::Error,
>)
    requires
        extent(buf@) is Frame,
        shape_ok(buf@, extent(buf@)->width as int, extent(buf@)->len as int),
    ensures
        r is Ok <==> frame_valid(buf@, extent(buf@)->width as int),
        r is Ok ==> (r->Ok_0 is Some <==> kind_code(buf@) == 3),
        r matches Ok(Some(parts)) ==> encode_utf8(parts.0@) == publish_topic(
            buf@,
            extent(buf@)->width as int,
        ) && parts.1@ == publish_payload(
            buf@,
            extent(buf@)->width as int,
            extent(buf@)->len as int,
        ),
{
    match mqttrust::encoding::v4::decode_slice(buf)? {
        Some(mqttrust::Packet::Publish(p)) => Ok(Some((p.topic_name.to_owned(), p.payload.to_vec()))),
        _ => Ok(None),
    }
}

/// Whether the body of the PUBLISH frame at the start of `buf` has room for
/// its topic and packet identifier.
fn publish_shape(buf: &[u8], width: usize, len: usize) -> (ok: bool)
    requires
        1 <= width <= 4,
        1 + width + len <= buf@.len(),
    ensures
        ok == publish_shape_ok(buf@, width as int, len as int),
{
    if len < 2 {
        return false;
    }
    let topic_len: usize = buf[1 + width] as usize * 256 + buf[2 + width] as usize;
    let id_len: usize = if (buf[0] % 8) / 2 == 0 {
        0
    } else {
        2
    };
    2 + topic_len + id_len <= len
}

/// The packet identifier that the body of a frame starts with.
fn leading_pid(buf: &[u8], width: usize) -> (pid: u16)
    requires
        width <= 4,
        3 + width <= buf@.len(),
    ensures
        pid == u16_at(buf@, 1 + width),
{
    buf[1 + width] as u16 * 256 + buf[2 + width] as u16
}

/// Decodes the frame at the start of `buf`: the packet that it holds, or
/// nothing while the frame is not all there, or `TinyMqttError::Decode`
/// where no packet from a broker is in it.
pub fn decode(buf: &[u8]) -> (r: Result<Option<Packet>, TinyMqttError>)
    ensures
        match decoded(buf@) {
            Decoded::Incomplete => r is Ok && r->Ok_0 is None,
            Decoded::Malformed => r is Err && r->Err_0 == TinyMqttError::Decode,
            Decoded::Packet(packet) => r is Ok && r->Ok_0 is Some && r->Ok_0->0@ == packet,
        },
{
    match frame_extent(buf) {
        Extent::Incomplete => Ok(None),
        Extent::Invalid => Err(TinyMqttError::Decode),
        Extent::Frame { width, len } => {
            let first: u8 = buf[0];
            let code: u8 = first / 16;
            if code == 3 {
                if !publish_shape(buf, width, len) {
                    return Err(TinyMqttError::Decode);
                }
            } else if code == 2 || code == 4 || code == 5 || code == 6 || code == 7 || code == 9
                || code == 11 || code == 13 {
                if code != 13 && len < 2 {
                    return Err(TinyMqttError::Decode);
                }
            } else {
                return Err(TinyMqttError::Decode);
            }
            match decode_frame_slice(buf) {
                Err(_) => Err(TinyMqttError::Decode),
                Ok(None) => {
                    let packet = if code == 2 {
                        Packet::Connack { session_present: buf[1 + width] % 2 == 1, code: buf[2 + width] }
                    } else if code == 4 {
                        Packet::Puback(leading_pid(buf, width))
                    } else if code == 5 {
                        Packet::Pubrec(leading_pid(buf, width))
                    } else if code == 6 {
                        Packet::Pubrel(leading_pid(buf, width))
                    } else if code == 7 {
                        Packet::Pubcomp(leading_pid(buf, width))
                    } else if code == 9 {
                        Packet::Suback(leading_pid(buf, width))
                    } else if code == 11 {
                        Packet::Unsuback(leading_pid(buf, width))
                    } else {
                        Packet::Pingresp
                    };
                    Ok(Some(packet))
                },
                Ok(Some((topic_name, payload))) => {
                    proof {
                        vstd::utf8::encode_utf8_decode_utf8(topic_name@);
                    }
                    let bits: u8 = (first % 8) / 2;
                    let (qos, pid) = if bits == 0 {
                        (QoS::AtMostOnce, None)
                    } else {
                        let at: usize = 3 + width + (buf[1 + width] as usize * 256 + buf[2 + width] as usize);
                        let pid: u16 = buf[at] as u16 * 256 + buf[at + 1] as u16;
                        if bits == 1 {
                            (QoS::AtLeastOnce, Some(pid))
                        } else {
                            (QoS::ExactlyOnce, Some(pid))
                        }
                    };
                    Ok(
                        Some(
                            Packet::Publish(
                                Publish {
                                    dup: first % 16 >= 8,
                                    qos,
                                    pid,
                                    retain: first % 2 == 1,
                                    topic_name,
                                    payload,
                                },
                            ),
                        ),
                    )
                },
            }
        },
    }
}

} // verus!
