//! The layout of MQTT 3.1.1 frames: a first byte with the packet's kind and
//! flags, the length of the rest in one to four bytes, and the rest.

use vstd::prelude::*;
use crate::packet::{QoS, TopicFilter};

verus! {

/// The two bytes of a sixteen-bit number, the high one first.
pub open spec fn be16(n: int) -> Seq<u8> {
    seq![(n / 256) as u8, (n % 256) as u8]
}

/// The number that two bytes of `bytes` hold from index `i` on, the high one
/// first.
pub open spec fn u16_at(bytes: Seq<u8>, i: int) -> int {
    bytes[i] * 256 + bytes[i + 1]
}

/// The length field of a frame whose rest is `n` bytes long: seven bits to a
/// byte, the low ones first, the eighth bit set on all bytes but the last.
pub open spec fn length_field(n: int) -> Seq<u8>
    decreases n,
{
    if n < 128 {
        seq![n as u8]
    } else {
        seq![(n % 128 + 128) as u8] + length_field(n / 128)
    }
}

/// A frame: the first byte, the length of the body, the body.
pub open spec fn frame(first: u8, body: Seq<u8>) -> Seq<u8> {
    seq![first] + length_field(body.len() as int) + body
}

/// A field of bytes preceded by its length in two bytes.
pub open spec fn sized_field(bytes: Seq<u8>) -> Seq<u8> {
    be16(bytes.len() as int) + bytes
}

/// The first byte of a PUBLISH frame.
pub open spec fn publish_first_byte(dup: bool, qos: QoS, retain: bool) -> u8 {
    (48 + (if dup { 8int } else { 0int }) + 2 * qos.level() + (if retain { 1int } else { 0int })) as u8
}

/// The body of a PUBLISH frame: the topic, the packet identifier unless the
/// message is sent at most once, the payload.
pub open spec fn publish_body(qos: QoS, pid: u16, topic: Seq<u8>, payload: Seq<u8>) -> Seq<u8> {
    sized_field(topic) + (if qos == QoS::AtMostOnce {
        Seq::<u8>::empty()
    } else {
        be16(pid as int)
    }) + payload
}

/// The PUBLISH frame of a message.
pub open spec fn publish_frame(
    dup: bool,
    qos: QoS,
    retain: bool,
    pid: u16,
    topic: Seq<u8>,
    payload: Seq<u8>,
) -> Seq<u8> {
    frame(publish_first_byte(dup, qos, retain), publish_body(qos, pid, topic, payload))
}

/// The flags of a CONNECT frame that asks for a clean session and leaves no
/// will.
pub open spec fn connect_flags(username: Option<Seq<u8>>, password: Option<Seq<u8>>) -> u8 {
    (2 + (if username is Some { 128int } else { 0int }) + (if password is Some { 64int } else { 0int })) as u8
}

/// A field that is left out when there is nothing to send in it.
pub open spec fn optional_field(bytes: Option<Seq<u8>>) -> Seq<u8> {
    match bytes {
        Some(b) => sized_field(b),
        None => Seq::<u8>::empty(),
    }
}

/// The body of a CONNECT frame: the protocol's name "MQTT" and level 4, the
/// flags, the keep-alive interval in seconds, the client's identifier, and
/// the credentials that are given.
pub open spec fn connect_body(
    keep_alive: u16,
    client_id: Seq<u8>,
    username: Option<Seq<u8>>,
    password: Option<Seq<u8>>,
) -> Seq<u8> {
    seq![0u8, 4u8, 77u8, 81u8, 84u8, 84u8, 4u8] + seq![connect_flags(username, password)] + be16(
        keep_alive as int,
    ) + sized_field(client_id) + optional_field(username) + optional_field(password)
}

/// The CONNECT frame of a handshake.
pub open spec fn connect_frame(
    keep_alive: u16,
    client_id: Seq<u8>,
    username: Option<Seq<u8>>,
    password: Option<Seq<u8>>,
) -> Seq<u8> {
    frame(16u8, connect_body(keep_alive, client_id, username, password))
}

/// The topic filters of a SUBSCRIBE frame, each followed by the level asked
/// for.
pub open spec fn filters_body(filters: Seq<TopicFilter>) -> Seq<u8>
    decreases filters.len(),
{
    if filters.len() == 0 {
        Seq::<u8>::empty()
    } else {
        filters_body(filters.drop_last()) + sized_field(filters.last().path) + seq![
            filters.last().qos.level() as u8,
        ]
    }
}

/// The SUBSCRIBE frame for a list of topic filters. Its packet identifier is
/// always 1.
pub open spec fn subscribe_frame(filters: Seq<TopicFilter>) -> Seq<u8> {
    frame(130u8, be16(1) + filters_body(filters))
}

/// The PINGREQ frame.
pub open spec fn pingreq_frame() -> Seq<u8> {
    seq![192u8, 0u8]
}

/// What the start of a byte sequence says of the frame it begins.
#[derive(Clone, Copy, Debug, PartialEq, Eq, Structural)]
pub enum Extent {
    /// The length field, or the body that it announces, is not all there yet.
    Incomplete,
    /// The length field runs over four bytes.
    Invalid,
    /// A whole frame is there: a length field of `width` bytes and a body of
    /// `len` bytes.
    Frame { width: usize, len: usize },
}

/// 128 to the power `pos`, for the four positions of a length field.
pub open spec fn weight(pos: int) -> int {
    if pos <= 0 {
        1
    } else if pos == 1 {
        128
    } else if pos == 2 {
        16384
    } else {
        2097152
    }
}

/// Reads the length field from its byte at position `pos` on, `acc` being
/// what the bytes before it add up to.
pub open spec fn scan_length(bytes: Seq<u8>, pos: int, acc: int) -> Extent
    decreases 4 - pos,
{
    if pos >= 4 {
        Extent::Invalid
    } else if bytes.len() <= pos + 1 {
        Extent::Incomplete
    } else {
        let byte = bytes[pos + 1];
        let sum = acc + (byte % 128) * weight(pos);
        if byte < 128 {
            if bytes.len() < 2 + pos + sum {
                Extent::Incomplete
            } else {
                Extent::Frame { width: (pos + 1) as usize, len: sum as usize }
            }
        } else {
            scan_length(bytes, pos + 1, sum)
        }
    }
}

/// The extent of the frame at the start of `bytes`.
pub open spec fn extent(bytes: Seq<u8>) -> Extent {
    scan_length(bytes, 0, 0)
}

/// A whole frame has a length field of one to four bytes and lies within the
/// bytes that held it.
pub proof fn lemma_extent_bounds(bytes: Seq<u8>)
    ensures
        extent(bytes) matches Extent::Frame { width, len } ==> 1 <= width <= 4 && len < 268435456
            && 1 + width + len <= bytes.len(),
{
    reveal_with_fuel(scan_length, 5);
}

/// Bytes that follow a whole frame, or a length field gone wrong, change
/// nothing about it.
pub proof fn lemma_extent_of_longer(bytes: Seq<u8>, more: Seq<u8>)
    requires
        !(extent(bytes) is Incomplete),
    ensures
        extent(bytes + more) == extent(bytes),
{
    reveal_with_fuel(scan_length, 5);
    let longer = bytes + more;
    assert(longer.len() == bytes.len() + more.len());
    assert forall|i: int| 0 <= i < bytes.len() implies longer[i] == bytes[i] by {}
}

/// The extent of the frame at the start of `buf`.
pub fn frame_extent(buf: &[u8]) -> (e: Extent)
    ensures
        e == extent(buf@),
        e matches Extent::Frame { width, len } ==> 1 <= width <= 4 && len < 268435456 && 1 + width
            + len <= buf@.len(),
{
    let mut pos: usize = 0;
    let mut acc: usize = 0;
    let mut mult: usize = 1;
    while pos < 4
        invariant
            pos <= 4,
            mult == weight(pos as int),
            pos < 4 ==> acc < mult,
            acc < 268435456,
            extent(buf@) == scan_length(buf@, pos as int, acc as int),
        decreases 4 - pos,
    {
        if buf.len() <= pos + 1 {
            return Extent::Incomplete;
        }
        let byte: u8 = buf[pos + 1];
        let low: usize = (byte % 128) as usize;
        assert(low * mult <= 127 * mult) by (nonlinear_arith)
            requires
                low <= 127,
                mult >= 0,
        ;
        let sum: usize = acc + low * mult;
        if byte < 128 {
            if buf.len() < 2 + pos + sum {
                return Extent::Incomplete;
            }
            return Extent::Frame { width: pos + 1, len: sum };
        }
        acc = sum;
        pos = pos + 1;
        if pos < 4 {
            mult = mult * 128;
        }
    }
    Extent::Invalid
}

} // verus!
