//! An encoded packet in a buffer of fixed size.

use vstd::prelude::*;
use vstd::slice::{slice_subrange, slice_to_vec};
use vstd::utf8::encode_utf8;
use crate::codec::encode_publish;
use crate::decode::{control_packet, decode, decoded, Decoded};
use crate::error::TinyMqttError;
use crate::packet::{Packet, PacketView, QoS};
use crate::roundtrip::{
    lemma_pingresp_round_trip, lemma_publish_round_trip, lemma_short_frame_round_trip, short_frame,
};
use crate::wire::publish_frame;

verus! {

/// Whether a packet can be put into a buffer and read back: a published
/// message carries a packet identifier exactly when it is sent at least once
/// or exactly once, and its frame fits the buffer; a packet identifier is
/// not zero; a CONNACK's return code is one of the six.
pub open spec fn storable(packet: PacketView) -> bool {
    match packet {
        PacketView::Publish(p) => {
            &&& p.pid is Some <==> p.qos != QoS::AtMostOnce
            &&& p.pid != Some(0u16)
            &&& publish_frame(
                p.dup,
                p.qos,
                p.retain,
                match p.pid {
                    Some(pid) => pid,
                    None => 0,
                },
                encode_utf8(p.topic_name),
                p.payload,
            ).len() <= 1024
        },
        PacketView::Connack { code, .. } => code <= 5,
        PacketView::Puback(pid) | PacketView::Pubrec(pid) | PacketView::Pubrel(pid)
        | PacketView::Pubcomp(pid) | PacketView::Suback(pid) | PacketView::Unsuback(pid) => pid
            != 0,
        PacketView::Pingresp => true,
    }
}

/// A buffer of 1024 bytes of which the first `len` hold an encoded packet.
#[derive(Clone, Copy, Debug)]
pub struct PacketBuffer {
    bytes: [u8; 1024],
    len: usize,
}

impl View for PacketBuffer {
    type V = Seq<u8>;

    /// The bytes of the encoded packet.
    closed spec fn view(&self) -> Seq<u8> {
        self.bytes@.subrange(0, self.len as int)
    }
}

impl PacketBuffer {
    #[verifier::type_invariant]
    spec fn fits(self) -> bool {
        self.len <= 1024
    }

    /// The buffer whose first `len` bytes are an encoded packet.
    pub(crate) fn from_parts(bytes: [u8; 1024], len: usize) -> (buffer: PacketBuffer)
        requires
            len <= 1024,
        ensures
            buffer@ == bytes@.subrange(0, len as int),
    {
        PacketBuffer { bytes, len }
    }

    /// A buffer without any byte.
    pub fn empty() -> (buffer: PacketBuffer)
        ensures
            buffer@ == Seq::<u8>::empty(),
    {
        let buffer = PacketBuffer { bytes: [0u8; 1024], len: 0 };
        assert(buffer@ =~= Seq::<u8>::empty());
        buffer
    }

    /// The frame of four bytes with this first byte and content.
    fn short(first: u8, high: u8, low: u8) -> (buffer: PacketBuffer)
        ensures
            buffer@ == short_frame(first, high, low),
    {
        let mut bytes: [u8; 1024] = [0u8; 1024];
        bytes[0] = first;
        bytes[1] = 2;
        bytes[2] = high;
        bytes[3] = low;
        let buffer = PacketBuffer { bytes, len: 4 };
        assert(buffer@ =~= short_frame(first, high, low));
        buffer
    }

    /// The frame of four bytes with this first byte and packet identifier.
    fn with_pid(first: u8, pid: u16) -> (buffer: PacketBuffer)
        ensures
            buffer@ == short_frame(first, (pid / 256) as u8, (pid % 256) as u8),
    {
        PacketBuffer::short(first, (pid / 256) as u8, (pid % 256) as u8)
    }

    /// A buffer that holds the encoding of `packet`, so that `parsed` gives
    /// the packet back. A packet that cannot be stored leaves the buffer
    /// empty.
    pub fn new(packet: &Packet) -> (buffer: PacketBuffer)
        ensures
            storable(packet@) ==> decoded(buffer@) == Decoded::Packet(packet@),
            !storable(packet@) ==> buffer@ == Seq::<u8>::empty(),
    {
        match packet {
            Packet::Publish(p) => {
                let pid: u16 = match (p.pid, p.qos) {
                    (None, QoS::AtMostOnce) => 0,
                    (Some(pid), QoS::AtLeastOnce) => pid,
                    (Some(pid), QoS::ExactlyOnce) => pid,
                    _ => {
                        return PacketBuffer::empty();
                    },
                };
                if pid == 0 && p.pid.is_some() {
                    return PacketBuffer::empty();
                }
                let mut bytes: [u8; 1024] = [0u8; 1024];
                match encode_publish(
                    p.dup,
                    p.qos,
                    p.retain,
                    pid,
                    p.topic_name.as_str(),
                    p.payload.as_slice(),
                    &mut bytes,
                ) {
                    Ok(len) => {
                        let buffer = PacketBuffer { bytes, len };
                        proof {
                            lemma_publish_round_trip(
                                p.dup,
                                p.qos,
                                p.retain,
                                pid,
                                p.topic_name@,
                                p.payload@,
                                Seq::<u8>::empty(),
                            );
                            assert(buffer@ + Seq::<u8>::empty() =~= buffer@);
                        }
                        buffer
                    },
                    Err(_) => PacketBuffer::empty(),
                }
            },
            Packet::Connack { session_present, code } => {
                if *code > 5 {
                    return PacketBuffer::empty();
                }
                let flags: u8 = if *session_present {
                    1
                } else {
                    0
                };
                proof {
                    lemma_short_frame_round_trip(32, flags, *code);
                }
                PacketBuffer::short(32, flags, *code)
            },
            Packet::Puback(pid) => PacketBuffer::acknowledgment(64, *pid),
            Packet::Pubrec(pid) => PacketBuffer::acknowledgment(80, *pid),
            Packet::Pubrel(pid) => PacketBuffer::acknowledgment(98, *pid),
            Packet::Pubcomp(pid) => PacketBuffer::acknowledgment(112, *pid),
            Packet::Suback(pid) => PacketBuffer::acknowledgment(144, *pid),
            Packet::Unsuback(pid) => PacketBuffer::acknowledgment(176, *pid),
            Packet::Pingresp => {
                let mut bytes: [u8; 1024] = [0u8; 1024];
                bytes[0] = 208;
                bytes[1] = 0;
                let buffer = PacketBuffer { bytes, len: 2 };
                proof {
                    lemma_pingresp_round_trip();
                    assert(buffer@ =~= seq![208u8, 0u8]);
                }
                buffer
            },
        }
    }

    /// The frame of an acknowledgment with this first byte and packet
    /// identifier, or an empty buffer where the identifier is zero.
    fn acknowledgment(first: u8, pid: u16) -> (buffer: PacketBuffer)
        requires
            first == 64 || first == 80 || first == 98 || first == 112 || first == 144 || first
                == 176,
        ensures
            pid != 0 ==> decoded(buffer@) == Decoded::Packet(
                control_packet(short_frame(first, (pid / 256) as u8, (pid % 256) as u8), 1),
            ) && buffer@ == short_frame(first, (pid / 256) as u8, (pid % 256) as u8),
            pid == 0 ==> buffer@ == Seq::<u8>::empty(),
    {
        if pid == 0 {
            return PacketBuffer::empty();
        }
        proof {
            lemma_short_frame_round_trip(first, (pid / 256) as u8, (pid % 256) as u8);
        }
        PacketBuffer::with_pid(first, pid)
    }

    /// A buffer that holds a copy of `data`, if `data` fits.
    pub fn from_bytes(data: &[u8]) -> (buffer: Option<PacketBuffer>)
        ensures
            data@.len() <= 1024 ==> buffer is Some && buffer->0@ == data@,
            data@.len() > 1024 ==> buffer is None,
    {
        if data.len() > 1024 {
            return None;
        }
        let mut bytes: [u8; 1024] = [0u8; 1024];
        let mut i: usize = 0;
        while i < data.len()
            invariant
                i <= data@.len() <= 1024,
                bytes@.subrange(0, i as int) == data@.subrange(0, i as int),
            decreases data@.len() - i,
        {
            bytes[i] = data[i];
            i = i + 1;
            assert(bytes@.subrange(0, i as int) =~= data@.subrange(0, i as int)) by {
                assert forall|k: int| 0 <= k < i implies bytes@[k] == data@[k] by {
                    if k < i - 1 {
                        assert(bytes@.subrange(0, i - 1)[k] == data@.subrange(0, i - 1)[k]);
                    }
                }
            }
        }
        assert(data@.subrange(0, i as int) =~= data@);
        Some(PacketBuffer { bytes, len: i })
    }

    /// The number of bytes of the encoded packet.
    pub fn len(&self) -> (n: usize)
        ensures
            n == self@.len(),
            n <= 1024,
    {
        proof {
            use_type_invariant(self);
        }
        self.len
    }

    /// The bytes of the encoded packet.
    pub fn as_slice(&self) -> (bytes: &[u8])
        ensures
            bytes@ == self@,
    {
        proof {
            use_type_invariant(self);
        }
        slice_subrange(self.bytes.as_slice(), 0, self.len)
    }

    /// A copy of the bytes of the encoded packet.
    pub fn to_vec(&self) -> (bytes: Vec<u8>)
        ensures
            bytes@ == self@,
    {
        slice_to_vec(self.as_slice())
    }

    /// What to do once the transport has answered a write of the bytes from
    /// `sent` on: `written` is the number of bytes that it took, or nothing
    /// if it failed. A failure, and a write that took no byte, is a
    /// transport error, on which the packet is given up. Otherwise the
    /// packet is done when all its bytes were taken, and if not, the next
    /// write starts at the offset that is returned.
    pub fn after_write(&self, sent: usize, written: Option<usize>) -> (r: Result<
        Option<usize>,
        TinyMqttError,
    >)
        ensures
            match written {
                None => r is Err && r->Err_0 == TinyMqttError::Transport,
                Some(n) => if n == 0 {
                    r is Err && r->Err_0 == TinyMqttError::Transport
                } else if sent + n >= self@.len() {
                    r is Ok && r->Ok_0 is None
                } else {
                    r is Ok && r->Ok_0 == Some((sent + n) as usize)
                },
            },
    {
        proof {
            use_type_invariant(self);
        }
        match written {
            None => Err(TinyMqttError::Transport),
            Some(n) => {
                if n == 0 {
                    Err(TinyMqttError::Transport)
                } else if sent >= self.len || n >= self.len - sent {
                    Ok(None)
                } else {
                    Ok(Some(sent + n))
                }
            },
        }
    }

    /// The packet that the buffer holds: nothing while the frame is not all
    /// there, `TinyMqttError::Decode` where no packet from a broker is in
    /// it.
    pub fn parsed(&self) -> (r: Result<Option<Packet>, TinyMqttError>)
        ensures
            match decoded(self@) {
                Decoded::Incomplete => r is Ok && r->Ok_0 is None,
                Decoded::Malformed => r is Err && r->Err_0 == TinyMqttError::Decode,
                Decoded::Packet(packet) => r is Ok && r->Ok_0 is Some && r->Ok_0->0@ == packet,
            },
    {
        decode(self.as_slice())
    }
}

} // verus!
