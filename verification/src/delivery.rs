//! What the engine makes of the bytes that it receives: the frames are taken
//! off the front of the buffer one by one; a published message is handed to
//! the caller, any other packet is queued, and a malformed frame is
//! discarded.

use vstd::prelude::*;
use crate::decode::{decoded_frame, lemma_decoded_frame_of_longer, Decoded};
use crate::error::TinyMqttError;
use crate::packet::{PacketView, Publish, PublishView};
use crate::wire::{extent, lemma_extent_bounds, lemma_extent_of_longer, Extent};

verus! {

/// What became of one received frame.
#[derive(Clone, Debug, PartialEq, Eq)]
pub enum Delivery {
    /// The frame held a published message, which is handed on.
    Message(Publish),
    /// The frame held another packet, which went to the queue of received
    /// packets.
    Queued,
    /// The frame was discarded: with `TinyMqttError::Decode` because it was
    /// malformed or longer than the buffer, with `TinyMqttError::QueueFull`
    /// because the queue of received packets was full.
    Discarded(TinyMqttError),
}

/// What became of one received frame, as mathematics.
pub enum DeliveryView {
    Message(PublishView),
    Queued,
    Discarded(TinyMqttError),
}

impl View for Delivery {
    type V = DeliveryView;

    open spec fn view(&self) -> DeliveryView {
        match *self {
            Delivery::Message(p) => DeliveryView::Message(p@),
            Delivery::Queued => DeliveryView::Queued,
            Delivery::Discarded(e) => DeliveryView::Discarded(e),
        }
    }
}

/// A list of deliveries as mathematics.
pub open spec fn deliveries_view(deliveries: Seq<Delivery>) -> Seq<DeliveryView> {
    deliveries.map_values(|d: Delivery| d@)
}

/// What is left once all whole frames were taken off a buffer.
pub struct Extraction {
    /// The bytes that make no whole frame yet.
    pub rest: Seq<u8>,
    /// The queue of received packets.
    pub queued: Seq<Seq<u8>>,
    /// What became of the frames, in their order.
    pub deliveries: Seq<DeliveryView>,
}

/// What becomes of the whole frame at the start of `buf`, of extent `width`
/// and `len`, with `queued` as the queue of received packets.
pub open spec fn frame_delivery(buf: Seq<u8>, width: int, len: int, queued: Seq<Seq<u8>>) -> DeliveryView {
    match decoded_frame(buf, width, len) {
        Decoded::Packet(PacketView::Publish(p)) => DeliveryView::Message(p),
        Decoded::Packet(_) => if queued.len() < 10 {
            DeliveryView::Queued
        } else {
            DeliveryView::Discarded(TinyMqttError::QueueFull)
        },
        _ => DeliveryView::Discarded(TinyMqttError::Decode),
    }
}

/// The queue of received packets once the frame at the start of `buf` was
/// dealt with: a frame that is queued goes to the back.
pub open spec fn queue_after(buf: Seq<u8>, width: int, len: int, queued: Seq<Seq<u8>>) -> Seq<Seq<u8>> {
    if frame_delivery(buf, width, len, queued) is Queued {
        queued.push(buf.subrange(0, 1 + width + len))
    } else {
        queued
    }
}

/// Takes the whole frames off the front of `buf`, one after the other. A
/// length field that runs over four bytes leaves no way to find the next
/// frame: everything is then discarded as one.
pub open spec fn extract(buf: Seq<u8>, queued: Seq<Seq<u8>>) -> Extraction
    decreases buf.len(),
    via extract_decreases
{
    match extent(buf) {
        Extent::Incomplete => Extraction { rest: buf, queued, deliveries: Seq::<DeliveryView>::empty() },
        Extent::Invalid => Extraction {
            rest: Seq::<u8>::empty(),
            queued,
            deliveries: seq![DeliveryView::Discarded(TinyMqttError::Decode)],
        },
        Extent::Frame { width, len } => {
            let later = extract(
                buf.subrange(1 + width + len, buf.len() as int),
                queue_after(buf, width as int, len as int, queued),
            );
            Extraction {
                deliveries: seq![frame_delivery(buf, width as int, len as int, queued)]
                    + later.deliveries,
                ..later
            }
        },
    }
}

#[via_fn]
proof fn extract_decreases(buf: Seq<u8>, queued: Seq<Seq<u8>>) {
    lemma_extent_bounds(buf);
}

/// Whether the frames at the front of `buf` can be told apart: none of their
/// length fields runs over four bytes.
pub open spec fn framed(buf: Seq<u8>) -> bool
    decreases buf.len(),
    via framed_decreases
{
    match extent(buf) {
        Extent::Incomplete => true,
        Extent::Invalid => false,
        Extent::Frame { width, len } => framed(buf.subrange(1 + width + len, buf.len() as int)),
    }
}

#[via_fn]
proof fn framed_decreases(buf: Seq<u8>) {
    lemma_extent_bounds(buf);
}

/// The deliveries of one extraction followed by those of another.
pub open spec fn followed_by(first: Extraction, second: Extraction) -> Extraction {
    Extraction { deliveries: first.deliveries + second.deliveries, ..second }
}

/// It makes no difference where a stream of frames is cut: taking the
/// frames off `a` and then off what is left of `a` with `b` behind it gives
/// what taking them off `a` with `b` behind it gives, as long as the frames
/// in `a` can be told apart.
pub proof fn lemma_extract_in_pieces(a: Seq<u8>, b: Seq<u8>, queued: Seq<Seq<u8>>)
    requires
        framed(a),
    ensures
        extract(a + b, queued) == followed_by(
            extract(a, queued),
            extract(extract(a, queued).rest + b, extract(a, queued).queued),
        ),
    decreases a.len(),
{
    let first = extract(a, queued);
    match extent(a) {
        Extent::Incomplete => {
            assert(first.deliveries + extract(a + b, queued).deliveries =~= extract(
                a + b,
                queued,
            ).deliveries);
        },
        Extent::Invalid => {},
        Extent::Frame { width, len } => {
            lemma_extent_bounds(a);
            lemma_extent_of_longer(a, b);
            lemma_decoded_frame_of_longer(a, b, width as int, len as int);
            let total = 1 + width + len;
            let rest = a.subrange(total, a.len() as int);
            let after = queue_after(a, width as int, len as int, queued);
            let delivery = frame_delivery(a, width as int, len as int, queued);
            assert((a + b).subrange(total, (a + b).len() as int) =~= rest + b);
            assert((a + b).subrange(0, total) =~= a.subrange(0, total));
            assert(queue_after(a + b, width as int, len as int, queued) == after);
            assert(frame_delivery(a + b, width as int, len as int, queued) == delivery);
            lemma_extract_in_pieces(rest, b, after);
            let later = extract(rest, after);
            let last = extract(later.rest + b, later.queued);
            assert(seq![delivery] + (later.deliveries + last.deliveries) =~= (seq![delivery]
                + later.deliveries) + last.deliveries);
        },
    }
}

/// What the engine makes of `data` that arrives while `pending` bytes wait
/// for the rest of their frame and `inbound` is the queue of received
/// packets. Bytes that do not fit the buffer of 1024 bytes beside the
/// pending ones are discarded together with those; otherwise the frames are
/// taken off, and what is left is discarded if it fills the buffer, because
/// its frame can then never be whole.
pub open spec fn received(pending: Seq<u8>, inbound: Seq<Seq<u8>>, data: Seq<u8>) -> Extraction {
    if pending.len() + data.len() > 1024 {
        Extraction {
            rest: Seq::<u8>::empty(),
            queued: inbound,
            deliveries: seq![DeliveryView::Discarded(TinyMqttError::Decode)],
        }
    } else {
        let taken = extract(pending + data, inbound);
        if taken.rest.len() >= 1024 {
            Extraction {
                rest: Seq::<u8>::empty(),
                queued: taken.queued,
                deliveries: taken.deliveries.push(DeliveryView::Discarded(TinyMqttError::Decode)),
            }
        } else {
            taken
        }
    }
}

} // verus!
