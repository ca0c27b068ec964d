//! The session engine: an outbound queue of encoded packets, a buffer of
//! received bytes with a queue of received packets behind it, the keep-alive
//! clock, and the source of packet identifiers. The engine does no I/O. Its
//! caller owns the transport: it writes the packets that `poll` hands out,
//! and hands the bytes that it reads to `receive`.

use vstd::prelude::*;
use vstd::utf8::encode_utf8;
use vstd::slice::slice_subrange;
use crate::buffer::PacketBuffer;
use crate::codec::{
    encode_connect, encode_pingreq, encode_publish, encode_subscribe, filters_of, raw_bytes,
    text_bytes,
};
use crate::decode::decode;
use crate::delivery::{
    deliveries_view, extract, frame_delivery, queue_after, received, Delivery, DeliveryView,
};
use crate::error::TinyMqttError;
use crate::packet::{Packet, QoS, SubscribeTopic, TopicFilter};
use crate::pid::{nth_pid, pid_succ, Pid, PidAllocator};
use crate::queue::{queue_dequeue, queue_enqueue, queue_items, queue_len, queue_new};
use crate::wire::{
    connect_frame, extent, frame_extent, pingreq_frame, publish_frame, subscribe_frame, Extent,
};

verus! {

/// The encoded packets that a queue's items hold.
pub open spec fn frames(items: Seq<(usize, [u8; 1024])>) -> Seq<Seq<u8>> {
    items.map_values(|item: (usize, [u8; 1024])| item.1@.subrange(0, item.0 as int))
}

/// Whether the length of every item of a queue fits its buffer.
pub open spec fn items_fit(items: Seq<(usize, [u8; 1024])>) -> bool {
    forall|i: int| 0 <= i < items.len() ==> (#[trigger] items[i]).0 <= 1024
}

/// The session engine.
pub struct TinyMqtt {
    client_id: String,
    queue: heapless::spsc::Queue<(usize, [u8; 1024]), 11>,
    recv_buffer: [u8; 1024],
    recv_index: usize,
    recv_queue: heapless::spsc::Queue<(usize, [u8; 1024]), 11>,
    timeout_secs: u16,
    last_sent_millis: u64,
    pids: PidAllocator,
}

/// The session engine as mathematics.
pub struct TinyMqttView {
    /// The client's identifier.
    pub client_id: Seq<char>,
    /// The encoded packets that wait to be sent, the oldest first.
    pub outbound: Seq<Seq<u8>>,
    /// The received packets that wait to be looked at, the oldest first.
    pub inbound: Seq<Seq<u8>>,
    /// The received bytes that do not make a whole frame yet.
    pub pending: Seq<u8>,
    /// The keep-alive interval in seconds.
    pub keep_alive_secs: u16,
    /// The time, in milliseconds, at which a packet was last sent.
    pub last_sent_millis: u64,
    /// The packet identifier that is handed out next.
    pub next_pid: u16,
}

impl View for TinyMqtt {
    type V = TinyMqttView;

    closed spec fn view(&self) -> TinyMqttView {
        TinyMqttView {
            client_id: self.client_id@,
            outbound: frames(queue_items(self.queue)),
            inbound: frames(queue_items(self.recv_queue)),
            pending: self.recv_buffer@.subrange(0, self.recv_index as int),
            keep_alive_secs: self.timeout_secs,
            last_sent_millis: self.last_sent_millis,
            next_pid: self.pids.upcoming(),
        }
    }
}

/// Whether a keep-alive ping is due at the time `now`: more than half the
/// keep-alive interval has passed since a packet was last sent.
pub open spec fn ping_due(engine: TinyMqttView, now: u64) -> bool {
    now > engine.last_sent_millis + (engine.keep_alive_secs / 2) * 1000
}

/// The engine and the result once an encoded packet was to be enqueued: a
/// packet longer than the buffer is refused with `TinyMqttError::Encode`, a
/// packet for a queue of ten with `TinyMqttError::QueueFull`, and any other
/// goes to the back of the outbound queue.
pub open spec fn enqueued(engine: TinyMqttView, frame: Seq<u8>) -> (
    TinyMqttView,
    Result<(), TinyMqttError>,
) {
    if frame.len() > 1024 {
        (engine, Err(TinyMqttError::Encode))
    } else if engine.outbound.len() >= 10 {
        (engine, Err(TinyMqttError::QueueFull))
    } else {
        (TinyMqttView { outbound: engine.outbound.push(frame), ..engine }, Ok(()))
    }
}

/// The engine and the result of a handshake: the keep-alive interval is
/// taken in any case; the CONNECT packet, with an empty client identifier,
/// is enqueued if it can be, and `now` then is the time of the last sending.
pub open spec fn connected(
    engine: TinyMqttView,
    keep_alive_secs: u16,
    username: Option<Seq<u8>>,
    password: Option<Seq<u8>>,
    now: u64,
) -> (TinyMqttView, Result<(), TinyMqttError>) {
    let configured = TinyMqttView { keep_alive_secs, ..engine };
    let (queued, result) = enqueued(
        configured,
        connect_frame(keep_alive_secs, Seq::<u8>::empty(), username, password),
    );
    if result is Ok {
        (TinyMqttView { last_sent_millis: now, ..queued }, result)
    } else {
        (configured, result)
    }
}

/// The engine and the result of publishing a message. A message that is
/// sent at least once or exactly once carries `pid`, or, where none is
/// given, the upcoming packet identifier, which is used up if the packet is
/// enqueued.
pub open spec fn published(
    engine: TinyMqttView,
    pid: Option<u16>,
    topic: Seq<u8>,
    payload: Seq<u8>,
    qos: QoS,
    retain: bool,
) -> (TinyMqttView, Result<(), TinyMqttError>) {
    let id = match pid {
        Some(p) => p,
        None => engine.next_pid,
    };
    let (queued, result) = enqueued(engine, publish_frame(false, qos, retain, id, topic, payload));
    if result is Ok && qos != QoS::AtMostOnce && pid is None {
        (TinyMqttView { next_pid: pid_succ(engine.next_pid), ..queued }, result)
    } else {
        (queued, result)
    }
}

/// The engine and the result of subscribing to a list of topic filters: an
/// empty list is refused with `TinyMqttError::Encode`; otherwise the one
/// SUBSCRIBE packet that lists them all is enqueued if it can be.
pub open spec fn subscribed(engine: TinyMqttView, filters: Seq<TopicFilter>) -> (
    TinyMqttView,
    Result<(), TinyMqttError>,
) {
    if filters.len() == 0 {
        (engine, Err(TinyMqttError::Encode))
    } else {
        enqueued(engine, subscribe_frame(filters))
    }
}

/// The number of a packet identifier that may be missing.
pub open spec fn pid_number(pid: Option<Pid>) -> Option<u16> {
    match pid {
        Some(p) => Some(p.number()),
        None => None,
    }
}

/// With ten packets waiting the outbound queue takes no more: a packet
/// that fits the buffer is refused with `TinyMqttError::QueueFull`, and the
/// ten packets wait as before.
pub proof fn lemma_full_queue_refuses(engine: TinyMqttView, frame: Seq<u8>)
    requires
        engine.outbound.len() == 10,
        frame.len() <= 1024,
    ensures
        enqueued(engine, frame) == (engine, Err::<(), TinyMqttError>(TinyMqttError::QueueFull)),
        enqueued(engine, frame).0.outbound.len() == 10,
{
}

/// With fewer than ten packets waiting the outbound queue takes one more
/// at its back.
pub proof fn lemma_queue_with_room_accepts(engine: TinyMqttView, frame: Seq<u8>)
    requires
        engine.outbound.len() < 10,
        frame.len() <= 1024,
    ensures
        enqueued(engine, frame).1 is Ok,
        enqueued(engine, frame).0.outbound == engine.outbound.push(frame),
        enqueued(engine, frame).0.outbound.len() == engine.outbound.len() + 1,
{
}

/// A message that is sent at least once or exactly once, and for which no
/// packet identifier is given, goes out with the upcoming identifier, and
/// the engine moves one place on in the cycle of identifiers: the packets
/// of such messages carry, in the order in which they were enqueued, the
/// identifiers `nth_pid(first, 0)`, `nth_pid(first, 1)`, and so on.
pub proof fn lemma_publication_takes_next_pid(
    engine: TinyMqttView,
    topic: Seq<u8>,
    payload: Seq<u8>,
    qos: QoS,
    retain: bool,
    first: u16,
    n: nat,
)
    requires
        qos != QoS::AtMostOnce,
        engine.next_pid == nth_pid(first, n),
        published(engine, None, topic, payload, qos, retain).1 is Ok,
    ensures
        published(engine, None, topic, payload, qos, retain).0.outbound.last() == publish_frame(
            false,
            qos,
            retain,
            nth_pid(first, n),
            topic,
            payload,
        ),
        published(engine, None, topic, payload, qos, retain).0.next_pid == nth_pid(first, n + 1),
{
}

impl TinyMqtt {
    /// The engine is valid when its queues hold ten packets or fewer, each
    /// within its buffer, fewer than 1024 received bytes are pending, and the
    /// upcoming packet identifier is not zero.
    pub closed spec fn wf(&self) -> bool {
        &&& self.recv_index < 1024
        &&& self.pids.wf()
        &&& queue_items(self.queue).len() <= 10
        &&& queue_items(self.recv_queue).len() <= 10
        &&& items_fit(queue_items(self.queue))
        &&& items_fit(queue_items(self.recv_queue))
    }

    /// What holds of every valid engine.
    pub proof fn lemma_wf(&self)
        requires
            self.wf(),
        ensures
            self@.outbound.len() <= 10,
            self@.inbound.len() <= 10,
            self@.pending.len() < 1024,
            self@.next_pid != 0,
            forall|i: int| 0 <= i < self@.outbound.len() ==> (#[trigger] self@.outbound[i]).len() <= 1024,
            forall|i: int| 0 <= i < self@.inbound.len() ==> (#[trigger] self@.inbound[i]).len() <= 1024,
    {
        self.pids.lemma_upcoming_nonzero();
        assert forall|i: int| 0 <= i < self@.outbound.len() implies (#[trigger] self@.outbound[i]).len()
            <= 1024 by {
            assert(queue_items(self.queue)[i].0 <= 1024);
        }
        assert forall|i: int| 0 <= i < self@.inbound.len() implies (#[trigger] self@.inbound[i]).len()
            <= 1024 by {
            assert(queue_items(self.recv_queue)[i].0 <= 1024);
        }
    }

    /// An engine for the client `client_id` with empty queues, nothing
    /// received, no keep-alive interval, and 1 as the first packet
    /// identifier.
    pub fn new(client_id: &str) -> (engine: TinyMqtt)
        ensures
            engine.wf(),
            engine@ == (TinyMqttView {
                client_id: client_id@,
                outbound: Seq::<Seq<u8>>::empty(),
                inbound: Seq::<Seq<u8>>::empty(),
                pending: Seq::<u8>::empty(),
                keep_alive_secs: 0,
                last_sent_millis: 0,
                next_pid: 1,
            }),
    {
        let engine = TinyMqtt {
            client_id: client_id.to_owned(),
            queue: queue_new(),
            recv_buffer: [0u8; 1024],
            recv_index: 0,
            recv_queue: queue_new(),
            timeout_secs: 0,
            last_sent_millis: 0,
            pids: PidAllocator::new(),
        };
        assert(engine@.outbound =~= Seq::<Seq<u8>>::empty());
        assert(engine@.inbound =~= Seq::<Seq<u8>>::empty());
        assert(engine@.pending =~= Seq::<u8>::empty());
        engine
    }

    /// The client's identifier.
    pub fn client_id(&self) -> (id: &str)
        ensures
            id@ == self@.client_id,
    {
        self.client_id.as_str()
    }

    /// The number of packets that wait to be sent.
    pub fn outbound_len(&self) -> (n: usize)
        ensures
            n == self@.outbound.len(),
            n <= 10,
    {
        let n = queue_len(&self.queue);
        n
    }

    /// The number of received packets that wait to be looked at.
    pub fn inbound_len(&self) -> (n: usize)
        ensures
            n == self@.inbound.len(),
            n <= 10,
    {
        let n = queue_len(&self.recv_queue);
        n
    }

    /// The number of received bytes that wait for the rest of their frame.
    pub fn pending_len(&self) -> (n: usize)
        requires
            self.wf(),
        ensures
            n == self@.pending.len(),
            n < 1024,
    {
        self.recv_index
    }

    /// The keep-alive interval in seconds.
    pub fn keep_alive_secs(&self) -> (secs: u16)
        ensures
            secs == self@.keep_alive_secs,
    {
        self.timeout_secs
    }

    /// The time, in milliseconds, at which a packet was last sent.
    pub fn last_sent_millis(&self) -> (millis: u64)
        ensures
            millis == self@.last_sent_millis,
    {
        self.last_sent_millis
    }

    /// The packet identifier that is handed out next.
    pub fn next_pid(&self) -> (pid: u16)
        requires
            self.wf(),
        ensures
            pid == self@.next_pid,
            pid != 0,
    {
        self.pids.peek()
    }

    /// Puts an encoded packet at the back of the outbound queue, or fails
    /// with `TinyMqttError::QueueFull` when ten packets wait there already.
    fn send(&mut self, len: usize, buf: [u8; 1024]) -> (r: Result<(), TinyMqttError>)
        requires
            old(self).wf(),
            len <= 1024,
        ensures
            final(self).wf(),
            old(self)@.outbound.len() < 10 ==> r is Ok && final(self)@ == (TinyMqttView {
                outbound: old(self)@.outbound.push(buf@.subrange(0, len as int)),
                ..old(self)@
            }),
            old(self)@.outbound.len() >= 10 ==> r is Err && r->Err_0 == TinyMqttError::QueueFull
                && final(self)@ == old(self)@,
    {
        let ghost before = queue_items(self.queue);
        match queue_enqueue(&mut self.queue, (len, buf)) {
            Ok(()) => {
                assert(frames(queue_items(self.queue)) =~= frames(before).push(
                    buf@.subrange(0, len as int),
                ));
                Ok(())
            },
            Err(_) => Err(TinyMqttError::QueueFull),
        }
    }

    /// Takes `keep_alive_secs` as the keep-alive interval and enqueues the
    /// CONNECT packet of a handshake with these credentials and an empty
    /// client identifier, which leaves it to the broker to name the session.
    /// It fails with `TinyMqttError::Encode` when the packet is longer than
    /// the buffer, and with `TinyMqttError::QueueFull` when ten packets wait
    /// already; where it succeeds, `now` counts as the time of the last
    /// sending.
    pub fn connect(
        &mut self,
        keep_alive_secs: u16,
        username: Option<&str>,
        password: Option<&[u8]>,
        now: u64,
    ) -> (r: Result<(), TinyMqttError>)
        requires
            old(self).wf(),
        ensures
            final(self).wf(),
            (final(self)@, r) == connected(
                old(self)@,
                keep_alive_secs,
                text_bytes(username),
                raw_bytes(password),
                now,
            ),
    {
        self.timeout_secs = keep_alive_secs;
        proof {
            reveal_strlit("");
            assert(""@ =~= Seq::<char>::empty());
            assert(encode_utf8(""@) =~= Seq::<u8>::empty());
        }
        let mut buf: [u8; 1024] = [0u8; 1024];
        let len = encode_connect(keep_alive_secs, "", username, password, &mut buf)?;
        self.send(len, buf)?;
        self.last_sent_millis = now;
        Ok(())
    }

    /// Enqueues the PUBLISH packet of a message, which the broker is asked
    /// to retain if `retain` is set. A message that is sent at least once or
    /// exactly once carries `pid`, or, where none is given, the upcoming
    /// packet identifier, which is then used up. It fails with
    /// `TinyMqttError::Encode` when the packet is longer than the buffer, and
    /// with `TinyMqttError::QueueFull` when ten packets wait already; the
    /// engine is then as it was.
    pub fn publish_message(
        &mut self,
        pid: Option<Pid>,
        topic_name: &str,
        payload: &[u8],
        qos: QoS,
        retain: bool,
    ) -> (r: Result<(), TinyMqttError>)
        requires
            old(self).wf(),
        ensures
            final(self).wf(),
            (final(self)@, r) == published(
                old(self)@,
                pid_number(pid),
                encode_utf8(topic_name@),
                payload@,
                qos,
                retain,
            ),
    {
        let id: u16 = match pid {
            Some(p) => p.get(),
            None => self.pids.peek(),
        };
        let mut buf: [u8; 1024] = [0u8; 1024];
        let len = encode_publish(false, qos, retain, id, topic_name, payload, &mut buf)?;
        self.send(len, buf)?;
        if pid.is_none() {
            match qos {
                QoS::AtMostOnce => {},
                _ => {
                    let _ = self.pids.allocate();
                },
            }
        }
        Ok(())
    }

    /// Enqueues the PUBLISH packet of a message that the broker need not
    /// retain; in all else it is `publish_message`.
    pub fn publish_with_pid(
        &mut self,
        pid: Option<Pid>,
        topic_name: &str,
        payload: &[u8],
        qos: QoS,
    ) -> (r: Result<(), TinyMqttError>)
        requires
            old(self).wf(),
        ensures
            final(self).wf(),
            (final(self)@, r) == published(
                old(self)@,
                pid_number(pid),
                encode_utf8(topic_name@),
                payload@,
                qos,
                false,
            ),
    {
        self.publish_message(pid, topic_name, payload, qos, false)
    }

    /// Enqueues the PUBLISH packet of a message, with the upcoming packet
    /// identifier where the message is sent at least once or exactly once.
    pub fn publish(&mut self, topic_name: &str, payload: &[u8], qos: QoS) -> (r: Result<
        (),
        TinyMqttError,
    >)
        requires
            old(self).wf(),
        ensures
            final(self).wf(),
            (final(self)@, r) == published(
                old(self)@,
                None,
                encode_utf8(topic_name@),
                payload@,
                qos,
                false,
            ),
    {
        self.publish_with_pid(None, topic_name, payload, qos)
    }

    /// Enqueues one SUBSCRIBE packet that lists all the topic filters. It
    /// fails with `TinyMqttError::Encode` on an empty list and when the
    /// packet is longer than the buffer, and with `TinyMqttError::QueueFull`
    /// when ten packets wait already; the engine is then as it was.
    pub fn subscribe(&mut self, topics: &[SubscribeTopic]) -> (r: Result<(), TinyMqttError>)
        requires
            old(self).wf(),
        ensures
            final(self).wf(),
            (final(self)@, r) == subscribed(old(self)@, filters_of(topics@)),
    {
        assert(filters_of(topics@).len() == topics@.len());
        let mut buf: [u8; 1024] = [0u8; 1024];
        let len = encode_subscribe(topics, &mut buf)?;
        self.send(len, buf)?;
        Ok(())
    }

    /// Enqueues a PINGREQ packet if a ping is due at the time `now`, and
    /// says whether it did; `now` then counts as the time of the last
    /// sending. Where the ping is due and ten packets wait already, it
    /// fails with `TinyMqttError::QueueFull` and the engine is as it was.
    pub fn keep_alive_tick(&mut self, now: u64) -> (r: Result<bool, TinyMqttError>)
        requires
            old(self).wf(),
        ensures
            final(self).wf(),
            if !ping_due(old(self)@, now) {
                r is Ok && r->Ok_0 == false && final(self)@ == old(self)@
            } else if old(self)@.outbound.len() >= 10 {
                r is Err && r->Err_0 == TinyMqttError::QueueFull && final(self)@ == old(self)@
            } else {
                r is Ok && r->Ok_0 == true && final(self)@ == (TinyMqttView {
                    outbound: old(self)@.outbound.push(pingreq_frame()),
                    last_sent_millis: now,
                    ..old(self)@
                })
            },
    {
        let half: u64 = (self.timeout_secs / 2) as u64 * 1000;
        let due = match self.last_sent_millis.checked_add(half) {
            Some(limit) => now > limit,
            None => false,
        };
        if !due {
            return Ok(false);
        }
        let mut buf: [u8; 1024] = [0u8; 1024];
        let len = encode_pingreq(&mut buf)?;
        self.send(len, buf)?;
        self.last_sent_millis = now;
        Ok(true)
    }

    /// Takes the oldest packet from the outbound queue, for the caller to
    /// write to the transport; `now` then counts as the time of the last
    /// sending.
    pub fn next_outbound(&mut self, now: u64) -> (r: Option<PacketBuffer>)
        requires
            old(self).wf(),
        ensures
            final(self).wf(),
            if old(self)@.outbound.len() == 0 {
                r is None && final(self)@ == old(self)@
            } else {
                r is Some && r->0@ == old(self)@.outbound[0] && final(self)@ == (TinyMqttView {
                    outbound: old(self)@.outbound.subrange(1, old(self)@.outbound.len() as int),
                    last_sent_millis: now,
                    ..old(self)@
                })
            },
    {
        let ghost before = queue_items(self.queue);
        match queue_dequeue(&mut self.queue) {
            None => None,
            Some((len, bytes)) => {
                assert(before[0].0 <= 1024);
                assert(frames(queue_items(self.queue)) =~= frames(before).subrange(
                    1,
                    before.len() as int,
                ));
                self.last_sent_millis = now;
                Some(PacketBuffer::from_parts(bytes, len))
            },
        }
    }

    /// One round of the sender: enqueues a PINGREQ packet if a ping is due
    /// and the queue has room for it, then takes the oldest packet from the
    /// outbound queue, for the caller to write to the transport.
    pub fn poll(&mut self, now: u64) -> (r: Option<PacketBuffer>)
        requires
            old(self).wf(),
        ensures
            final(self).wf(),
            ({
                let waiting = if ping_due(old(self)@, now) && old(self)@.outbound.len() < 10 {
                    old(self)@.outbound.push(pingreq_frame())
                } else {
                    old(self)@.outbound
                };
                if waiting.len() == 0 {
                    r is None && final(self)@ == old(self)@
                } else {
                    r is Some && r->0@ == waiting[0] && final(self)@ == (TinyMqttView {
                        outbound: waiting.subrange(1, waiting.len() as int),
                        last_sent_millis: now,
                        ..old(self)@
                    })
                }
            }),
    {
        let _ = self.keep_alive_tick(now);
        self.next_outbound(now)
    }

    /// Takes the oldest packet from the queue of received packets.
    pub fn next_inbound(&mut self) -> (r: Option<PacketBuffer>)
        requires
            old(self).wf(),
        ensures
            final(self).wf(),
            if old(self)@.inbound.len() == 0 {
                r is None && final(self)@ == old(self)@
            } else {
                r is Some && r->0@ == old(self)@.inbound[0] && final(self)@ == (TinyMqttView {
                    inbound: old(self)@.inbound.subrange(1, old(self)@.inbound.len() as int),
                    ..old(self)@
                })
            },
    {
        let ghost before = queue_items(self.recv_queue);
        match queue_dequeue(&mut self.recv_queue) {
            None => None,
            Some((len, bytes)) => {
                assert(before[0].0 <= 1024);
                assert(frames(queue_items(self.recv_queue)) =~= frames(before).subrange(
                    1,
                    before.len() as int,
                ));
                Some(PacketBuffer::from_parts(bytes, len))
            },
        }
    }

    /// Ends the session on the engine's side: the packets that wait to be
    /// sent and the received bytes that make no whole frame yet belong to
    /// the connection that is closed, and are dropped. The caller closes the
    /// transport.
    pub fn disconnect(&mut self) -> (r: Result<(), TinyMqttError>)
        requires
            old(self).wf(),
        ensures
            final(self).wf(),
            r is Ok,
            final(self)@ == (TinyMqttView {
                outbound: Seq::<Seq<u8>>::empty(),
                pending: Seq::<u8>::empty(),
                ..old(self)@
            }),
    {
        self.recv_index = 0;
        assert(self@.pending =~= Seq::<u8>::empty());
        let mut left: usize = queue_len(&self.queue);
        while left > 0
            invariant
                self.wf(),
                left == queue_items(self.queue).len(),
                self@ == (TinyMqttView {
                    outbound: self@.outbound,
                    pending: Seq::<u8>::empty(),
                    ..old(self)@
                }),
            decreases left,
        {
            let _ = queue_dequeue(&mut self.queue);
            left = left - 1;
        }
        assert(self@.outbound =~= Seq::<Seq<u8>>::empty());
        Ok(())
    }

    /// Takes in bytes that the transport delivered. They are put behind the
    /// pending bytes; the whole frames are then taken off the front, and for
    /// each it is reported what became of it, in their order: a published
    /// message is handed on, another packet goes to the queue of received
    /// packets, a malformed frame is discarded. What is left waits for the
    /// rest of its frame.
    pub fn receive(&mut self, data: &[u8]) -> (deliveries: Vec<Delivery>)
        requires
            old(self).wf(),
        ensures
            final(self).wf(),
            deliveries_view(deliveries@) == received(
                old(self)@.pending,
                old(self)@.inbound,
                data@,
            ).deliveries,
            final(self)@ == (TinyMqttView {
                pending: received(old(self)@.pending, old(self)@.inbound, data@).rest,
                inbound: received(old(self)@.pending, old(self)@.inbound, data@).queued,
                ..old(self)@
            }),
    {
        let mut out: Vec<Delivery> = Vec::new();
        let ghost pending = self@.pending;
        let ghost inbound = self@.inbound;
        let first: usize = self.recv_index;
        if data.len() > 1024 - first {
            self.recv_index = 0;
            out.push(Delivery::Discarded(TinyMqttError::Decode));
            assert(self@.pending =~= Seq::<u8>::empty());
            assert(deliveries_view(out@) =~= seq![DeliveryView::Discarded(TinyMqttError::Decode)]);
            return out;
        }
        let end: usize = first + data.len();
        let mut i: usize = 0;
        while i < data.len()
            invariant
                i <= data@.len(),
                end == first + data@.len(),
                end <= 1024,
                self.recv_index == first,
                self.wf(),
                self@ == old(self)@,
                self.recv_buffer@.subrange(0, first as int) == pending,
                self.recv_buffer@.subrange(first as int, first + i) == data@.subrange(0, i as int),
            decreases data@.len() - i,
        {
            let ghost before = self.recv_buffer@;
            self.recv_buffer[first + i] = data[i];
            assert(self.recv_buffer@.subrange(0, first as int) =~= before.subrange(0, first as int));
            assert(self.recv_buffer@.subrange(first as int, first + i + 1) =~= data@.subrange(
                0,
                i + 1,
            )) by {
                assert forall|k: int| 0 <= k < i + 1 implies self.recv_buffer@[first + k]
                    == data@[k] by {
                    if k < i {
                        assert(before.subrange(first as int, first + i)[k] == data@.subrange(
                            0,
                            i as int,
                        )[k]);
                    }
                }
            }
            i = i + 1;
        }
        let ghost all = pending + data@;
        assert(self.recv_buffer@.subrange(0, end as int) =~= all) by {
            assert(data@.subrange(0, data@.len() as int) =~= data@);
            assert forall|k: int| 0 <= k < end implies self.recv_buffer@[k] == all[k] by {
                if k < first {
                    assert(self.recv_buffer@.subrange(0, first as int)[k] == pending[k]);
                } else {
                    assert(self.recv_buffer@.subrange(first as int, end as int)[k - first]
                        == data@[k - first]);
                }
            }
        }
        let mut start: usize = 0;
        let mut done: bool = false;
        assert(all.subrange(0, end as int) =~= all);
        assert(deliveries_view(out@) + extract(all, inbound).deliveries =~= extract(
            all,
            inbound,
        ).deliveries);
        while !done
            invariant
                start <= end <= 1024,
                all.len() == end,
                self.recv_index == first,
                self.wf(),
                self@ == (TinyMqttView { inbound: self@.inbound, ..old(self)@ }),
                self.recv_buffer@.subrange(0, end as int) == all,
                extract(all, inbound).rest == extract(
                    all.subrange(start as int, end as int),
                    self@.inbound,
                ).rest,
                extract(all, inbound).queued == extract(
                    all.subrange(start as int, end as int),
                    self@.inbound,
                ).queued,
                extract(all, inbound).deliveries == deliveries_view(out@) + extract(
                    all.subrange(start as int, end as int),
                    self@.inbound,
                ).deliveries,
                done ==> extent(all.subrange(start as int, end as int)) is Incomplete,
            decreases (if done { 0int } else { end - start + 1 }),
        {
            let ghost window_bytes = all.subrange(start as int, end as int);
            let ghost queued = self@.inbound;
            let ghost reported = deliveries_view(out@);
            let window = slice_subrange(self.recv_buffer.as_slice(), start, end);
            assert(window@ =~= window_bytes);
            match frame_extent(window) {
                Extent::Incomplete => {
                    done = true;
                },
                Extent::Invalid => {
                    out.push(Delivery::Discarded(TinyMqttError::Decode));
                    start = end;
                    proof {
                        let empty = all.subrange(end as int, end as int);
                        assert(empty =~= Seq::<u8>::empty());
                        assert(extent(empty) is Incomplete);
                        assert(deliveries_view(out@) =~= reported.push(
                            DeliveryView::Discarded(TinyMqttError::Decode),
                        ));
                        assert(deliveries_view(out@) + extract(empty, queued).deliveries
                            =~= reported + extract(window_bytes, queued).deliveries);
                    }
                },
                Extent::Frame { width, len } => {
                    let total: usize = 1 + width + len;
                    let ghost rest = window_bytes.subrange(total as int, window_bytes.len() as int);
                    let ghost delivery = frame_delivery(window_bytes, width as int, len as int, queued);
                    let ghost later = extract(
                        rest,
                        queue_after(window_bytes, width as int, len as int, queued),
                    );
                    assert(rest =~= all.subrange(start + total, end as int));
                    match decode(window) {
                        Ok(Some(Packet::Publish(message))) => {
                            out.push(Delivery::Message(message));
                            assert(deliveries_view(out@) =~= reported.push(delivery));
                        },
                        Ok(Some(_)) => {
                            let frame = copy_frame(window, total);
                            let ghost items = queue_items(self.recv_queue);
                            match queue_enqueue(&mut self.recv_queue, (total, frame)) {
                                Ok(()) => {
                                    out.push(Delivery::Queued);
                                    assert(frames(queue_items(self.recv_queue)) =~= frames(
                                        items,
                                    ).push(window_bytes.subrange(0, total as int)));
                                },
                                Err(_) => {
                                    out.push(Delivery::Discarded(TinyMqttError::QueueFull));
                                },
                            }
                            assert(deliveries_view(out@) =~= reported.push(delivery));
                        },
                        _ => {
                            out.push(Delivery::Discarded(TinyMqttError::Decode));
                            assert(deliveries_view(out@) =~= reported.push(delivery));
                        },
                    }
                    assert(self@.inbound == queue_after(
                        window_bytes,
                        width as int,
                        len as int,
                        queued,
                    ));
                    assert(reported.push(delivery) + later.deliveries =~= reported + (seq![delivery]
                        + later.deliveries));
                    start = start + total;
                },
            }
        }
        let left: usize = end - start;
        let ghost rest = all.subrange(start as int, end as int);
        self.recv_index = 0;
        if start > 0 {
            let mut k: usize = 0;
            while k < left
                invariant
                    k <= left,
                    left == end - start,
                    0 < start <= end <= 1024,
                    all.len() == end,
                    self.recv_index == 0,
                    self.wf(),
                    self@ == (TinyMqttView {
                        inbound: self@.inbound,
                        pending: self@.pending,
                        ..old(self)@
                    }),
                    self@.inbound == extract(all, inbound).queued,
                    self.recv_buffer@.subrange(0, k as int) == rest.subrange(0, k as int),
                    self.recv_buffer@.subrange(k as int, end as int) == all.subrange(
                        k as int,
                        end as int,
                    ),
                    rest == all.subrange(start as int, end as int),
                decreases left - k,
            {
                let ghost before = self.recv_buffer@;
                assert(before.subrange(k as int, end as int)[start as int] == all.subrange(
                    k as int,
                    end as int,
                )[start as int]);
                let byte: u8 = self.recv_buffer[start + k];
                self.recv_buffer[k] = byte;
                assert(self.recv_buffer@.subrange(0, k + 1) =~= rest.subrange(0, k + 1)) by {
                    assert forall|j: int| 0 <= j < k + 1 implies self.recv_buffer@[j] == rest[j] by {
                        if j < k {
                            assert(before.subrange(0, k as int)[j] == rest.subrange(0, k as int)[j]);
                        }
                    }
                }
                assert(self.recv_buffer@.subrange(k + 1, end as int) =~= all.subrange(
                    k + 1,
                    end as int,
                )) by {
                    assert forall|j: int| k + 1 <= j < end implies self.recv_buffer@[j] == all[j] by {
                        assert(before.subrange(k as int, end as int)[j - k] == all.subrange(
                            k as int,
                            end as int,
                        )[j - k]);
                    }
                }
                k = k + 1;
            }
            assert(rest.subrange(0, left as int) =~= rest);
        } else {
            assert(self.recv_buffer@.subrange(0, left as int) =~= rest);
        }
        if left >= 1024 {
            self.recv_index = 0;
            out.push(Delivery::Discarded(TinyMqttError::Decode));
            assert(self@.pending =~= Seq::<u8>::empty());
            assert(deliveries_view(out@) =~= extract(all, inbound).deliveries.push(
                DeliveryView::Discarded(TinyMqttError::Decode),
            ));
        } else {
            self.recv_index = left;
            assert(self@.pending =~= rest);
            assert(deliveries_view(out@) =~= extract(all, inbound).deliveries);
        }
        out
    }
}

/// A buffer whose first `total` bytes are those of `src`.
fn copy_frame(src: &[u8], total: usize) -> (frame: [u8; 1024])
    requires
        total <= src@.len(),
        total <= 1024,
    ensures
        frame@.subrange(0, total as int) == src@.subrange(0, total as int),
{
    let mut frame: [u8; 1024] = [0u8; 1024];
    let mut i: usize = 0;
    while i < total
        invariant
            i <= total <= 1024,
            total <= src@.len(),
            frame@.subrange(0, i as int) == src@.subrange(0, i as int),
        decreases total - i,
    {
        let ghost before = frame@;
        frame[i] = src[i];
        assert(frame@.subrange(0, i + 1) =~= src@.subrange(0, i + 1)) by {
            assert forall|k: int| 0 <= k < i + 1 implies frame@[k] == src@[k] by {
                if k < i {
                    assert(before.subrange(0, i as int)[k] == src@.subrange(0, i as int)[k]);
                }
            }
        }
        i = i + 1;
    }
    frame
}

} // verus!
