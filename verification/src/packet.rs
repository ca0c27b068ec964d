//! The packets that the session engine sends and receives, as plain values.

use vstd::prelude::*;

verus! {

/// Delivery guarantee of a published message.
#[derive(Clone, Copy, Debug, PartialEq, Eq, Structural)]
pub enum QoS {
    /// At most once: no acknowledgment, no packet identifier.
    AtMostOnce,
    /// At least once: acknowledged, carries a packet identifier.
    AtLeastOnce,
    /// Exactly once: carries a packet identifier.
    ExactlyOnce,
}

impl QoS {
    /// The level as the two bits that the fixed header holds.
    pub open spec fn level(self) -> int {
        match self {
            QoS::AtMostOnce => 0,
            QoS::AtLeastOnce => 1,
            QoS::ExactlyOnce => 2,
        }
    }

    /// The level as a number.
    pub fn as_u8(self) -> (n: u8)
        ensures
            n == self.level(),
    {
        match self {
            QoS::AtMostOnce => 0,
            QoS::AtLeastOnce => 1,
            QoS::ExactlyOnce => 2,
        }
    }

    /// The level that a number stands for, if it is one of 0, 1 and 2.
    pub fn from_u8(n: u8) -> (q: Option<QoS>)
        ensures
            n <= 2 ==> q is Some && q->0.level() == n,
            n > 2 ==> q is None,
    {
        if n == 0 {
            Some(QoS::AtMostOnce)
        } else if n == 1 {
            Some(QoS::AtLeastOnce)
        } else if n == 2 {
            Some(QoS::ExactlyOnce)
        } else {
            None
        }
    }
}

/// One topic filter of a subscription, with the delivery guarantee asked for.
#[derive(Clone, Debug, PartialEq, Eq)]
pub struct SubscribeTopic {
    pub topic_path: String,
    pub qos: QoS,
}

/// A topic filter as mathematics: its text as bytes, and the level asked for.
pub struct TopicFilter {
    pub path: Seq<u8>,
    pub qos: QoS,
}

/// A published message.
#[derive(Clone, Debug, PartialEq, Eq)]
pub struct Publish {
    pub dup: bool,
    pub qos: QoS,
    pub pid: Option<u16>,
    pub retain: bool,
    pub topic_name: String,
    pub payload: Vec<u8>,
}

/// A published message as mathematics.
pub struct PublishView {
    pub dup: bool,
    pub qos: QoS,
    pub pid: Option<u16>,
    pub retain: bool,
    pub topic_name: Seq<char>,
    pub payload: Seq<u8>,
}

impl View for Publish {
    type V = PublishView;

    open spec fn view(&self) -> PublishView {
        PublishView {
            dup: self.dup,
            qos: self.qos,
            pid: self.pid,
            retain: self.retain,
            topic_name: self.topic_name@,
            payload: self.payload@,
        }
    }
}

/// A packet that a broker sends to a client.
#[derive(Clone, Debug, PartialEq, Eq)]
pub enum Packet {
    Connack { session_present: bool, code: u8 },
    Publish(Publish),
    Puback(u16),
    Pubrec(u16),
    Pubrel(u16),
    Pubcomp(u16),
    Suback(u16),
    Unsuback(u16),
    Pingresp,
}

/// A packet from a broker as mathematics.
pub enum PacketView {
    Connack { session_present: bool, code: u8 },
    Publish(PublishView),
    Puback(u16),
    Pubrec(u16),
    Pubrel(u16),
    Pubcomp(u16),
    Suback(u16),
    Unsuback(u16),
    Pingresp,
}

impl View for Packet {
    type V = PacketView;

    open spec fn view(&self) -> PacketView {
        match *self {
            Packet::Connack { session_present, code } => PacketView::Connack { session_present, code },
            Packet::Publish(p) => PacketView::Publish(p@),
            Packet::Puback(pid) => PacketView::Puback(pid),
            Packet::Pubrec(pid) => PacketView::Pubrec(pid),
            Packet::Pubrel(pid) => PacketView::Pubrel(pid),
            Packet::Pubcomp(pid) => PacketView::Pubcomp(pid),
            Packet::Suback(pid) => PacketView::Suback(pid),
            Packet::Unsuback(pid) => PacketView::Unsuback(pid),
            Packet::Pingresp => PacketView::Pingresp,
        }
    }
}

} // verus!
