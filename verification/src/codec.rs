//! Encoding of packets in fixed buffers. The bytes are written by the
//! `mqttrust` crate; what this module adds is the packet identifier of a
//! PUBLISH frame, which `mqttrust` leaves at zero.

use vstd::prelude::*;
use vstd::utf8::encode_utf8;
use crate::error::TinyMqttError;
use crate::packet::{QoS, SubscribeTopic, TopicFilter};
use crate::wire::{
    be16, connect_frame, length_field, pingreq_frame, publish_body, publish_first_byte,
    publish_frame, sized_field, subscribe_frame,
};

verus! {

/// The error type of `mqttrust`'s encoder and decoder.
#[verifier::external_type_specification]
#[verifier::external_body]
pub struct ExCodecError(mqttrust::encoding::v4::Error);

/// `mqttrust::encoding::v4::encode_slice` on a PUBLISH packet without a
/// packet identifier. It succeeds exactly when the frame fits the buffer,
/// writes the frame at the buffer's start with the packet identifier's two
/// bytes at zero, leaves the bytes behind the frame alone, and returns the
/// frame's length.
#[verifier::external_body]
fn encode_publish_slice(
    dup: bool,
    qos: QoS,
    retain: bool,
    topic_name: &str,
    payload: &[u8],
    buf: &mut [u8; 1024],
) -> (r: Result<usize, mqttrust::encoding::v4::Error>)
    ensures
        r is Ok <==> publish_frame(dup, qos, retain, 0, encode_utf8(topic_name@), payload@).len()
            <= 1024,
        r matches Ok(n) ==> n == publish_frame(
            dup,
            qos,
            retain,
            0,
            encode_utf8(topic_name@),
            payload@,
        ).len() && final(buf)@.subrange(0, n as int) == publish_frame(
            dup,
            qos,
            retain,
            0,
            encode_utf8(topic_name@),
            payload@,
        ) && final(buf)@.subrange(n as int, 1024) == old(buf)@.subrange(n as int, 1024),
{
    let qos = match qos {
        QoS::AtMostOnce => mqttrust::QoS::AtMostOnce,
        QoS::AtLeastOnce => mqttrust::QoS::AtLeastOnce,
        QoS::ExactlyOnce => mqttrust::QoS::ExactlyOnce,
    };
    let publish = mqttrust::Publish { dup, qos, pid: None, retain, topic_name, payload };
    mqttrust::encoding::v4::encode_slice(&mqttrust::Packet::Publish(publish), &mut buf[..])
}

/// What stands in a PUBLISH frame before the packet identifier.
pub open spec fn publish_head(dup: bool, qos: QoS, retain: bool, topic: Seq<u8>, payload: Seq<u8>) -> Seq<u8> {
    seq![publish_first_byte(dup, qos, retain)] + length_field(
        publish_body(qos, 0, topic, payload).len() as int,
    ) + sized_field(topic)
}

/// A PUBLISH frame with a packet identifier is the head, the identifier's two
/// bytes, and the payload.
pub proof fn lemma_publish_parts(
    dup: bool,
    qos: QoS,
    retain: bool,
    pid: u16,
    topic: Seq<u8>,
    payload: Seq<u8>,
)
    requires
        qos != QoS::AtMostOnce,
    ensures
        publish_frame(dup, qos, retain, pid, topic, payload) == publish_head(
            dup,
            qos,
            retain,
            topic,
            payload,
        ) + be16(pid as int) + payload,
        be16(pid as int).len() == 2,
{
    assert(publish_body(qos, pid, topic, payload).len() == publish_body(qos, 0, topic, payload).len());
    assert(publish_frame(dup, qos, retain, pid, topic, payload) =~= publish_head(
        dup,
        qos,
        retain,
        topic,
        payload,
    ) + be16(pid as int) + payload);
}

/// Writes the PUBLISH frame of a message at the start of `buf` and returns
/// the frame's length, or fails when the frame is longer than the buffer.
/// A message sent at most once carries no packet identifier, and `pid` is
/// then not looked at.
pub fn encode_publish(
    dup: bool,
    qos: QoS,
    retain: bool,
    pid: u16,
    topic_name: &str,
    payload: &[u8],
    buf: &mut [u8; 1024],
) -> (r: Result<usize, TinyMqttError>)
    ensures
        r is Ok <==> publish_frame(dup, qos, retain, pid, encode_utf8(topic_name@), payload@).len()
            <= 1024,
        r is Err ==> r == Err::<usize, TinyMqttError>(TinyMqttError::Encode),
        r matches Ok(n) ==> n == publish_frame(
            dup,
            qos,
            retain,
            pid,
            encode_utf8(topic_name@),
            payload@,
        ).len() && final(buf)@.subrange(0, n as int) == publish_frame(
            dup,
            qos,
            retain,
            pid,
            encode_utf8(topic_name@),
            payload@,
        ) && final(buf)@.subrange(n as int, 1024) == old(buf)@.subrange(n as int, 1024),
{
    let ghost topic = encode_utf8(topic_name@);
    let ghost blank = publish_frame(dup, qos, retain, 0, topic, payload@);
    let ghost wanted = publish_frame(dup, qos, retain, pid, topic, payload@);
    assert(blank.len() == wanted.len());
    match encode_publish_slice(dup, qos, retain, topic_name, payload, buf) {
        Err(_) => Err(TinyMqttError::Encode),
        Ok(n) => {
            match qos {
                QoS::AtMostOnce => {},
                _ => {
                    proof {
                        lemma_publish_parts(dup, qos, retain, 0, topic, payload@);
                        lemma_publish_parts(dup, qos, retain, pid, topic, payload@);
                    }
                    let ghost head = publish_head(dup, qos, retain, topic, payload@);
                    let at: usize = n - payload.len() - 2;
                    let ghost before = buf@;
                    assert(before.subrange(0, n as int) == blank);
                    buf[at] = (pid / 256) as u8;
                    buf[at + 1] = (pid % 256) as u8;
                    assert forall|i: int| 0 <= i < n implies buf@.subrange(0, n as int)[i]
                        == wanted[i] by {
                        assert(before.subrange(0, n as int)[i] == blank[i]);
                    }
                    assert(buf@.subrange(0, n as int) =~= wanted);
                    assert(buf@.subrange(n as int, 1024) =~= before.subrange(n as int, 1024));
                },
            }
            Ok(n)
        },
    }
}

/// The bytes of a text that may be missing.
pub open spec fn text_bytes(text: Option<&str>) -> Option<Seq<u8>> {
    match text {
        Some(t) => Some(encode_utf8(t@)),
        None => None,
    }
}

/// The bytes of a byte string that may be missing.
pub open spec fn raw_bytes(bytes: Option<&[u8]>) -> Option<Seq<u8>> {
    match bytes {
        Some(b) => Some(b@),
        None => None,
    }
}

/// `mqttrust::encoding::v4::encode_slice` on a CONNECT packet for protocol
/// MQTT 3.1.1 that asks for a clean session and leaves no will. It succeeds
/// exactly when the frame fits the buffer, writes the frame at the buffer's
/// start, and returns the frame's length.
#[verifier::external_body]
fn encode_connect_slice(
    keep_alive: u16,
    client_id: &str,
    username: Option<&str>,
    password: Option<&[u8]>,
    buf: &mut [u8; 1024],
) -> (r: Result<usize, mqttrust::encoding::v4::Error>)
    ensures
        r is Ok <==> connect_frame(
            keep_alive,
            encode_utf8(client_id@),
            text_bytes(username),
            raw_bytes(password),
        ).len() <= 1024,
        r matches Ok(n) ==> n == connect_frame(
            keep_alive,
            encode_utf8(client_id@),
            text_bytes(username),
            raw_bytes(password),
        ).len() && final(buf)@.subrange(0, n as int) == connect_frame(
            keep_alive,
            encode_utf8(client_id@),
            text_bytes(username),
            raw_bytes(password),
        ),
{
    let connect = mqttrust::encoding::v4::Connect {
        protocol: mqttrust::encoding::v4::Protocol::MQTT311,
        keep_alive,
        client_id,
        clean_session: true,
        last_will: None,
        username,
        password,
    };
    mqttrust::encoding::v4::encode_slice(&mqttrust::Packet::Connect(connect), &mut buf[..])
}

/// Writes the CONNECT frame of a handshake at the start of `buf` and returns
/// the frame's length, or fails when the frame is longer than the buffer.
pub fn encode_connect(
    keep_alive: u16,
    client_id: &str,
    username: Option<&str>,
    password: Option<&[u8]>,
    buf: &mut [u8; 1024],
) -> (r: Result<usize, TinyMqttError>)
    ensures
        r is Ok <==> connect_frame(
            keep_alive,
            encode_utf8(client_id@),
            text_bytes(username),
            raw_bytes(password),
        ).len() <= 1024,
        r is Err ==> r->Err_0 == TinyMqttError::Encode,
        r matches Ok(n) ==> n <= 1024 && final(buf)@.subrange(0, n as int) == connect_frame(
            keep_alive,
            encode_utf8(client_id@),
            text_bytes(username),
            raw_bytes(password),
        ),
{
    match encode_connect_slice(keep_alive, client_id, username, password, buf) {
        Ok(n) => Ok(n),
        Err(_) => Err(TinyMqttError::Encode),
    }
}

/// The topic filters of a subscription as mathematics.
pub open spec fn filters_of(topics: Seq<SubscribeTopic>) -> Seq<TopicFilter> {
    topics.map_values(
        |t: SubscribeTopic| TopicFilter { path: encode_utf8(t.topic_path@), qos: t.qos },
    )
}

/// `mqttrust::encoding::v4::encode_slice` on a SUBSCRIBE packet made by
/// `mqttrust::Subscribe::new` from the topic filters. It succeeds exactly
/// when the frame fits the buffer, writes the frame at the buffer's start,
/// and returns the frame's length.
#[verifier::external_body]
fn encode_subscribe_slice(topics: &[SubscribeTopic], buf: &mut [u8; 1024]) -> (r: Result<
    usize,
    mqttrust::encoding::v4::Error,
>)
    ensures
        r is Ok <==> subscribe_frame(filters_of(topics@)).len() <= 1024,
        r matches Ok(n) ==> n == subscribe_frame(filters_of(topics@)).len()
            && final(buf)@.subrange(0, n as int) == subscribe_frame(filters_of(topics@)),
{
    let mut filters = Vec::new();
    for topic in topics {
        let qos = match topic.qos {
            QoS::AtMostOnce => mqttrust::QoS::AtMostOnce,
            QoS::AtLeastOnce => mqttrust::QoS::AtLeastOnce,
            QoS::ExactlyOnce => mqttrust::QoS::ExactlyOnce,
        };
        filters.push(mqttrust::SubscribeTopic { topic_path: &topic.topic_path, qos });
    }
    let subscribe = mqttrust::Subscribe::new(&filters);
    mqttrust::encoding::v4::encode_slice(&mqttrust::Packet::Subscribe(subscribe), &mut buf[..])
}

/// Writes the SUBSCRIBE frame for a list of topic filters at the start of
/// `buf` and returns the frame's length. It fails on an empty list, which no
/// SUBSCRIBE frame may hold, and when the frame is longer than the buffer.
pub fn encode_subscribe(topics: &[SubscribeTopic], buf: &mut [u8; 1024]) -> (r: Result<
    usize,
    TinyMqttError,
>)
    ensures
        r is Ok <==> topics@.len() > 0 && subscribe_frame(filters_of(topics@)).len() <= 1024,
        r is Err ==> r->Err_0 == TinyMqttError::Encode,
        r matches Ok(n) ==> n <= 1024 && final(buf)@.subrange(0, n as int) == subscribe_frame(
            filters_of(topics@),
        ),
{
    if topics.len() == 0 {
        return Err(TinyMqttError::Encode);
    }
    match encode_subscribe_slice(topics, buf) {
        Ok(n) => Ok(n),
        Err(_) => Err(TinyMqttError::Encode),
    }
}

/// `mqttrust::encoding::v4::encode_slice` on a PINGREQ packet: it writes the
/// frame's two bytes at the buffer's start and returns 2.
#[verifier::external_body]
fn encode_pingreq_slice(buf: &mut [u8; 1024]) -> (r: Result<usize, mqttrust::encoding::v4::Error>)
    ensures
        r is Ok,
        r->Ok_0 == 2,
        final(buf)@.subrange(0, 2) == pingreq_frame(),
{
    mqttrust::encoding::v4::encode_slice(&mqttrust::Packet::Pingreq, &mut buf[..])
}

/// Writes the PINGREQ frame at the start of `buf` and returns its length,
/// which is 2. The frame always fits.
pub fn encode_pingreq(buf: &mut [u8; 1024]) -> (r: Result<usize, TinyMqttError>)
    ensures
        r is Ok,
        r->Ok_0 == 2,
        final(buf)@.subrange(0, 2) == pingreq_frame(),
{
    match encode_pingreq_slice(buf) {
        Ok(n) => Ok(n),
        Err(_) => Err(TinyMqttError::Encode),
    }
}

} // verus!
