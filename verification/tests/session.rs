use embsens::broker::{carry_out, send_sample, COMMAND_TOPIC, TEMPERATURE_TOPIC};
use embsens::buffer::PacketBuffer;
use embsens::delivery::Delivery;
use embsens::error::TinyMqttError;
use embsens::fsm::{Effect, Event, Fsm, SampleKind, State};
use embsens::packet::{Packet, Publish, QoS, SubscribeTopic};
use embsens::pid::Pid;
use embsens::session::TinyMqtt;
use embsens::store::CredentialStore;

fn publish_of(buffer: &PacketBuffer) -> Publish {
    match buffer.parsed() {
        Ok(Some(Packet::Publish(p))) => p,
        other => panic!("no publish packet: {:?}", other),
    }
}

fn frame(topic: &str, payload: &[u8]) -> Vec<u8> {
    let mut bytes = vec![0x30, (2 + topic.len() + payload.len()) as u8];
    bytes.extend_from_slice(&[0, topic.len() as u8]);
    bytes.extend_from_slice(topic.as_bytes());
    bytes.extend_from_slice(payload);
    bytes
}

#[test]
fn a_new_engine_is_empty() {
    let mut mqtt = TinyMqtt::new("esp32");
    assert_eq!(mqtt.client_id(), "esp32");
    assert_eq!(mqtt.outbound_len(), 0);
    assert_eq!(mqtt.inbound_len(), 0);
    assert_eq!(mqtt.pending_len(), 0);
    assert_eq!(mqtt.keep_alive_secs(), 0);
    assert_eq!(mqtt.last_sent_millis(), 0);
    assert_eq!(mqtt.next_pid(), 1);
    assert!(mqtt.next_outbound(5).is_none());
    assert!(mqtt.next_inbound().is_none());
    assert_eq!(mqtt.last_sent_millis(), 0);
}

#[test]
fn temperature_sample_in_session_is_published_once() {
    let (mut fsm, _) = Fsm::new(CredentialStore::new());
    fsm.process_event(Event::CredentialsProvided {
        wifi_ssid: "net1".to_string(),
        wifi_psk: "pw1".to_string(),
        broker_host: "broker.local".to_string(),
        broker_user: None,
        broker_password: None,
    })
    .unwrap();
    fsm.process_event(Event::NetworkAttached).unwrap();
    fsm.process_event(Event::SessionEstablished).unwrap();
    assert_eq!(fsm.state(), &State::SessionActive);

    let mut mqtt = TinyMqtt::new("esp32");
    let values = format!("{}", 21.5f32);
    let effects = fsm
        .process_event(Event::SensorSample { kind: SampleKind::Temperature, values })
        .unwrap();
    assert_eq!(effects.len(), 1);
    for effect in &effects {
        assert_eq!(carry_out(&mut mqtt, effect, 0), Ok(true));
    }
    assert_eq!(mqtt.outbound_len(), 1);
    let packet = mqtt.next_outbound(0).unwrap();
    let message = publish_of(&packet);
    assert_eq!(message.payload, b"21.5");
    assert_eq!(message.topic_name, TEMPERATURE_TOPIC);
    assert_eq!(message.topic_name, "/rust/temperature");
    assert_eq!(message.qos, QoS::AtLeastOnce);
    assert!(message.retain);
    assert_eq!(mqtt.outbound_len(), 0);
}

#[test]
fn sample_without_session_produces_no_packet() {
    let (mut fsm, _) = Fsm::new(CredentialStore::new());
    let mut mqtt = TinyMqtt::new("esp32");
    let r = fsm.process_event(Event::SensorSample {
        kind: SampleKind::Temperature,
        values: "21.5".to_string(),
    });
    assert!(r.is_err());
    assert_eq!(fsm.state(), &State::Unprovisioned);
    assert_eq!(mqtt.outbound_len(), 0);
    assert!(mqtt.poll(0).is_none());
}

#[test]
fn effects_that_are_none_for_the_engine_leave_it_alone() {
    let mut mqtt = TinyMqtt::new("esp32");
    for effect in [
        Effect::StartAccessPoint,
        Effect::StopProvisioning,
        Effect::DispatchCommand { text: "x".to_string() },
        Effect::Emit(Event::NetworkAttached),
    ] {
        assert_eq!(carry_out(&mut mqtt, &effect, 7), Ok(false));
    }
    assert_eq!(mqtt.outbound_len(), 0);
    assert_eq!(mqtt.last_sent_millis(), 0);
}

#[test]
fn opening_the_session_enqueues_the_handshake() {
    let mut mqtt = TinyMqtt::new("esp32");
    let effect = Effect::OpenSession {
        host: "broker.local".to_string(),
        user: Some("u".to_string()),
        password: Some("pw".to_string()),
    };
    assert_eq!(carry_out(&mut mqtt, &effect, 9), Ok(true));
    assert_eq!(mqtt.keep_alive_secs(), 60);
    let packet = mqtt.next_outbound(9).unwrap();
    assert_eq!(
        packet.to_vec(),
        vec![0x10, 19, 0, 4, b'M', b'Q', b'T', b'T', 4, 0xc2, 0, 60, 0, 0, 0, 1, b'u', 0, 2, b'p', b'w']
    );
    let effect = Effect::OpenSession {
        host: "broker.local".to_string(),
        user: Some("u".to_string()),
        password: None,
    };
    assert_eq!(carry_out(&mut mqtt, &effect, 9), Ok(true));
    let packet = mqtt.next_outbound(9).unwrap();
    assert_eq!(packet.to_vec(), vec![0x10, 12, 0, 4, b'M', b'Q', b'T', b'T', 4, 0x02, 0, 60, 0, 0]);
}

#[test]
fn subscribing_to_commands_names_the_command_topic() {
    let mut mqtt = TinyMqtt::new("esp32");
    assert_eq!(carry_out(&mut mqtt, &Effect::SubscribeCommands, 0), Ok(true));
    let packet = mqtt.next_outbound(0).unwrap();
    let mut expected = vec![0x82, 18, 0, 1, 0, 13];
    expected.extend_from_slice(COMMAND_TOPIC.as_bytes());
    expected.push(1);
    assert_eq!(COMMAND_TOPIC, "/rust/command");
    assert_eq!(packet.to_vec(), expected);
}

#[test]
fn the_eleventh_packet_is_refused_and_ten_stay() {
    let mut mqtt = TinyMqtt::new("esp32");
    for i in 0..10u8 {
        assert_eq!(mqtt.publish("t", &[i], QoS::AtMostOnce), Ok(()));
        assert_eq!(mqtt.outbound_len(), i as usize + 1);
    }
    assert_eq!(mqtt.publish("t", &[10], QoS::AtMostOnce), Err(TinyMqttError::QueueFull));
    assert_eq!(mqtt.outbound_len(), 10);
    assert_eq!(
        mqtt.subscribe(&[SubscribeTopic { topic_path: "a".to_string(), qos: QoS::AtMostOnce }]),
        Err(TinyMqttError::QueueFull)
    );
    assert_eq!(mqtt.connect(60, None, None, 5), Err(TinyMqttError::QueueFull));
    assert_eq!(mqtt.outbound_len(), 10);
    for i in 0..10u8 {
        let packet = mqtt.next_outbound(0).unwrap();
        assert_eq!(publish_of(&packet).payload, vec![i]);
    }
    assert!(mqtt.next_outbound(0).is_none());
    assert_eq!(mqtt.publish("t", &[11], QoS::AtMostOnce), Ok(()));
}

#[test]
fn a_refused_publication_uses_up_no_packet_identifier() {
    let mut mqtt = TinyMqtt::new("esp32");
    for _ in 0..10 {
        mqtt.publish("t", b"", QoS::AtLeastOnce).unwrap();
    }
    assert_eq!(mqtt.next_pid(), 11);
    assert_eq!(mqtt.publish("t", b"", QoS::AtLeastOnce), Err(TinyMqttError::QueueFull));
    assert_eq!(mqtt.next_pid(), 11);
    let big = [0u8; 1024];
    let _ = mqtt.next_outbound(0);
    assert_eq!(mqtt.publish("t", &big, QoS::AtLeastOnce), Err(TinyMqttError::Encode));
    assert_eq!(mqtt.next_pid(), 11);
    assert_eq!(mqtt.outbound_len(), 9);
}

#[test]
fn packets_leave_in_the_order_in_which_they_came() {
    let mut mqtt = TinyMqtt::new("esp32");
    mqtt.publish("first", b"1", QoS::AtMostOnce).unwrap();
    mqtt.publish("second", b"2", QoS::AtMostOnce).unwrap();
    mqtt.publish("third", b"3", QoS::AtMostOnce).unwrap();
    assert_eq!(publish_of(&mqtt.next_outbound(0).unwrap()).topic_name, "first");
    mqtt.publish("fourth", b"4", QoS::AtMostOnce).unwrap();
    assert_eq!(publish_of(&mqtt.next_outbound(0).unwrap()).topic_name, "second");
    assert_eq!(publish_of(&mqtt.next_outbound(0).unwrap()).topic_name, "third");
    assert_eq!(publish_of(&mqtt.next_outbound(0).unwrap()).topic_name, "fourth");
    assert!(mqtt.next_outbound(0).is_none());
}

#[test]
fn packet_identifiers_count_up_from_one() {
    let mut mqtt = TinyMqtt::new("esp32");
    mqtt.publish("t", b"a", QoS::AtLeastOnce).unwrap();
    mqtt.publish("t", b"b", QoS::AtMostOnce).unwrap();
    mqtt.publish("t", b"c", QoS::ExactlyOnce).unwrap();
    mqtt.publish("t", b"d", QoS::AtLeastOnce).unwrap();
    let pids: Vec<Option<u16>> =
        (0..4).map(|_| publish_of(&mqtt.next_outbound(0).unwrap()).pid).collect();
    assert_eq!(pids, vec![Some(1), None, Some(2), Some(3)]);
    assert_eq!(mqtt.next_pid(), 4);
}

#[test]
fn packet_identifiers_are_distinct_for_a_whole_cycle_and_never_zero() {
    let mut mqtt = TinyMqtt::new("esp32");
    let mut seen = vec![false; 65536];
    for i in 0..65535u32 {
        mqtt.publish("t", b"", QoS::AtLeastOnce).unwrap();
        let pid = publish_of(&mqtt.next_outbound(0).unwrap()).pid.unwrap();
        assert_ne!(pid, 0);
        assert!(!seen[pid as usize], "identifier {} twice", pid);
        seen[pid as usize] = true;
        assert_eq!(pid as u32, i + 1);
    }
    assert_eq!(mqtt.next_pid(), 1);
    mqtt.publish("t", b"", QoS::AtLeastOnce).unwrap();
    assert_eq!(publish_of(&mqtt.next_outbound(0).unwrap()).pid, Some(1));
}

#[test]
fn a_given_packet_identifier_is_used_and_none_is_used_up() {
    let mut mqtt = TinyMqtt::new("esp32");
    let pid = Pid::new(10).unwrap();
    mqtt.publish_with_pid(Some(pid), "/embsens/test1", b"42", QoS::AtLeastOnce).unwrap();
    let message = publish_of(&mqtt.next_outbound(0).unwrap());
    assert_eq!(message.pid, Some(10));
    assert_eq!(message.topic_name, "/embsens/test1");
    assert_eq!(message.payload, b"42");
    assert!(!message.retain);
    assert!(!message.dup);
    assert_eq!(mqtt.next_pid(), 1);
    mqtt.publish_with_pid(Some(pid), "t", b"", QoS::AtMostOnce).unwrap();
    assert_eq!(publish_of(&mqtt.next_outbound(0).unwrap()).pid, None);
    mqtt.publish_with_pid(None, "t", b"", QoS::AtLeastOnce).unwrap();
    assert_eq!(publish_of(&mqtt.next_outbound(0).unwrap()).pid, Some(1));
    assert_eq!(mqtt.next_pid(), 2);
}

#[test]
fn connect_enqueues_the_handshake_and_sets_the_clock() {
    let mut mqtt = TinyMqtt::new("esp32");
    assert_eq!(mqtt.connect(60, None, None, 1234), Ok(()));
    assert_eq!(mqtt.keep_alive_secs(), 60);
    assert_eq!(mqtt.last_sent_millis(), 1234);
    assert_eq!(mqtt.outbound_len(), 1);
    let packet = mqtt.next_outbound(1300).unwrap();
    assert_eq!(packet.to_vec(), vec![0x10, 12, 0, 4, b'M', b'Q', b'T', b'T', 4, 0x02, 0, 60, 0, 0]);
    assert_eq!(mqtt.last_sent_millis(), 1300);
}

#[test]
fn a_handshake_that_does_not_fit_is_an_encode_error() {
    let mut mqtt = TinyMqtt::new("esp32");
    let long = "u".repeat(1100);
    assert_eq!(mqtt.connect(30, Some(&long), Some(b"p"), 77), Err(TinyMqttError::Encode));
    assert_eq!(mqtt.keep_alive_secs(), 30);
    assert_eq!(mqtt.last_sent_millis(), 0);
    assert_eq!(mqtt.outbound_len(), 0);
}

#[test]
fn subscribe_lists_all_filters_in_one_packet() {
    let mut mqtt = TinyMqtt::new("esp32");
    let topics = vec![
        SubscribeTopic { topic_path: "/embsens/command".to_string(), qos: QoS::AtLeastOnce },
        SubscribeTopic { topic_path: "x".to_string(), qos: QoS::ExactlyOnce },
    ];
    assert_eq!(mqtt.subscribe(&topics), Ok(()));
    assert_eq!(mqtt.outbound_len(), 1);
    let packet = mqtt.next_outbound(0).unwrap();
    let mut expected = vec![0x82, 25, 0, 1, 0, 16];
    expected.extend_from_slice(b"/embsens/command");
    expected.extend_from_slice(&[1, 0, 1, b'x', 2]);
    assert_eq!(packet.to_vec(), expected);
    assert_eq!(mqtt.subscribe(&[]), Err(TinyMqttError::Encode));
    assert_eq!(mqtt.outbound_len(), 0);
}

#[test]
fn a_ping_is_due_after_half_the_keep_alive_interval() {
    let mut mqtt = TinyMqtt::new("esp32");
    mqtt.connect(60, None, None, 1000).unwrap();
    let _ = mqtt.next_outbound(1000);
    assert_eq!(mqtt.keep_alive_tick(1000), Ok(false));
    assert_eq!(mqtt.keep_alive_tick(31000), Ok(false));
    assert_eq!(mqtt.outbound_len(), 0);
    assert_eq!(mqtt.keep_alive_tick(31001), Ok(true));
    assert_eq!(mqtt.last_sent_millis(), 31001);
    assert_eq!(mqtt.outbound_len(), 1);
    assert_eq!(mqtt.keep_alive_tick(31002), Ok(false));
    assert_eq!(mqtt.keep_alive_tick(61001), Ok(false));
    assert_eq!(mqtt.keep_alive_tick(61002), Ok(true));
    assert_eq!(mqtt.next_outbound(61002).unwrap().to_vec(), vec![0xc0, 0x00]);
    assert_eq!(mqtt.next_outbound(61002).unwrap().to_vec(), vec![0xc0, 0x00]);
    assert_eq!(mqtt.keep_alive_tick(500), Ok(false));
}

#[test]
fn half_of_an_odd_interval_is_rounded_down() {
    let mut mqtt = TinyMqtt::new("esp32");
    mqtt.connect(61, None, None, 0).unwrap();
    assert_eq!(mqtt.keep_alive_tick(30000), Ok(false));
    assert_eq!(mqtt.keep_alive_tick(30001), Ok(true));
    let mut mqtt = TinyMqtt::new("esp32");
    mqtt.connect(1, None, None, 10).unwrap();
    assert_eq!(mqtt.keep_alive_tick(10), Ok(false));
    assert_eq!(mqtt.keep_alive_tick(11), Ok(true));
}

#[test]
fn a_clock_near_its_end_asks_for_no_ping() {
    let mut mqtt = TinyMqtt::new("esp32");
    mqtt.connect(65535, None, None, u64::MAX - 5).unwrap();
    assert_eq!(mqtt.keep_alive_tick(u64::MAX), Ok(false));
    assert_eq!(mqtt.outbound_len(), 1);
}

#[test]
fn a_due_ping_is_refused_by_a_full_queue() {
    let mut mqtt = TinyMqtt::new("esp32");
    for _ in 0..10 {
        mqtt.publish("t", b"", QoS::AtMostOnce).unwrap();
    }
    assert_eq!(mqtt.keep_alive_tick(1), Err(TinyMqttError::QueueFull));
    assert_eq!(mqtt.last_sent_millis(), 0);
    assert_eq!(mqtt.outbound_len(), 10);
    let packet = mqtt.poll(1).unwrap();
    assert_eq!(publish_of(&packet).topic_name, "t");
    assert_eq!(mqtt.outbound_len(), 9);
    assert_eq!(mqtt.last_sent_millis(), 1);
}

#[test]
fn poll_pings_and_hands_out_the_oldest_packet() {
    let mut mqtt = TinyMqtt::new("esp32");
    mqtt.connect(60, None, None, 0).unwrap();
    let packet = mqtt.poll(10).unwrap();
    assert_eq!(packet.to_vec()[0], 0x10);
    assert_eq!(mqtt.last_sent_millis(), 10);
    assert!(mqtt.poll(20).is_none());
    assert_eq!(mqtt.last_sent_millis(), 10);
    let packet = mqtt.poll(30011).unwrap();
    assert_eq!(packet.to_vec(), vec![0xc0, 0x00]);
    assert_eq!(mqtt.last_sent_millis(), 30011);
    mqtt.publish("t", b"p", QoS::AtMostOnce).unwrap();
    let packet = mqtt.poll(70000).unwrap();
    assert_eq!(publish_of(&packet).payload, b"p");
    assert_eq!(mqtt.outbound_len(), 1);
    assert_eq!(mqtt.poll(70001).unwrap().to_vec(), vec![0xc0, 0x00]);
}

#[test]
fn a_received_message_is_handed_on() {
    let mut mqtt = TinyMqtt::new("esp32");
    let deliveries = mqtt.receive(&frame("/rust/command", b"reboot"));
    assert_eq!(deliveries.len(), 1);
    match &deliveries[0] {
        Delivery::Message(p) => {
            assert_eq!(p.topic_name, "/rust/command");
            assert_eq!(p.payload, b"reboot");
        }
        other => panic!("{:?}", other),
    }
    assert_eq!(mqtt.pending_len(), 0);
    assert_eq!(mqtt.inbound_len(), 0);
}

#[test]
fn a_frame_may_arrive_in_pieces() {
    let mut mqtt = TinyMqtt::new("esp32");
    let bytes = frame("topic", b"payload");
    for (i, byte) in bytes.iter().enumerate() {
        let deliveries = mqtt.receive(&[*byte]);
        if i + 1 < bytes.len() {
            assert!(deliveries.is_empty());
            assert_eq!(mqtt.pending_len(), i + 1);
        } else {
            assert_eq!(deliveries.len(), 1);
            assert!(matches!(&deliveries[0], Delivery::Message(p) if p.payload == b"payload"));
            assert_eq!(mqtt.pending_len(), 0);
        }
    }
    assert!(mqtt.receive(&[]).is_empty());
}

#[test]
fn several_frames_may_arrive_at_once() {
    let mut mqtt = TinyMqtt::new("esp32");
    let mut bytes = frame("a", b"1");
    bytes.extend_from_slice(&[0x20, 2, 0, 0]);
    bytes.extend_from_slice(&frame("b", b"2"));
    bytes.extend_from_slice(&[0xd0, 0]);
    bytes.extend_from_slice(&[0x30, 9, 0]);
    let deliveries = mqtt.receive(&bytes);
    assert_eq!(deliveries.len(), 4);
    assert!(matches!(&deliveries[0], Delivery::Message(p) if p.topic_name == "a"));
    assert_eq!(deliveries[1], Delivery::Queued);
    assert!(matches!(&deliveries[2], Delivery::Message(p) if p.topic_name == "b"));
    assert_eq!(deliveries[3], Delivery::Queued);
    assert_eq!(mqtt.pending_len(), 3);
    assert_eq!(mqtt.inbound_len(), 2);
    let connack = mqtt.next_inbound().unwrap();
    assert_eq!(connack.to_vec(), vec![0x20, 2, 0, 0]);
    assert_eq!(
        connack.parsed(),
        Ok(Some(Packet::Connack { session_present: false, code: 0 }))
    );
    assert_eq!(mqtt.next_inbound().unwrap().parsed(), Ok(Some(Packet::Pingresp)));
    assert!(mqtt.next_inbound().is_none());
    let deliveries = mqtt.receive(&[1, b'c', b'1', b'2', b'3', b'4', b'5', b'6']);
    assert_eq!(deliveries.len(), 1);
    assert!(
        matches!(&deliveries[0], Delivery::Message(p) if p.topic_name == "c" && p.payload == b"123456")
    );
    assert_eq!(mqtt.pending_len(), 0);
}

#[test]
fn a_malformed_frame_is_discarded_and_the_next_is_read() {
    let mut mqtt = TinyMqtt::new("esp32");
    let mut bytes = vec![0x40, 2, 0, 0];
    bytes.extend_from_slice(&[0x30, 3, 0, 1, 0xff]);
    bytes.extend_from_slice(&[0x10, 0]);
    bytes.extend_from_slice(&frame("ok", b""));
    let deliveries = mqtt.receive(&bytes);
    assert_eq!(
        deliveries[..3],
        [
            Delivery::Discarded(TinyMqttError::Decode),
            Delivery::Discarded(TinyMqttError::Decode),
            Delivery::Discarded(TinyMqttError::Decode)
        ]
    );
    assert_eq!(deliveries.len(), 4);
    assert!(matches!(&deliveries[3], Delivery::Message(p) if p.topic_name == "ok"));
    assert_eq!(mqtt.pending_len(), 0);
    assert_eq!(mqtt.inbound_len(), 0);
}

#[test]
fn a_length_of_five_bytes_discards_all_that_is_there() {
    let mut mqtt = TinyMqtt::new("esp32");
    let mut bytes = vec![0x30, 0x80, 0x80, 0x80, 0x80, 0x01];
    bytes.extend_from_slice(&frame("lost", b""));
    let deliveries = mqtt.receive(&bytes);
    assert_eq!(deliveries, vec![Delivery::Discarded(TinyMqttError::Decode)]);
    assert_eq!(mqtt.pending_len(), 0);
    let deliveries = mqtt.receive(&frame("next", b""));
    assert!(matches!(&deliveries[0], Delivery::Message(p) if p.topic_name == "next"));
}

#[test]
fn bytes_that_do_not_fit_are_discarded_with_the_pending_ones() {
    let mut mqtt = TinyMqtt::new("esp32");
    assert!(mqtt.receive(&[0x30, 0x7f, 0, 1]).is_empty());
    assert_eq!(mqtt.pending_len(), 4);
    let deliveries = mqtt.receive(&[0u8; 1021]);
    assert_eq!(deliveries, vec![Delivery::Discarded(TinyMqttError::Decode)]);
    assert_eq!(mqtt.pending_len(), 0);
    let deliveries = mqtt.receive(&[0u8; 1025]);
    assert_eq!(deliveries, vec![Delivery::Discarded(TinyMqttError::Decode)]);
    assert_eq!(mqtt.pending_len(), 0);
}

#[test]
fn a_frame_longer_than_the_buffer_is_discarded() {
    let mut mqtt = TinyMqtt::new("esp32");
    // announces a body of 2000 bytes
    let mut bytes = vec![0x30, 0xd0, 0x0f];
    bytes.extend_from_slice(&[0u8; 1020]);
    assert!(mqtt.receive(&bytes).is_empty());
    assert_eq!(mqtt.pending_len(), 1023);
    let deliveries = mqtt.receive(&[0]);
    assert_eq!(deliveries, vec![Delivery::Discarded(TinyMqttError::Decode)]);
    assert_eq!(mqtt.pending_len(), 0);
}

#[test]
fn the_largest_frame_that_fits_is_received() {
    let mut mqtt = TinyMqtt::new("esp32");
    let payload = vec![7u8; 1018];
    let mut bytes = vec![0x30, (1021 % 128 + 128) as u8, (1021 / 128) as u8, 0, 1, b't'];
    bytes.extend_from_slice(&payload);
    assert_eq!(bytes.len(), 1024);
    assert!(mqtt.receive(&bytes[..1000]).is_empty());
    let deliveries = mqtt.receive(&bytes[1000..]);
    assert_eq!(deliveries.len(), 1);
    assert!(matches!(&deliveries[0], Delivery::Message(p) if p.payload == payload));
    assert_eq!(mqtt.pending_len(), 0);
}

#[test]
fn the_eleventh_received_packet_is_dropped() {
    let mut mqtt = TinyMqtt::new("esp32");
    for i in 1..=10u8 {
        assert_eq!(mqtt.receive(&[0x40, 2, 0, i]), vec![Delivery::Queued]);
    }
    assert_eq!(mqtt.inbound_len(), 10);
    assert_eq!(
        mqtt.receive(&[0x40, 2, 0, 11]),
        vec![Delivery::Discarded(TinyMqttError::QueueFull)]
    );
    assert_eq!(mqtt.inbound_len(), 10);
    let deliveries = mqtt.receive(&frame("still", b"heard"));
    assert!(matches!(&deliveries[0], Delivery::Message(p) if p.topic_name == "still"));
    for i in 1..=10u16 {
        assert_eq!(mqtt.next_inbound().unwrap().parsed(), Ok(Some(Packet::Puback(i))));
    }
    assert!(mqtt.next_inbound().is_none());
    assert_eq!(mqtt.receive(&[0x40, 2, 0, 12]), vec![Delivery::Queued]);
}

#[test]
fn receiving_touches_neither_the_outbound_queue_nor_the_clock() {
    let mut mqtt = TinyMqtt::new("esp32");
    mqtt.connect(60, None, None, 5).unwrap();
    mqtt.publish("t", b"", QoS::AtLeastOnce).unwrap();
    mqtt.receive(&frame("a", b"b"));
    mqtt.receive(&[0x40, 2, 0, 1, 0x30]);
    assert_eq!(mqtt.outbound_len(), 2);
    assert_eq!(mqtt.last_sent_millis(), 5);
    assert_eq!(mqtt.keep_alive_secs(), 60);
    assert_eq!(mqtt.next_pid(), 2);
    assert_eq!(mqtt.client_id(), "esp32");
}

#[test]
fn disconnect_drops_what_belongs_to_the_connection() {
    let mut mqtt = TinyMqtt::new("esp32");
    mqtt.connect(60, None, None, 5).unwrap();
    mqtt.publish("t", b"", QoS::AtLeastOnce).unwrap();
    mqtt.receive(&[0x40, 2, 0, 1, 0x30, 5]);
    assert_eq!(mqtt.pending_len(), 2);
    assert_eq!(mqtt.disconnect(), Ok(()));
    assert_eq!(mqtt.outbound_len(), 0);
    assert_eq!(mqtt.pending_len(), 0);
    assert_eq!(mqtt.inbound_len(), 1);
    assert_eq!(mqtt.next_pid(), 2);
    assert_eq!(mqtt.keep_alive_secs(), 60);
    assert_eq!(mqtt.last_sent_millis(), 5);
    let deliveries = mqtt.receive(&frame("fresh", b""));
    assert!(matches!(&deliveries[0], Delivery::Message(p) if p.topic_name == "fresh"));
}

#[test]
fn send_sample_uses_the_topic_of_the_kind() {
    let mut mqtt = TinyMqtt::new("esp32");
    send_sample(&mut mqtt, SampleKind::Humidity, "40").unwrap();
    send_sample(&mut mqtt, SampleKind::Accel6Axis, "0,0,1,0,0,0").unwrap();
    let first = publish_of(&mqtt.next_outbound(0).unwrap());
    let second = publish_of(&mqtt.next_outbound(0).unwrap());
    assert_eq!(first.topic_name, "/rust/humidity");
    assert_eq!(first.payload, b"40");
    assert_eq!(first.pid, Some(1));
    assert_eq!(second.topic_name, "/rust/motion");
    assert_eq!(second.payload, b"0,0,1,0,0,0");
    assert_eq!(second.pid, Some(2));
}
