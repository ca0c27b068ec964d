use embsens::buffer::PacketBuffer;
use embsens::error::TinyMqttError;
use embsens::packet::{Packet, Publish, QoS};
use mqttrust::encoding::v4::{encode_slice, Connack, ConnectReturnCode, Pid, Suback};
use std::convert::TryFrom;

fn message(qos: QoS, pid: Option<u16>, payload: Vec<u8>) -> Packet {
    Packet::Publish(Publish {
        dup: false,
        qos,
        pid,
        retain: false,
        topic_name: "/embsens/test1".to_string(),
        payload,
    })
}

#[test]
fn every_kind_of_packet_is_read_back() {
    let packets = vec![
        Packet::Connack { session_present: false, code: 0 },
        Packet::Connack { session_present: true, code: 5 },
        message(QoS::AtMostOnce, None, b"42".to_vec()),
        message(QoS::AtLeastOnce, Some(10), b"42".to_vec()),
        message(QoS::ExactlyOnce, Some(65535), vec![]),
        Packet::Publish(Publish {
            dup: true,
            qos: QoS::AtLeastOnce,
            pid: Some(1),
            retain: true,
            topic_name: "grüße/🌡".to_string(),
            payload: vec![0, 255, 128],
        }),
        Packet::Puback(1),
        Packet::Pubrec(258),
        Packet::Pubrel(65535),
        Packet::Pubcomp(7),
        Packet::Suback(300),
        Packet::Unsuback(9),
        Packet::Pingresp,
    ];
    for packet in packets {
        let buffer = PacketBuffer::new(&packet);
        assert!(buffer.len() >= 2);
        assert_eq!(buffer.parsed(), Ok(Some(packet)));
    }
}

#[test]
fn the_frames_are_those_of_the_protocol() {
    assert_eq!(
        PacketBuffer::new(&Packet::Connack { session_present: true, code: 4 }).to_vec(),
        vec![0x20, 2, 1, 4]
    );
    assert_eq!(PacketBuffer::new(&Packet::Puback(0x0102)).to_vec(), vec![0x40, 2, 1, 2]);
    assert_eq!(PacketBuffer::new(&Packet::Pubrec(3)).to_vec(), vec![0x50, 2, 0, 3]);
    assert_eq!(PacketBuffer::new(&Packet::Pubrel(3)).to_vec(), vec![0x62, 2, 0, 3]);
    assert_eq!(PacketBuffer::new(&Packet::Pubcomp(3)).to_vec(), vec![0x70, 2, 0, 3]);
    assert_eq!(PacketBuffer::new(&Packet::Suback(3)).to_vec(), vec![0x90, 2, 0, 3]);
    assert_eq!(PacketBuffer::new(&Packet::Unsuback(3)).to_vec(), vec![0xb0, 2, 0, 3]);
    assert_eq!(PacketBuffer::new(&Packet::Pingresp).to_vec(), vec![0xd0, 0]);
}

#[test]
fn the_frames_are_those_that_the_codec_crate_writes() {
    let pid = Pid::try_from(0x0a0b).unwrap();
    let pairs = vec![
        (
            Packet::Connack { session_present: true, code: 3 },
            mqttrust::Packet::Connack(Connack {
                session_present: true,
                code: ConnectReturnCode::ServerUnavailable,
            }),
        ),
        (Packet::Puback(0x0a0b), mqttrust::Packet::Puback(pid)),
        (Packet::Pubrec(0x0a0b), mqttrust::Packet::Pubrec(pid)),
        (Packet::Pubrel(0x0a0b), mqttrust::Packet::Pubrel(pid)),
        (Packet::Pubcomp(0x0a0b), mqttrust::Packet::Pubcomp(pid)),
        (Packet::Unsuback(0x0a0b), mqttrust::Packet::Unsuback(pid)),
        (Packet::Suback(0x0a0b), mqttrust::Packet::Suback(Suback { pid, return_codes: &[] })),
        (Packet::Pingresp, mqttrust::Packet::Pingresp),
    ];
    for (ours, theirs) in pairs {
        let mut buf = [0u8; 1024];
        let len = encode_slice(&theirs, &mut buf).unwrap();
        assert_eq!(PacketBuffer::new(&ours).to_vec(), buf[..len].to_vec());
    }
}

#[test]
fn a_packet_that_cannot_be_stored_leaves_the_buffer_empty() {
    let packets = vec![
        Packet::Connack { session_present: false, code: 6 },
        Packet::Puback(0),
        Packet::Pubrec(0),
        Packet::Pubrel(0),
        Packet::Pubcomp(0),
        Packet::Suback(0),
        Packet::Unsuback(0),
        message(QoS::AtMostOnce, Some(1), vec![]),
        message(QoS::AtLeastOnce, None, vec![]),
        message(QoS::AtLeastOnce, Some(0), vec![]),
        message(QoS::ExactlyOnce, None, vec![]),
        message(QoS::AtMostOnce, None, vec![0u8; 1024]),
    ];
    for packet in packets {
        let buffer = PacketBuffer::new(&packet);
        assert_eq!(buffer.len(), 0, "{:?}", packet);
        assert_eq!(buffer.to_vec(), Vec::<u8>::new());
        assert_eq!(buffer.parsed(), Ok(None));
    }
}

#[test]
fn the_largest_message_that_fits_is_stored() {
    // 1 + 2 + 2 + 14 + 1005 = 1024
    let packet = message(QoS::AtMostOnce, None, vec![9u8; 1005]);
    let buffer = PacketBuffer::new(&packet);
    assert_eq!(buffer.len(), 1024);
    assert_eq!(buffer.parsed(), Ok(Some(packet)));
    assert_eq!(PacketBuffer::new(&message(QoS::AtMostOnce, None, vec![9u8; 1006])).len(), 0);
}

#[test]
fn a_buffer_takes_bytes_that_fit() {
    let buffer = PacketBuffer::from_bytes(&[0xd0, 0]).unwrap();
    assert_eq!(buffer.len(), 2);
    assert_eq!(buffer.as_slice(), &[0xd0, 0]);
    assert_eq!(buffer.to_vec(), vec![0xd0, 0]);
    assert_eq!(buffer.parsed(), Ok(Some(Packet::Pingresp)));
    assert!(PacketBuffer::from_bytes(&[1u8; 1024]).is_some());
    assert!(PacketBuffer::from_bytes(&[1u8; 1025]).is_none());
    assert_eq!(PacketBuffer::from_bytes(&[]).unwrap().len(), 0);
    assert_eq!(PacketBuffer::empty().len(), 0);
}

#[test]
fn parsed_reports_what_decoding_reports() {
    assert_eq!(PacketBuffer::from_bytes(&[0x40]).unwrap().parsed(), Ok(None));
    assert_eq!(
        PacketBuffer::from_bytes(&[0x40, 2, 0, 0]).unwrap().parsed(),
        Err(TinyMqttError::Decode)
    );
    assert_eq!(PacketBuffer::from_bytes(&[0u8; 1024]).unwrap().parsed(), Err(TinyMqttError::Decode));
}

#[test]
fn a_write_is_followed_up_until_the_packet_is_out() {
    let buffer = PacketBuffer::from_bytes(&[0u8; 100]).unwrap();
    assert_eq!(buffer.after_write(0, Some(100)), Ok(None));
    assert_eq!(buffer.after_write(0, Some(40)), Ok(Some(40)));
    assert_eq!(buffer.after_write(40, Some(59)), Ok(Some(99)));
    assert_eq!(buffer.after_write(99, Some(1)), Ok(None));
    assert_eq!(buffer.after_write(40, Some(usize::MAX)), Ok(None));
    assert_eq!(buffer.after_write(100, Some(1)), Ok(None));
    assert_eq!(buffer.after_write(200, Some(1)), Ok(None));
    assert_eq!(buffer.after_write(0, Some(0)), Err(TinyMqttError::Transport));
    assert_eq!(buffer.after_write(50, None), Err(TinyMqttError::Transport));
}
