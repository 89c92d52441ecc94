use oxide_motive::mqtt::{
    connect_fits, publish_fits,
    encode_connect, encode_pingreq, encode_publish, encode_pubrel, next_backoff, MqttError,
    PacketState, QoS, Qos2Action, Qos2Tracker, ReadOutcome, WaitOutcome, Will,
};

#[test]
fn test_connect_with_will() {
    let will = Will { topic: "status", message: b"offline", qos: QoS::AtLeastOnce, retain: true };
    let packet = encode_connect("client", &Some(will));
    let mut expected = vec![0x10, 33, 0x00, 0x04, b'M', b'Q', b'T', b'T', 0x04, 0x2E, 0x00, 0x3C, 0x00, 6];
    expected.extend_from_slice(b"client");
    expected.extend_from_slice(&[0x00, 6]);
    expected.extend_from_slice(b"status");
    expected.extend_from_slice(&[0x00, 7]);
    expected.extend_from_slice(b"offline");
    assert_eq!(packet.to_vec(), expected);
}

#[test]
fn connect_without_will() {
    let packet = encode_connect("abc", &None);
    assert_eq!(
        packet.to_vec(),
        vec![0x10, 13, 0x00, 0x04, b'M', b'Q', b'T', b'T', 0x04, 0x02, 0x00, 0x3C, 0x00, 3, b'a', b'b', b'c']
    );
}

#[test]
fn connect_will_flags_follow_qos_and_retain() {
    let will = Will { topic: "t", message: b"", qos: QoS::ExactlyOnce, retain: false };
    let packet = encode_connect("", &Some(will));
    assert_eq!(packet[9], 0x02 | 0x04 | (2 << 3));
    assert_eq!(packet[1] as usize, 10 + 2 + 1 + 2);
}

#[test]
fn publish_qos0_has_no_packet_id() {
    let packet = encode_publish("a/b", b"hi", QoS::AtMostOnce, 123);
    assert_eq!(packet.to_vec(), vec![0x30, 7, 0x00, 3, b'a', b'/', b'b', b'h', b'i']);
}

#[test]
fn publish_qos2_carries_packet_id() {
    let packet = encode_publish("t", b"x", QoS::ExactlyOnce, 0x0102);
    assert_eq!(packet.to_vec(), vec![0x34, 6, 0x00, 1, b't', 0x01, 0x02, b'x']);
    let packet = encode_publish("t", b"x", QoS::AtLeastOnce, 7);
    assert_eq!(packet.to_vec(), vec![0x32, 6, 0x00, 1, b't', 0x00, 0x07, b'x']);
}

#[test]
fn publish_long_payload_uses_two_length_bytes() {
    let payload = vec![0xAAu8; 200];
    let packet = encode_publish("t", &payload, QoS::AtMostOnce, 0);
    // 2 + 1 + 200 = 203 = 0x4B + 128 * 1
    assert_eq!(&packet[..3], &[0x30, 0xCB, 0x01]);
    assert_eq!(packet.len(), 1 + 2 + 203);
    assert_eq!(&packet[3..6], &[0x00, 1, b't']);
}

#[test]
fn pubrel_and_pingreq_bytes() {
    assert_eq!(encode_pubrel(0x1234), [0x62, 0x02, 0x12, 0x34]);
    assert_eq!(encode_pubrel(123), [0x62, 0x02, 0x00, 123]);
    assert_eq!(encode_pingreq(), [0xC0, 0x00]);
}

#[test]
fn keep_alive_backoff_doubles_to_a_minute() {
    assert_eq!(next_backoff(1, true), 2);
    assert_eq!(next_backoff(16, true), 32);
    assert_eq!(next_backoff(32, true), 60);
    assert_eq!(next_backoff(60, true), 60);
    assert_eq!(next_backoff(60, false), 1);
    let mut b = 1;
    for _ in 0..10 {
        b = next_backoff(b, true);
        assert!((1..=60).contains(&b));
    }
    assert_eq!(b, 60);
}

#[test]
fn qos2_handshake_runs_to_completion() {
    let mut tracker = Qos2Tracker::new();
    assert_eq!(tracker.begin(123), Ok(()));
    assert_eq!(tracker.step(123), Qos2Action::AwaitPubrec);
    assert_eq!(tracker.step(123), Qos2Action::Spin);
    assert_eq!(tracker.on_pubrec(123, ReadOutcome::Frame([0x50, 0x02, 0x00, 0x7C])), WaitOutcome::KeepWaiting);
    assert_eq!(tracker.on_pubrec(123, ReadOutcome::Frame([0x40, 0x02, 0x00, 123])), WaitOutcome::KeepWaiting);
    assert_eq!(tracker.on_pubrec(123, ReadOutcome::Frame([0x50, 0x02, 0x00, 123])), WaitOutcome::Acknowledged);
    assert_eq!(tracker.step(123), Qos2Action::SendPubrel);
    tracker.pubrel_sent(123);
    assert_eq!(tracker.step(123), Qos2Action::Spin);
    assert_eq!(tracker.on_pubcomp(123, ReadOutcome::Frame([0x70, 0x02, 0x00, 123])), WaitOutcome::Acknowledged);
    assert_eq!(tracker.step(123), Qos2Action::Finished);
    assert_eq!(tracker.find(123), None);
}

#[test]
fn qos2_pubrec_timeout_fails_with_network_error() {
    let mut tracker = Qos2Tracker::new();
    tracker.begin(5).unwrap();
    tracker.step(5);
    assert_eq!(tracker.on_pubrec(5, ReadOutcome::Failed), WaitOutcome::Failed(MqttError::Network));
    assert_eq!(tracker.find(5), Some(0));
}

#[test]
fn qos2_pubcomp_timeouts_resend_three_times() {
    let mut tracker = Qos2Tracker::new();
    tracker.begin(9).unwrap();
    tracker.step(9);
    tracker.on_pubrec(9, ReadOutcome::Frame([0x50, 0x02, 0x00, 9]));
    tracker.step(9);
    tracker.pubrel_sent(9);
    for _ in 0..3 {
        assert_eq!(tracker.on_pubcomp(9, ReadOutcome::Failed), WaitOutcome::ResendPubrel);
    }
    assert_eq!(tracker.on_pubcomp(9, ReadOutcome::Failed), WaitOutcome::Failed(MqttError::Network));
    assert_eq!(tracker.step(9), Qos2Action::Spin);
}

#[test]
fn qos2_tracker_holds_sixteen_handshakes() {
    let mut tracker = Qos2Tracker::new();
    for id in 0..16u16 {
        assert_eq!(tracker.begin(id), Ok(()));
    }
    assert_eq!(tracker.begin(16), Err(MqttError::BufferTooSmall));
    assert_eq!(tracker.find(15), Some(15));
    assert_eq!(tracker.find(16), None);
}

#[test]
fn qos2_finishing_one_handshake_keeps_the_others() {
    let mut tracker = Qos2Tracker::new();
    tracker.begin(1).unwrap();
    tracker.begin(2).unwrap();
    tracker.step(2);
    tracker.on_pubrec(2, ReadOutcome::Frame([0x50, 0x02, 0x00, 2]));
    tracker.step(2);
    tracker.pubrel_sent(2);
    tracker.on_pubcomp(2, ReadOutcome::Frame([0x70, 0x02, 0x00, 2]));
    assert_eq!(tracker.step(2), Qos2Action::Finished);
    assert_eq!(tracker.find(2), None);
    assert_eq!(tracker.find(1), Some(0));
    assert_eq!(tracker.step(1), Qos2Action::AwaitPubrec);
    let _ = PacketState::Start;
}

#[test]
fn packet_size_checks_match_the_buffers() {
    let long_id = "x".repeat(242);
    // 1 + 2 (length 252) + 12 + 242 = 257 bytes: one too many.
    assert!(!connect_fits(&long_id, &None));
    assert!(connect_fits(&long_id[..241], &None));
    assert_eq!(encode_connect(&long_id[..241], &None).len(), 256);
    let payload = vec![0u8; 1017];
    // 1 + 2 (length 1020) + 2 + 1 + 1017 = 1023 bytes with QoS 0.
    assert!(publish_fits("t", &payload, QoS::AtMostOnce, 0));
    assert_eq!(encode_publish("t", &payload, QoS::AtMostOnce, 0).len(), 1023);
    assert!(publish_fits("t", &payload[..1016], QoS::ExactlyOnce, 1));
    assert!(!publish_fits("t", &payload, QoS::ExactlyOnce, 1));
}
