use slimevr_wrangler::{
    handshake, sensor_info, ChannelInfo, Dispatch, JoyconData, JoyconDesign, JoyconDesignType, JoyconDeviceInfo,
    Packet, Worker, FIRMWARE_NAME,
};

type Frame = (f64, f64, f64);

fn connected(serial: &str, color: &str) -> ChannelInfo<Frame> {
    ChannelInfo::Connected(JoyconDeviceInfo {
        serial_number: serial.to_string(),
        design: JoyconDesign { color: color.to_string(), design_type: JoyconDesignType::Left },
    })
}

fn data(serial: &str, frame: Frame) -> ChannelInfo<Frame> {
    ChannelInfo::Data(JoyconData { serial_number: serial.to_string(), imu_data: [frame, frame, frame] })
}

fn is_sensor_info(p: &Packet, id: u8) -> bool {
    matches!(p, Packet::SensorInfo { packet_id: 0, sensor_id, sensor_status: 1, sensor_type: 0 } if *sensor_id == id)
}

#[test]
fn handshake_packet_fields() {
    match handshake() {
        Packet::Handshake { packet_id, board, imu, mcu_type, imu_info, build, firmware, mac_address } => {
            assert_eq!((packet_id, board, imu, mcu_type, build), (0, 0, 0, 0, 0));
            assert_eq!(imu_info, (0, 0, 0));
            assert_eq!(firmware, "slimevr-wrangler");
            assert_eq!(FIRMWARE_NAME, "slimevr-wrangler");
            assert_eq!(mac_address, [0x00, 0x0F, 0x00, 0x0F, 0x00, 0x0F]);
        }
        other => panic!("not a handshake: {:?}", other),
    }
}

#[test]
fn sensor_info_packet_fields() {
    assert!(is_sensor_info(&sensor_info(7), 7));
}

#[test]
fn end_to_end_register_sample_snapshot() {
    let mut w = Worker::new(0);
    match w.handle_message(connected("ABC123", "neon")) {
        Dispatch::Announce { sensor_id, packet } => {
            assert_eq!(sensor_id, 0);
            assert!(is_sensor_info(&packet, 0));
        }
        other => panic!("expected an announce: {:?}", other),
    }
    match w.handle_message(data("ABC123", (0.0, 0.0, 1.0))) {
        Dispatch::Sample { sensor_id, imu_data } => {
            assert_eq!(sensor_id, 0);
            assert_eq!(imu_data, [(0.0, 0.0, 1.0); 3]);
        }
        other => panic!("expected a sample: {:?}", other),
    }
    assert_eq!(w.receive(10, vec![1, 2, 3], false), None);
    let s = w.status();
    assert_eq!(s.len(), 1);
    assert_eq!(s[0].serial_number, "ABC123");
    assert_eq!(s[0].design.color, "neon");
    assert_eq!(s[0].design.design_type, JoyconDesignType::Left);
    assert_eq!(s[0].sensor_id, 0);
    assert!(s[0].connected);
}

#[test]
fn data_from_unknown_serial_is_dropped() {
    let mut w = Worker::new(0);
    w.handle_message(connected("A", "red"));
    assert!(matches!(w.handle_message(data("B", (1.0, 2.0, 3.0))), Dispatch::Dropped));
    assert_eq!(w.registry.len(), 1);
}

#[test]
fn reconnect_asks_for_reset_with_same_id() {
    let mut w = Worker::new(0);
    w.handle_message(connected("A", "red"));
    w.handle_message(connected("B", "red"));
    assert!(matches!(w.handle_message(connected("A", "red")), Dispatch::Reset { sensor_id: 0 }));
    assert_eq!(w.registry.len(), 2);
}

#[test]
fn ping_is_echoed_byte_for_byte() {
    let mut w = Worker::new(0);
    let payload = vec![0, 0, 0, 10, 0, 0, 0, 0, 0, 0, 0, 0, 0, 0, 0, 42];
    assert_eq!(w.receive(5, payload.clone(), true), Some(payload));
    assert!(w.link.connected);
    assert_eq!(w.link.last_ping, 5);
    assert_eq!(w.receive(6, vec![9], false), None);
    assert_eq!(w.link.last_ping, 5);
}

#[test]
fn retry_sends_handshake_then_devices_in_id_order() {
    let mut w = Worker::new(0);
    w.handle_message(connected("A", "red"));
    w.handle_message(connected("B", "red"));
    w.handle_message(connected("C", "red"));
    let out = w.retry_handshake(100);
    assert_eq!(out.len(), 4);
    assert!(matches!(out[0], Packet::Handshake { .. }));
    for i in 0..3 {
        assert!(is_sensor_info(&out[i + 1], i as u8));
    }
    assert!(w.retry_handshake(3099).is_empty());
    assert_eq!(w.retry_handshake(3100).len(), 4);
}

#[test]
fn connection_lost_after_silent_timeout() {
    let mut w = Worker::new(0);
    w.receive(1000, vec![1], true);
    w.check_keepalive(3999);
    assert!(w.link.connected);
    assert!(w.retry_handshake(3999).is_empty());
    w.check_keepalive(4000);
    assert!(!w.link.connected);
    assert_eq!(w.retry_handshake(4000).len(), 1);
    w.handle_message(connected("A", "red"));
    let s = w.status();
    assert!(!s[0].connected);
}
