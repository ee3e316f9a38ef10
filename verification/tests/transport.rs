use ace_dst::duration::Duration;
use ace_dst::transport::{
    on_discovery_reply, PeerAddr,
    assemble_frame, declared_payload_length, outbox_connection, payload_to_read,
    vehicle_identification_request, ConnectionWriters, DiscoveryConfig, VehicleDriverConfig,
    DOIP_PORT,
};

#[test]
fn identification_request_frame() {
    assert_eq!(vehicle_identification_request(0x02), [0x02, 0xFD, 0x00, 0x01, 0x00, 0x00, 0x00, 0x00]);
    assert_eq!(vehicle_identification_request(0xFF), [0xFF, 0x00, 0x00, 0x01, 0x00, 0x00, 0x00, 0x00]);
    assert_eq!(declared_payload_length(&vehicle_identification_request(0x03)), 0);
}

#[test]
fn header_length_is_big_endian() {
    let h = [0x02, 0xFD, 0x80, 0x01, 0x01, 0x02, 0x03, 0x04];
    assert_eq!(declared_payload_length(&h), 0x0102_0304);
    let h = [0x02, 0xFD, 0x80, 0x01, 0xFF, 0xFF, 0xFF, 0xFF];
    assert_eq!(declared_payload_length(&h), u32::MAX);
}

#[test]
fn oversized_payload_is_refused() {
    let h = [0x02, 0xFD, 0x80, 0x01, 0x00, 0x00, 0x10, 0x00];
    assert_eq!(payload_to_read(&h, 4096), Some(4096));
    assert_eq!(payload_to_read(&h, 4095), None);
    let empty = [0x02, 0xFD, 0x00, 0x05, 0x00, 0x00, 0x00, 0x00];
    assert_eq!(payload_to_read(&empty, 0), Some(0));
}

#[test]
fn frame_is_header_then_payload() {
    let h = [0x02, 0xFD, 0x80, 0x01, 0x00, 0x00, 0x00, 0x03];
    assert_eq!(assemble_frame(&h, &[0xAA, 0xBB, 0xCC]), vec![0x02, 0xFD, 0x80, 0x01, 0x00, 0x00, 0x00, 0x03, 0xAA, 0xBB, 0xCC]);
    assert_eq!(assemble_frame(&h, &[]), h.to_vec());
}

#[test]
fn outbox_goes_to_low_sixteen_bits() {
    assert_eq!(outbox_connection(0x0E80), 0x0E80);
    assert_eq!(outbox_connection(0x0001_0E80), 0x0E80);
}

#[test]
fn writer_table() {
    let mut w: ConnectionWriters<&str> = ConnectionWriters::new();
    assert_eq!(w.get(0x0E80), None);
    w.register(0x0E80, "a");
    w.register(0x0E81, "b");
    w.register(0x0E80, "c");
    assert_eq!(w.get(0x0E80), Some(&"a"));
    assert_eq!(w.get(0x0E81), Some(&"b"));
    assert_eq!(w.connection_ids(), vec![0x0E80, 0x0E81, 0x0E80]);
    w.remove(0x0E80);
    assert_eq!(w.get(0x0E80), None);
    assert_eq!(w.get(0x0E81), Some(&"b"));
    assert_eq!(w.connection_ids(), vec![0x0E81]);
    w.remove(0x0E80);
    assert_eq!(w.connection_ids(), vec![0x0E81]);
    w.register(0x0E80, "d");
    assert_eq!(w.get(0x0E80), Some(&"d"));
}

#[test]
fn driver_config_keeps_sub_microsecond_interval() {
    let c = VehicleDriverConfig::new(0x0E00, Duration::from_nanos(250), 4096, "0.0.0.0", 0x03);
    assert_eq!(c.tick_interval.subsec_nanos(), 250);
    assert_eq!(c.tick_interval.as_secs(), 0);
}

#[test]
fn driver_config() {
    let c = VehicleDriverConfig::new(0x0E00, Duration::from_millis(1), 65535, "255.255.255.255", 0x02);
    assert_eq!(c.tester_address, 0x0E00);
    assert_eq!(c.tick_interval.as_micros(), 1_000);
    assert_eq!(c.read_buf_size, 65535);
    assert_eq!(c.udp_port, 13400);
    assert_eq!(c.udp_multicast_addr, "255.255.255.255");
    assert_eq!(c.default_protocol_version, 0x02);
}

#[test]
fn discovery_defaults() {
    let d = DiscoveryConfig::default();
    assert_eq!(d.udp_port, DOIP_PORT);
    assert_eq!(d.multicast_addr, "0.0.0.0");
    assert_eq!(d.timeout.as_secs(), 2);
    assert_eq!(d.timeout.subsec_nanos(), 0);
}

#[test]
fn discovery_records_each_responder_once() {
    let a = PeerAddr::V4 { ip: 0xC0A8_010A, port: 13400 };
    let b = PeerAddr::V4 { ip: 0xC0A8_010B, port: 13400 };
    let c = PeerAddr::V6 { ip: 1, port: 13400, flowinfo: 0, scope_id: 0 };
    let c_other_scope = PeerAddr::V6 { ip: 1, port: 13400, flowinfo: 0, scope_id: 2 };
    let mut seen = Vec::new();
    assert!(on_discovery_reply(&mut seen, Some(a)));
    assert!(on_discovery_reply(&mut seen, Some(b)));
    assert!(on_discovery_reply(&mut seen, Some(a)));
    assert!(on_discovery_reply(&mut seen, Some(c)));
    assert!(on_discovery_reply(&mut seen, Some(c_other_scope)));
    assert!(on_discovery_reply(&mut seen, Some(c)));
    assert_eq!(seen, vec![a, b, c, c_other_scope]);
    assert!(!on_discovery_reply(&mut seen, None));
    assert_eq!(seen.len(), 4);
}
