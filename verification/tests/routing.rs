use ace_dst::routing::{
    all_active, ecu_for_request, first_active, quiet_step, route_can, route_tcp, CanDelivery,
    TcpDelivery,
};

#[test]
fn tcp_frames_go_to_first_matching_gateway() {
    let gws = [0x0E80u32, 0x0E81, 0x0E80];
    assert_eq!(route_tcp(0x0E80, &gws, 0x0E00), TcpDelivery::Gateway(0));
    assert_eq!(route_tcp(0x0E81, &gws, 0x0E00), TcpDelivery::Gateway(1));
    assert_eq!(route_tcp(0x0E00, &gws, 0x0E00), TcpDelivery::Tester);
    assert_eq!(route_tcp(0x1234, &gws, 0x0E00), TcpDelivery::Dropped);
    assert_eq!(route_tcp(0x0E00, &[], 0x0E00), TcpDelivery::Tester);
}

#[test]
fn can_frames_by_identifier() {
    assert_eq!(route_can(0x7E0, 0x7E0, 0x7E8), CanDelivery::FromGateway);
    assert_eq!(route_can(0x7E8, 0x7E0, 0x7E8), CanDelivery::FromEcu);
    assert_eq!(route_can(0x7DF, 0x7E0, 0x7E8), CanDelivery::Ignored);
    assert_eq!(route_can(0x7E0, 0x7E0, 0x7E0), CanDelivery::FromGateway);
}

#[test]
fn gateway_can_outbox_to_ecu() {
    let ids = [0x7E0u32, 0x7E2, 0x7E4];
    assert_eq!(ecu_for_request(0x7E2, &ids), Some(1));
    assert_eq!(ecu_for_request(0x7E8, &ids), None);
}

#[test]
fn activation_checks() {
    assert!(!first_active(&[]));
    assert!(first_active(&[true, false]));
    assert!(!first_active(&[false, true]));
    assert!(all_active(&[]));
    assert!(all_active(&[true, true]));
    assert!(!all_active(&[true, false]));
}

#[test]
fn waiting_until_quiet() {
    assert_eq!(quiet_step(0, 10, true), Some(0));
    assert_eq!(quiet_step(3, 10, false), None);
    assert_eq!(quiet_step(10, 10, false), Some(10));
    assert_eq!(quiet_step(12, 10, true), Some(10));
}
