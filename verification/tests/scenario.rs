use ace_dst::duration::Duration;
use ace_dst::scenario::{
    AddressingMode, DoipDstScenarioBuilder, DoipScenarioConfig, EcuNodeConfig, GatewayNodeConfig,
    DEFAULT_ECU, GATEWAY_ADDR, TESTER_ADDR,
};

#[test]
fn default_tick_config() {
    let c = DoipScenarioConfig::default();
    assert_eq!(c.tcp_tick.as_micros(), 1_000);
    assert_eq!(c.can_tick.as_micros(), 100);
    assert_eq!(c.can_ticks_per_tcp, 10);
}

#[test]
fn durations() {
    assert_eq!(Duration::from_millis(6_000).as_micros(), 6_000_000);
    assert_eq!(Duration::from_secs(2).as_micros(), 2_000_000);
    assert_eq!(Duration::from_micros(7).as_micros(), 7);
    let d = Duration::from_millis(1_500);
    assert_eq!(d.as_secs(), 1);
    assert_eq!(d.subsec_nanos(), 500_000_000);
}

#[test]
fn sub_microsecond_durations() {
    let d = Duration::from_nanos(1_500);
    assert_eq!(d.as_secs(), 0);
    assert_eq!(d.subsec_nanos(), 1_500);
    assert_eq!(d.as_micros(), 1);
    let n = Duration::new(3, 2_000_000_001);
    assert_eq!(n.as_secs(), 5);
    assert_eq!(n.subsec_nanos(), 1);
    let big = Duration::from_secs(u64::MAX);
    assert_eq!(big.as_secs(), u64::MAX);
    assert_eq!(big.as_micros(), u64::MAX as u128 * 1_000_000);
    assert_eq!(Duration::from_micros(u64::MAX).as_micros(), u64::MAX as u128);
}

#[test]
fn ecu_config_builder() {
    let e = EcuNodeConfig::new(0x0002, 0x7E2, 0x7EA, 0x7DF);
    assert_eq!(e.logical_address, 0x0002);
    assert_eq!(e.request_can_id, 0x7E2);
    assert_eq!(e.response_can_id, 0x7EA);
    assert_eq!(e.functional_can_id, 0x7DF);
    assert_eq!(e.addressing_mode, AddressingMode::Normal);
    let x = e.with_addressing(AddressingMode::Extended);
    assert_eq!(x.addressing_mode, AddressingMode::Extended);
    assert_eq!(x.request_can_id, 0x7E2);
}

#[test]
fn gateway_holds_eight_ecus() {
    let mut g = GatewayNodeConfig::new(0x0E81, 0x0E00).with_activation_type(0xE0);
    for i in 0..10u16 {
        g = g.with_ecu(EcuNodeConfig::new(i, 0x700 + i as u32, 0x708 + i as u32, 0x7DF));
    }
    assert_eq!(g.ecus.len(), 8);
    assert_eq!(g.ecus[7].logical_address, 7);
    assert_eq!(g.activation_type, 0xE0);
    assert_eq!(g.logical_address, 0x0E81);
}

#[test]
fn default_topology_plan() {
    let p = DoipDstScenarioBuilder::new(42, "no tcp faults", "no can faults").build_plan();
    assert_eq!(p.tcp_seed, 42);
    assert_eq!(p.can_seed, 43);
    assert_eq!(p.tester_address, TESTER_ADDR);
    assert_eq!(p.tcp_faults, "no tcp faults");
    assert_eq!(p.can_faults, "no can faults");
    assert_eq!(p.gateways.len(), 1);
    assert_eq!(p.gateways[0].logical_address, GATEWAY_ADDR);
    assert_eq!(p.gateways[0].ecus.len(), 1);
    assert_eq!(p.gateways[0].ecus[0].logical_address, DEFAULT_ECU);
    assert_eq!(p.gateways[0].ecus[0].request_can_id, 0x7E0);
    assert_eq!(p.gateways[0].ecus[0].response_can_id, 0x7E8);
    assert_eq!(p.gateways[0].ecus[0].functional_can_id, 0x7EF);
    assert_eq!(p.config.can_ticks_per_tcp, 10);
}

#[test]
fn can_seed_wraps() {
    let p = DoipDstScenarioBuilder::new(u64::MAX, 0u8, 0u8).build_plan();
    assert_eq!(p.can_seed, 0);
}

#[test]
fn with_gateway_replaces_add_gateway_appends() {
    let b = DoipDstScenarioBuilder::new(1, (), ())
        .with_gateway(
            GatewayNodeConfig::new(0x0E80, 0x0E05)
                .with_ecu(EcuNodeConfig::new(0x0001, 0x7E0, 0x7E8, 0x7DF))
                .with_ecu(EcuNodeConfig::new(0x0002, 0x7E2, 0x7EA, 0x7DF)),
        )
        .add_gateway(GatewayNodeConfig::new(0x0E81, 0x0E00))
        .add_gateway(GatewayNodeConfig::new(0x0E82, 0x0E00))
        .add_gateway(GatewayNodeConfig::new(0x0E83, 0x0E00))
        .add_gateway(GatewayNodeConfig::new(0x0E84, 0x0E00));
    let p = b.build_plan();
    assert_eq!(p.tester_address, 0x0E05);
    assert_eq!(p.gateways.len(), 4);
    assert_eq!(p.gateways[0].ecus.len(), 2);
    assert_eq!(p.gateways[3].logical_address, 0x0E83);
}

#[test]
fn fault_and_tick_settings_are_carried() {
    let cfg = DoipScenarioConfig {
        tcp_tick: Duration::from_millis(2),
        can_tick: Duration::from_micros(50),
        can_ticks_per_tcp: 40,
    };
    let p = DoipDstScenarioBuilder::new(7, 0u32, 0u32)
        .with_tcp_faults(3)
        .with_can_faults(9)
        .with_tick_config(cfg)
        .build_plan();
    assert_eq!(p.tcp_faults, 3);
    assert_eq!(p.can_faults, 9);
    assert_eq!(p.config.can_ticks_per_tcp, 40);
    assert_eq!(p.config.tcp_tick.as_micros(), 2_000);
}
