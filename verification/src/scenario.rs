//! Topology and timing of the DoIP -> gateway -> ISO-TP -> UDS simulation scenario.
//!
//! A scenario is one tester talking over a simulated TCP bus to up to four gateways,
//! each bridging to up to eight ECUs over a simulated CAN bus. The builder here
//! describes that topology; `build_plan` settles everything the simulation is then
//! wired from.

use vstd::prelude::*;
use crate::bounded::{
    ecu_list, ecu_list_new, ecu_list_push, gateway_list, gateway_list_clear, gateway_list_new,
    gateway_list_push, EcuList, GatewayList,
};
use crate::duration::Duration;

verus! {

/// Logical address of the tester in the default topology.
pub const TESTER_ADDR: u16 = 0x0E00;

/// Logical address of the gateway in the default topology.
pub const GATEWAY_ADDR: u16 = 0x0E80;

/// Logical address of the ECU in the default topology.
pub const DEFAULT_ECU: u16 = 0x0001;

/// CAN identifier the default ECU is addressed on (gateway -> ECU).
pub const DEFAULT_REQ_CAN_ID: u32 = 0x7E0;

/// CAN identifier the default ECU answers on (ECU -> gateway).
pub const DEFAULT_RESP_CAN_ID: u32 = 0x7E8;

/// Functional CAN identifier of the default ECU.
pub const DEFAULT_FUNC_CAN_ID: u32 = 0x7EF;

/// Routing activation type "default" (ISO 13400-2 activation type byte 0x00).
pub const DEFAULT_ACTIVATION_TYPE: u8 = 0x00;

/// How the tick of a scenario advances the two buses.
#[derive(Debug, Clone, Copy)]
pub struct DoipScenarioConfig {
    /// Duration of each TCP bus tick.
    pub tcp_tick: Duration,
    /// Duration of each CAN bus tick.
    pub can_tick: Duration,
    /// Number of CAN ticks per TCP tick.
    pub can_ticks_per_tcp: usize,
}

impl Default for DoipScenarioConfig {
    /// 1 ms TCP ticks, each followed by ten CAN ticks of 100 us.
    fn default() -> (r: Self)
        ensures
            r.tcp_tick@ == 1_000_000,
            r.can_tick@ == 100_000,
            r.can_ticks_per_tcp == 10,
    {
        DoipScenarioConfig {
            tcp_tick: Duration::from_millis(1),
            can_tick: Duration::from_micros(100),
            can_ticks_per_tcp: 10,
        }
    }
}

/// ISO-TP addressing mode of an ECU link.
#[derive(Debug, Clone, Copy, PartialEq, Eq)]
pub enum AddressingMode {
    Normal,
    Extended,
    Mixed,
}

/// One ECU behind a gateway.
#[derive(Debug, Clone, Copy)]
pub struct EcuNodeConfig {
    pub logical_address: u16,
    pub request_can_id: u32,
    pub response_can_id: u32,
    pub functional_can_id: u32,
    pub addressing_mode: AddressingMode,
}

impl EcuNodeConfig {
    /// An ECU with normal addressing.
    pub fn new(
        logical_address: u16,
        request_can_id: u32,
        response_can_id: u32,
        functional_can_id: u32,
    ) -> (r: Self)
        ensures
            r == (EcuNodeConfig {
                logical_address,
                request_can_id,
                response_can_id,
                functional_can_id,
                addressing_mode: AddressingMode::Normal,
            }),
    {
        EcuNodeConfig {
            logical_address,
            request_can_id,
            response_can_id,
            functional_can_id,
            addressing_mode: AddressingMode::Normal,
        }
    }

    /// The same ECU with addressing mode `mode`.
    pub fn with_addressing(self, mode: AddressingMode) -> (r: Self)
        ensures
            r == (EcuNodeConfig { addressing_mode: mode, ..self }),
    {
        let mut c = self;
        c.addressing_mode = mode;
        c
    }
}

/// A gateway configuration as plain values.
pub struct GatewayNodeView {
    pub logical_address: u16,
    pub tester_address: u16,
    pub activation_type: u8,
    pub ecus: Seq<EcuNodeConfig>,
}

/// One gateway and the ECUs behind it.
pub struct GatewayNodeConfig {
    pub logical_address: u16,
    pub tester_address: u16,
    /// Routing activation type the tester requests from this gateway.
    pub activation_type: u8,
    pub ecus: EcuList,
}

impl View for GatewayNodeConfig {
    type V = GatewayNodeView;

    open spec fn view(&self) -> GatewayNodeView {
        GatewayNodeView {
            logical_address: self.logical_address,
            tester_address: self.tester_address,
            activation_type: self.activation_type,
            ecus: ecu_list(self.ecus),
        }
    }
}

impl GatewayNodeConfig {
    /// A gateway with default activation and no ECUs.
    pub fn new(logical_address: u16, tester_address: u16) -> (r: Self)
        ensures
            r@ == (GatewayNodeView {
                logical_address,
                tester_address,
                activation_type: DEFAULT_ACTIVATION_TYPE,
                ecus: Seq::<EcuNodeConfig>::empty(),
            }),
    {
        GatewayNodeConfig {
            logical_address,
            tester_address,
            activation_type: DEFAULT_ACTIVATION_TYPE,
            ecus: ecu_list_new(),
        }
    }

    /// The same gateway with `ecu` added behind it; a gateway that already has eight
    /// ECUs is returned unchanged.
    pub fn with_ecu(self, ecu: EcuNodeConfig) -> (r: Self)
        ensures
            r@ == (GatewayNodeView {
                ecus: if self@.ecus.len() < 8 { self@.ecus.push(ecu) } else { self@.ecus },
                ..self@
            }),
            r@.ecus.len() <= 8,
    {
        let mut g = self;
        let _ = ecu_list_push(&mut g.ecus, ecu);
        g
    }

    /// The same gateway with activation type `t`.
    pub fn with_activation_type(self, t: u8) -> (r: Self)
        ensures
            r@ == (GatewayNodeView { activation_type: t, ..self@ }),
    {
        let mut g = self;
        g.activation_type = t;
        g
    }
}

/// Everything a scenario is wired from: bus seeds and faults, tick timing, the
/// tester's address and the gateways with their ECUs.
pub struct ScenarioPlan<F, G> {
    /// Seed of the TCP bus.
    pub tcp_seed: u64,
    /// Seed of the CAN bus.
    pub can_seed: u64,
    pub tcp_faults: F,
    pub can_faults: G,
    pub config: DoipScenarioConfig,
    /// Logical address of the tester.
    pub tester_address: u16,
    pub gateways: GatewayList,
}

/// Builder of a scenario; `F` and `G` are the TCP and CAN bus fault configurations,
/// which it only carries.
pub struct DoipDstScenarioBuilder<F, G> {
    seed: u64,
    tcp_faults: F,
    can_faults: G,
    tick_config: DoipScenarioConfig,
    gateways: GatewayList,
}

/// The gateway of the default topology: one ECU at `DEFAULT_ECU`.
pub open spec fn default_gateway_view() -> GatewayNodeView {
    GatewayNodeView {
        logical_address: GATEWAY_ADDR,
        tester_address: TESTER_ADDR,
        activation_type: DEFAULT_ACTIVATION_TYPE,
        ecus: seq![EcuNodeConfig {
            logical_address: DEFAULT_ECU,
            request_can_id: DEFAULT_REQ_CAN_ID,
            response_can_id: DEFAULT_RESP_CAN_ID,
            functional_can_id: DEFAULT_FUNC_CAN_ID,
            addressing_mode: AddressingMode::Normal,
        }],
    }
}

/// The default topology is what the plain constructors give: a gateway as
/// `GatewayNodeConfig::new(GATEWAY_ADDR, TESTER_ADDR)` returns it (default routing
/// activation), with one ECU added as `EcuNodeConfig::new` returns it for the default
/// addresses (normal ISO-TP addressing). For any gateway `g` and ECU `e` that those
/// constructors return, the default gateway equals `g` with `e` added.
pub proof fn law_default_topology_from_constructors(g: GatewayNodeView, e: EcuNodeConfig)
    requires
        g == (GatewayNodeView {
            logical_address: GATEWAY_ADDR,
            tester_address: TESTER_ADDR,
            activation_type: DEFAULT_ACTIVATION_TYPE,
            ecus: Seq::<EcuNodeConfig>::empty(),
        }),
        e == (EcuNodeConfig {
            logical_address: DEFAULT_ECU,
            request_can_id: DEFAULT_REQ_CAN_ID,
            response_can_id: DEFAULT_RESP_CAN_ID,
            functional_can_id: DEFAULT_FUNC_CAN_ID,
            addressing_mode: AddressingMode::Normal,
        }),
    ensures
        default_gateway_view() == (GatewayNodeView { ecus: g.ecus.push(e), ..g }),
        default_gateway_view().activation_type == DEFAULT_ACTIVATION_TYPE,
        default_gateway_view().ecus[0].addressing_mode == AddressingMode::Normal,
{
    assert(g.ecus.push(e) =~= seq![e]);
}

impl<F, G> DoipDstScenarioBuilder<F, G> {
    /// At most four gateways are configured.
    #[verifier::type_invariant]
    spec fn inv(self) -> bool {
        gateway_list(self.gateways).len() <= 4
    }

    pub closed spec fn seed(&self) -> u64 {
        self.seed
    }

    pub closed spec fn tcp_faults(&self) -> F {
        self.tcp_faults
    }

    pub closed spec fn can_faults(&self) -> G {
        self.can_faults
    }

    pub closed spec fn tick_config(&self) -> DoipScenarioConfig {
        self.tick_config
    }

    /// The configured gateways, in order.
    pub closed spec fn gateways(&self) -> Seq<GatewayNodeView> {
        gateway_list(self.gateways)
    }

    /// A builder with the default topology (one gateway, one ECU), default tick timing
    /// and the given fault-free bus configurations.
    pub fn new(seed: u64, no_tcp_faults: F, no_can_faults: G) -> (r: Self)
        ensures
            r.seed() == seed,
            r.tcp_faults() == no_tcp_faults,
            r.can_faults() == no_can_faults,
            r.tick_config().tcp_tick@ == 1_000_000,
            r.tick_config().can_tick@ == 100_000,
            r.tick_config().can_ticks_per_tcp == 10,
            r.gateways() == seq![default_gateway_view()],
            r.gateways().len() <= 4,
            r.gateways().len() == 1,
            r.gateways()[0].logical_address == GATEWAY_ADDR,
            r.gateways()[0].tester_address == TESTER_ADDR,
            r.gateways()[0].activation_type == DEFAULT_ACTIVATION_TYPE,
            r.gateways()[0].ecus.len() == 1,
            r.gateways()[0].ecus[0].logical_address == DEFAULT_ECU,
            r.gateways()[0].ecus[0].request_can_id == DEFAULT_REQ_CAN_ID,
            r.gateways()[0].ecus[0].response_can_id == DEFAULT_RESP_CAN_ID,
            r.gateways()[0].ecus[0].functional_can_id == DEFAULT_FUNC_CAN_ID,
            r.gateways()[0].ecus[0].addressing_mode == AddressingMode::Normal,
    {
        let default_gw = GatewayNodeConfig::new(GATEWAY_ADDR, TESTER_ADDR).with_ecu(
            EcuNodeConfig::new(DEFAULT_ECU, DEFAULT_REQ_CAN_ID, DEFAULT_RESP_CAN_ID, DEFAULT_FUNC_CAN_ID),
        );
        let mut gateways = gateway_list_new();
        let _ = gateway_list_push(&mut gateways, default_gw);
        assert(gateway_list(gateways)[0].ecus =~= default_gateway_view().ecus);
        assert(gateway_list(gateways) =~= seq![default_gateway_view()]);
        DoipDstScenarioBuilder {
            seed,
            tcp_faults: no_tcp_faults,
            can_faults: no_can_faults,
            tick_config: DoipScenarioConfig::default(),
            gateways,
        }
    }

    /// Replaces all gateways with `gw`.
    pub fn with_gateway(self, gw: GatewayNodeConfig) -> (r: Self)
        ensures
            r.gateways() == seq![gw@],
            r.gateways().len() <= 4,
            r.seed() == self.seed(),
            r.tcp_faults() == self.tcp_faults(),
            r.can_faults() == self.can_faults(),
            r.tick_config() == self.tick_config(),
    {
        let DoipDstScenarioBuilder { seed, tcp_faults, can_faults, tick_config, mut gateways } = self;
        gateway_list_clear(&mut gateways);
        let _ = gateway_list_push(&mut gateways, gw);
        assert(gateway_list(gateways) =~= seq![gw@]);
        DoipDstScenarioBuilder { seed, tcp_faults, can_faults, tick_config, gateways }
    }

    /// Adds `gw` after the gateways already configured; with four configured the
    /// builder is returned unchanged.
    pub fn add_gateway(self, gw: GatewayNodeConfig) -> (r: Self)
        ensures
            r.gateways() == if self.gateways().len() < 4 {
                self.gateways().push(gw@)
            } else {
                self.gateways()
            },
            r.gateways().len() <= 4,
            r.seed() == self.seed(),
            r.tcp_faults() == self.tcp_faults(),
            r.can_faults() == self.can_faults(),
            r.tick_config() == self.tick_config(),
    {
        let DoipDstScenarioBuilder { seed, tcp_faults, can_faults, tick_config, mut gateways } = self;
        let _ = gateway_list_push(&mut gateways, gw);
        DoipDstScenarioBuilder { seed, tcp_faults, can_faults, tick_config, gateways }
    }

    /// Uses `f` as the TCP bus fault configuration.
    pub fn with_tcp_faults(self, f: F) -> (r: Self)
        ensures
            r.tcp_faults() == f,
            r.seed() == self.seed(),
            r.can_faults() == self.can_faults(),
            r.tick_config() == self.tick_config(),
            r.gateways() == self.gateways(),
            r.gateways().len() <= 4,
    {
        proof { use_type_invariant(&self); }
        let DoipDstScenarioBuilder { seed, tcp_faults: _, can_faults, tick_config, gateways } = self;
        DoipDstScenarioBuilder { seed, tcp_faults: f, can_faults, tick_config, gateways }
    }

    /// Uses `f` as the CAN bus fault configuration.
    pub fn with_can_faults(self, f: G) -> (r: Self)
        ensures
            r.can_faults() == f,
            r.seed() == self.seed(),
            r.tcp_faults() == self.tcp_faults(),
            r.tick_config() == self.tick_config(),
            r.gateways() == self.gateways(),
            r.gateways().len() <= 4,
    {
        proof { use_type_invariant(&self); }
        let DoipDstScenarioBuilder { seed, tcp_faults, can_faults: _, tick_config, gateways } = self;
        DoipDstScenarioBuilder { seed, tcp_faults, can_faults: f, tick_config, gateways }
    }

    /// Uses `c` as the tick timing.
    pub fn with_tick_config(self, c: DoipScenarioConfig) -> (r: Self)
        ensures
            r.tick_config() == c,
            r.seed() == self.seed(),
            r.tcp_faults() == self.tcp_faults(),
            r.can_faults() == self.can_faults(),
            r.gateways() == self.gateways(),
            r.gateways().len() <= 4,
    {
        proof { use_type_invariant(&self); }
        let DoipDstScenarioBuilder { seed, tcp_faults, can_faults, tick_config: _, gateways } = self;
        DoipDstScenarioBuilder { seed, tcp_faults, can_faults, tick_config: c, gateways }
    }

    /// Settles the scenario: the TCP bus runs on the seed, the CAN bus on the seed plus
    /// one (wrapping), and the tester takes the tester address of the first gateway, or
    /// `TESTER_ADDR` when there is none.
    pub fn build_plan(self) -> (p: ScenarioPlan<F, G>)
        ensures
            p.tcp_seed == self.seed(),
            p.can_seed == (self.seed() + 1) % 0x1_0000_0000_0000_0000,
            p.tcp_faults == self.tcp_faults(),
            p.can_faults == self.can_faults(),
            p.config == self.tick_config(),
            p.tester_address == if self.gateways().len() > 0 {
                self.gateways()[0].tester_address
            } else {
                TESTER_ADDR
            },
            gateway_list(p.gateways) == self.gateways(),
            gateway_list(p.gateways).len() <= 4,
    {
        proof { use_type_invariant(&self); }
        let DoipDstScenarioBuilder { seed, tcp_faults, can_faults, tick_config, gateways } = self;
        let gws = crate::bounded::gateway_list_as_slice(&gateways);
        let tester_address: u16 = if gws.len() > 0 { gws[0].tester_address } else { TESTER_ADDR };
        let can_seed: u64 = seed.wrapping_add(1);
        ScenarioPlan {
            tcp_seed: seed,
            can_seed,
            tcp_faults,
            can_faults,
            config: tick_config,
            tester_address,
            gateways,
        }
    }
}

} // verus!
