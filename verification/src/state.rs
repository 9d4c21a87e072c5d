//! Stored device state and the decisions around it.
//!
//! A [`DeviceState`] is the caller's full picture of one machine: its
//! performance choice, lighting, battery-care ceiling and fan choice.
//! This module holds every decision over such states: which request
//! packets applying a state issues and in what order, how a state
//! answers a user event, how the next performance mode is cycled, and —
//! through [`StateReader`] — which queries a full state read issues and
//! how their responses assemble back into a state. The caller only moves
//! packets across the transport.

use vstd::prelude::*;

use crate::command::{
    get_battery_care_request, get_boost_request, get_fan_actual_rpm_request, get_fan_rpm_request,
    get_keyboard_brightness_request, get_lights_always_on_request, get_logo_mode_request,
    get_perf_mode_request, parse_battery_care, parse_cpu_boost, parse_fan_actual_rpm,
    parse_fan_rpm, parse_gpu_boost, parse_keyboard_brightness, parse_lights_always_on,
    parse_logo_mode, parse_perf_mode, set_battery_care_request, set_cpu_boost_request,
    set_fan_mode_request, set_fan_rpm_request, set_gpu_boost_request,
    set_keyboard_brightness_request, set_lights_always_on_request, set_logo_mode_request,
    set_perf_mode_request, spec_perf_mode_allowed, spec_request4, CLASS_LIGHT, CLASS_PERF,
    CLASS_POWER, CMD_BATTERY_CARE, CMD_BOOST, CMD_BRIGHTNESS, CMD_FAN_ACTUAL_RPM, CMD_FAN_RPM,
    CMD_LIGHTS_ALWAYS_ON, CMD_LOGO_MODE, CMD_PERF_MODE, READ_FLAG, WRITE_FLAG,
};
use crate::descriptor::Descriptor;
use crate::error::Error;
use crate::packet::{Packet, PacketModel};
use crate::types::{
    self, BatteryCare, Cluster, CpuBoost, FanMode, FanZone, GpuBoost, LightsAlwaysOn, LogoMode,
};

verus! {

/// Fan choice of a stored state: firmware control or a pinned target.
#[derive(Clone, Copy, Debug, PartialEq, Eq, Structural)]
pub enum FanSpeed {
    Auto,
    Manual(u16),
}

/// Performance choice of a stored state; the custom mode carries its two
/// boost steps.
#[derive(Clone, Copy, Debug, PartialEq, Eq, Structural)]
pub enum PerfMode {
    Battery,
    Silent,
    Balanced,
    Performance,
    Hyperboost,
    Custom(CpuBoost, GpuBoost),
}

impl PerfMode {
    /// The wire-level performance mode this choice selects.
    pub open spec fn spec_wire_mode(self) -> types::PerfMode {
        match self {
            PerfMode::Battery => types::PerfMode::Battery,
            PerfMode::Silent => types::PerfMode::Silent,
            PerfMode::Balanced => types::PerfMode::Balanced,
            PerfMode::Performance => types::PerfMode::Performance,
            PerfMode::Hyperboost => types::PerfMode::Hyperboost,
            PerfMode::Custom(_, _) => types::PerfMode::Custom,
        }
    }

    /// Maps this choice to the wire-level performance mode.
    pub fn wire_mode(self) -> (r: types::PerfMode)
        ensures
            r == self.spec_wire_mode(),
    {
        match self {
            PerfMode::Battery => types::PerfMode::Battery,
            PerfMode::Silent => types::PerfMode::Silent,
            PerfMode::Balanced => types::PerfMode::Balanced,
            PerfMode::Performance => types::PerfMode::Performance,
            PerfMode::Hyperboost => types::PerfMode::Hyperboost,
            PerfMode::Custom(_, _) => types::PerfMode::Custom,
        }
    }
}

/// Lighting part of a stored state.
#[derive(Clone, Copy, Debug, PartialEq, Eq, Structural)]
pub struct LightsMode {
    pub logo_mode: LogoMode,
    pub keyboard_brightness: u8,
    pub always_on: LightsAlwaysOn,
}

/// One measured fan-speed snapshot, both zones.
#[derive(Clone, Copy, Debug, PartialEq, Eq, Structural)]
pub struct FanRpm {
    pub fan1: u16,
    pub fan2: u16,
}

/// The caller's full picture of one machine.
#[derive(Clone, Copy, Debug, PartialEq, Eq, Structural)]
pub struct DeviceState {
    pub perf_mode: PerfMode,
    pub lights_mode: LightsMode,
    pub battery_care: BatteryCare,
    pub fan_speed: FanSpeed,
}

impl DeviceState {
    /// A state can reach the wire when a pinned fan target fits the
    /// one-byte encoding of hundreds of revolutions per minute.
    pub open spec fn spec_wf(self) -> bool {
        match self.fan_speed {
            FanSpeed::Manual(rpm) => rpm / 100 <= 255,
            FanSpeed::Auto => true,
        }
    }

    /// The state after nudging the custom boost steps: an already custom
    /// state keeps whichever step is not replaced; any other state moves
    /// to the custom mode with the replaced steps over its defaults.
    pub open spec fn spec_perf_delta(
        self,
        cpu_boost: Option<CpuBoost>,
        gpu_boost: Option<GpuBoost>,
    ) -> DeviceState {
        let (base_cpu, base_gpu) = match self.perf_mode {
            PerfMode::Custom(cb, gb) => (cb, gb),
            _ => (CpuBoost::Boost, GpuBoost::High),
        };
        DeviceState {
            perf_mode: PerfMode::Custom(
                match cpu_boost {
                    Option::Some(cb) => cb,
                    Option::None => base_cpu,
                },
                match gpu_boost {
                    Option::Some(gb) => gb,
                    Option::None => base_gpu,
                },
            ),
            ..self
        }
    }

    /// Moves the state into the custom mode, replacing the given boost
    /// steps and keeping everything else.
    pub fn perf_delta(&self, cpu_boost: Option<CpuBoost>, gpu_boost: Option<GpuBoost>) -> (r:
        DeviceState)
        ensures
            r == self.spec_perf_delta(cpu_boost, gpu_boost),
    {
        let (base_cpu, base_gpu) = match self.perf_mode {
            PerfMode::Custom(cb, gb) => (cb, gb),
            _ => (CpuBoost::Boost, GpuBoost::High),
        };
        DeviceState {
            perf_mode: PerfMode::Custom(
                match cpu_boost {
                    Some(cb) => cb,
                    None => base_cpu,
                },
                match gpu_boost {
                    Some(gb) => gb,
                    None => base_gpu,
                },
            ),
            ..*self
        }
    }

    /// The performance choice one step further along the cycle the tray
    /// click walks through.
    pub open spec fn spec_next_perf_mode(self) -> DeviceState {
        DeviceState {
            perf_mode: match self.perf_mode {
                PerfMode::Battery => PerfMode::Silent,
                PerfMode::Silent => PerfMode::Balanced,
                PerfMode::Balanced => PerfMode::Performance,
                PerfMode::Performance => PerfMode::Hyperboost,
                PerfMode::Hyperboost => PerfMode::Custom(CpuBoost::Boost, GpuBoost::High),
                PerfMode::Custom(_, _) => PerfMode::Battery,
            },
            ..self
        }
    }

    /// Cycles to the next performance choice, keeping everything else.
    pub fn get_next_perf_mode(&self) -> (r: DeviceState)
        ensures
            r == self.spec_next_perf_mode(),
    {
        DeviceState {
            perf_mode: match self.perf_mode {
                PerfMode::Battery => PerfMode::Silent,
                PerfMode::Silent => PerfMode::Balanced,
                PerfMode::Balanced => PerfMode::Performance,
                PerfMode::Performance => PerfMode::Hyperboost,
                PerfMode::Hyperboost => PerfMode::Custom(CpuBoost::Boost, GpuBoost::High),
                PerfMode::Custom(_, _) => PerfMode::Battery,
            },
            ..*self
        }
    }
}

/// The state a fresh configuration starts from.
pub open spec fn spec_default_device_state() -> DeviceState {
    DeviceState {
        perf_mode: PerfMode::Performance,
        lights_mode: LightsMode {
            logo_mode: LogoMode::Off,
            keyboard_brightness: 0,
            always_on: LightsAlwaysOn::Disable,
        },
        battery_care: BatteryCare::Percent80,
        fan_speed: FanSpeed::Auto,
    }
}

impl Default for DeviceState {
    /// Performance mode, lights off and dark, an eighty percent charge
    /// ceiling, firmware-controlled fans.
    fn default() -> (r: Self)
        ensures
            r == spec_default_device_state(),
    {
        DeviceState {
            perf_mode: PerfMode::Performance,
            lights_mode: LightsMode {
                logo_mode: LogoMode::Off,
                keyboard_brightness: 0,
                always_on: LightsAlwaysOn::Disable,
            },
            battery_care: BatteryCare::Percent80,
            fan_speed: FanSpeed::Auto,
        }
    }
}

/// The stored states for the two power sources.
#[derive(Clone, Copy, Debug, PartialEq, Eq, Structural)]
pub struct ConfigState {
    pub ac_state: DeviceState,
    pub battery_state: DeviceState,
}

impl Default for ConfigState {
    /// The default state on wall power; the same with the battery
    /// performance choice on battery.
    fn default() -> (r: Self)
        ensures
            r.ac_state == spec_default_device_state(),
            r.battery_state == (DeviceState {
                perf_mode: PerfMode::Battery,
                ..spec_default_device_state()
            }),
    {
        ConfigState {
            ac_state: DeviceState::default(),
            battery_state: DeviceState { perf_mode: PerfMode::Battery, ..DeviceState::default() },
        }
    }
}

/// One user decision over a stored state.
#[derive(Clone, Copy, Debug, PartialEq, Eq, Structural)]
pub enum StateEvent {
    /// Select a non-custom performance choice.
    SelectPerf(types::PerfMode),
    /// Move to the custom mode with this CPU boost step.
    SelectCpuBoost(CpuBoost),
    /// Move to the custom mode with this GPU boost step.
    SelectGpuBoost(GpuBoost),
    /// Return the fans to firmware control.
    SelectFanAuto,
    /// Pin the fan target.
    SelectFanRpm(u16),
    /// Select the lid-logo lighting mode.
    SelectLogoMode(LogoMode),
    /// Flip the lights-always-on switch.
    ToggleLightsAlwaysOn,
    /// Set the keyboard backlight brightness.
    SelectBrightness(u8),
    /// Flip battery care between the eighty percent ceiling and none.
    ToggleBatteryCare,
}

/// The state a user event moves a stored state to. Selecting the custom
/// wire mode as a plain performance choice nudges into the custom mode
/// with default boost steps.
pub open spec fn spec_next_state(s: DeviceState, e: StateEvent) -> DeviceState {
    match e {
        StateEvent::SelectPerf(m) => match m {
            types::PerfMode::Battery => DeviceState { perf_mode: PerfMode::Battery, ..s },
            types::PerfMode::Silent => DeviceState { perf_mode: PerfMode::Silent, ..s },
            types::PerfMode::Balanced => DeviceState { perf_mode: PerfMode::Balanced, ..s },
            types::PerfMode::Performance => DeviceState { perf_mode: PerfMode::Performance, ..s },
            types::PerfMode::Hyperboost => DeviceState { perf_mode: PerfMode::Hyperboost, ..s },
            types::PerfMode::Custom => s.spec_perf_delta(None, None),
        },
        StateEvent::SelectCpuBoost(cb) => s.spec_perf_delta(Some(cb), None),
        StateEvent::SelectGpuBoost(gb) => s.spec_perf_delta(None, Some(gb)),
        StateEvent::SelectFanAuto => DeviceState { fan_speed: FanSpeed::Auto, ..s },
        StateEvent::SelectFanRpm(rpm) => DeviceState { fan_speed: FanSpeed::Manual(rpm), ..s },
        StateEvent::SelectLogoMode(m) => DeviceState {
            lights_mode: LightsMode { logo_mode: m, ..s.lights_mode },
            ..s
        },
        StateEvent::ToggleLightsAlwaysOn => DeviceState {
            lights_mode: LightsMode {
                always_on: match s.lights_mode.always_on {
                    LightsAlwaysOn::Enable => LightsAlwaysOn::Disable,
                    LightsAlwaysOn::Disable => LightsAlwaysOn::Enable,
                },
                ..s.lights_mode
            },
            ..s
        },
        StateEvent::SelectBrightness(b) => DeviceState {
            lights_mode: LightsMode { keyboard_brightness: b, ..s.lights_mode },
            ..s
        },
        StateEvent::ToggleBatteryCare => DeviceState {
            battery_care: match s.battery_care {
                BatteryCare::Disable => BatteryCare::Percent80,
                _ => BatteryCare::Disable,
            },
            ..s
        },
    }
}

/// Applies one user event to a stored state.
pub fn next_state(s: &DeviceState, e: StateEvent) -> (r: DeviceState)
    ensures
        r == spec_next_state(*s, e),
{
    match e {
        StateEvent::SelectPerf(m) => match m {
            types::PerfMode::Battery => DeviceState { perf_mode: PerfMode::Battery, ..*s },
            types::PerfMode::Silent => DeviceState { perf_mode: PerfMode::Silent, ..*s },
            types::PerfMode::Balanced => DeviceState { perf_mode: PerfMode::Balanced, ..*s },
            types::PerfMode::Performance => DeviceState {
                perf_mode: PerfMode::Performance,
                ..*s
            },
            types::PerfMode::Hyperboost => DeviceState { perf_mode: PerfMode::Hyperboost, ..*s },
            types::PerfMode::Custom => s.perf_delta(None, None),
        },
        StateEvent::SelectCpuBoost(cb) => s.perf_delta(Some(cb), None),
        StateEvent::SelectGpuBoost(gb) => s.perf_delta(None, Some(gb)),
        StateEvent::SelectFanAuto => DeviceState { fan_speed: FanSpeed::Auto, ..*s },
        StateEvent::SelectFanRpm(rpm) => DeviceState { fan_speed: FanSpeed::Manual(rpm), ..*s },
        StateEvent::SelectLogoMode(m) => DeviceState {
            lights_mode: LightsMode { logo_mode: m, ..s.lights_mode },
            ..*s
        },
        StateEvent::ToggleLightsAlwaysOn => DeviceState {
            lights_mode: LightsMode {
                always_on: match s.lights_mode.always_on {
                    LightsAlwaysOn::Enable => LightsAlwaysOn::Disable,
                    LightsAlwaysOn::Disable => LightsAlwaysOn::Enable,
                },
                ..s.lights_mode
            },
            ..*s
        },
        StateEvent::SelectBrightness(b) => DeviceState {
            lights_mode: LightsMode { keyboard_brightness: b, ..s.lights_mode },
            ..*s
        },
        StateEvent::ToggleBatteryCare => DeviceState {
            battery_care: match s.battery_care {
                BatteryCare::Disable => BatteryCare::Percent80,
                _ => BatteryCare::Disable,
            },
            ..*s
        },
    }
}

/// The requests that applying the performance part of a state issues.
pub open spec fn spec_perf_requests(s: DeviceState) -> Seq<PacketModel> {
    let set_perf = spec_request4(
        CLASS_PERF,
        CMD_PERF_MODE,
        WRITE_FLAG,
        0x01,
        s.perf_mode.spec_wire_mode().spec_code(),
        FanMode::Auto.spec_code(),
    );
    match s.perf_mode {
        PerfMode::Custom(cb, gb) => seq![
            set_perf,
            spec_request4(
                CLASS_PERF,
                CMD_BOOST,
                WRITE_FLAG,
                Cluster::Cpu.spec_code(),
                cb.spec_code(),
                0,
            ),
            spec_request4(
                CLASS_PERF,
                CMD_BOOST,
                WRITE_FLAG,
                Cluster::Gpu.spec_code(),
                gb.spec_code(),
                0,
            ),
        ],
        _ => seq![set_perf],
    }
}

/// The requests that applying the fan part of a state issues.
pub open spec fn spec_fan_requests(s: DeviceState) -> Seq<PacketModel> {
    match s.fan_speed {
        FanSpeed::Auto => seq![
            spec_request4(
                CLASS_PERF,
                CMD_PERF_MODE,
                WRITE_FLAG,
                0x01,
                s.perf_mode.spec_wire_mode().spec_code(),
                FanMode::Auto.spec_code(),
            ),
        ],
        FanSpeed::Manual(rpm) => seq![
            spec_request4(
                CLASS_PERF,
                CMD_PERF_MODE,
                WRITE_FLAG,
                0x01,
                s.perf_mode.spec_wire_mode().spec_code(),
                FanMode::Manual.spec_code(),
            ),
            spec_request4(
                CLASS_PERF,
                CMD_FAN_RPM,
                WRITE_FLAG,
                FanZone::Zone1.spec_code(),
                (rpm / 100) as u8,
                0,
            ),
            spec_request4(
                CLASS_PERF,
                CMD_FAN_RPM,
                WRITE_FLAG,
                FanZone::Zone2.spec_code(),
                (rpm / 100) as u8,
                0,
            ),
        ],
    }
}

/// The requests that applying the lighting and battery parts of a state
/// issues.
pub open spec fn spec_lights_battery_requests(s: DeviceState) -> Seq<PacketModel> {
    seq![
        spec_request4(
            CLASS_LIGHT,
            CMD_LOGO_MODE,
            WRITE_FLAG,
            0x01,
            s.lights_mode.logo_mode.spec_code(),
            0,
        ),
        spec_request4(
            CLASS_LIGHT,
            CMD_BRIGHTNESS,
            WRITE_FLAG,
            0x01,
            s.lights_mode.keyboard_brightness,
            0,
        ),
        spec_request4(
            CLASS_LIGHT,
            CMD_LIGHTS_ALWAYS_ON,
            WRITE_FLAG,
            0x01,
            s.lights_mode.always_on.spec_code(),
            0,
        ),
        spec_request4(
            CLASS_POWER,
            CMD_BATTERY_CARE,
            WRITE_FLAG,
            0x01,
            s.battery_care.spec_code(),
            0,
        ),
    ]
}

/// Every request that applying a state issues, in order: performance,
/// fans, lighting, battery care.
pub open spec fn spec_apply_requests(s: DeviceState) -> Seq<PacketModel> {
    spec_perf_requests(s) + spec_fan_requests(s) + spec_lights_battery_requests(s)
}

/// The ordered request packets that bring a machine to a stored state.
/// The caller exchanges them one by one, confirming success of each.
/// Fails with [`Error::UnsupportedForModel`], before any request is
/// built, exactly when the descriptor's restriction refuses the state's
/// wire-level performance mode.
pub fn apply_requests(s: &DeviceState, d: &Descriptor) -> (r: Result<Vec<Packet>, Error>)
    requires
        s.spec_wf(),
    ensures
        r matches Ok(v) ==> spec_perf_mode_allowed(d@, s.perf_mode.spec_wire_mode())
            && v@.map_values(|p: Packet| p@) == spec_apply_requests(*s),
        r matches Err(e) ==> e == Error::UnsupportedForModel && !spec_perf_mode_allowed(
            d@,
            s.perf_mode.spec_wire_mode(),
        ),
        spec_perf_mode_allowed(d@, s.perf_mode.spec_wire_mode()) ==> r is Ok,
{
    let mut v: Vec<Packet> = Vec::new();
    let first = set_perf_mode_request(d, s.perf_mode.wire_mode())?;
    v.push(first);
    match s.perf_mode {
        PerfMode::Custom(cb, gb) => {
            v.push(set_cpu_boost_request(cb));
            v.push(set_gpu_boost_request(gb));
        }
        _ => {}
    }
    match s.fan_speed {
        FanSpeed::Auto => {
            v.push(set_fan_mode_request(s.perf_mode.wire_mode(), FanMode::Auto));
        }
        FanSpeed::Manual(rpm) => {
            v.push(set_fan_mode_request(s.perf_mode.wire_mode(), FanMode::Manual));
            v.push(set_fan_rpm_request(FanZone::Zone1, rpm));
            v.push(set_fan_rpm_request(FanZone::Zone2, rpm));
        }
    }
    v.push(set_logo_mode_request(s.lights_mode.logo_mode));
    v.push(set_keyboard_brightness_request(s.lights_mode.keyboard_brightness));
    v.push(set_lights_always_on_request(s.lights_mode.always_on));
    v.push(set_battery_care_request(s.battery_care));
    proof {
        assert(v@.map_values(|p: Packet| p@) =~= spec_apply_requests(*s));
    }
    Ok(v)
}

/// The two read requests of a fan-speed snapshot, one per zone.
pub fn fan_rpm_requests() -> (r: (Packet, Packet))
    ensures
        r.0@ == spec_request4(
            CLASS_PERF,
            CMD_FAN_ACTUAL_RPM,
            READ_FLAG,
            FanZone::Zone1.spec_code(),
            0,
            0,
        ),
        r.1@ == spec_request4(
            CLASS_PERF,
            CMD_FAN_ACTUAL_RPM,
            READ_FLAG,
            FanZone::Zone2.spec_code(),
            0,
            0,
        ),
{
    (get_fan_actual_rpm_request(FanZone::Zone1), get_fan_actual_rpm_request(FanZone::Zone2))
}

/// Assembles a fan-speed snapshot from the two zone responses.
pub fn fan_rpm_from_responses(zone1: &Packet, zone2: &Packet) -> (r: FanRpm)
    ensures
        r.fan1 == zone1@.args[2] * 256 + zone1@.args[3],
        r.fan2 == zone2@.args[2] * 256 + zone2@.args[3],
{
    FanRpm { fan1: parse_fan_actual_rpm(zone1), fan2: parse_fan_actual_rpm(zone2) }
}

/// The decoded performance/fan pair of a perf-mode response, when both
/// bytes are in their variant sets.
pub open spec fn spec_perf_pair(perf_byte: u8, fan_byte: u8) -> Option<
    (types::PerfMode, FanMode),
> {
    match (types::PerfMode::spec_from_code(perf_byte), FanMode::spec_from_code(fan_byte)) {
        (Option::Some(pm), Option::Some(fm)) => Some((pm, fm)),
        _ => None,
    }
}

/// One query of a full state read.
#[derive(Clone, Copy, Debug, PartialEq, Eq, Structural)]
pub enum StateQuery {
    QueryPerfMode,
    QueryCpuBoost,
    QueryGpuBoost,
    QueryFanRpm,
    QueryLogoMode,
    QueryBrightness,
    QueryLightsAlwaysOn,
    QueryBatteryCare,
}

/// Drives a full state read: issues queries one at a time, branching on
/// what earlier answers showed — the boost steps are read only in the
/// custom mode, the fan target only under manual fan control.
pub struct StateReader {
    pub perf: Option<(types::PerfMode, FanMode)>,
    pub cpu: Option<CpuBoost>,
    pub gpu: Option<GpuBoost>,
    pub rpm: Option<u16>,
    pub logo: Option<LogoMode>,
    pub brightness: Option<u8>,
    pub always_on: Option<LightsAlwaysOn>,
    pub battery: Option<BatteryCare>,
}

impl StateReader {
    /// Whether the custom boost steps still have to be read.
    pub open spec fn spec_needs_cpu(self) -> bool {
        match self.perf {
            Option::Some((pm, _)) => pm == types::PerfMode::Custom && self.cpu is None,
            Option::None => false,
        }
    }

    /// Whether the custom GPU boost step still has to be read.
    pub open spec fn spec_needs_gpu(self) -> bool {
        match self.perf {
            Option::Some((pm, _)) => pm == types::PerfMode::Custom && self.gpu is None,
            Option::None => false,
        }
    }

    /// Whether the pinned fan target still has to be read.
    pub open spec fn spec_needs_rpm(self) -> bool {
        match self.perf {
            Option::Some((_, fm)) => fm == FanMode::Manual && self.rpm is None,
            Option::None => false,
        }
    }

    /// The next query a full read issues, in a fixed order with the two
    /// conditional detours; `None` when the read is complete.
    pub open spec fn spec_next_query(self) -> Option<StateQuery> {
        if self.perf is None {
            Some(StateQuery::QueryPerfMode)
        } else if self.spec_needs_cpu() {
            Some(StateQuery::QueryCpuBoost)
        } else if self.spec_needs_gpu() {
            Some(StateQuery::QueryGpuBoost)
        } else if self.spec_needs_rpm() {
            Some(StateQuery::QueryFanRpm)
        } else if self.logo is None {
            Some(StateQuery::QueryLogoMode)
        } else if self.brightness is None {
            Some(StateQuery::QueryBrightness)
        } else if self.always_on is None {
            Some(StateQuery::QueryLightsAlwaysOn)
        } else if self.battery is None {
            Some(StateQuery::QueryBatteryCare)
        } else {
            None
        }
    }

    /// Starts a full state read.
    pub fn begin() -> (s: Self)
        ensures
            s == (StateReader {
                perf: None::<(types::PerfMode, FanMode)>,
                cpu: None::<CpuBoost>,
                gpu: None::<GpuBoost>,
                rpm: None::<u16>,
                logo: None::<LogoMode>,
                brightness: None::<u8>,
                always_on: None::<LightsAlwaysOn>,
                battery: None::<BatteryCare>,
            }),
    {
        StateReader {
            perf: None,
            cpu: None,
            gpu: None,
            rpm: None,
            logo: None,
            brightness: None,
            always_on: None,
            battery: None,
        }
    }

    /// The next query to issue, or `None` when the read is complete.
    pub fn next_query(&self) -> (r: Option<StateQuery>)
        ensures
            r == self.spec_next_query(),
    {
        if self.perf.is_none() {
            Some(StateQuery::QueryPerfMode)
        } else if matches!(self.perf, Some((types::PerfMode::Custom, _))) && self.cpu.is_none() {
            Some(StateQuery::QueryCpuBoost)
        } else if matches!(self.perf, Some((types::PerfMode::Custom, _))) && self.gpu.is_none() {
            Some(StateQuery::QueryGpuBoost)
        } else if matches!(self.perf, Some((_, FanMode::Manual))) && self.rpm.is_none() {
            Some(StateQuery::QueryFanRpm)
        } else if self.logo.is_none() {
            Some(StateQuery::QueryLogoMode)
        } else if self.brightness.is_none() {
            Some(StateQuery::QueryBrightness)
        } else if self.always_on.is_none() {
            Some(StateQuery::QueryLightsAlwaysOn)
        } else if self.battery.is_none() {
            Some(StateQuery::QueryBatteryCare)
        } else {
            None
        }
    }

    /// The request packet of one query.
    pub fn query_request(q: StateQuery) -> (r: Packet)
        ensures
            r@ == match q {
                StateQuery::QueryPerfMode => spec_request4(
                    CLASS_PERF,
                    CMD_PERF_MODE,
                    READ_FLAG,
                    0x01,
                    0,
                    0,
                ),
                StateQuery::QueryCpuBoost => spec_request4(
                    CLASS_PERF,
                    CMD_BOOST,
                    READ_FLAG,
                    Cluster::Cpu.spec_code(),
                    0,
                    0,
                ),
                StateQuery::QueryGpuBoost => spec_request4(
                    CLASS_PERF,
                    CMD_BOOST,
                    READ_FLAG,
                    Cluster::Gpu.spec_code(),
                    0,
                    0,
                ),
                StateQuery::QueryFanRpm => spec_request4(
                    CLASS_PERF,
                    CMD_FAN_RPM,
                    READ_FLAG,
                    FanZone::Zone1.spec_code(),
                    0,
                    0,
                ),
                StateQuery::QueryLogoMode => spec_request4(
                    CLASS_LIGHT,
                    CMD_LOGO_MODE,
                    READ_FLAG,
                    0x01,
                    0,
                    0,
                ),
                StateQuery::QueryBrightness => spec_request4(
                    CLASS_LIGHT,
                    CMD_BRIGHTNESS,
                    READ_FLAG,
                    0x01,
                    0,
                    0,
                ),
                StateQuery::QueryLightsAlwaysOn => spec_request4(
                    CLASS_LIGHT,
                    CMD_LIGHTS_ALWAYS_ON,
                    READ_FLAG,
                    0x01,
                    0,
                    0,
                ),
                StateQuery::QueryBatteryCare => spec_request4(
                    CLASS_POWER,
                    CMD_BATTERY_CARE,
                    READ_FLAG,
                    0x01,
                    0,
                    0,
                ),
            },
    {
        match q {
            StateQuery::QueryPerfMode => get_perf_mode_request(),
            StateQuery::QueryCpuBoost => get_boost_request(Cluster::Cpu),
            StateQuery::QueryGpuBoost => get_boost_request(Cluster::Gpu),
            StateQuery::QueryFanRpm => get_fan_rpm_request(FanZone::Zone1),
            StateQuery::QueryLogoMode => get_logo_mode_request(),
            StateQuery::QueryBrightness => get_keyboard_brightness_request(),
            StateQuery::QueryLightsAlwaysOn => get_lights_always_on_request(),
            StateQuery::QueryBatteryCare => get_battery_care_request(),
        }
    }

    /// Feeds the response of one query back, filling exactly that
    /// query's slot. It fails, with [`Error::InvalidEnumValue`] and the
    /// reader unchanged, exactly when the queried byte is outside its
    /// enumeration's variant set; on every other response it succeeds.
    pub fn feed(&mut self, q: StateQuery, resp: &Packet) -> (r: Result<(), Error>)
        ensures
            r is Err <==> match q {
                StateQuery::QueryPerfMode => spec_perf_pair(resp@.args[2], resp@.args[3])
                    is None,
                StateQuery::QueryCpuBoost => CpuBoost::spec_from_code(resp@.args[2]) is None,
                StateQuery::QueryGpuBoost => GpuBoost::spec_from_code(resp@.args[2]) is None,
                StateQuery::QueryFanRpm => false,
                StateQuery::QueryLogoMode => LogoMode::spec_from_code(resp@.args[2]) is None,
                StateQuery::QueryBrightness => false,
                StateQuery::QueryLightsAlwaysOn => LightsAlwaysOn::spec_from_code(
                    resp@.args[2],
                ) is None,
                StateQuery::QueryBatteryCare => BatteryCare::spec_from_code(resp@.args[2])
                    is None,
            },
            r is Ok ==> *final(self) == match q {
                StateQuery::QueryPerfMode => StateReader {
                    perf: spec_perf_pair(resp@.args[2], resp@.args[3]),
                    ..*old(self)
                },
                StateQuery::QueryCpuBoost => StateReader {
                    cpu: CpuBoost::spec_from_code(resp@.args[2]),
                    ..*old(self)
                },
                StateQuery::QueryGpuBoost => StateReader {
                    gpu: GpuBoost::spec_from_code(resp@.args[2]),
                    ..*old(self)
                },
                StateQuery::QueryFanRpm => StateReader {
                    rpm: Some((resp@.args[2] * 100) as u16),
                    ..*old(self)
                },
                StateQuery::QueryLogoMode => StateReader {
                    logo: LogoMode::spec_from_code(resp@.args[2]),
                    ..*old(self)
                },
                StateQuery::QueryBrightness => StateReader {
                    brightness: Some(resp@.args[2]),
                    ..*old(self)
                },
                StateQuery::QueryLightsAlwaysOn => StateReader {
                    always_on: LightsAlwaysOn::spec_from_code(resp@.args[2]),
                    ..*old(self)
                },
                StateQuery::QueryBatteryCare => StateReader {
                    battery: BatteryCare::spec_from_code(resp@.args[2]),
                    ..*old(self)
                },
            },
            r matches Err(e) ==> *final(self) == *old(self) && e matches Error::InvalidEnumValue {
                ..
            },
    {
        match q {
            StateQuery::QueryPerfMode => {
                let (pm, fm) = parse_perf_mode(resp)?;
                self.perf = Some((pm, fm));
            }
            StateQuery::QueryCpuBoost => {
                let b = parse_cpu_boost(resp)?;
                self.cpu = Some(b);
            }
            StateQuery::QueryGpuBoost => {
                let b = parse_gpu_boost(resp)?;
                self.gpu = Some(b);
            }
            StateQuery::QueryFanRpm => {
                self.rpm = Some(parse_fan_rpm(resp));
            }
            StateQuery::QueryLogoMode => {
                let m = parse_logo_mode(resp)?;
                self.logo = Some(m);
            }
            StateQuery::QueryBrightness => {
                self.brightness = Some(parse_keyboard_brightness(resp));
            }
            StateQuery::QueryLightsAlwaysOn => {
                let m = parse_lights_always_on(resp)?;
                self.always_on = Some(m);
            }
            StateQuery::QueryBatteryCare => {
                let m = parse_battery_care(resp)?;
                self.battery = Some(m);
            }
        }
        Ok(())
    }

    /// The state a completed read assembles to.
    pub open spec fn spec_assembled(self) -> DeviceState {
        let (pm, fm) = match self.perf {
            Option::Some(x) => x,
            Option::None => (types::PerfMode::Balanced, FanMode::Auto),
        };
        DeviceState {
            perf_mode: match pm {
                types::PerfMode::Battery => PerfMode::Battery,
                types::PerfMode::Silent => PerfMode::Silent,
                types::PerfMode::Balanced => PerfMode::Balanced,
                types::PerfMode::Performance => PerfMode::Performance,
                types::PerfMode::Hyperboost => PerfMode::Hyperboost,
                types::PerfMode::Custom => PerfMode::Custom(
                    match self.cpu {
                        Option::Some(b) => b,
                        Option::None => CpuBoost::Boost,
                    },
                    match self.gpu {
                        Option::Some(b) => b,
                        Option::None => GpuBoost::High,
                    },
                ),
            },
            lights_mode: LightsMode {
                logo_mode: match self.logo {
                    Option::Some(m) => m,
                    Option::None => LogoMode::Off,
                },
                keyboard_brightness: match self.brightness {
                    Option::Some(b) => b,
                    Option::None => 0,
                },
                always_on: match self.always_on {
                    Option::Some(m) => m,
                    Option::None => LightsAlwaysOn::Disable,
                },
            },
            battery_care: match self.battery {
                Option::Some(m) => m,
                Option::None => BatteryCare::Percent80,
            },
            fan_speed: match self.perf {
                Option::Some((_, FanMode::Manual)) => FanSpeed::Manual(
                    match self.rpm {
                        Option::Some(rpm) => rpm,
                        Option::None => 0,
                    },
                ),
                _ => FanSpeed::Auto,
            },
        }
    }

    /// Assembles the state once every query is answered.
    pub fn finish(&self) -> (r: DeviceState)
        requires
            self.spec_next_query() is None,
        ensures
            r == self.spec_assembled(),
    {
        let (pm, fm) = match self.perf {
            Some(x) => x,
            None => (types::PerfMode::Balanced, FanMode::Auto),
        };
        let perf_mode = match pm {
            types::PerfMode::Battery => PerfMode::Battery,
            types::PerfMode::Silent => PerfMode::Silent,
            types::PerfMode::Balanced => PerfMode::Balanced,
            types::PerfMode::Performance => PerfMode::Performance,
            types::PerfMode::Hyperboost => PerfMode::Hyperboost,
            types::PerfMode::Custom => PerfMode::Custom(
                match self.cpu {
                    Some(b) => b,
                    None => CpuBoost::Boost,
                },
                match self.gpu {
                    Some(b) => b,
                    None => GpuBoost::High,
                },
            ),
        };
        let fan_speed = match (fm, self.rpm) {
            (FanMode::Manual, Some(rpm)) => FanSpeed::Manual(rpm),
            (FanMode::Manual, None) => FanSpeed::Manual(0),
            (FanMode::Auto, _) => FanSpeed::Auto,
        };
        let lights_mode = LightsMode {
            logo_mode: match self.logo {
                Some(m) => m,
                None => LogoMode::Off,
            },
            keyboard_brightness: match self.brightness {
                Some(b) => b,
                None => 0,
            },
            always_on: match self.always_on {
                Some(m) => m,
                None => LightsAlwaysOn::Disable,
            },
        };
        let battery_care = match self.battery {
            Some(m) => m,
            None => BatteryCare::Percent80,
        };
        DeviceState { perf_mode, lights_mode, battery_care, fan_speed }
    }
}

} // verus!
