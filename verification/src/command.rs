//! Typed command layer.
//!
//! Each operation is a pure mapping: a request builder turns a semantic
//! input value into a packet for a fixed `(command class, command id)`
//! pair, and a response parser reads the semantic output back out of the
//! answering packet's argument bytes. Get/set pairs share one class and
//! id and differ only in the write flag at the head of the argument area
//! and in which side of the response is read.

use vstd::prelude::*;

use crate::descriptor::{Descriptor, DescriptorModel};
use crate::error::{EnumKind, Error};
use crate::packet::{Packet, PacketModel, ARGS_LEN, STATUS_NEW};
use crate::types::{
    BatteryCare, Cluster, CpuBoost, FanMode, FanZone, GpuBoost, LightsAlwaysOn, LogoMode,
    MaxFanSpeedMode, PerfMode,
};

verus! {

/// Argument-area head byte of a read request.
pub const READ_FLAG: u8 = 0x00;

/// Argument-area head byte of a write request.
pub const WRITE_FLAG: u8 = 0x01;

/// Command class of the performance and cooling subsystem.
pub const CLASS_PERF: u8 = 0x0d;

/// Command class of the lighting subsystem.
pub const CLASS_LIGHT: u8 = 0x0e;

/// Command class of the power subsystem.
pub const CLASS_POWER: u8 = 0x07;

/// Command id of the performance-mode/fan-mode pair.
pub const CMD_PERF_MODE: u8 = 0x02;

/// Command id of the per-cluster boost step.
pub const CMD_BOOST: u8 = 0x07;

/// Command id of the per-zone fan speed target.
pub const CMD_FAN_RPM: u8 = 0x01;

/// Command id of the per-zone measured fan speed.
pub const CMD_FAN_ACTUAL_RPM: u8 = 0x04;

/// Command id of the maximum-fan-speed switch.
pub const CMD_MAX_FAN_SPEED: u8 = 0x0b;

/// Command id of the lid-logo lighting mode.
pub const CMD_LOGO_MODE: u8 = 0x00;

/// Command id of the keyboard backlight brightness.
pub const CMD_BRIGHTNESS: u8 = 0x04;

/// Command id of the lights-always-on switch.
pub const CMD_LIGHTS_ALWAYS_ON: u8 = 0x06;

/// Command id of the battery charge ceiling.
pub const CMD_BATTERY_CARE: u8 = 0x12;

/// Argument area holding four leading bytes and zeroes after them.
pub open spec fn spec_args4(a0: u8, a1: u8, a2: u8, a3: u8) -> Seq<u8> {
    Seq::new(
        ARGS_LEN as nat,
        |i: int|
            if i == 0 {
                a0
            } else if i == 1 {
                a1
            } else if i == 2 {
                a2
            } else if i == 3 {
                a3
            } else {
                0u8
            },
    )
}

/// A fresh request with the given class, id and four leading argument
/// bytes.
pub open spec fn spec_request4(class: u8, id: u8, a0: u8, a1: u8, a2: u8, a3: u8) -> PacketModel {
    PacketModel {
        status: STATUS_NEW,
        command_class: class,
        command_id: id,
        args: spec_args4(a0, a1, a2, a3),
    }
}

fn request4(class: u8, id: u8, a0: u8, a1: u8, a2: u8, a3: u8) -> (r: Packet)
    ensures
        r@ == spec_request4(class, id, a0, a1, a2, a3),
{
    let mut args: [u8; 80] = [0u8; 80];
    args[0] = a0;
    args[1] = a1;
    args[2] = a2;
    args[3] = a3;
    let p = Packet { status: STATUS_NEW, command_class: class, command_id: id, args };
    proof {
        assert(p@.args =~= spec_args4(a0, a1, a2, a3));
    }
    p
}

/// Request reading the performance mode and fan mode pair.
pub fn get_perf_mode_request() -> (r: Packet)
    ensures
        r@ == spec_request4(CLASS_PERF, CMD_PERF_MODE, READ_FLAG, 0x01, 0, 0),
{
    request4(CLASS_PERF, CMD_PERF_MODE, READ_FLAG, 0x01, 0, 0)
}

/// Reads the performance mode and fan mode out of a response.
pub fn parse_perf_mode(resp: &Packet) -> (r: Result<(PerfMode, FanMode), Error>)
    ensures
        r matches Ok((pm, fm)) ==> PerfMode::spec_from_code(resp@.args[2]) == Some(pm)
            && FanMode::spec_from_code(resp@.args[3]) == Some(fm),
        PerfMode::spec_from_code(resp@.args[2]) is None ==> r == Err::<(PerfMode, FanMode), Error>(
            Error::InvalidEnumValue { raw: resp@.args[2], target: EnumKind::PerfMode },
        ),
        PerfMode::spec_from_code(resp@.args[2]) is Some && FanMode::spec_from_code(resp@.args[3])
            is None ==> r == Err::<(PerfMode, FanMode), Error>(
            Error::InvalidEnumValue { raw: resp@.args[3], target: EnumKind::FanMode },
        ),
        PerfMode::spec_from_code(resp@.args[2]) is Some && FanMode::spec_from_code(resp@.args[3])
            is Some ==> r is Ok,
{
    let pm = PerfMode::try_from(resp.args[2])?;
    let fm = FanMode::try_from(resp.args[3])?;
    Ok((pm, fm))
}

/// Whether a descriptor accepts the given performance mode: an absent
/// restriction accepts every mode.
pub open spec fn spec_perf_mode_allowed(d: DescriptorModel, mode: PerfMode) -> bool {
    match d.perf_modes {
        Option::None => true,
        Option::Some(ms) => ms.contains(mode),
    }
}

/// Tests a descriptor's performance-mode restriction.
pub fn perf_mode_allowed(d: &Descriptor, mode: PerfMode) -> (r: bool)
    ensures
        r == spec_perf_mode_allowed(d@, mode),
{
    match &d.perf_modes {
        None => true,
        Some(ms) => {
            let mut i: usize = 0;
            while i < ms.len()
                invariant
                    i <= ms@.len(),
                    d@.perf_modes == Some(ms@),
                    forall|j: int| 0 <= j < i ==> ms@[j] != mode,
                decreases ms@.len() - i,
            {
                if ms[i] == mode {
                    proof {
                        assert(ms@.contains(mode));
                    }
                    return true;
                }
                i = i + 1;
            }
            proof {
                if ms@.contains(mode) {
                    let j = choose|j: int| 0 <= j < ms@.len() && ms@[j] == mode;
                }
            }
            false
        }
    }
}

/// Request switching to a performance mode, with the fan returned to
/// firmware control; refused without touching the transport when the
/// descriptor's restriction does not permit the mode.
pub fn set_perf_mode_request(d: &Descriptor, mode: PerfMode) -> (r: Result<Packet, Error>)
    ensures
        r matches Ok(p) ==> spec_perf_mode_allowed(d@, mode) && p@ == spec_request4(
            CLASS_PERF,
            CMD_PERF_MODE,
            WRITE_FLAG,
            0x01,
            mode.spec_code(),
            FanMode::Auto.spec_code(),
        ),
        r matches Err(e) ==> e == Error::UnsupportedForModel && !spec_perf_mode_allowed(d@, mode),
        spec_perf_mode_allowed(d@, mode) ==> r is Ok,
{
    if !perf_mode_allowed(d, mode) {
        return Err(Error::UnsupportedForModel);
    }
    Ok(
        request4(
            CLASS_PERF,
            CMD_PERF_MODE,
            WRITE_FLAG,
            0x01,
            mode.code(),
            FanMode::Auto.code(),
        ),
    )
}

/// Request pinning the fan mode while keeping the given performance mode.
pub fn set_fan_mode_request(mode: PerfMode, fan: FanMode) -> (r: Packet)
    ensures
        r@ == spec_request4(
            CLASS_PERF,
            CMD_PERF_MODE,
            WRITE_FLAG,
            0x01,
            mode.spec_code(),
            fan.spec_code(),
        ),
{
    request4(CLASS_PERF, CMD_PERF_MODE, WRITE_FLAG, 0x01, mode.code(), fan.code())
}

/// Request reading the boost step of one cluster.
pub fn get_boost_request(cluster: Cluster) -> (r: Packet)
    ensures
        r@ == spec_request4(CLASS_PERF, CMD_BOOST, READ_FLAG, cluster.spec_code(), 0, 0),
{
    request4(CLASS_PERF, CMD_BOOST, READ_FLAG, cluster.code(), 0, 0)
}

/// Reads the CPU boost step out of a response.
pub fn parse_cpu_boost(resp: &Packet) -> (r: Result<CpuBoost, Error>)
    ensures
        r matches Ok(b) ==> CpuBoost::spec_from_code(resp@.args[2]) == Some(b),
        CpuBoost::spec_from_code(resp@.args[2]) matches Some(b) ==> r == Ok::<CpuBoost, Error>(b),
        r is Err ==> r == Err::<CpuBoost, Error>(
            Error::InvalidEnumValue { raw: resp@.args[2], target: EnumKind::CpuBoost },
        ),
{
    CpuBoost::try_from(resp.args[2])
}

/// Reads the GPU boost step out of a response.
pub fn parse_gpu_boost(resp: &Packet) -> (r: Result<GpuBoost, Error>)
    ensures
        r matches Ok(b) ==> GpuBoost::spec_from_code(resp@.args[2]) == Some(b),
        GpuBoost::spec_from_code(resp@.args[2]) matches Some(b) ==> r == Ok::<GpuBoost, Error>(b),
        r is Err ==> r == Err::<GpuBoost, Error>(
            Error::InvalidEnumValue { raw: resp@.args[2], target: EnumKind::GpuBoost },
        ),
{
    GpuBoost::try_from(resp.args[2])
}

/// Request setting the CPU boost step.
pub fn set_cpu_boost_request(boost: CpuBoost) -> (r: Packet)
    ensures
        r@ == spec_request4(
            CLASS_PERF,
            CMD_BOOST,
            WRITE_FLAG,
            Cluster::Cpu.spec_code(),
            boost.spec_code(),
            0,
        ),
{
    request4(CLASS_PERF, CMD_BOOST, WRITE_FLAG, Cluster::Cpu.code(), boost.code(), 0)
}

/// Request setting the GPU boost step.
pub fn set_gpu_boost_request(boost: GpuBoost) -> (r: Packet)
    ensures
        r@ == spec_request4(
            CLASS_PERF,
            CMD_BOOST,
            WRITE_FLAG,
            Cluster::Gpu.spec_code(),
            boost.spec_code(),
            0,
        ),
{
    request4(CLASS_PERF, CMD_BOOST, WRITE_FLAG, Cluster::Gpu.code(), boost.code(), 0)
}

/// Request reading the fan speed target of one zone.
pub fn get_fan_rpm_request(zone: FanZone) -> (r: Packet)
    ensures
        r@ == spec_request4(CLASS_PERF, CMD_FAN_RPM, READ_FLAG, zone.spec_code(), 0, 0),
{
    request4(CLASS_PERF, CMD_FAN_RPM, READ_FLAG, zone.code(), 0, 0)
}

/// Reads a fan speed target out of a response; the wire carries it in
/// steps of one hundred revolutions per minute.
pub fn parse_fan_rpm(resp: &Packet) -> (r: u16)
    ensures
        r == resp@.args[2] * 100,
{
    resp.args[2] as u16 * 100
}

/// Request pinning the fan speed target of one zone. The wire encoding
/// carries the target in steps of one hundred revolutions per minute, so
/// it must fit one byte after division.
pub fn set_fan_rpm_request(zone: FanZone, rpm: u16) -> (r: Packet)
    requires
        rpm / 100 <= 255,
    ensures
        r@ == spec_request4(
            CLASS_PERF,
            CMD_FAN_RPM,
            WRITE_FLAG,
            zone.spec_code(),
            (rpm / 100) as u8,
            0,
        ),
{
    request4(CLASS_PERF, CMD_FAN_RPM, WRITE_FLAG, zone.code(), (rpm / 100) as u8, 0)
}

/// Request reading the measured fan speed of one zone.
pub fn get_fan_actual_rpm_request(zone: FanZone) -> (r: Packet)
    ensures
        r@ == spec_request4(CLASS_PERF, CMD_FAN_ACTUAL_RPM, READ_FLAG, zone.spec_code(), 0, 0),
{
    request4(CLASS_PERF, CMD_FAN_ACTUAL_RPM, READ_FLAG, zone.code(), 0, 0)
}

/// Reads a measured fan speed out of a response: two big-endian bytes.
pub fn parse_fan_actual_rpm(resp: &Packet) -> (r: u16)
    ensures
        r == resp@.args[2] * 256 + resp@.args[3],
{
    resp.args[2] as u16 * 256 + resp.args[3] as u16
}

/// Request switching the maximum-fan-speed mode.
pub fn set_max_fan_speed_request(mode: MaxFanSpeedMode) -> (r: Packet)
    ensures
        r@ == spec_request4(
            CLASS_PERF,
            CMD_MAX_FAN_SPEED,
            WRITE_FLAG,
            0x01,
            mode.spec_code(),
            0,
        ),
{
    request4(CLASS_PERF, CMD_MAX_FAN_SPEED, WRITE_FLAG, 0x01, mode.code(), 0)
}

/// Request reading the lid-logo lighting mode.
pub fn get_logo_mode_request() -> (r: Packet)
    ensures
        r@ == spec_request4(CLASS_LIGHT, CMD_LOGO_MODE, READ_FLAG, 0x01, 0, 0),
{
    request4(CLASS_LIGHT, CMD_LOGO_MODE, READ_FLAG, 0x01, 0, 0)
}

/// Reads the lid-logo lighting mode out of a response.
pub fn parse_logo_mode(resp: &Packet) -> (r: Result<LogoMode, Error>)
    ensures
        r matches Ok(m) ==> LogoMode::spec_from_code(resp@.args[2]) == Some(m),
        LogoMode::spec_from_code(resp@.args[2]) matches Some(m) ==> r == Ok::<LogoMode, Error>(m),
        r is Err ==> r == Err::<LogoMode, Error>(
            Error::InvalidEnumValue { raw: resp@.args[2], target: EnumKind::LogoMode },
        ),
{
    LogoMode::try_from(resp.args[2])
}

/// Request setting the lid-logo lighting mode.
pub fn set_logo_mode_request(mode: LogoMode) -> (r: Packet)
    ensures
        r@ == spec_request4(CLASS_LIGHT, CMD_LOGO_MODE, WRITE_FLAG, 0x01, mode.spec_code(), 0),
{
    request4(CLASS_LIGHT, CMD_LOGO_MODE, WRITE_FLAG, 0x01, mode.code(), 0)
}

/// Request reading the keyboard backlight brightness.
pub fn get_keyboard_brightness_request() -> (r: Packet)
    ensures
        r@ == spec_request4(CLASS_LIGHT, CMD_BRIGHTNESS, READ_FLAG, 0x01, 0, 0),
{
    request4(CLASS_LIGHT, CMD_BRIGHTNESS, READ_FLAG, 0x01, 0, 0)
}

/// Reads the keyboard backlight brightness out of a response.
pub fn parse_keyboard_brightness(resp: &Packet) -> (r: u8)
    ensures
        r == resp@.args[2],
{
    resp.args[2]
}

/// Request setting the keyboard backlight brightness.
pub fn set_keyboard_brightness_request(brightness: u8) -> (r: Packet)
    ensures
        r@ == spec_request4(CLASS_LIGHT, CMD_BRIGHTNESS, WRITE_FLAG, 0x01, brightness, 0),
{
    request4(CLASS_LIGHT, CMD_BRIGHTNESS, WRITE_FLAG, 0x01, brightness, 0)
}

/// Request reading the lights-always-on switch.
pub fn get_lights_always_on_request() -> (r: Packet)
    ensures
        r@ == spec_request4(CLASS_LIGHT, CMD_LIGHTS_ALWAYS_ON, READ_FLAG, 0x01, 0, 0),
{
    request4(CLASS_LIGHT, CMD_LIGHTS_ALWAYS_ON, READ_FLAG, 0x01, 0, 0)
}

/// Reads the lights-always-on switch out of a response.
pub fn parse_lights_always_on(resp: &Packet) -> (r: Result<LightsAlwaysOn, Error>)
    ensures
        r matches Ok(m) ==> LightsAlwaysOn::spec_from_code(resp@.args[2]) == Some(m),
        LightsAlwaysOn::spec_from_code(resp@.args[2]) matches Some(m) ==> r == Ok::<
            LightsAlwaysOn,
            Error,
        >(m),
        r is Err ==> r == Err::<LightsAlwaysOn, Error>(
            Error::InvalidEnumValue { raw: resp@.args[2], target: EnumKind::LightsAlwaysOn },
        ),
{
    LightsAlwaysOn::try_from(resp.args[2])
}

/// Request setting the lights-always-on switch.
pub fn set_lights_always_on_request(mode: LightsAlwaysOn) -> (r: Packet)
    ensures
        r@ == spec_request4(
            CLASS_LIGHT,
            CMD_LIGHTS_ALWAYS_ON,
            WRITE_FLAG,
            0x01,
            mode.spec_code(),
            0,
        ),
{
    request4(CLASS_LIGHT, CMD_LIGHTS_ALWAYS_ON, WRITE_FLAG, 0x01, mode.code(), 0)
}

/// Request reading the battery charge ceiling.
pub fn get_battery_care_request() -> (r: Packet)
    ensures
        r@ == spec_request4(CLASS_POWER, CMD_BATTERY_CARE, READ_FLAG, 0x01, 0, 0),
{
    request4(CLASS_POWER, CMD_BATTERY_CARE, READ_FLAG, 0x01, 0, 0)
}

/// Reads the battery charge ceiling out of a response.
pub fn parse_battery_care(resp: &Packet) -> (r: Result<BatteryCare, Error>)
    ensures
        r matches Ok(m) ==> BatteryCare::spec_from_code(resp@.args[2]) == Some(m),
        BatteryCare::spec_from_code(resp@.args[2]) matches Some(m) ==> r == Ok::<
            BatteryCare,
            Error,
        >(m),
        r is Err ==> r == Err::<BatteryCare, Error>(
            Error::InvalidEnumValue { raw: resp@.args[2], target: EnumKind::BatteryCare },
        ),
{
    BatteryCare::try_from(resp.args[2])
}

/// Request setting the battery charge ceiling.
pub fn set_battery_care_request(mode: BatteryCare) -> (r: Packet)
    ensures
        r@ == spec_request4(CLASS_POWER, CMD_BATTERY_CARE, WRITE_FLAG, 0x01, mode.spec_code(), 0),
{
    request4(CLASS_POWER, CMD_BATTERY_CARE, WRITE_FLAG, 0x01, mode.code(), 0)
}

/// Request for one opaque start-up command code: the high byte selects
/// the class, the low byte the id, and the given bytes lead the argument
/// area.
pub fn init_command_request(code: u16, args: &[u8]) -> (r: Packet)
    requires
        args@.len() <= ARGS_LEN,
    ensures
        r@.status == STATUS_NEW,
        r@.command_class == code / 256,
        r@.command_id == (code % 256) as u8,
        r@.args.len() == ARGS_LEN,
        forall|i: int| 0 <= i < args@.len() ==> r@.args[i] == args@[i],
        forall|i: int| args@.len() <= i < ARGS_LEN ==> r@.args[i] == 0,
{
    let class = (code / 256) as u8;
    let id = (code % 256) as u8;
    let mut buf: [u8; 80] = [0u8; 80];
    let mut i: usize = 0;
    while i < args.len()
        invariant
            i <= args@.len() <= ARGS_LEN,
            buf@.len() == ARGS_LEN,
            forall|j: int| 0 <= j < i ==> buf@[j] == args@[j],
            forall|j: int| i <= j < ARGS_LEN ==> buf@[j] == 0,
        decreases args@.len() - i,
    {
        buf[i] = args[i];
        i = i + 1;
    }
    Packet { status: STATUS_NEW, command_class: class, command_id: id, args: buf }
}

} // verus!
