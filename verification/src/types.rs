//! Typed hardware values and their wire encodings.
//!
//! Each enumeration is a closed set of named variants with an explicit
//! numeric encoding. Decoding a byte outside the defined codes fails with
//! [`Error::InvalidEnumValue`] rather than defaulting silently.

use vstd::prelude::*;

use crate::error::{EnumKind, Error};

verus! {

/// Coarse hardware subsystem selector, sent as a command argument.
#[derive(Clone, Copy, Debug, PartialEq, Eq, Structural)]
pub enum Cluster {
    Cpu,
    Gpu,
}

impl Cluster {
    /// Wire encoding of the cluster selector.
    pub open spec fn spec_code(self) -> u8 {
        match self {
            Cluster::Cpu => 0x01,
            Cluster::Gpu => 0x02,
        }
    }

    /// Byte value placed in a packet's argument area for this cluster.
    pub fn code(self) -> (r: u8)
        ensures
            r == self.spec_code(),
    {
        match self {
            Cluster::Cpu => 0x01,
            Cluster::Gpu => 0x02,
        }
    }
}

/// One of the cooling zones a fan command addresses.
#[derive(Clone, Copy, Debug, PartialEq, Eq, Structural)]
pub enum FanZone {
    Zone1,
    Zone2,
}

impl FanZone {
    /// Wire encoding of the zone selector.
    pub open spec fn spec_code(self) -> u8 {
        match self {
            FanZone::Zone1 => 0x01,
            FanZone::Zone2 => 0x02,
        }
    }

    /// Byte value placed in a packet's argument area for this zone.
    pub fn code(self) -> (r: u8)
        ensures
            r == self.spec_code(),
    {
        match self {
            FanZone::Zone1 => 0x01,
            FanZone::Zone2 => 0x02,
        }
    }
}

/// Overall performance mode of the embedded controller.
#[derive(Clone, Copy, Debug, PartialEq, Eq, Structural)]
pub enum PerfMode {
    Balanced,
    Performance,
    Custom,
    Silent,
    Battery,
    Hyperboost,
}

impl PerfMode {
    /// Wire encoding of the performance mode.
    pub open spec fn spec_code(self) -> u8 {
        match self {
            PerfMode::Balanced => 0,
            PerfMode::Performance => 2,
            PerfMode::Custom => 4,
            PerfMode::Silent => 5,
            PerfMode::Battery => 6,
            PerfMode::Hyperboost => 7,
        }
    }

    /// The variant a byte decodes to, if any.
    pub open spec fn spec_from_code(value: u8) -> Option<PerfMode> {
        match value {
            0 => Some(PerfMode::Balanced),
            2 => Some(PerfMode::Performance),
            4 => Some(PerfMode::Custom),
            5 => Some(PerfMode::Silent),
            6 => Some(PerfMode::Battery),
            7 => Some(PerfMode::Hyperboost),
            _ => None,
        }
    }

    /// Byte value of this performance mode on the wire.
    pub fn code(self) -> (r: u8)
        ensures
            r == self.spec_code(),
    {
        match self {
            PerfMode::Balanced => 0,
            PerfMode::Performance => 2,
            PerfMode::Custom => 4,
            PerfMode::Silent => 5,
            PerfMode::Battery => 6,
            PerfMode::Hyperboost => 7,
        }
    }

    /// Decodes a hardware byte, failing on a value outside the variant set.
    pub fn try_from(value: u8) -> (r: Result<PerfMode, Error>)
        ensures
            r matches Ok(m) ==> Self::spec_from_code(value) == Some(m),
            Self::spec_from_code(value) matches Some(m) ==> r == Ok::<PerfMode, Error>(m),
            r is Err ==> r == Err::<PerfMode, Error>(
                Error::InvalidEnumValue { raw: value, target: EnumKind::PerfMode },
            ),
    {
        match value {
            0 => Ok(PerfMode::Balanced),
            2 => Ok(PerfMode::Performance),
            4 => Ok(PerfMode::Custom),
            5 => Ok(PerfMode::Silent),
            6 => Ok(PerfMode::Battery),
            7 => Ok(PerfMode::Hyperboost),
            _ => Err(Error::InvalidEnumValue { raw: value, target: EnumKind::PerfMode }),
        }
    }
}

/// Every defined performance mode decodes back from its own encoding.
pub proof fn lemma_perf_mode_code_roundtrip(m: PerfMode)
    ensures
        PerfMode::spec_from_code(m.spec_code()) == Some(m),
{
}

/// Whether the firmware drives every fan at its maximum speed.
#[derive(Clone, Copy, Debug, PartialEq, Eq, Structural)]
pub enum MaxFanSpeedMode {
    Enable,
    Disable,
}

impl MaxFanSpeedMode {
    /// Wire encoding of the maximum-fan-speed switch.
    pub open spec fn spec_code(self) -> u8 {
        match self {
            MaxFanSpeedMode::Enable => 0x02,
            MaxFanSpeedMode::Disable => 0x00,
        }
    }

    /// The variant a byte decodes to, if any.
    pub open spec fn spec_from_code(value: u8) -> Option<MaxFanSpeedMode> {
        match value {
            0x02 => Some(MaxFanSpeedMode::Enable),
            0x00 => Some(MaxFanSpeedMode::Disable),
            _ => None,
        }
    }

    /// Byte value of this switch position on the wire.
    pub fn code(self) -> (r: u8)
        ensures
            r == self.spec_code(),
    {
        match self {
            MaxFanSpeedMode::Enable => 0x02,
            MaxFanSpeedMode::Disable => 0x00,
        }
    }

    /// Decodes a hardware byte, failing on a value outside the variant set.
    pub fn try_from(value: u8) -> (r: Result<MaxFanSpeedMode, Error>)
        ensures
            r matches Ok(m) ==> Self::spec_from_code(value) == Some(m),
            Self::spec_from_code(value) matches Some(m) ==> r == Ok::<MaxFanSpeedMode, Error>(m),
            r is Err ==> r == Err::<MaxFanSpeedMode, Error>(
                Error::InvalidEnumValue { raw: value, target: EnumKind::MaxFanSpeedMode },
            ),
    {
        match value {
            0x02 => Ok(MaxFanSpeedMode::Enable),
            0x00 => Ok(MaxFanSpeedMode::Disable),
            _ => Err(Error::InvalidEnumValue { raw: value, target: EnumKind::MaxFanSpeedMode }),
        }
    }
}

/// Every defined switch position decodes back from its own encoding.
pub proof fn lemma_max_fan_speed_mode_code_roundtrip(m: MaxFanSpeedMode)
    ensures
        MaxFanSpeedMode::spec_from_code(m.spec_code()) == Some(m),
{
}

/// Whether fan speed is chosen by the firmware or pinned by the caller.
#[derive(Clone, Copy, Debug, PartialEq, Eq, Structural)]
pub enum FanMode {
    Auto,
    Manual,
}

impl FanMode {
    /// Wire encoding of the fan mode.
    pub open spec fn spec_code(self) -> u8 {
        match self {
            FanMode::Auto => 0,
            FanMode::Manual => 1,
        }
    }

    /// The variant a byte decodes to, if any.
    pub open spec fn spec_from_code(value: u8) -> Option<FanMode> {
        match value {
            0 => Some(FanMode::Auto),
            1 => Some(FanMode::Manual),
            _ => None,
        }
    }

    /// Byte value of this fan mode on the wire.
    pub fn code(self) -> (r: u8)
        ensures
            r == self.spec_code(),
    {
        match self {
            FanMode::Auto => 0,
            FanMode::Manual => 1,
        }
    }

    /// Decodes a hardware byte, failing on a value outside the variant set.
    pub fn try_from(value: u8) -> (r: Result<FanMode, Error>)
        ensures
            r matches Ok(m) ==> Self::spec_from_code(value) == Some(m),
            Self::spec_from_code(value) matches Some(m) ==> r == Ok::<FanMode, Error>(m),
            r is Err ==> r == Err::<FanMode, Error>(
                Error::InvalidEnumValue { raw: value, target: EnumKind::FanMode },
            ),
    {
        match value {
            0 => Ok(FanMode::Auto),
            1 => Ok(FanMode::Manual),
            _ => Err(Error::InvalidEnumValue { raw: value, target: EnumKind::FanMode }),
        }
    }
}

/// Every defined fan mode decodes back from its own encoding.
pub proof fn lemma_fan_mode_code_roundtrip(m: FanMode)
    ensures
        FanMode::spec_from_code(m.spec_code()) == Some(m),
{
}

/// CPU power budget step of the custom performance mode.
#[derive(Clone, Copy, Debug, PartialEq, Eq, Structural)]
pub enum CpuBoost {
    Low,
    Medium,
    High,
    Boost,
    Undervolt,
}

impl CpuBoost {
    /// Wire encoding of the CPU boost step.
    pub open spec fn spec_code(self) -> u8 {
        match self {
            CpuBoost::Low => 0,
            CpuBoost::Medium => 1,
            CpuBoost::High => 2,
            CpuBoost::Boost => 3,
            CpuBoost::Undervolt => 4,
        }
    }

    /// The variant a byte decodes to, if any.
    pub open spec fn spec_from_code(value: u8) -> Option<CpuBoost> {
        match value {
            0 => Some(CpuBoost::Low),
            1 => Some(CpuBoost::Medium),
            2 => Some(CpuBoost::High),
            3 => Some(CpuBoost::Boost),
            4 => Some(CpuBoost::Undervolt),
            _ => None,
        }
    }

    /// Byte value of this boost step on the wire.
    pub fn code(self) -> (r: u8)
        ensures
            r == self.spec_code(),
    {
        match self {
            CpuBoost::Low => 0,
            CpuBoost::Medium => 1,
            CpuBoost::High => 2,
            CpuBoost::Boost => 3,
            CpuBoost::Undervolt => 4,
        }
    }

    /// Decodes a hardware byte, failing on a value outside the variant set.
    pub fn try_from(value: u8) -> (r: Result<CpuBoost, Error>)
        ensures
            r matches Ok(m) ==> Self::spec_from_code(value) == Some(m),
            Self::spec_from_code(value) matches Some(m) ==> r == Ok::<CpuBoost, Error>(m),
            r is Err ==> r == Err::<CpuBoost, Error>(
                Error::InvalidEnumValue { raw: value, target: EnumKind::CpuBoost },
            ),
    {
        match value {
            0 => Ok(CpuBoost::Low),
            1 => Ok(CpuBoost::Medium),
            2 => Ok(CpuBoost::High),
            3 => Ok(CpuBoost::Boost),
            4 => Ok(CpuBoost::Undervolt),
            _ => Err(Error::InvalidEnumValue { raw: value, target: EnumKind::CpuBoost }),
        }
    }
}

/// Every defined boost step decodes back from its own encoding.
pub proof fn lemma_cpu_boost_code_roundtrip(m: CpuBoost)
    ensures
        CpuBoost::spec_from_code(m.spec_code()) == Some(m),
{
}

/// GPU power budget step of the custom performance mode.
#[derive(Clone, Copy, Debug, PartialEq, Eq, Structural)]
pub enum GpuBoost {
    Low,
    Medium,
    High,
}

impl GpuBoost {
    /// Wire encoding of the GPU boost step.
    pub open spec fn spec_code(self) -> u8 {
        match self {
            GpuBoost::Low => 0,
            GpuBoost::Medium => 1,
            GpuBoost::High => 2,
        }
    }

    /// The variant a byte decodes to, if any.
    pub open spec fn spec_from_code(value: u8) -> Option<GpuBoost> {
        match value {
            0 => Some(GpuBoost::Low),
            1 => Some(GpuBoost::Medium),
            2 => Some(GpuBoost::High),
            _ => None,
        }
    }

    /// Byte value of this boost step on the wire.
    pub fn code(self) -> (r: u8)
        ensures
            r == self.spec_code(),
    {
        match self {
            GpuBoost::Low => 0,
            GpuBoost::Medium => 1,
            GpuBoost::High => 2,
        }
    }

    /// Decodes a hardware byte, failing on a value outside the variant set.
    pub fn try_from(value: u8) -> (r: Result<GpuBoost, Error>)
        ensures
            r matches Ok(m) ==> Self::spec_from_code(value) == Some(m),
            Self::spec_from_code(value) matches Some(m) ==> r == Ok::<GpuBoost, Error>(m),
            r is Err ==> r == Err::<GpuBoost, Error>(
                Error::InvalidEnumValue { raw: value, target: EnumKind::GpuBoost },
            ),
    {
        match value {
            0 => Ok(GpuBoost::Low),
            1 => Ok(GpuBoost::Medium),
            2 => Ok(GpuBoost::High),
            _ => Err(Error::InvalidEnumValue { raw: value, target: EnumKind::GpuBoost }),
        }
    }
}

/// Every defined boost step decodes back from its own encoding.
pub proof fn lemma_gpu_boost_code_roundtrip(m: GpuBoost)
    ensures
        GpuBoost::spec_from_code(m.spec_code()) == Some(m),
{
}

/// Lighting mode of the lid logo.
#[derive(Clone, Copy, Debug, PartialEq, Eq, Structural)]
pub enum LogoMode {
    Off,
    Breathing,
    Static,
}

impl LogoMode {
    /// Wire encoding of the logo mode.
    pub open spec fn spec_code(self) -> u8 {
        match self {
            LogoMode::Off => 0,
            LogoMode::Breathing => 1,
            LogoMode::Static => 2,
        }
    }

    /// The variant a byte decodes to, if any.
    pub open spec fn spec_from_code(value: u8) -> Option<LogoMode> {
        match value {
            0 => Some(LogoMode::Off),
            1 => Some(LogoMode::Breathing),
            2 => Some(LogoMode::Static),
            _ => None,
        }
    }

    /// Byte value of this logo mode on the wire.
    pub fn code(self) -> (r: u8)
        ensures
            r == self.spec_code(),
    {
        match self {
            LogoMode::Off => 0,
            LogoMode::Breathing => 1,
            LogoMode::Static => 2,
        }
    }

    /// Decodes a hardware byte, failing on a value outside the variant set.
    pub fn try_from(value: u8) -> (r: Result<LogoMode, Error>)
        ensures
            r matches Ok(m) ==> Self::spec_from_code(value) == Some(m),
            Self::spec_from_code(value) matches Some(m) ==> r == Ok::<LogoMode, Error>(m),
            r is Err ==> r == Err::<LogoMode, Error>(
                Error::InvalidEnumValue { raw: value, target: EnumKind::LogoMode },
            ),
    {
        match value {
            0 => Ok(LogoMode::Off),
            1 => Ok(LogoMode::Breathing),
            2 => Ok(LogoMode::Static),
            _ => Err(Error::InvalidEnumValue { raw: value, target: EnumKind::LogoMode }),
        }
    }
}

/// Every defined logo mode decodes back from its own encoding.
pub proof fn lemma_logo_mode_code_roundtrip(m: LogoMode)
    ensures
        LogoMode::spec_from_code(m.spec_code()) == Some(m),
{
}

/// Whether keyboard and logo lighting stay on while the lid is closed.
#[derive(Clone, Copy, Debug, PartialEq, Eq, Structural)]
pub enum LightsAlwaysOn {
    Enable,
    Disable,
}

impl LightsAlwaysOn {
    /// Wire encoding of the lights-always-on switch.
    pub open spec fn spec_code(self) -> u8 {
        match self {
            LightsAlwaysOn::Enable => 0x03,
            LightsAlwaysOn::Disable => 0x00,
        }
    }

    /// The variant a byte decodes to, if any.
    pub open spec fn spec_from_code(value: u8) -> Option<LightsAlwaysOn> {
        match value {
            0x03 => Some(LightsAlwaysOn::Enable),
            0x00 => Some(LightsAlwaysOn::Disable),
            _ => None,
        }
    }

    /// Byte value of this switch position on the wire.
    pub fn code(self) -> (r: u8)
        ensures
            r == self.spec_code(),
    {
        match self {
            LightsAlwaysOn::Enable => 0x03,
            LightsAlwaysOn::Disable => 0x00,
        }
    }

    /// Decodes a hardware byte, failing on a value outside the variant set.
    pub fn try_from(value: u8) -> (r: Result<LightsAlwaysOn, Error>)
        ensures
            r matches Ok(m) ==> Self::spec_from_code(value) == Some(m),
            Self::spec_from_code(value) matches Some(m) ==> r == Ok::<LightsAlwaysOn, Error>(m),
            r is Err ==> r == Err::<LightsAlwaysOn, Error>(
                Error::InvalidEnumValue { raw: value, target: EnumKind::LightsAlwaysOn },
            ),
    {
        match value {
            0x00 => Ok(LightsAlwaysOn::Disable),
            0x03 => Ok(LightsAlwaysOn::Enable),
            _ => Err(Error::InvalidEnumValue { raw: value, target: EnumKind::LightsAlwaysOn }),
        }
    }
}

/// Every defined switch position decodes back from its own encoding.
pub proof fn lemma_lights_always_on_code_roundtrip(m: LightsAlwaysOn)
    ensures
        LightsAlwaysOn::spec_from_code(m.spec_code()) == Some(m),
{
}

/// Battery charge ceiling enforced by the embedded controller.
#[derive(Clone, Copy, Debug, PartialEq, Eq, Structural)]
pub enum BatteryCare {
    Percent50,
    Percent55,
    Percent60,
    Percent65,
    Percent70,
    Percent75,
    Percent80,
    Disable,
}

impl BatteryCare {
    /// Wire encoding of the charge ceiling.
    pub open spec fn spec_code(self) -> u8 {
        match self {
            BatteryCare::Percent50 => 0xB2,
            BatteryCare::Percent55 => 0xB7,
            BatteryCare::Percent60 => 0xBC,
            BatteryCare::Percent65 => 0xC1,
            BatteryCare::Percent70 => 0xC6,
            BatteryCare::Percent75 => 0xCB,
            BatteryCare::Percent80 => 0xD0,
            BatteryCare::Disable => 0x50,
        }
    }

    /// The variant a byte decodes to, if any.
    pub open spec fn spec_from_code(value: u8) -> Option<BatteryCare> {
        match value {
            0xB2 => Some(BatteryCare::Percent50),
            0xB7 => Some(BatteryCare::Percent55),
            0xBC => Some(BatteryCare::Percent60),
            0xC1 => Some(BatteryCare::Percent65),
            0xC6 => Some(BatteryCare::Percent70),
            0xCB => Some(BatteryCare::Percent75),
            0xD0 => Some(BatteryCare::Percent80),
            0x50 => Some(BatteryCare::Disable),
            _ => None,
        }
    }

    /// The ceiling a requested percentage rounds to, if the request is valid.
    pub open spec fn spec_from_percent(percent: u8) -> Option<BatteryCare> {
        if percent <= 52 {
            Some(BatteryCare::Percent50)
        } else if percent <= 57 {
            Some(BatteryCare::Percent55)
        } else if percent <= 62 {
            Some(BatteryCare::Percent60)
        } else if percent <= 67 {
            Some(BatteryCare::Percent65)
        } else if percent <= 72 {
            Some(BatteryCare::Percent70)
        } else if percent <= 77 {
            Some(BatteryCare::Percent75)
        } else if percent <= 90 {
            Some(BatteryCare::Percent80)
        } else if percent <= 100 {
            Some(BatteryCare::Disable)
        } else {
            None
        }
    }

    /// The percentage a ceiling stands for.
    pub open spec fn spec_to_percent(self) -> u8 {
        match self {
            BatteryCare::Percent50 => 50,
            BatteryCare::Percent55 => 55,
            BatteryCare::Percent60 => 60,
            BatteryCare::Percent65 => 65,
            BatteryCare::Percent70 => 70,
            BatteryCare::Percent75 => 75,
            BatteryCare::Percent80 => 80,
            BatteryCare::Disable => 100,
        }
    }

    /// Byte value of this charge ceiling on the wire.
    pub fn code(self) -> (r: u8)
        ensures
            r == self.spec_code(),
    {
        match self {
            BatteryCare::Percent50 => 0xB2,
            BatteryCare::Percent55 => 0xB7,
            BatteryCare::Percent60 => 0xBC,
            BatteryCare::Percent65 => 0xC1,
            BatteryCare::Percent70 => 0xC6,
            BatteryCare::Percent75 => 0xCB,
            BatteryCare::Percent80 => 0xD0,
            BatteryCare::Disable => 0x50,
        }
    }

    /// Decodes a hardware byte, failing on a value outside the variant set.
    pub fn try_from(value: u8) -> (r: Result<BatteryCare, Error>)
        ensures
            r matches Ok(m) ==> Self::spec_from_code(value) == Some(m),
            Self::spec_from_code(value) matches Some(m) ==> r == Ok::<BatteryCare, Error>(m),
            r is Err ==> r == Err::<BatteryCare, Error>(
                Error::InvalidEnumValue { raw: value, target: EnumKind::BatteryCare },
            ),
    {
        match value {
            0xB2 => Ok(BatteryCare::Percent50),
            0xB7 => Ok(BatteryCare::Percent55),
            0xBC => Ok(BatteryCare::Percent60),
            0xC1 => Ok(BatteryCare::Percent65),
            0xC6 => Ok(BatteryCare::Percent70),
            0xCB => Ok(BatteryCare::Percent75),
            0xD0 => Ok(BatteryCare::Percent80),
            0x50 => Ok(BatteryCare::Disable),
            _ => Err(Error::InvalidEnumValue { raw: value, target: EnumKind::BatteryCare }),
        }
    }

    /// Rounds a requested percentage to the nearest supported ceiling;
    /// values above one hundred are rejected.
    pub fn from_percent(percent: u8) -> (r: Result<BatteryCare, Error>)
        ensures
            r matches Ok(m) ==> Self::spec_from_percent(percent) == Some(m),
            Self::spec_from_percent(percent) matches Some(m) ==> r == Ok::<BatteryCare, Error>(m),
            r is Err ==> percent > 100 && r == Err::<BatteryCare, Error>(
                Error::InvalidEnumValue { raw: percent, target: EnumKind::BatteryCare },
            ),
    {
        if percent <= 52 {
            Ok(BatteryCare::Percent50)
        } else if percent <= 57 {
            Ok(BatteryCare::Percent55)
        } else if percent <= 62 {
            Ok(BatteryCare::Percent60)
        } else if percent <= 67 {
            Ok(BatteryCare::Percent65)
        } else if percent <= 72 {
            Ok(BatteryCare::Percent70)
        } else if percent <= 77 {
            Ok(BatteryCare::Percent75)
        } else if percent <= 90 {
            Ok(BatteryCare::Percent80)
        } else if percent <= 100 {
            Ok(BatteryCare::Disable)
        } else {
            Err(Error::InvalidEnumValue { raw: percent, target: EnumKind::BatteryCare })
        }
    }

    /// The percentage value this ceiling represents.
    pub fn to_percent(&self) -> (r: u8)
        ensures
            r == self.spec_to_percent(),
    {
        match self {
            BatteryCare::Percent50 => 50,
            BatteryCare::Percent55 => 55,
            BatteryCare::Percent60 => 60,
            BatteryCare::Percent65 => 65,
            BatteryCare::Percent70 => 70,
            BatteryCare::Percent75 => 75,
            BatteryCare::Percent80 => 80,
            BatteryCare::Disable => 100,
        }
    }
}

/// Every defined charge ceiling decodes back from its own encoding.
pub proof fn lemma_battery_care_code_roundtrip(m: BatteryCare)
    ensures
        BatteryCare::spec_from_code(m.spec_code()) == Some(m),
{
}

/// Asking for exactly the percentage a ceiling stands for yields that ceiling.
pub proof fn lemma_battery_care_percent_roundtrip(m: BatteryCare)
    ensures
        BatteryCare::spec_from_percent(m.spec_to_percent()) == Some(m),
{
}

} // verus!
