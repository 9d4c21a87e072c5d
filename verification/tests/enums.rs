use librazer::error::{EnumKind, Error};
use librazer::types::{
    BatteryCare, Cluster, CpuBoost, FanMode, FanZone, GpuBoost, LightsAlwaysOn, LogoMode,
    MaxFanSpeedMode, PerfMode,
};

#[test]
fn perf_mode_round_trips() {
    let all = [
        PerfMode::Balanced,
        PerfMode::Performance,
        PerfMode::Custom,
        PerfMode::Silent,
        PerfMode::Battery,
        PerfMode::Hyperboost,
    ];
    for m in all {
        assert_eq!(PerfMode::try_from(m.code()), Ok(m));
    }
    assert_eq!(PerfMode::try_from(0).unwrap(), PerfMode::Balanced);
    assert_eq!(PerfMode::try_from(7).unwrap(), PerfMode::Hyperboost);
    assert_eq!(
        PerfMode::try_from(1),
        Err(Error::InvalidEnumValue { raw: 1, target: EnumKind::PerfMode })
    );
    assert_eq!(
        PerfMode::try_from(3),
        Err(Error::InvalidEnumValue { raw: 3, target: EnumKind::PerfMode })
    );
    assert_eq!(
        PerfMode::try_from(8),
        Err(Error::InvalidEnumValue { raw: 8, target: EnumKind::PerfMode })
    );
}

#[test]
fn fan_mode_round_trips() {
    for m in [FanMode::Auto, FanMode::Manual] {
        assert_eq!(FanMode::try_from(m.code()), Ok(m));
    }
    assert_eq!(
        FanMode::try_from(2),
        Err(Error::InvalidEnumValue { raw: 2, target: EnumKind::FanMode })
    );
}

#[test]
fn cpu_boost_round_trips() {
    let all = [
        CpuBoost::Low,
        CpuBoost::Medium,
        CpuBoost::High,
        CpuBoost::Boost,
        CpuBoost::Undervolt,
    ];
    for m in all {
        assert_eq!(CpuBoost::try_from(m.code()), Ok(m));
    }
    assert_eq!(
        CpuBoost::try_from(5),
        Err(Error::InvalidEnumValue { raw: 5, target: EnumKind::CpuBoost })
    );
}

#[test]
fn gpu_boost_round_trips() {
    for m in [GpuBoost::Low, GpuBoost::Medium, GpuBoost::High] {
        assert_eq!(GpuBoost::try_from(m.code()), Ok(m));
    }
    assert_eq!(
        GpuBoost::try_from(3),
        Err(Error::InvalidEnumValue { raw: 3, target: EnumKind::GpuBoost })
    );
}

#[test]
fn logo_mode_round_trips() {
    for m in [LogoMode::Off, LogoMode::Breathing, LogoMode::Static] {
        assert_eq!(LogoMode::try_from(m.code()), Ok(m));
    }
    assert_eq!(
        LogoMode::try_from(3),
        Err(Error::InvalidEnumValue { raw: 3, target: EnumKind::LogoMode })
    );
}

#[test]
fn lights_always_on_round_trips() {
    for m in [LightsAlwaysOn::Enable, LightsAlwaysOn::Disable] {
        assert_eq!(LightsAlwaysOn::try_from(m.code()), Ok(m));
    }
    assert_eq!(LightsAlwaysOn::try_from(0x00), Ok(LightsAlwaysOn::Disable));
    assert_eq!(LightsAlwaysOn::try_from(0x03), Ok(LightsAlwaysOn::Enable));
    assert_eq!(
        LightsAlwaysOn::try_from(1),
        Err(Error::InvalidEnumValue { raw: 1, target: EnumKind::LightsAlwaysOn })
    );
}

#[test]
fn max_fan_speed_mode_round_trips() {
    for m in [MaxFanSpeedMode::Enable, MaxFanSpeedMode::Disable] {
        assert_eq!(MaxFanSpeedMode::try_from(m.code()), Ok(m));
    }
    assert_eq!(
        MaxFanSpeedMode::try_from(1),
        Err(Error::InvalidEnumValue { raw: 1, target: EnumKind::MaxFanSpeedMode })
    );
}

#[test]
fn battery_care_round_trips() {
    let all = [
        BatteryCare::Percent50,
        BatteryCare::Percent55,
        BatteryCare::Percent60,
        BatteryCare::Percent65,
        BatteryCare::Percent70,
        BatteryCare::Percent75,
        BatteryCare::Percent80,
        BatteryCare::Disable,
    ];
    for m in all {
        assert_eq!(BatteryCare::try_from(m.code()), Ok(m));
    }
    assert_eq!(BatteryCare::try_from(0xB2), Ok(BatteryCare::Percent50));
    assert_eq!(BatteryCare::try_from(0x50), Ok(BatteryCare::Disable));
    assert_eq!(
        BatteryCare::try_from(0xB3),
        Err(Error::InvalidEnumValue { raw: 0xB3, target: EnumKind::BatteryCare })
    );
}

#[test]
fn cluster_and_zone_codes() {
    assert_eq!(Cluster::Cpu.code(), 0x01);
    assert_eq!(Cluster::Gpu.code(), 0x02);
    assert_eq!(FanZone::Zone1.code(), 0x01);
    assert_eq!(FanZone::Zone2.code(), 0x02);
}

#[test]
fn battery_care_percent_boundaries() {
    assert_eq!(BatteryCare::from_percent(0), Ok(BatteryCare::Percent50));
    assert_eq!(BatteryCare::from_percent(52), Ok(BatteryCare::Percent50));
    assert_eq!(BatteryCare::from_percent(53), Ok(BatteryCare::Percent55));
    assert_eq!(BatteryCare::from_percent(57), Ok(BatteryCare::Percent55));
    assert_eq!(BatteryCare::from_percent(58), Ok(BatteryCare::Percent60));
    assert_eq!(BatteryCare::from_percent(62), Ok(BatteryCare::Percent60));
    assert_eq!(BatteryCare::from_percent(63), Ok(BatteryCare::Percent65));
    assert_eq!(BatteryCare::from_percent(67), Ok(BatteryCare::Percent65));
    assert_eq!(BatteryCare::from_percent(68), Ok(BatteryCare::Percent70));
    assert_eq!(BatteryCare::from_percent(72), Ok(BatteryCare::Percent70));
    assert_eq!(BatteryCare::from_percent(73), Ok(BatteryCare::Percent75));
    assert_eq!(BatteryCare::from_percent(77), Ok(BatteryCare::Percent75));
    assert_eq!(BatteryCare::from_percent(78), Ok(BatteryCare::Percent80));
    assert_eq!(BatteryCare::from_percent(90), Ok(BatteryCare::Percent80));
    assert_eq!(BatteryCare::from_percent(91), Ok(BatteryCare::Disable));
    assert_eq!(BatteryCare::from_percent(100), Ok(BatteryCare::Disable));
    assert_eq!(
        BatteryCare::from_percent(101),
        Err(Error::InvalidEnumValue { raw: 101, target: EnumKind::BatteryCare })
    );
    assert_eq!(
        BatteryCare::from_percent(255),
        Err(Error::InvalidEnumValue { raw: 255, target: EnumKind::BatteryCare })
    );
}

#[test]
fn battery_care_to_percent_values() {
    assert_eq!(BatteryCare::Percent50.to_percent(), 50);
    assert_eq!(BatteryCare::Percent55.to_percent(), 55);
    assert_eq!(BatteryCare::Percent60.to_percent(), 60);
    assert_eq!(BatteryCare::Percent65.to_percent(), 65);
    assert_eq!(BatteryCare::Percent70.to_percent(), 70);
    assert_eq!(BatteryCare::Percent75.to_percent(), 75);
    assert_eq!(BatteryCare::Percent80.to_percent(), 80);
    assert_eq!(BatteryCare::Disable.to_percent(), 100);
}

#[test]
fn battery_care_percent_round_trips() {
    let all = [
        BatteryCare::Percent50,
        BatteryCare::Percent55,
        BatteryCare::Percent60,
        BatteryCare::Percent65,
        BatteryCare::Percent70,
        BatteryCare::Percent75,
        BatteryCare::Percent80,
        BatteryCare::Disable,
    ];
    for m in all {
        assert_eq!(BatteryCare::from_percent(m.to_percent()), Ok(m));
    }
}
