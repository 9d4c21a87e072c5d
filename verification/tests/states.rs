use librazer::command::{CLASS_LIGHT, CLASS_PERF, CLASS_POWER, READ_FLAG, WRITE_FLAG};
use librazer::descriptor::{lookup_by_prefix, supported};
use librazer::error::Error;
use librazer::packet::{Packet, STATUS_SUCCESS};
use librazer::state::{
    fan_rpm_from_responses, fan_rpm_requests, next_state, DeviceState, FanSpeed, LightsMode,
    PerfMode, StateEvent, StateQuery, StateReader,
};
use librazer::types::{
    self, BatteryCare, CpuBoost, GpuBoost, LightsAlwaysOn, LogoMode,
};

fn base_state() -> DeviceState {
    DeviceState::default()
}

#[test]
fn default_state_values() {
    let s = base_state();
    assert_eq!(s.perf_mode, PerfMode::Performance);
    assert_eq!(s.fan_speed, FanSpeed::Auto);
    assert_eq!(s.battery_care, BatteryCare::Percent80);
    assert_eq!(
        s.lights_mode,
        LightsMode {
            logo_mode: LogoMode::Off,
            keyboard_brightness: 0,
            always_on: LightsAlwaysOn::Disable,
        }
    );
}

#[test]
fn perf_delta_enters_custom_mode_with_defaults() {
    let s = base_state();
    let moved = s.perf_delta(Some(CpuBoost::Undervolt), None);
    assert_eq!(moved.perf_mode, PerfMode::Custom(CpuBoost::Undervolt, GpuBoost::High));
    assert_eq!(moved.fan_speed, s.fan_speed);
    assert_eq!(moved.lights_mode, s.lights_mode);
    assert_eq!(moved.battery_care, s.battery_care);
}

#[test]
fn perf_delta_keeps_untouched_custom_steps() {
    let mut s = base_state();
    s.perf_mode = PerfMode::Custom(CpuBoost::Low, GpuBoost::Low);
    let moved = s.perf_delta(None, Some(GpuBoost::Medium));
    assert_eq!(moved.perf_mode, PerfMode::Custom(CpuBoost::Low, GpuBoost::Medium));
}

#[test]
fn perf_mode_cycle_walks_all_choices() {
    let mut s = base_state();
    s.perf_mode = PerfMode::Battery;
    let order = [
        PerfMode::Silent,
        PerfMode::Balanced,
        PerfMode::Performance,
        PerfMode::Hyperboost,
        PerfMode::Custom(CpuBoost::Boost, GpuBoost::High),
        PerfMode::Battery,
    ];
    for expected in order {
        s = s.get_next_perf_mode();
        assert_eq!(s.perf_mode, expected);
    }
}

#[test]
fn events_move_the_state() {
    let s = base_state();

    let t = next_state(&s, StateEvent::SelectPerf(types::PerfMode::Silent));
    assert_eq!(t.perf_mode, PerfMode::Silent);

    let t = next_state(&s, StateEvent::SelectPerf(types::PerfMode::Custom));
    assert_eq!(t.perf_mode, PerfMode::Custom(CpuBoost::Boost, GpuBoost::High));

    let t = next_state(&s, StateEvent::SelectGpuBoost(GpuBoost::Low));
    assert_eq!(t.perf_mode, PerfMode::Custom(CpuBoost::Boost, GpuBoost::Low));

    let t = next_state(&s, StateEvent::SelectFanRpm(3500));
    assert_eq!(t.fan_speed, FanSpeed::Manual(3500));
    let t = next_state(&t, StateEvent::SelectFanAuto);
    assert_eq!(t.fan_speed, FanSpeed::Auto);

    let t = next_state(&s, StateEvent::SelectLogoMode(LogoMode::Breathing));
    assert_eq!(t.lights_mode.logo_mode, LogoMode::Breathing);

    let t = next_state(&s, StateEvent::SelectBrightness(125));
    assert_eq!(t.lights_mode.keyboard_brightness, 125);
}

#[test]
fn toggling_lights_twice_is_identity() {
    let s = base_state();
    let once = next_state(&s, StateEvent::ToggleLightsAlwaysOn);
    assert_eq!(once.lights_mode.always_on, LightsAlwaysOn::Enable);
    let twice = next_state(&once, StateEvent::ToggleLightsAlwaysOn);
    assert_eq!(twice, s);
}

#[test]
fn toggling_battery_care_flips_between_ceiling_and_none() {
    let mut s = base_state();
    s.battery_care = BatteryCare::Percent50;
    let t = next_state(&s, StateEvent::ToggleBatteryCare);
    assert_eq!(t.battery_care, BatteryCare::Disable);
    let u = next_state(&t, StateEvent::ToggleBatteryCare);
    assert_eq!(u.battery_care, BatteryCare::Percent80);
}

#[test]
fn apply_refuses_a_restricted_mode_before_any_transport_work() {
    let registry = supported();
    let restricted = lookup_by_prefix(&registry, "RZ09-0406A").expect("known model");
    let s = base_state();  // performance mode, not in [Balanced, Custom]
    assert_eq!(
        librazer::state::apply_requests(&s, restricted).err(),
        Some(Error::UnsupportedForModel)
    );
}

#[test]
fn apply_builds_the_full_request_sequence() {
    let registry = supported();
    let unrestricted = lookup_by_prefix(&registry, "RZ09-0483T").expect("known model");
    let mut s = base_state();
    s.perf_mode = PerfMode::Custom(CpuBoost::Boost, GpuBoost::Medium);
    s.fan_speed = FanSpeed::Manual(3000);
    let v = librazer::state::apply_requests(&s, unrestricted).expect("allowed state");
    assert_eq!(v.len(), 10);

    // performance: mode, then the two boost steps
    assert_eq!((v[0].command_class, v[0].command_id), (CLASS_PERF, 0x02));
    assert_eq!(v[0].args[0], WRITE_FLAG);
    assert_eq!(v[0].args[2], types::PerfMode::Custom.code());
    assert_eq!((v[1].command_class, v[1].command_id), (CLASS_PERF, 0x07));
    assert_eq!(v[1].args[1], 0x01);
    assert_eq!(v[1].args[2], CpuBoost::Boost.code());
    assert_eq!(v[2].args[1], 0x02);
    assert_eq!(v[2].args[2], GpuBoost::Medium.code());

    // fans: manual mode, then one target per zone in hundreds
    assert_eq!((v[3].command_class, v[3].command_id), (CLASS_PERF, 0x02));
    assert_eq!(v[3].args[3], types::FanMode::Manual.code());
    assert_eq!((v[4].command_class, v[4].command_id), (CLASS_PERF, 0x01));
    assert_eq!((v[4].args[1], v[4].args[2]), (0x01, 30));
    assert_eq!((v[5].args[1], v[5].args[2]), (0x02, 30));

    // lighting and battery care
    assert_eq!(v[6].command_class, CLASS_LIGHT);
    assert_eq!(v[6].args[2], LogoMode::Off.code());
    assert_eq!(v[7].command_class, CLASS_LIGHT);
    assert_eq!(v[7].args[2], 0);
    assert_eq!(v[8].command_class, CLASS_LIGHT);
    assert_eq!(v[8].args[2], LightsAlwaysOn::Disable.code());
    assert_eq!(v[9].command_class, CLASS_POWER);
    assert_eq!(v[9].args[2], BatteryCare::Percent80.code());
}

#[test]
fn apply_of_a_simple_state_issues_six_requests() {
    let registry = supported();
    let restricted = lookup_by_prefix(&registry, "RZ09-0406A").expect("known model");
    let mut s = base_state();
    s.perf_mode = PerfMode::Balanced;
    let v = librazer::state::apply_requests(&s, restricted).expect("balanced is allowed");
    assert_eq!(v.len(), 6);
    assert_eq!(v[0].args[2], types::PerfMode::Balanced.code());
    assert_eq!(v[1].args[3], types::FanMode::Auto.code());
}

fn answer(q: StateQuery, a2: u8, a3: u8) -> Packet {
    let mut p = StateReader::query_request(q);
    p.status = STATUS_SUCCESS;
    p.args[0] = READ_FLAG;
    p.args[2] = a2;
    p.args[3] = a3;
    p
}

#[test]
fn state_reader_walks_the_custom_manual_path() {
    let mut r = StateReader::begin();

    assert_eq!(r.next_query(), Some(StateQuery::QueryPerfMode));
    let q = r.next_query().unwrap();
    // custom performance mode, manual fan control
    r.feed(q, &answer(q, types::PerfMode::Custom.code(), types::FanMode::Manual.code()))
        .unwrap();

    assert_eq!(r.next_query(), Some(StateQuery::QueryCpuBoost));
    r.feed(StateQuery::QueryCpuBoost, &answer(StateQuery::QueryCpuBoost, 3, 0)).unwrap();
    assert_eq!(r.next_query(), Some(StateQuery::QueryGpuBoost));
    r.feed(StateQuery::QueryGpuBoost, &answer(StateQuery::QueryGpuBoost, 2, 0)).unwrap();
    assert_eq!(r.next_query(), Some(StateQuery::QueryFanRpm));
    r.feed(StateQuery::QueryFanRpm, &answer(StateQuery::QueryFanRpm, 30, 0)).unwrap();
    assert_eq!(r.next_query(), Some(StateQuery::QueryLogoMode));
    r.feed(StateQuery::QueryLogoMode, &answer(StateQuery::QueryLogoMode, 2, 0)).unwrap();
    assert_eq!(r.next_query(), Some(StateQuery::QueryBrightness));
    r.feed(StateQuery::QueryBrightness, &answer(StateQuery::QueryBrightness, 128, 0)).unwrap();
    assert_eq!(r.next_query(), Some(StateQuery::QueryLightsAlwaysOn));
    r.feed(
        StateQuery::QueryLightsAlwaysOn,
        &answer(StateQuery::QueryLightsAlwaysOn, 0x03, 0),
    )
        .unwrap();
    assert_eq!(r.next_query(), Some(StateQuery::QueryBatteryCare));
    r.feed(StateQuery::QueryBatteryCare, &answer(StateQuery::QueryBatteryCare, 0xB2, 0)).unwrap();
    assert_eq!(r.next_query(), None);

    let s = r.finish();
    assert_eq!(s.perf_mode, PerfMode::Custom(CpuBoost::Boost, GpuBoost::High));
    assert_eq!(s.fan_speed, FanSpeed::Manual(3000));
    assert_eq!(
        s.lights_mode,
        LightsMode {
            logo_mode: LogoMode::Static,
            keyboard_brightness: 128,
            always_on: LightsAlwaysOn::Enable,
        }
    );
    assert_eq!(s.battery_care, BatteryCare::Percent50);
}

#[test]
fn state_reader_skips_detours_on_simple_states() {
    let mut r = StateReader::begin();
    let q = StateQuery::QueryPerfMode;
    r.feed(q, &answer(q, types::PerfMode::Balanced.code(), types::FanMode::Auto.code()))
        .unwrap();
    // no boost or fan-target queries for an automatic, non-custom state
    assert_eq!(r.next_query(), Some(StateQuery::QueryLogoMode));
}

#[test]
fn state_reader_propagates_invalid_hardware_bytes() {
    let mut r = StateReader::begin();
    let q = StateQuery::QueryPerfMode;
    let e = r.feed(q, &answer(q, 0x63, 0)).unwrap_err();
    assert!(matches!(e, Error::InvalidEnumValue { raw: 0x63, .. }));
    // the reader is unchanged and asks the same query again
    assert_eq!(r.next_query(), Some(StateQuery::QueryPerfMode));
}

#[test]
fn fan_snapshot_requests_and_assembly() {
    let (q1, q2) = fan_rpm_requests();
    assert_eq!((q1.command_class, q1.command_id), (CLASS_PERF, 0x04));
    assert_eq!(q1.args[1], 0x01);
    assert_eq!(q2.args[1], 0x02);

    let mut r1 = q1;
    r1.status = STATUS_SUCCESS;
    r1.args[2] = 0x0b;
    r1.args[3] = 0xb8;
    let mut r2 = q2;
    r2.status = STATUS_SUCCESS;
    r2.args[2] = 0x00;
    r2.args[3] = 0x64;
    let snap = fan_rpm_from_responses(&r1, &r2);
    assert_eq!(snap.fan1, 3000);
    assert_eq!(snap.fan2, 100);
}
