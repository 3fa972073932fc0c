use acpi_client::{
    determine_reporting_type, determine_time_to_state_change, get_battery_info,
    parse_state_from_str, AcpiClientError, BatteryInfo, ChargingState, DeviceDir, ReportType,
};

fn device(path: &str, files: &[(&str, &str)]) -> DeviceDir {
    let mut d = DeviceDir::new(String::from(path));
    for (name, contents) in files {
        d.add_file(String::from(*name), String::from(*contents));
    }
    d
}

fn coulomb_battery() -> DeviceDir {
    device(
        "/tmp/mock/BAT1",
        &[
            ("charge_full", "2000000\n"),
            ("charge_full_design", "2800000\n"),
            ("charge_now", "1000000\n"),
            ("current_now", "599000\n"),
            ("status", "Discharging\n"),
            ("type", "Battery\n"),
            ("voltage_now", "15045000\n"),
        ],
    )
}

#[test]
fn verify_mock_file_coulomb_parse() {
    let batteries = get_battery_info(&vec![coulomb_battery()]);
    assert!(batteries.is_ok());
    assert_eq!(batteries.unwrap().len(), 1);
}

#[test]
fn coulomb_battery_record() {
    let b = BatteryInfo::new(&coulomb_battery()).unwrap();
    assert_eq!(b.name, String::from("BAT1"));
    assert_eq!(b.remaining_capacity, 1000);
    assert_eq!(b.last_capacity, 2000);
    assert_eq!(b.design_capacity, 2800);
    assert_eq!(b.present_rate, 599);
    assert_eq!(b.voltage, 15045);
    assert_eq!(b.state, ChargingState::Discharging);
    assert_eq!(b.time_remaining, 1000 * 3600 / (599 + 1));
    assert_eq!(b.time_remaining, 6000);
    let percentage = (b.remaining_capacity as f32) * 100.0 / (b.last_capacity as f32);
    assert_eq!(percentage, 50.0);
}

#[test]
fn discharging_time_uses_rate_plus_one() {
    let d = device(
        "/p/BAT0",
        &[
            ("charge_full", "4000000"),
            ("charge_full_design", "4000000"),
            ("charge_now", "1234567"),
            ("current_now", "0"),
            ("status", "discharging"),
            ("voltage_now", "12000000"),
        ],
    );
    let b = BatteryInfo::new(&d).unwrap();
    assert_eq!(b.remaining_capacity, 1234);
    assert_eq!(b.present_rate, 0);
    assert_eq!(b.time_remaining, 1234 * 3600);
}

#[test]
fn charging_time_until_full() {
    let mut d = coulomb_battery();
    d.add_file(String::from("status"), String::from("Charging\n"));
    let b = BatteryInfo::new(&d).unwrap();
    assert_eq!(b.state, ChargingState::Charging);
    assert_eq!(b.time_remaining, (2000 - 1000) * 3600 / 600);
}

#[test]
fn full_battery_has_no_time_left() {
    let mut d = coulomb_battery();
    d.add_file(String::from("status"), String::from("FULL"));
    let b = BatteryInfo::new(&d).unwrap();
    assert_eq!(b.state, ChargingState::Full);
    assert_eq!(b.time_remaining, 0);
}

#[test]
fn time_to_state_change_values() {
    assert_eq!(determine_time_to_state_change(1000, 2000, 599, ChargingState::Discharging), 6000);
    assert_eq!(determine_time_to_state_change(1000, 2000, 599, ChargingState::Charging), 6000);
    assert_eq!(determine_time_to_state_change(1500, 2000, 0, ChargingState::Charging), 1_800_000);
    assert_eq!(determine_time_to_state_change(2100, 2000, 10, ChargingState::Charging), 0);
    assert_eq!(determine_time_to_state_change(1000, 2000, 599, ChargingState::Full), 0);
    assert_eq!(
        determine_time_to_state_change(u32::MAX, u32::MAX, u32::MAX, ChargingState::Discharging),
        3599
    );
}

#[test]
fn unrecognized_status_is_an_error() {
    let mut d = coulomb_battery();
    d.add_file(String::from("status"), String::from("Not charging\n"));
    assert_eq!(
        BatteryInfo::new(&d).unwrap_err(),
        AcpiClientError::InvalidInput(String::from("not charging"))
    );
}

#[test]
fn state_texts() {
    assert_eq!(parse_state_from_str(String::from("charging")), Ok(ChargingState::Charging));
    assert_eq!(parse_state_from_str(String::from("discharging")), Ok(ChargingState::Discharging));
    assert_eq!(parse_state_from_str(String::from("full")), Ok(ChargingState::Full));
    assert_eq!(
        parse_state_from_str(String::from("unknown")),
        Err(AcpiClientError::InvalidInput(String::from("unknown")))
    );
}

#[test]
fn all_six_files_pick_capacity() {
    let d = device(
        "/p/BAT0",
        &[
            ("charge_now", "1"),
            ("charge_full", "1"),
            ("charge_full_design", "1"),
            ("energy_now", "1"),
            ("energy_full", "1"),
            ("energy_full_design", "1"),
        ],
    );
    assert_eq!(determine_reporting_type(&d), Ok(ReportType::Capacity));
}

#[test]
fn energy_files_pick_energy() {
    let d = device(
        "/p/BAT0",
        &[("charge_now", "1"), ("energy_now", "1"), ("energy_full", "1"), ("energy_full_design", "1")],
    );
    assert_eq!(determine_reporting_type(&d), Ok(ReportType::Energy));
}

#[test]
fn partial_sets_have_no_convention() {
    let d = device("/p/BAT0", &[("charge_now", "1"), ("charge_full", "1"), ("energy_full", "1")]);
    assert_eq!(
        determine_reporting_type(&d),
        Err(AcpiClientError::InvalidInput(String::from("/p/BAT0")))
    );
    assert_eq!(
        BatteryInfo::new(&d).unwrap_err(),
        AcpiClientError::InvalidInput(String::from("/p/BAT0"))
    );
}

fn energy_battery() -> DeviceDir {
    device(
        "/p/BAT1",
        &[
            ("energy_now", "30000000"),
            ("energy_full", "45000000"),
            ("energy_full_design", "50000000"),
            ("current_now", "2000000"),
            ("status", "Discharging"),
            ("voltage_now", "15000000"),
        ],
    )
}

#[test]
fn energy_battery_divides_by_voltage() {
    let b = BatteryInfo::new(&energy_battery()).unwrap();
    assert_eq!(b.voltage, 15000);
    assert_eq!(b.remaining_capacity, 30000 / 15000);
    assert_eq!(b.last_capacity, 45000 / 15000);
    assert_eq!(b.design_capacity, 50000 / 15000);
    assert_eq!(b.present_rate, 2000);
    assert_eq!(b.time_remaining, 2 * 3600 / 2001);
}

#[test]
fn energy_battery_prefers_power_now() {
    let mut d = energy_battery();
    d.add_file(String::from("power_now"), String::from("7500000\n"));
    let b = BatteryInfo::new(&d).unwrap();
    assert_eq!(b.present_rate, 7500);
}

#[test]
fn energy_battery_falls_back_when_power_is_not_a_number() {
    let mut d = energy_battery();
    d.add_file(String::from("power_now"), String::from("n/a"));
    let b = BatteryInfo::new(&d).unwrap();
    assert_eq!(b.present_rate, 2000);
}

#[test]
fn energy_battery_zero_voltage_is_an_error() {
    let mut d = energy_battery();
    d.add_file(String::from("voltage_now"), String::from("999"));
    assert_eq!(
        BatteryInfo::new(&d).unwrap_err(),
        AcpiClientError::InvalidInput(String::from("voltage_now"))
    );
}

#[test]
fn non_numeric_counter_is_a_parse_error() {
    let mut d = coulomb_battery();
    d.add_file(String::from("charge_now"), String::from("lots\n"));
    assert_eq!(BatteryInfo::new(&d).unwrap_err(), AcpiClientError::Parse(String::from("lots")));
}

#[test]
fn negative_current_wraps_like_a_cast() {
    let mut d = coulomb_battery();
    d.add_file(String::from("current_now"), String::from("-1500"));
    let b = BatteryInfo::new(&d).unwrap();
    assert_eq!(b.present_rate, (-1i32) as u32);
}

#[test]
fn battery_query_needs_every_type() {
    let untyped = device("/p/ACAD", &[("online", "1")]);
    assert_eq!(
        get_battery_info(&vec![coulomb_battery(), untyped]).unwrap_err(),
        AcpiClientError::Io(String::from("type"))
    );
}

#[test]
fn battery_query_skips_adapters_and_broken_batteries() {
    let ac = device("/p/AC", &[("type", "Mains"), ("online", "1")]);
    let broken = device("/p/BAT9", &[("type", "BATTERY"), ("charge_now", "1")]);
    let batteries = get_battery_info(&vec![ac, coulomb_battery(), broken]).unwrap();
    assert_eq!(batteries.len(), 1);
    assert_eq!(batteries[0].name, String::from("BAT1"));
}
