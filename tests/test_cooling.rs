use acpi_client::{get_cooling_device_info, AcpiClientError, CoolingDevice, CoolingStatus, DeviceDir};

fn device(path: &str, files: &[(&str, &str)]) -> DeviceDir {
    let mut d = DeviceDir::new(String::from(path));
    for (name, contents) in files {
        d.add_file(String::from(*name), String::from(*contents));
    }
    d
}

#[test]
fn cooling_device_record() {
    let d = device("/c/cooling_device3", &[("type", "Processor\n"), ("cur_state", "2\n"), ("max_state", "10\n")]);
    let c = CoolingDevice::new(&d).unwrap();
    assert_eq!(c.name, String::from("cooling_device3"));
    assert_eq!(c.device_type, String::from("Processor"));
    assert_eq!(c.state, Some(CoolingStatus { current_state: 2, max_state: 10 }));
}

#[test]
fn negative_level_has_no_state() {
    let d = device("/c/cooling_device1", &[("type", "Fan"), ("cur_state", "-1"), ("max_state", "3")]);
    assert_eq!(CoolingDevice::new(&d).unwrap().state, None);
}

#[test]
fn cooling_device_without_max_state_fails() {
    let d = device("/c/cooling_device1", &[("type", "Fan"), ("cur_state", "1")]);
    assert_eq!(CoolingDevice::new(&d).unwrap_err(), AcpiClientError::Io(String::from("max_state")));
}

#[test]
fn cooling_query_skips_zones() {
    let zone = device("/c/thermal_zone0", &[("temp", "1000"), ("type", "acpitz")]);
    let fan = device("/c/cooling_device0", &[("type", "Fan"), ("cur_state", "0"), ("max_state", "3")]);
    let devices = get_cooling_device_info(&vec![zone, fan]);
    assert_eq!(devices.len(), 1);
    assert_eq!(devices[0].name, String::from("cooling_device0"));
}
